//! The console protocol as a state machine.
//!
//! A driver shows [`Session::prompt`], stops if the session [is over](Stage::is_over), and
//! otherwise reads one line and hands it to [`Session::feed`].

use vstd::prelude::*;
use vstd::string::StringExecFns;
use crate::command::trimmed;
use crate::command::Command;
use crate::game::Game;
use crate::game::GameView;
use crate::hand::Hand;

verus! {

/// Where a session stands.
#[derive(Clone, Copy, Debug, PartialEq, Eq, Structural)]
pub enum Stage {
    /// The board was shown; the player to move is asked which hand gives.
    From,
    /// The giving hand is chosen; the player is asked which of the other player's hands takes.
    To(Hand),
    /// The board was shown and the winner named. Nothing more is read.
    Won,
    /// A player asked to leave. Nothing more is read.
    Quit,
}

impl Stage {
    /// No further input is taken.
    pub open spec fn over(self) -> bool {
        self is Won || self is Quit
    }

    /// Whether the driver stops here.
    pub fn is_over(self) -> (over: bool)
        ensures
            over == self.over(),
    {
        match self {
            Stage::Won | Stage::Quit => true,
            Stage::From | Stage::To(_) => false,
        }
    }
}

/// The mathematical content of a [`Session`].
pub struct SessionView {
    pub game: GameView,
    /// The giving hand, once it is chosen and until the taking hand is read.
    pub pending: Option<Hand>,
    pub quit: bool,
}

impl SessionView {
    /// A session that starts on `game`.
    pub open spec fn opening(game: GameView) -> SessionView {
        SessionView { game, pending: None, quit: false }
    }

    /// Where the session stands. With no hand pending, a decided game is won and an
    /// undecided one asks for the giving hand.
    pub open spec fn stage(self) -> Stage {
        if self.quit {
            Stage::Quit
        } else if let Some(from) = self.pending {
            Stage::To(from)
        } else if self.game.winner() is Some {
            Stage::Won
        } else {
            Stage::From
        }
    }

    /// The session after one command.
    ///
    /// Asked for the giving hand, a hand is remembered, a split is tried on the game, and
    /// anything unknown changes nothing. Asked for the taking hand, a hand completes the
    /// move, and anything else but `quit` drops the remembered hand. A session that is over
    /// stays as it is.
    pub open spec fn step(self, command: Command) -> SessionView {
        match self.stage() {
            Stage::From => match command {
                Command::Pick(from) => SessionView { pending: Some(from), ..self },
                Command::Split => SessionView { game: self.game.split(), ..self },
                Command::Quit => SessionView { quit: true, ..self },
                Command::Other => self,
            },
            Stage::To(from) => match command {
                Command::Pick(to) => SessionView {
                    game: self.game.act(from, to),
                    pending: None,
                    ..self
                },
                Command::Quit => SessionView { quit: true, ..self },
                Command::Split | Command::Other => SessionView { pending: None, ..self },
            },
            Stage::Won | Stage::Quit => self,
        }
    }

    /// What the driver prints at this stage: the board and `From: `, or `To: `, or the board
    /// and the line that names the winner, or nothing after `quit`.
    pub open spec fn prompt(self) -> Seq<char> {
        match self.stage() {
            Stage::From => self.game.render() + "From: \n"@,
            Stage::To(_) => "To: \n"@,
            Stage::Won => self.game.render() + self.game.winner()->0 + " is the winner\n"@,
            Stage::Quit => Seq::empty(),
        }
    }
}

/// A game in play at a console.
pub struct Session {
    game: Game,
    pending: Option<Hand>,
    quit: bool,
}

impl View for Session {
    type V = SessionView;

    closed spec fn view(&self) -> SessionView {
        SessionView { game: self.game@, pending: self.pending, quit: self.quit }
    }
}

impl Session {
    /// Starts a session on `game`.
    pub fn new(game: Game) -> (session: Session)
        ensures
            session@ == SessionView::opening(game@),
    {
        Session { game, pending: None, quit: false }
    }

    /// The game as it stands.
    pub fn game(&self) -> (game: &Game)
        ensures
            game@ == self@.game,
    {
        &self.game
    }

    /// Where the session stands.
    pub fn stage(&self) -> (stage: Stage)
        ensures
            stage == self@.stage(),
    {
        if self.quit {
            Stage::Quit
        } else if let Some(from) = self.pending {
            Stage::To(from)
        } else if self.game.get_winner().is_some() {
            Stage::Won
        } else {
            Stage::From
        }
    }

    /// Takes one command and returns the stage it leads to.
    pub fn apply(&mut self, command: Command) -> (stage: Stage)
        ensures
            final(self)@ == old(self)@.step(command),
            stage == final(self)@.stage(),
    {
        match self.stage() {
            Stage::From => match command {
                Command::Pick(from) => {
                    self.pending = Some(from);
                },
                Command::Split => {
                    self.game.split();
                },
                Command::Quit => {
                    self.quit = true;
                },
                Command::Other => {},
            },
            Stage::To(from) => match command {
                Command::Pick(to) => {
                    self.game.act(from, to);
                    self.pending = None;
                },
                Command::Quit => {
                    self.quit = true;
                },
                Command::Split | Command::Other => {
                    self.pending = None;
                },
            },
            Stage::Won | Stage::Quit => {},
        }
        self.stage()
    }

    /// Takes one line of input, read as [`Command::parse`] reads it, and returns the stage
    /// it leads to.
    pub fn feed(&mut self, line: &str) -> (stage: Stage)
        ensures
            final(self)@ == old(self)@.step(Command::of(trimmed(line@))),
            stage == final(self)@.stage(),
    {
        self.apply(Command::parse(line))
    }

    /// What the driver prints at this stage.
    pub fn prompt(&self) -> (text: String)
        ensures
            text@ == self@.prompt(),
    {
        if self.quit {
            String::new()
        } else if self.pending.is_some() {
            "To: \n".to_owned()
        } else {
            let mut text = self.game.render();
            match self.game.get_winner() {
                Some(name) => {
                    text.append(name.as_str());
                    text.append(" is the winner\n");
                },
                None => {
                    text.append("From: \n");
                },
            }
            text
        }
    }
}

} // verus!
