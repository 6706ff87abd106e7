//! A game between two players who move in turn.

use vstd::prelude::*;
use vstd::string::StringExecFns;
use crate::hand::Hand;
use crate::player::Player;
use crate::player::PlayerView;

verus! {

/// The mathematical content of a [`Game`].
pub struct GameView {
    pub players: Seq<PlayerView>,
    pub turn: nat,
}

impl GameView {
    /// Two well-formed players, and the turn names one of them.
    pub open spec fn wf(self) -> bool {
        &&& self.players.len() == 2
        &&& self.players[0].wf()
        &&& self.players[1].wf()
        &&& self.turn < 2
    }

    /// The index of the player who is not to move.
    pub open spec fn next_turn(self) -> nat {
        (self.turn + 1) % 2
    }

    /// The game after the player to move has given the whole count of the hand `from` to the
    /// other player's hand `to`. The turn passes.
    pub open spec fn act(self, from: Hand, to: Hand) -> GameView {
        let next = self.next_turn() as int;
        let points = self.players[self.turn as int].hand(from);
        GameView {
            players: self.players.update(next, self.players[next].add(to, points)),
            turn: self.next_turn(),
        }
    }

    /// The game after the player to move has tried to split. The turn passes only where the
    /// split is possible; otherwise nothing changes.
    pub open spec fn split(self) -> GameView {
        let current = self.turn as int;
        if self.players[current].can_split() {
            GameView {
                players: self.players.update(current, self.players[current].split()),
                turn: self.next_turn(),
            }
        } else {
            self
        }
    }

    /// The name of the player who still has fingers while the other has none.
    pub open spec fn winner(self) -> Option<Seq<char>> {
        if self.players[0].is_out() && !self.players[1].is_out() {
            Some(self.players[1].name)
        } else if self.players[1].is_out() && !self.players[0].is_out() {
            Some(self.players[0].name)
        } else {
            None
        }
    }

    /// The whole screen: the code that clears the terminal, then each player's block
    /// followed by three empty lines. The player to move is the one marked.
    pub open spec fn render(self) -> Seq<char> {
        "\x1B[2J\x1B[1;1H"@ + self.players[0].render(self.turn == 0) + "\n\n\n"@
            + self.players[1].render(self.turn == 1) + "\n\n\n"@
    }
}

/// A move always passes the turn to the other player, whatever count it carries, a count of
/// zero included; the player who moved is left as they were.
pub proof fn lemma_act_passes_turn(game: GameView, from: Hand, to: Hand)
    requires
        game.wf(),
    ensures
        game.act(from, to).turn == 1 - game.turn,
        game.act(from, to).players[game.turn as int] == game.players[game.turn as int],
        game.act(from, to).wf(),
{
}

/// A split that is done passes the turn to the other player; one that is not leaves the
/// turn, and the whole game, as it was.
pub proof fn lemma_split_passes_turn_when_done(game: GameView)
    requires
        game.wf(),
    ensures
        game.players[game.turn as int].can_split() ==> game.split().turn == 1 - game.turn,
        !game.players[game.turn as int].can_split() ==> game.split() == game,
        game.split().wf(),
{
}

/// Where exactly one player has two empty hands, the other player is the winner. Where
/// neither has, or both have, there is no winner.
pub proof fn lemma_winner(game: GameView)
    ensures
        game.players[0].is_out() && !game.players[1].is_out() ==> game.winner() == Some(
            game.players[1].name,
        ),
        game.players[1].is_out() && !game.players[0].is_out() ==> game.winner() == Some(
            game.players[0].name,
        ),
        game.players[0].is_out() == game.players[1].is_out() ==> game.winner() is None,
{
}

/// Two players and the index of the one to move.
pub struct Game {
    players: [Player; 2],
    turn: usize,
}

impl View for Game {
    type V = GameView;

    closed spec fn view(&self) -> GameView {
        GameView { players: seq![self.players[0]@, self.players[1]@], turn: self.turn as nat }
    }
}

impl Game {
    /// Holds of every game at all times: the turn names one of the two players.
    #[verifier::type_invariant]
    pub open spec fn inv(self) -> bool {
        self@.wf()
    }

    /// A game in which the first of `players` is to move.
    pub fn new(players: [Player; 2]) -> (game: Game)
        ensures
            game@ == (GameView { players: seq![players[0]@, players[1]@], turn: 0 }),
            game@.wf(),
    {
        let first = &players[0];
        let second = &players[1];
        proof {
            use_type_invariant(first);
            use_type_invariant(second);
        }
        Game { players, turn: 0 }
    }

    /// The index of the player to move.
    pub fn turn(&self) -> (turn: usize)
        ensures
            turn == self@.turn,
            turn < 2,
    {
        proof {
            use_type_invariant(self);
        }
        self.turn
    }

    /// Both players, in their fixed order.
    pub fn players(&self) -> (players: &[Player; 2])
        ensures
            self@.players == seq![players[0]@, players[1]@],
    {
        &self.players
    }

    /// The text that shows the game: see [`GameView::render`].
    pub fn render(&self) -> (screen: String)
        ensures
            screen@ == self@.render(),
    {
        let mut screen = String::new();
        screen.append("\x1B[2J\x1B[1;1H");
        screen.append(self.players[0].render(self.turn == 0).as_str());
        screen.append("\n\n\n");
        screen.append(self.players[1].render(self.turn == 1).as_str());
        screen.append("\n\n\n");
        assert(screen@ =~= self@.render());
        screen
    }

    /// The index of the player who is not to move.
    pub fn get_next_player(&self) -> (next: usize)
        ensures
            next == self@.next_turn(),
            next < 2,
    {
        proof {
            use_type_invariant(self);
        }
        (self.turn + 1) % self.players.len()
    }

    /// Passes the turn to the other player.
    pub fn set_next_player(&mut self)
        ensures
            final(self)@ == (GameView { turn: old(self)@.next_turn(), ..old(self)@ }),
            final(self)@.wf(),
    {
        proof {
            use_type_invariant(&*self);
        }
        self.turn = self.get_next_player();
    }

    /// The player to move gives the whole count of the hand `from` to the other player's hand
    /// `to`; then the turn passes.
    pub fn act(&mut self, from: Hand, to: Hand)
        ensures
            final(self)@ == old(self)@.act(from, to),
            final(self)@.wf(),
    {
        proof {
            use_type_invariant(&*self);
        }
        let next_player_index = self.get_next_player();
        let hands = self.players[self.turn].hands();
        let points_to_transfer = match from {
            Hand::Left => hands.0,
            Hand::Right => hands.1,
        };
        self.players[next_player_index].add(to, points_to_transfer);
        self.set_next_player();
        assert(self@.players =~= old(self)@.act(from, to).players);
    }

    /// The name of the player who still has fingers while the other has none, if there is one.
    pub fn get_winner(&self) -> (winner: Option<String>)
        ensures
            match winner {
                Some(name) => self@.winner() == Some(name@),
                None => self@.winner() is None,
            },
    {
        let first = self.players[0].hands();
        let second = self.players[1].hands();
        match (first, second) {
            ((0, 0), (l, r)) if l > 0 || r > 0 => Some(self.players[1].name().to_owned()),
            ((l, r), (0, 0)) if l > 0 || r > 0 => Some(self.players[0].name().to_owned()),
            ((_, _), (_, _)) => None,
        }
    }

    /// The player to move tries to split; the turn passes only if the split was done.
    pub fn split(&mut self)
        ensures
            final(self)@ == old(self)@.split(),
            final(self)@.wf(),
    {
        proof {
            use_type_invariant(&*self);
        }
        if self.players[self.turn].split() {
            self.set_next_player();
        }
        assert(self@.players =~= old(self)@.split().players);
    }
}

} // verus!
