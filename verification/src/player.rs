//! One player: a name and two finger counts kept below five.

use vstd::prelude::*;
use vstd::string::StringExecFns;
use crate::hand::Hand;
use crate::text::decimal;
use crate::text::decimal_digits;

verus! {

/// Finger counts wrap around at this value: a hand that reaches it is empty again.
pub const FINGERS: u32 = 5;

/// The mathematical content of a [`Player`].
pub struct PlayerView {
    pub name: Seq<char>,
    pub left: nat,
    pub right: nat,
}

impl PlayerView {
    /// Both counts are below [`FINGERS`].
    pub open spec fn wf(self) -> bool {
        self.left < FINGERS && self.right < FINGERS
    }

    /// The count on the given hand.
    pub open spec fn hand(self, hand: Hand) -> nat {
        match hand {
            Hand::Left => self.left,
            Hand::Right => self.right,
        }
    }

    /// A fresh player: one finger on each hand.
    pub open spec fn fresh(name: Seq<char>) -> PlayerView {
        PlayerView { name, left: 1, right: 1 }
    }

    /// The player with `value` fingers added to `hand`, counted modulo [`FINGERS`].
    pub open spec fn add(self, hand: Hand, value: nat) -> PlayerView {
        match hand {
            Hand::Left => PlayerView { left: (self.left + value) % (FINGERS as nat), ..self },
            Hand::Right => PlayerView { right: (self.right + value) % (FINGERS as nat), ..self },
        }
    }

    /// The player after a run of additions, each a hand and a value, taken first to last.
    pub open spec fn add_all(self, additions: Seq<(Hand, nat)>) -> PlayerView
        decreases additions.len(),
    {
        if additions.len() == 0 {
            self
        } else {
            let last = additions.last();
            self.add_all(additions.drop_last()).add(last.0, last.1)
        }
    }

    /// Both hands are empty: the player is out of the game.
    pub open spec fn is_out(self) -> bool {
        self.left == 0 && self.right == 0
    }

    /// Exactly one hand is empty and the other holds a positive even count.
    pub open spec fn can_split(self) -> bool {
        ||| self.left == 0 && self.right > 0 && self.right % 2 == 0
        ||| self.right == 0 && self.left > 0 && self.left % 2 == 0
    }

    /// The player after a split attempt: the live hand is shared evenly between both hands
    /// where a split is possible, and nothing changes where it is not.
    pub open spec fn split(self) -> PlayerView {
        if self.can_split() {
            let half = (self.left + self.right) / 2;
            PlayerView { left: half, right: half, ..self }
        } else {
            self
        }
    }

    /// The first line of the player's block: the name, and a mark that is `x` where it is
    /// this player's turn and a blank where it is not.
    pub open spec fn header_line(self, is_turn: bool) -> Seq<char> {
        "----- "@ + self.name + " ("@ + (if is_turn {
            "x"@
        } else {
            " "@
        }) + ") -----"@
    }

    /// The second line of the player's block: both counts.
    pub open spec fn hands_line(self) -> Seq<char> {
        "L: "@ + decimal_digits(self.left) + "    R: "@ + decimal_digits(self.right)
    }

    /// The player's block: both lines, each ended by a line feed.
    pub open spec fn render(self, is_turn: bool) -> Seq<char> {
        self.header_line(is_turn) + "\n"@ + self.hands_line() + "\n"@
    }
}

/// An addition sets the hand it names to the sum of its count and the added value, reduced
/// modulo [`FINGERS`], whatever the size of the value. The other hand and the name stay as
/// they are.
pub proof fn lemma_add_sets_one_hand(player: PlayerView, hand: Hand, value: nat)
    ensures
        player.add(hand, value).hand(hand) == (player.hand(hand) + value) % (FINGERS as nat),
        player.add(hand, value).hand(hand) < FINGERS,
        forall|other: Hand| other != hand ==> player.add(hand, value).hand(other) == player.hand(other),
        player.add(hand, value).name == player.name,
{
}

/// However many additions are made to a player whose counts are below [`FINGERS`], and
/// whatever they add, both counts stay below [`FINGERS`].
pub proof fn lemma_add_all_keeps_range(player: PlayerView, additions: Seq<(Hand, nat)>)
    requires
        player.wf(),
    ensures
        player.add_all(additions).wf(),
        player.add_all(additions).name == player.name,
    decreases additions.len(),
{
    if additions.len() > 0 {
        lemma_add_all_keeps_range(player, additions.drop_last());
    }
}

/// A player with two empty hands cannot split, and the attempt changes nothing.
pub proof fn lemma_split_with_empty_hands(player: PlayerView)
    requires
        player.left == 0,
        player.right == 0,
    ensures
        !player.can_split(),
        player.split() == player,
{
}

/// A player whose hands hold nothing and `count`, in either order, can split if and only if
/// `count` is positive and even; both hands then hold half of it. Otherwise the attempt
/// changes nothing.
pub proof fn lemma_split_with_one_empty_hand(player: PlayerView, count: nat)
    requires
        (player.left == 0 && player.right == count) || (player.left == count && player.right == 0),
    ensures
        player.can_split() <==> count > 0 && count % 2 == 0,
        player.can_split() ==> player.split() == (PlayerView {
            left: count / 2,
            right: count / 2,
            ..player
        }),
        !player.can_split() ==> player.split() == player,
{
}

/// A player with fingers on both hands cannot split, whether the counts are even or odd,
/// and the attempt changes nothing.
pub proof fn lemma_split_with_two_live_hands(player: PlayerView)
    requires
        player.left > 0,
        player.right > 0,
    ensures
        !player.can_split(),
        player.split() == player,
{
}

/// A split keeps both counts below [`FINGERS`] and never empties or fills a player: who was
/// out stays out, and who was not is not.
pub proof fn lemma_split_keeps_range(player: PlayerView)
    requires
        player.wf(),
    ensures
        player.split().wf(),
        player.split().is_out() == player.is_out(),
        player.split().name == player.name,
{
}

/// A player of the game.
pub struct Player {
    name: String,
    hands: (u32, u32),
}

impl View for Player {
    type V = PlayerView;

    closed spec fn view(&self) -> PlayerView {
        PlayerView { name: self.name@, left: self.hands.0 as nat, right: self.hands.1 as nat }
    }
}

impl Player {
    /// Holds of every player at all times: both counts are below [`FINGERS`].
    #[verifier::type_invariant]
    pub open spec fn inv(self) -> bool {
        self@.wf()
    }

    /// The player's name.
    pub fn name(&self) -> (name: &str)
        ensures
            name@ == self@.name,
    {
        self.name.as_str()
    }

    /// The counts on the left and on the right hand.
    pub fn hands(&self) -> (hands: (u32, u32))
        ensures
            hands.0 == self@.left,
            hands.1 == self@.right,
            self@.wf(),
    {
        proof {
            use_type_invariant(self);
        }
        self.hands
    }

    /// A fresh player with one finger on each hand.
    pub fn new(name: String) -> (player: Player)
        ensures
            player@ == PlayerView::fresh(name@),
            player@.wf(),
    {
        Player { name, hands: (1, 1) }
    }

    /// Reduces a count modulo [`FINGERS`].
    pub fn safe_value(&self, value: u32) -> (reduced: u32)
        ensures
            reduced == value % FINGERS,
        no_unwind
    {
        value % FINGERS
    }

    /// Adds `value` fingers to `hand`, wrapping around at [`FINGERS`]. The other hand and the
    /// name stay as they are.
    pub fn add(&mut self, hand: Hand, value: u32)
        ensures
            final(self)@ == old(self)@.add(hand, value as nat),
            final(self)@.wf(),
        no_unwind
    {
        proof {
            use_type_invariant(&*self);
        }
        let (left, right) = self.hands;
        let reduced = self.safe_value(value);
        assert((left + reduced) % (FINGERS as int) == (left + value) % (FINGERS as int));
        assert((right + reduced) % (FINGERS as int) == (right + value) % (FINGERS as int));
        match hand {
            Hand::Left => {
                self.hands.0 = self.safe_value(left + reduced);
            },
            Hand::Right => {
                self.hands.1 = self.safe_value(right + reduced);
            },
        }
    }

    /// The text that shows this player: a header line and a line with both counts.
    pub fn render(&self, is_turn: bool) -> (block: String)
        ensures
            block@ == self@.render(is_turn),
    {
        let mut block = String::new();
        block.append("----- ");
        block.append(self.name.as_str());
        block.append(" (");
        block.append(if is_turn { "x" } else { " " });
        block.append(") -----");
        assert(block@ =~= self@.header_line(is_turn));
        block.append("\n");
        block.append("L: ");
        block.append(decimal(self.hands.0).as_str());
        block.append("    R: ");
        block.append(decimal(self.hands.1).as_str());
        block.append("\n");
        assert(block@ =~= self@.render(is_turn));
        block
    }

    /// Tries to share the one live hand evenly between both hands. Returns whether it did.
    pub fn split(&mut self) -> (done: bool)
        ensures
            done == old(self)@.can_split(),
            final(self)@ == old(self)@.split(),
            final(self)@.wf(),
        no_unwind
    {
        proof {
            use_type_invariant(&*self);
        }
        let live: Option<u32> = match self.hands {
            (0, 0) => None,
            (0, value) if value % 2 == 0 => Some(value),
            (value, 0) if value % 2 == 0 => Some(value),
            (_, _) => None,
        };
        match live {
            Some(value) => {
                let half = value / 2;
                self.hands = (half, half);
                true
            },
            None => false,
        }
    }
}

} // verus!
