//! The words a player may type.

use vstd::prelude::*;
use crate::hand::Hand;

verus! {

/// What a line of input asks for.
#[derive(Clone, Copy, Debug, PartialEq, Eq, Structural)]
pub enum Command {
    /// `l` or `r`: one of the two hands.
    Pick(Hand),
    /// `s` or `split`.
    Split,
    /// `quit`.
    Quit,
    /// Anything else.
    Other,
}

/// The line that `str::trim` makes of `line`: the same characters without the white space at
/// either end.
pub uninterp spec fn trimmed(line: Seq<char>) -> Seq<char>;

/// Calls `str::trim` of the standard library, which removes leading and trailing white space
/// as Unicode defines it. The contract gives that result the name [`trimmed`] and says no
/// more of it; it is believed, not proved.
#[verifier::external_body]
fn trim(line: &str) -> (token: &str)
    ensures
        token@ == trimmed(line@),
{
    line.trim()
}

/// Whether two strings hold the same characters. They are compared as owned strings, whose
/// equality vstd specifies; that of string slices it does not.
fn same_text(a: &str, b: &str) -> (same: bool)
    ensures
        same == (a@ == b@),
{
    a.to_owned() == b.to_owned()
}

impl Command {
    /// The meaning of a word. Words are case-sensitive, and must match exactly.
    pub open spec fn of(token: Seq<char>) -> Command {
        if token == "l"@ {
            Command::Pick(Hand::Left)
        } else if token == "r"@ {
            Command::Pick(Hand::Right)
        } else if token == "s"@ || token == "split"@ {
            Command::Split
        } else if token == "quit"@ {
            Command::Quit
        } else {
            Command::Other
        }
    }

    /// Reads a word that has no white space around it.
    pub fn from_token(token: &str) -> (command: Command)
        ensures
            command == Command::of(token@),
    {
        if same_text(token, "l") {
            Command::Pick(Hand::Left)
        } else if same_text(token, "r") {
            Command::Pick(Hand::Right)
        } else if same_text(token, "s") || same_text(token, "split") {
            Command::Split
        } else if same_text(token, "quit") {
            Command::Quit
        } else {
            Command::Other
        }
    }

    /// Reads a line of input: the word that is left of it once the white space at both ends
    /// is removed.
    pub fn parse(line: &str) -> (command: Command)
        ensures
            command == Command::of(trimmed(line@)),
    {
        Command::from_token(trim(line))
    }
}

} // verus!
