use vstd::prelude::*;
use shakmaty::fen::Fen;

verus! {

/// Whether `shakmaty::fen::Fen::from_ascii` accepts a text as position notation.
pub uninterp spec fn fen_accepted(notation: Seq<char>) -> bool;

/// Calls `shakmaty::fen::Fen::from_ascii` on the bytes of the text and tells whether it
/// returned a position. Which texts it accepts is named, not stated: `fen_accepted`.
#[verifier::external_body]
fn fen_parses(notation: &str) -> (accepted: bool)
    ensures
        accepted == fen_accepted(notation@),
{
    Fen::from_ascii(notation.as_bytes()).is_ok()
}

/// A board position in position notation that has been checked.
#[derive(Clone, PartialEq, Eq, Debug)]
pub struct Position {
    notation: String,
}

impl View for Position {
    type V = Seq<char>;

    closed spec fn view(&self) -> Seq<char> {
        self.notation@
    }
}

impl Position {
    /// Checks a text and makes a position of it; there is none where the text is not valid
    /// position notation.
    pub fn parse(notation: &str) -> (position: Option<Position>)
        ensures
            position is Some == fen_accepted(notation@),
            position matches Some(p) ==> p@ == notation@,
    {
        if fen_parses(notation) {
            Some(Position { notation: notation.to_owned() })
        } else {
            None
        }
    }

    /// The notation as it was given.
    pub fn notation(&self) -> (text: &str)
        ensures
            text@ == self@,
    {
        self.notation.as_str()
    }
}

} // verus!
