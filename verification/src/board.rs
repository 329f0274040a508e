use vstd::prelude::*;
use crate::error::ProtocolError;
use shakmaty::uci::Uci;
use shakmaty::{File, Rank, Role, Square};

verus! {

/// A square as the engine writes it: a file letter and a rank number, unchecked.
#[derive(Clone, Copy, PartialEq, Eq, Structural, Debug)]
pub struct WireSquare {
    pub file: char,
    pub rank: u8,
}

/// A move in coordinate notation as the engine writes it. `promotion` is `None` without a
/// promotion, `Some(None)` for a promotion to a piece that has no letter, and `Some(Some(c))`
/// for a promotion written with the letter `c`.
#[derive(Clone, Copy, PartialEq, Eq, Structural, Debug)]
pub struct WireMove {
    pub from: WireSquare,
    pub to: WireSquare,
    pub promotion: Option<Option<char>>,
}

/// A piece type.
#[derive(Clone, Copy, PartialEq, Eq, Structural, Debug)]
pub enum PieceKind {
    Pawn,
    Knight,
    Bishop,
    Rook,
    Queen,
    King,
}

/// A square of the board: `file` counts from the a-file, `rank` from the first rank.
#[derive(Clone, Copy, PartialEq, Eq, Structural, Debug)]
pub struct BoardSquare {
    pub file: u8,
    pub rank: u8,
}

/// A decoded move: origin, destination and the piece promoted to, if any.
#[derive(Clone, Copy, PartialEq, Eq, Structural, Debug)]
pub struct BoardMove {
    pub from: BoardSquare,
    pub to: BoardSquare,
    pub promotion: Option<PieceKind>,
}

impl BoardSquare {
    /// Both coordinates lie on the board.
    pub open spec fn wf(self) -> bool {
        self.file < 8 && self.rank < 8
    }
}

impl BoardMove {
    /// Both squares lie on the board.
    pub open spec fn wf(self) -> bool {
        self.from.wf() && self.to.wf()
    }
}

/// The file that a letter names: `a` is 0 and `h` is 7; other characters name none.
pub open spec fn file_of_letter(ch: char) -> Option<u8> {
    if 'a' <= ch && ch <= 'h' {
        Some((ch as u8 - 'a' as u8) as u8)
    } else {
        None
    }
}

/// The rank at a position of the list of ranks, first to eighth.
pub open spec fn rank_of_index(index: int) -> Option<u8> {
    if 0 <= index < 8 {
        Some(index as u8)
    } else {
        None
    }
}

/// The piece that an English letter names, in either case.
pub open spec fn piece_of_letter(ch: char) -> Option<PieceKind> {
    if ch == 'P' || ch == 'p' {
        Some(PieceKind::Pawn)
    } else if ch == 'N' || ch == 'n' {
        Some(PieceKind::Knight)
    } else if ch == 'B' || ch == 'b' {
        Some(PieceKind::Bishop)
    } else if ch == 'R' || ch == 'r' {
        Some(PieceKind::Rook)
    } else if ch == 'Q' || ch == 'q' {
        Some(PieceKind::Queen)
    } else if ch == 'K' || ch == 'k' {
        Some(PieceKind::King)
    } else {
        None
    }
}

/// The square that a written square decodes to, if its file is `a..h` and its rank `1..8`.
pub open spec fn decode_square(square: WireSquare) -> Option<BoardSquare> {
    match (file_of_letter(square.file), rank_of_index(square.rank as int - 1)) {
        (Some(file), Some(rank)) => Some(BoardSquare { file, rank }),
        _ => None,
    }
}

/// The letter a promotion is decoded from: a piece without a letter counts as `p`.
pub open spec fn promotion_letter(promotion: Option<char>) -> char {
    match promotion {
        Some(ch) => ch,
        None => 'p',
    }
}

/// What a written move decodes to. The origin is examined first, then the destination, then
/// the promotion.
pub open spec fn decode_move(mv: WireMove) -> Result<BoardMove, ProtocolError> {
    match (decode_square(mv.from), decode_square(mv.to)) {
        (Some(from), Some(to)) => match mv.promotion {
            None => Ok(BoardMove { from, to, promotion: None }),
            Some(p) => match piece_of_letter(promotion_letter(p)) {
                Some(kind) => Ok(BoardMove { from, to, promotion: Some(kind) }),
                None => Err(ProtocolError::InvalidPromotion),
            },
        },
        _ => Err(ProtocolError::InvalidSquare),
    }
}

/// Calls `shakmaty::File::from_char` and gives the file as its index. The contract repeats
/// what that function does: the letters `a` to `h` give the files 0 to 7, anything else none.
#[verifier::external_body]
fn file_from_char(ch: char) -> (file: Option<u8>)
    ensures
        file == file_of_letter(ch),
{
    File::from_char(ch).map(u8::from)
}

/// Looks an index up in `Rank::ALL` and gives the rank found as its index. The
/// list holds the eight ranks in order, so the indices below 8 give themselves.
#[verifier::external_body]
fn rank_at(index: usize) -> (rank: Option<u8>)
    ensures
        rank == rank_of_index(index as int),
{
    Rank::ALL.get(index).map(|r| u8::from(*r))
}

/// Calls `Role::from_char`. The contract repeats its table: the letters
/// `p n b r q k`, in either case, name the six pieces, and no other character names one.
#[verifier::external_body]
fn role_from_char(ch: char) -> (kind: Option<PieceKind>)
    ensures
        kind == piece_of_letter(ch),
{
    match Role::from_char(ch) {
        Some(Role::Pawn) => Some(PieceKind::Pawn),
        Some(Role::Knight) => Some(PieceKind::Knight),
        Some(Role::Bishop) => Some(PieceKind::Bishop),
        Some(Role::Rook) => Some(PieceKind::Rook),
        Some(Role::Queen) => Some(PieceKind::Queen),
        Some(Role::King) => Some(PieceKind::King),
        None => None,
    }
}

/// The letter of a file.
pub open spec fn file_letter(file: u8) -> char {
    (('a' as u8 + file) as u8) as char
}

/// The digit of a rank.
pub open spec fn rank_digit(rank: u8) -> char {
    (('1' as u8 + rank) as u8) as char
}

/// The small letter of a piece.
pub open spec fn piece_letter(kind: PieceKind) -> char {
    match kind {
        PieceKind::Pawn => 'p',
        PieceKind::Knight => 'n',
        PieceKind::Bishop => 'b',
        PieceKind::Rook => 'r',
        PieceKind::Queen => 'q',
        PieceKind::King => 'k',
    }
}

/// A square in coordinate notation: the letter of its file, then the digit of its rank.
pub open spec fn square_text(square: BoardSquare) -> Seq<char> {
    seq![file_letter(square.file), rank_digit(square.rank)]
}

/// A move in coordinate notation: origin, destination, and the letter of the promotion
/// piece where there is one.
pub open spec fn move_text(mv: BoardMove) -> Seq<char> {
    square_text(mv.from) + square_text(mv.to) + match mv.promotion {
        Some(kind) => seq![piece_letter(kind)],
        None => Seq::empty(),
    }
}

/// Builds the `shakmaty::uci::Uci::Normal` move over the two squares and calls its
/// `to_string`. The contract repeats what that writes: both squares as file letter and rank
/// digit, then the small letter of the promotion piece if there is one. The squares are made
/// with `File::new` and `Rank::new`, which stop the program on an index above 7: `requires`
/// leaves those out.
#[verifier::external_body]
fn uci_text(mv: &BoardMove) -> (text: String)
    requires
        mv.wf(),
    ensures
        text@ == move_text(*mv),
{
    let promotion = mv.promotion.map(|kind| match kind {
        PieceKind::Pawn => Role::Pawn,
        PieceKind::Knight => Role::Knight,
        PieceKind::Bishop => Role::Bishop,
        PieceKind::Rook => Role::Rook,
        PieceKind::Queen => Role::Queen,
        PieceKind::King => Role::King,
    });
    let from = Square::from_coords(File::new(mv.from.file as u32), Rank::new(mv.from.rank as u32));
    let to = Square::from_coords(File::new(mv.to.file as u32), Rank::new(mv.to.rank as u32));
    Uci::Normal { from, to, promotion }.to_string()
}

impl BoardMove {
    /// The move in coordinate notation.
    pub fn notation(&self) -> (text: String)
        requires
            self.wf(),
        ensures
            text@ == move_text(*self),
    {
        uci_text(self)
    }
}

/// Decodes one written square.
pub fn convert_square(square: &WireSquare) -> (decoded: Option<BoardSquare>)
    ensures
        decoded == decode_square(*square),
        decoded matches Some(sq) ==> sq.wf(),
{
    let file = file_from_char(square.file);
    if square.rank == 0 {
        return None;
    }
    let rank = rank_at((square.rank - 1) as usize);
    match (file, rank) {
        (Some(file), Some(rank)) => Some(BoardSquare { file, rank }),
        _ => None,
    }
}

/// Decodes a move written by the engine into board squares and a promotion piece.
pub fn vampirc_to_shakmaty(uci_move: &WireMove) -> (decoded: Result<BoardMove, ProtocolError>)
    ensures
        decoded == decode_move(*uci_move),
        decoded matches Ok(mv) ==> mv.wf(),
{
    let from = match convert_square(&uci_move.from) {
        Some(sq) => sq,
        None => return Err(ProtocolError::InvalidSquare),
    };
    let to = match convert_square(&uci_move.to) {
        Some(sq) => sq,
        None => return Err(ProtocolError::InvalidSquare),
    };
    match uci_move.promotion {
        None => Ok(BoardMove { from, to, promotion: None }),
        Some(p) => {
            let letter = match p {
                Some(ch) => ch,
                None => 'p',
            };
            match role_from_char(letter) {
                Some(kind) => Ok(BoardMove { from, to, promotion: Some(kind) }),
                None => Err(ProtocolError::InvalidPromotion),
            }
        },
    }
}

} // verus!
