use vstd::prelude::*;

verus! {

/// A violation of the engine protocol. Every one of them ends the run.
#[derive(Clone, Copy, PartialEq, Eq, Structural, Debug)]
pub enum ProtocolError {
    /// A progress line carries no candidate-line number.
    MissingRank,
    /// A progress line carries no centipawn score.
    MissingScore,
    /// A progress line carries no move.
    MissingMove,
    /// A diagnostic string that does not start with the accepted prefix.
    UnexpectedDiagnostic,
    /// A candidate-line number outside `1..=LINES_PER_POSITION`.
    RankOutOfRange,
    /// A square whose file is not `a..h` or whose rank is not `1..8`.
    InvalidSquare,
    /// A promotion letter that names no piece.
    InvalidPromotion,
    /// A progress line with a depth field too large for the parser.
    FieldOutOfRange,
    /// The engine's output ended before the search was concluded.
    UnexpectedEof,
}

/// Why a batch could not be evaluated.
#[derive(Clone, Copy, PartialEq, Eq, Structural, Debug)]
pub enum DriverError {
    /// The position at `index` is not valid position notation.
    InvalidPosition { index: usize },
    /// The engine broke the protocol while the position at `index` was searched.
    Protocol { index: usize, error: ProtocolError },
}

} // verus!
