use vstd::prelude::*;
use crate::board::{decode_move, vampirc_to_shakmaty, BoardMove};
use crate::error::ProtocolError;
use crate::text::has_prefix;
use crate::wire::{attribute_views, InfoAttribute, InfoAttributeView};

verus! {

/// One report of the engine about one candidate line: its number, its score in centipawns
/// and the first move of the line.
#[derive(Clone, Copy, PartialEq, Eq, Structural, Debug)]
pub struct RawVariation {
    pub variation_number: u16,
    pub cp: i32,
    pub uci_move: BoardMove,
}

impl RawVariation {
    /// The move lies on the board.
    pub open spec fn wf(self) -> bool {
        self.uci_move.wf()
    }
}

/// The fields of a progress line that have been seen so far.
#[derive(Clone, Copy, PartialEq, Eq, Structural, Debug)]
pub struct Gathered {
    pub rank: Option<u16>,
    pub cp: Option<i32>,
    pub first_move: Option<BoardMove>,
}

/// Where the reading of a progress line stands.
#[derive(Clone, Copy, PartialEq, Eq, Structural, Debug)]
pub enum Scan {
    /// Fields are still being gathered.
    Gathering(Gathered),
    /// An accepted diagnostic was met: the line yields no report.
    Diagnostic,
    /// A field broke the protocol.
    Failed(ProtocolError),
}

/// The text with which an accepted diagnostic starts.
pub open spec fn benign_prefix() -> Seq<char> {
    "NNUE"@
}

/// Nothing seen yet.
pub open spec fn nothing_gathered() -> Gathered {
    Gathered { rank: None, cp: None, first_move: None }
}

/// The reading after one more field. A later number, score or line replaces an earlier one.
/// A score without centipawns, a line without moves, a move that cannot be decoded and a
/// diagnostic end the reading; afterwards nothing changes it.
pub open spec fn scan_step(state: Scan, attribute: InfoAttributeView) -> Scan {
    match state {
        Scan::Gathering(seen) => match attribute {
            InfoAttributeView::MultiPv(n) => Scan::Gathering(Gathered { rank: Some(n), ..seen }),
            InfoAttributeView::Score(Some(cp)) => Scan::Gathering(Gathered { cp: Some(cp), ..seen }),
            InfoAttributeView::Score(None) => Scan::Failed(ProtocolError::MissingScore),
            InfoAttributeView::Pv(moves) => if moves.len() == 0 {
                Scan::Failed(ProtocolError::MissingMove)
            } else {
                match decode_move(moves[0]) {
                    Ok(mv) => Scan::Gathering(Gathered { first_move: Some(mv), ..seen }),
                    Err(error) => Scan::Failed(error),
                }
            },
            InfoAttributeView::Text(text) => if benign_prefix().is_prefix_of(text) {
                Scan::Diagnostic
            } else {
                Scan::Failed(ProtocolError::UnexpectedDiagnostic)
            },
            InfoAttributeView::Other => state,
        },
        _ => state,
    }
}

/// The reading after all fields of a line, taken in the order written.
pub open spec fn scan(attributes: Seq<InfoAttributeView>) -> Scan
    decreases attributes.len(),
{
    if attributes.len() == 0 {
        Scan::Gathering(nothing_gathered())
    } else {
        scan_step(scan(attributes.drop_last()), attributes.last())
    }
}

/// The report that gathered fields make: all three are required, and the first one missing,
/// in the order number, score, move, names the violation.
pub open spec fn complete(seen: Gathered) -> Result<Option<RawVariation>, ProtocolError> {
    match (seen.rank, seen.cp, seen.first_move) {
        (None, _, _) => Err(ProtocolError::MissingRank),
        (Some(_), None, _) => Err(ProtocolError::MissingScore),
        (Some(_), Some(_), None) => Err(ProtocolError::MissingMove),
        (Some(variation_number), Some(cp), Some(uci_move)) => Ok(
            Some(RawVariation { variation_number, cp, uci_move }),
        ),
    }
}

/// What a progress line with these fields reports: a candidate line, nothing (a diagnostic),
/// or a protocol violation.
pub open spec fn report_of(attributes: Seq<InfoAttributeView>) -> Result<Option<RawVariation>, ProtocolError> {
    match scan(attributes) {
        Scan::Gathering(seen) => complete(seen),
        Scan::Diagnostic => Ok(None),
        Scan::Failed(error) => Err(error),
    }
}

/// Once the reading has ended, further fields do not change it.
pub proof fn lemma_scan_settled(attributes: Seq<InfoAttributeView>, upto: int)
    requires
        0 <= upto <= attributes.len(),
        !(scan(attributes.take(upto)) is Gathering),
    ensures
        scan(attributes) == scan(attributes.take(upto)),
    decreases attributes.len() - upto,
{
    if upto == attributes.len() {
        assert(attributes.take(upto) == attributes);
    } else {
        assert(attributes.take(upto + 1).drop_last() == attributes.take(upto));
        lemma_scan_settled(attributes, upto + 1);
    }
}

/// The move of a report lies on the board.
pub proof fn lemma_report_on_board(attributes: Seq<InfoAttributeView>)
    ensures
        report_of(attributes) matches Ok(Some(variation)) ==> variation.wf(),
{
    lemma_scan_on_board(attributes);
}

proof fn lemma_scan_on_board(attributes: Seq<InfoAttributeView>)
    ensures
        scan(attributes) matches Scan::Gathering(seen) ==> (seen.first_move matches Some(mv)
            ==> mv.wf()),
    decreases attributes.len(),
{
    if attributes.len() > 0 {
        lemma_scan_on_board(attributes.drop_last());
    }
}

/// Folds the fields of one progress line into a report.
pub fn attributes_to_eval(attributes: &[InfoAttribute]) -> (eval: Result<Option<RawVariation>, ProtocolError>)
    ensures
        eval == report_of(attribute_views(attributes@)),
        eval matches Ok(Some(variation)) ==> variation.wf(),
{
    let ghost views = attribute_views(attributes@);
    let mut seen = Gathered { rank: None, cp: None, first_move: None };
    let mut i: usize = 0;
    while i < attributes.len()
        invariant
            views == attribute_views(attributes@),
            i <= attributes@.len(),
            scan(views.take(i as int)) == Scan::Gathering(seen),
            seen.first_move matches Some(mv) ==> mv.wf(),
        decreases attributes@.len() - i,
    {
        proof {
            assert(views.take(i + 1).drop_last() == views.take(i as int));
            assert(views.take(i + 1).last() == attributes@[i as int]@);
        }
        let ghost before = Scan::Gathering(seen);
        let mut ended: Option<Result<Option<RawVariation>, ProtocolError>> = None;
        match &attributes[i] {
            InfoAttribute::MultiPv(n) => {
                seen.rank = Some(*n);
            },
            InfoAttribute::Score(score) => {
                match score {
                    Some(cp) => {
                        seen.cp = Some(*cp);
                    },
                    None => {
                        ended = Some(Err(ProtocolError::MissingScore));
                    },
                }
            },
            InfoAttribute::Pv(moves) => {
                if moves.len() == 0 {
                    ended = Some(Err(ProtocolError::MissingMove));
                } else {
                    match vampirc_to_shakmaty(&moves[0]) {
                        Ok(mv) => {
                            seen.first_move = Some(mv);
                        },
                        Err(error) => {
                            ended = Some(Err(error));
                        },
                    }
                }
            },
            InfoAttribute::Text(text) => {
                if has_prefix(text.as_str(), "NNUE") {
                    ended = Some(Ok(None));
                } else {
                    ended = Some(Err(ProtocolError::UnexpectedDiagnostic));
                }
            },
            InfoAttribute::Other => {},
        }
        if let Some(outcome) = ended {
            proof {
                assert(!(scan(views.take(i + 1)) is Gathering));
                lemma_scan_settled(views, i + 1);
            }
            return outcome;
        }
        i = i + 1;
    }
    proof {
        assert(views.take(i as int) == views);
    }
    match (seen.rank, seen.cp, seen.first_move) {
        (None, _, _) => Err(ProtocolError::MissingRank),
        (Some(_), None, _) => Err(ProtocolError::MissingScore),
        (Some(_), Some(_), None) => Err(ProtocolError::MissingMove),
        (Some(variation_number), Some(cp), Some(uci_move)) => Ok(
            Some(RawVariation { variation_number, cp, uci_move }),
        ),
    }
}

} // verus!
