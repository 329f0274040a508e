use vstd::prelude::*;
use crate::board::move_text;
use crate::fragment::RawVariation;
use crate::position::Position;
use crate::triple::{lemma_later_report_supersedes, recorded, slots_valid, VariationTriple, LINES_PER_POSITION};

verus! {

/// A finished candidate line: its score in centipawns and its first move in coordinate
/// notation.
#[derive(Clone, PartialEq, Eq, Debug)]
pub struct Variation {
    pub score: i32,
    pub mv: String,
}

/// The mathematical value of a [`Variation`].
pub struct VariationView {
    pub score: i32,
    pub mv: Seq<char>,
}

impl View for Variation {
    type V = VariationView;

    open spec fn view(&self) -> VariationView {
        VariationView { score: self.score, mv: self.mv@ }
    }
}

/// The values of a list of variations, in order.
pub open spec fn variation_views(variations: Seq<Variation>) -> Seq<VariationView> {
    variations.map_values(|v: Variation| v@)
}

/// The candidate lines found for one position, best first.
#[derive(Clone, PartialEq, Eq, Debug)]
pub struct PositionReport {
    pub position: String,
    pub variations: Vec<Variation>,
}

/// The mathematical value of a [`PositionReport`].
pub struct PositionReportView {
    pub position: Seq<char>,
    pub variations: Seq<VariationView>,
}

impl View for PositionReport {
    type V = PositionReportView;

    open spec fn view(&self) -> PositionReportView {
        PositionReportView { position: self.position@, variations: variation_views(self.variations@) }
    }
}

/// The values of a list of reports, in order.
pub open spec fn report_views(reports: Seq<PositionReport>) -> Seq<PositionReportView> {
    reports.map_values(|r: PositionReport| r@)
}

/// The finished line that a report of the engine becomes.
pub open spec fn built(raw: RawVariation) -> VariationView {
    VariationView { score: raw.cp, mv: move_text(raw.uci_move) }
}

/// The finished lines of a search: one for each filled slot, in the order of the slots.
/// An empty slot gives nothing.
pub open spec fn folded(slots: Seq<Option<RawVariation>>) -> Seq<VariationView>
    decreases slots.len(),
{
    if slots.len() == 0 {
        Seq::empty()
    } else {
        match slots.last() {
            Some(raw) => folded(slots.drop_last()).push(built(raw)),
            None => folded(slots.drop_last()),
        }
    }
}

/// The numbers of the filled slots, in rising order; a slot's number is its place counted
/// from 1.
pub open spec fn populated_ranks(slots: Seq<Option<RawVariation>>) -> Seq<int>
    decreases slots.len(),
{
    if slots.len() == 0 {
        Seq::empty()
    } else if slots.last() is Some {
        populated_ranks(slots.drop_last()).push(slots.len() as int)
    } else {
        populated_ranks(slots.drop_last())
    }
}

/// The report for a position whose search ended with these slots.
pub open spec fn report_for(notation: Seq<char>, slots: Seq<Option<RawVariation>>) -> PositionReportView {
    PositionReportView { position: notation, variations: folded(slots) }
}

/// The finished lines of a search are its filled slots in rising order of their numbers:
/// there is one line for each filled slot and none for an empty one, so there are at most
/// as many lines as slots, and no number occurs twice.
pub proof fn lemma_folded_in_rank_order(slots: Seq<Option<RawVariation>>)
    ensures
        folded(slots).len() == populated_ranks(slots).len(),
        folded(slots).len() <= slots.len(),
        forall|j: int|
            0 <= j < populated_ranks(slots).len() ==> 1 <= #[trigger] populated_ranks(slots)[j]
                <= slots.len(),
        forall|j: int|
            0 <= j < populated_ranks(slots).len() ==> slots[#[trigger] populated_ranks(slots)[j]
                - 1] is Some,
        forall|j: int|
            0 <= j < folded(slots).len() ==> #[trigger] folded(slots)[j] == built(
                slots[populated_ranks(slots)[j] - 1]->Some_0,
            ),
        forall|i: int, j: int|
            0 <= i < j < populated_ranks(slots).len() ==> #[trigger] populated_ranks(slots)[i]
                < #[trigger] populated_ranks(slots)[j],
        forall|rank: int|
            1 <= rank <= slots.len() && #[trigger] slots[rank - 1] is Some ==> populated_ranks(
                slots,
            ).contains(rank),
    decreases slots.len(),
{
    if slots.len() > 0 {
        let front = slots.drop_last();
        lemma_folded_in_rank_order(front);
        let ranks = populated_ranks(slots);
        assert forall|j: int| 0 <= j < ranks.len() implies slots[#[trigger] ranks[j] - 1] is Some by {
            if j < populated_ranks(front).len() {
                assert(front[populated_ranks(front)[j] - 1] == slots[populated_ranks(front)[j] - 1]);
            }
        }
        assert forall|j: int| 0 <= j < folded(slots).len() implies #[trigger] folded(slots)[j]
            == built(slots[ranks[j] - 1]->Some_0) by {
            if j < folded(front).len() {
                assert(front[populated_ranks(front)[j] - 1] == slots[populated_ranks(front)[j] - 1]);
            }
        }
        assert forall|rank: int|
            1 <= rank <= slots.len() && #[trigger] slots[rank - 1] is Some implies ranks.contains(
            rank,
        ) by {
            if rank < slots.len() {
                assert(front[rank - 1] == slots[rank - 1]);
                let j = choose|j: int|
                    0 <= j < populated_ranks(front).len() && populated_ranks(front)[j] == rank;
                assert(ranks[j] == rank);
            } else {
                assert(ranks[ranks.len() - 1] == rank);
            }
        }
    }
}

/// A search that filled fewer slots than it has gives exactly as many lines as it filled:
/// nothing stands in for a line that the engine did not report.
pub proof fn lemma_one_line_per_filled_slot(slots: Seq<Option<RawVariation>>)
    ensures
        folded(slots).len() == slots.filter(|slot: Option<RawVariation>| slot is Some).len(),
    decreases slots.len(),
{
    let filled = |slot: Option<RawVariation>| slot is Some;
    if slots.len() == 0 {
        assert(slots.filter(filled).len() == 0) by {
            reveal(Seq::filter);
        }
    } else {
        lemma_one_line_per_filled_slot(slots.drop_last());
        reveal(Seq::filter);
    }
}

/// Where the engine reports a candidate line twice during one search, the report for the
/// position holds exactly one line for that number, and it is built from the later report.
pub proof fn lemma_superseded_line_reported_once(
    slots: Seq<Option<RawVariation>>,
    earlier: RawVariation,
    later: RawVariation,
)
    requires
        slots_valid(slots),
        earlier.variation_number == later.variation_number,
        recorded(slots, earlier) is Ok,
    ensures
        recorded(recorded(slots, earlier)->Ok_0, later) is Ok,
        ({
            let after = recorded(recorded(slots, earlier)->Ok_0, later)->Ok_0;
            let ranks = populated_ranks(after);
            exists|j: int|
                {
                    &&& 0 <= j < ranks.len()
                    &&& #[trigger] ranks[j] == later.variation_number
                    &&& folded(after)[j] == built(later)
                    &&& forall|k: int|
                        0 <= k < ranks.len() && #[trigger] ranks[k] == later.variation_number ==> k
                            == j
                }
        }),
{
    lemma_later_report_supersedes(slots, earlier, later);
    let after = recorded(slots, later)->Ok_0;
    let ranks = populated_ranks(after);
    let rank = later.variation_number as int;
    lemma_folded_in_rank_order(after);
    assert(after[rank - 1] is Some);
    assert(ranks.contains(rank));
    let j = choose|j: int| 0 <= j < ranks.len() && ranks[j] == rank;
    assert(folded(after)[j] == built(after[ranks[j] - 1]->Some_0));
    assert forall|k: int| 0 <= k < ranks.len() && #[trigger] ranks[k] == rank implies k == j by {
        if k < j {
            assert(ranks[k] < ranks[j]);
        } else if j < k {
            assert(ranks[j] < ranks[k]);
        }
    }
}

impl Variation {
    /// Finishes a report of the engine. The move is written in coordinate notation, which
    /// needs nothing from the position.
    pub fn from_raw_variation(raw: &RawVariation, position: &Position) -> (variation: Variation)
        requires
            raw.wf(),
        ensures
            variation@ == built(*raw),
    {
        Variation { score: raw.cp, mv: raw.uci_move.notation() }
    }
}

/// Folds the filled slots of a search, in rising order of their numbers, into the report
/// for its position.
pub fn build_report(position: &Position, triple: &VariationTriple) -> (report: PositionReport)
    requires
        triple.wf(),
    ensures
        report@ == report_for(position@, triple@),
{
    let mut variations: Vec<Variation> = Vec::new();
    let mut rank: usize = 1;
    while rank <= LINES_PER_POSITION
        invariant
            1 <= rank <= LINES_PER_POSITION + 1,
            triple.wf(),
            variation_views(variations@) == folded(triple@.take(rank - 1)),
        decreases LINES_PER_POSITION + 1 - rank,
    {
        let ghost upto = triple@.take(rank as int);
        assert(upto.drop_last() == triple@.take(rank - 1));
        assert(upto.last() == triple@[rank - 1]);
        match triple.get(rank) {
            Some(raw) => {
                let variation = Variation::from_raw_variation(&raw, position);
                let ghost before = variations@;
                variations.push(variation);
                assert(variation_views(variations@) == variation_views(before).push(variation@));
            },
            None => {},
        }
        rank = rank + 1;
    }
    assert(triple@.take(LINES_PER_POSITION as int) == triple@);
    PositionReport { position: position.notation().to_owned(), variations }
}

} // verus!
