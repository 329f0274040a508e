use vstd::prelude::*;
use crate::error::ProtocolError;
use crate::fragment::RawVariation;

verus! {

/// Number of candidate lines requested from the engine for every position.
pub const LINES_PER_POSITION: usize = 3;

/// The slots of a search that has reported nothing yet.
pub open spec fn empty_slots() -> Seq<Option<RawVariation>> {
    Seq::new(LINES_PER_POSITION as nat, |i: int| None::<RawVariation>)
}

/// One slot per candidate line, and a report stands only in the slot of its own number.
pub open spec fn slots_valid(slots: Seq<Option<RawVariation>>) -> bool {
    &&& slots.len() == LINES_PER_POSITION
    &&& forall|i: int|
        0 <= i < slots.len() ==> (#[trigger] slots[i] matches Some(variation)
            ==> variation.variation_number == i + 1 && variation.wf())
}

/// The slots after a report came in: it takes the slot of its number, whatever stood there.
/// A number outside `1..=LINES_PER_POSITION` is a protocol violation.
pub open spec fn recorded(slots: Seq<Option<RawVariation>>, variation: RawVariation) -> Result<
    Seq<Option<RawVariation>>,
    ProtocolError,
> {
    if 1 <= variation.variation_number <= LINES_PER_POSITION {
        Ok(slots.update(variation.variation_number - 1, Some(variation)))
    } else {
        Err(ProtocolError::RankOutOfRange)
    }
}

/// The candidate lines collected for one position, by number.
#[derive(Clone, PartialEq, Eq, Debug)]
pub struct VariationTriple {
    slots: Vec<Option<RawVariation>>,
}

impl View for VariationTriple {
    type V = Seq<Option<RawVariation>>;

    closed spec fn view(&self) -> Seq<Option<RawVariation>> {
        self.slots@
    }
}

impl VariationTriple {
    /// The invariant of the type.
    pub open spec fn wf(&self) -> bool {
        slots_valid(self@)
    }

    /// A triple with every slot empty.
    pub fn new() -> (triple: VariationTriple)
        ensures
            triple.wf(),
            triple@ == empty_slots(),
    {
        let mut slots: Vec<Option<RawVariation>> = Vec::new();
        slots.push(None);
        slots.push(None);
        slots.push(None);
        assert(slots@ == empty_slots());
        VariationTriple { slots }
    }

    /// Stores a report in the slot of its number, replacing an earlier report of that number.
    pub fn record(&mut self, variation: RawVariation) -> (outcome: Result<(), ProtocolError>)
        requires
            old(self).wf(),
            variation.wf(),
        ensures
            final(self).wf(),
            match recorded(old(self)@, variation) {
                Ok(slots) => outcome is Ok && final(self)@ == slots,
                Err(error) => outcome == Err::<(), ProtocolError>(error) && final(self)@ == old(self)@,
            },
    {
        if variation.variation_number < 1 || variation.variation_number > 3 {
            return Err(ProtocolError::RankOutOfRange);
        }
        let index = (variation.variation_number - 1) as usize;
        self.slots.set(index, Some(variation));
        Ok(())
    }

    /// The report for the candidate line `rank`, counted from 1, if one came in.
    pub fn get(&self, rank: usize) -> (slot: Option<RawVariation>)
        requires
            self.wf(),
        ensures
            slot == if 1 <= rank <= LINES_PER_POSITION {
                self@[rank - 1]
            } else {
                None
            },
    {
        if rank < 1 || rank > 3 {
            None
        } else {
            self.slots[rank - 1]
        }
    }
}

/// A later report for a candidate line supersedes an earlier one: after two reports with
/// the same number, the slots are as if only the second had come in.
pub proof fn lemma_later_report_supersedes(
    slots: Seq<Option<RawVariation>>,
    earlier: RawVariation,
    later: RawVariation,
)
    requires
        slots_valid(slots),
        earlier.variation_number == later.variation_number,
        recorded(slots, earlier) is Ok,
    ensures
        recorded(recorded(slots, earlier)->Ok_0, later) == recorded(slots, later),
        recorded(slots, later) is Ok,
        recorded(slots, later)->Ok_0[later.variation_number - 1] == Some(later),
{
    let once = recorded(slots, earlier)->Ok_0;
    let index = later.variation_number - 1;
    assert(once.update(index, Some(later)) =~= slots.update(index, Some(later)));
}

/// A report touches no slot but its own.
pub proof fn lemma_report_keeps_other_slots(
    slots: Seq<Option<RawVariation>>,
    variation: RawVariation,
    rank: int,
)
    requires
        slots_valid(slots),
        recorded(slots, variation) is Ok,
        1 <= rank <= LINES_PER_POSITION,
        rank != variation.variation_number,
    ensures
        recorded(slots, variation)->Ok_0[rank - 1] == slots[rank - 1],
{
}

} // verus!
