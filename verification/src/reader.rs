use vstd::prelude::*;
use crate::error::ProtocolError;
use crate::fragment::{attributes_to_eval, report_of, RawVariation};
use crate::text::texts;
use crate::triple::{empty_slots, recorded, slots_valid, VariationTriple};
use crate::wire::{classify_line, line_message, EngineMessage, EngineMessageView};

verus! {

/// The slots of a search together with whether the search has been concluded.
pub struct Reading {
    pub slots: Seq<Option<RawVariation>>,
    pub complete: bool,
}

/// The effect of one message on a search under way. A progress line with a report fills
/// the slot of the report's number; a diagnostic and any other message change nothing; the
/// terminal marker concludes the search with the slots as they are.
pub open spec fn after_message(slots: Seq<Option<RawVariation>>, message: EngineMessageView) -> Result<
    Reading,
    ProtocolError,
> {
    match message {
        EngineMessageView::Info(attributes) => match report_of(attributes) {
            Ok(Some(variation)) => match recorded(slots, variation) {
                Ok(next) => Ok(Reading { slots: next, complete: false }),
                Err(error) => Err(error),
            },
            Ok(None) => Ok(Reading { slots, complete: false }),
            Err(error) => Err(error),
        },
        EngineMessageView::BestMove => Ok(Reading { slots, complete: true }),
        EngineMessageView::Other => Ok(Reading { slots, complete: false }),
    }
}

/// The effect of one line of engine output on a search under way. An empty line is ignored.
pub open spec fn after_line(slots: Seq<Option<RawVariation>>, line: Seq<char>) -> Result<
    Reading,
    ProtocolError,
> {
    if line.len() == 0 {
        Ok(Reading { slots, complete: false })
    } else {
        match line_message(line) {
            Ok(message) => after_message(slots, message),
            Err(error) => Err(error),
        }
    }
}

/// The slots at the conclusion of a search, and the position of the line after its terminal
/// marker, when the engine's output is read from line `from` on. Output that ends before a
/// terminal marker is a protocol violation.
pub open spec fn read_from(lines: Seq<Seq<char>>, from: int, slots: Seq<Option<RawVariation>>) -> Result<
    (Seq<Option<RawVariation>>, int),
    ProtocolError,
>
    decreases lines.len() - from,
{
    if from < 0 || from >= lines.len() {
        Err(ProtocolError::UnexpectedEof)
    } else {
        match after_line(slots, lines[from]) {
            Err(error) => Err(error),
            Ok(reading) => if reading.complete {
                Ok((reading.slots, from + 1))
            } else {
                read_from(lines, from + 1, reading.slots)
            },
        }
    }
}

/// Reading keeps the slots valid and moves forward.
pub proof fn lemma_read_from_valid(lines: Seq<Seq<char>>, from: int, slots: Seq<Option<RawVariation>>)
    requires
        0 <= from,
        slots_valid(slots),
        read_from(lines, from, slots) is Ok,
    ensures
        slots_valid(read_from(lines, from, slots)->Ok_0.0),
        from < read_from(lines, from, slots)->Ok_0.1 <= lines.len(),
    decreases lines.len() - from,
{
    let reading = after_line(slots, lines[from])->Ok_0;
    lemma_after_line_valid(slots, lines[from]);
    if !reading.complete {
        lemma_read_from_valid(lines, from + 1, reading.slots);
    }
}

/// One line keeps the slots valid.
pub proof fn lemma_after_line_valid(slots: Seq<Option<RawVariation>>, line: Seq<char>)
    requires
        slots_valid(slots),
        after_line(slots, line) is Ok,
    ensures
        slots_valid(after_line(slots, line)->Ok_0.slots),
{
    if line.len() != 0 {
        let message = line_message(line)->Ok_0;
        if let EngineMessageView::Info(attributes) = message {
            if let Ok(Some(variation)) = report_of(attributes) {
                crate::fragment::lemma_report_on_board(attributes);
            }
        }
    }
}

/// The reader of one search: it starts collecting and ends complete.
pub struct ResponseReader {
    triple: VariationTriple,
    complete: bool,
}

impl ResponseReader {
    /// The slots collected so far.
    pub closed spec fn slots(&self) -> Seq<Option<RawVariation>> {
        self.triple@
    }

    /// Whether the terminal marker has been read.
    pub closed spec fn is_complete(&self) -> bool {
        self.complete
    }

    /// The invariant of the type.
    pub closed spec fn wf(&self) -> bool {
        self.triple.wf()
    }

    /// A reader at the start of a search.
    pub fn new() -> (reader: ResponseReader)
        ensures
            reader.wf(),
            reader.slots() == empty_slots(),
            !reader.is_complete(),
    {
        ResponseReader { triple: VariationTriple::new(), complete: false }
    }

    /// Whether the terminal marker has been read.
    pub fn complete(&self) -> (complete: bool)
        ensures
            complete == self.is_complete(),
    {
        self.complete
    }

    /// Takes in one message. Returns whether the search is now concluded. A concluded
    /// reader takes nothing in; after a violation the reader is as it was.
    pub fn accept(&mut self, message: &EngineMessage) -> (outcome: Result<bool, ProtocolError>)
        requires
            old(self).wf(),
        ensures
            final(self).wf(),
            old(self).is_complete() ==> outcome == Ok::<bool, ProtocolError>(true) && final(self).slots()
                == old(self).slots() && final(self).is_complete(),
            !old(self).is_complete() ==> match after_message(old(self).slots(), message@) {
                Ok(reading) => outcome == Ok::<bool, ProtocolError>(reading.complete)
                    && final(self).slots() == reading.slots && final(self).is_complete()
                    == reading.complete,
                Err(error) => outcome == Err::<bool, ProtocolError>(error) && final(self).slots()
                    == old(self).slots() && !final(self).is_complete(),
            },
    {
        if self.complete {
            return Ok(true);
        }
        match message {
            EngineMessage::Info(attributes) => {
                match attributes_to_eval(attributes.as_slice()) {
                    Ok(Some(variation)) => {
                        match self.triple.record(variation) {
                            Ok(()) => Ok(false),
                            Err(error) => Err(error),
                        }
                    },
                    Ok(None) => Ok(false),
                    Err(error) => Err(error),
                }
            },
            EngineMessage::BestMove => {
                self.complete = true;
                Ok(true)
            },
            EngineMessage::Other => Ok(false),
        }
    }

    /// Takes in one line of engine output. Returns whether the search is now concluded.
    pub fn feed(&mut self, line: &str) -> (outcome: Result<bool, ProtocolError>)
        requires
            old(self).wf(),
        ensures
            final(self).wf(),
            old(self).is_complete() ==> outcome == Ok::<bool, ProtocolError>(true) && final(self).slots()
                == old(self).slots() && final(self).is_complete(),
            !old(self).is_complete() ==> match after_line(old(self).slots(), line@) {
                Ok(reading) => outcome == Ok::<bool, ProtocolError>(reading.complete)
                    && final(self).slots() == reading.slots && final(self).is_complete()
                    == reading.complete,
                Err(error) => outcome == Err::<bool, ProtocolError>(error) && final(self).slots()
                    == old(self).slots() && !final(self).is_complete(),
            },
    {
        if self.complete {
            return Ok(true);
        }
        if line.is_empty() {
            return Ok(false);
        }
        match classify_line(line) {
            Ok(message) => self.accept(&message),
            Err(error) => Err(error),
        }
    }

    /// Hands out what was collected.
    pub fn into_triple(self) -> (triple: VariationTriple)
        requires
            self.wf(),
        ensures
            triple.wf(),
            triple@ == self.slots(),
    {
        self.triple
    }
}

/// Reads the engine's output from line `from` on until a search is concluded. Returns what
/// was collected and the position of the line after the terminal marker.
pub fn read_all_evals(lines: &Vec<String>, from: usize) -> (outcome: Result<
    (VariationTriple, usize),
    ProtocolError,
>)
    ensures
        match read_from(texts(lines@), from as int, empty_slots()) {
            Ok((slots, next)) => outcome matches Ok((triple, after)) && triple@ == slots && after
                == next && triple.wf(),
            Err(error) => outcome matches Err(e) && e == error,
        },
{
    let mut reader = ResponseReader::new();
    let mut at = from;
    while at < lines.len()
        invariant
            from <= at,
            reader.wf(),
            !reader.is_complete(),
            read_from(texts(lines@), from as int, empty_slots()) == read_from(
                texts(lines@),
                at as int,
                reader.slots(),
            ),
        decreases lines@.len() - at,
    {
        assert(texts(lines@)[at as int] == lines@[at as int]@);
        match reader.feed(lines[at].as_str()) {
            Err(error) => {
                return Err(error);
            },
            Ok(done) => {
                at = at + 1;
                if done {
                    return Ok((reader.into_triple(), at));
                }
            },
        }
    }
    Err(ProtocolError::UnexpectedEof)
}

} // verus!
