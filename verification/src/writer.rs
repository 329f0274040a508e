use vstd::prelude::*;
use vstd::string::StringExecFns;
use crate::command::{decimal, decimal_string, Command, CommandView};
use crate::text::texts;
use crate::triple::LINES_PER_POSITION;

verus! {

/// Number of worker threads the engine is told to use.
pub const WORKER_THREADS: u64 = 8;

/// Size of the hash table the engine is told to use, in megabytes.
pub const HASH_MEGABYTES: u64 = 1024;

/// Depth to which every position is searched.
pub const SEARCH_DEPTH: u8 = 10;

/// Number of commands sent once, before any position.
pub const SETUP_COMMANDS: usize = 4;

/// Number of steps the writer takes for one position.
pub const STEPS_PER_POSITION: usize = 4;

/// What the writer asks its caller to do next.
#[derive(Clone, PartialEq, Eq, Debug)]
pub enum WriterAction {
    /// Write this command to the engine.
    Send(Command),
    /// Flush what was written, so that the engine sees it.
    Flush,
    /// Wait until the completion signal is raised, and consume it.
    AwaitSignal,
    /// Nothing is left to do.
    Finished,
}

/// The mathematical value of a [`WriterAction`].
pub enum WriterActionView {
    Send(CommandView),
    Flush,
    AwaitSignal,
    Finished,
}

impl View for WriterAction {
    type V = WriterActionView;

    open spec fn view(&self) -> WriterActionView {
        match self {
            WriterAction::Send(command) => WriterActionView::Send(command@),
            WriterAction::Flush => WriterActionView::Flush,
            WriterAction::AwaitSignal => WriterActionView::AwaitSignal,
            WriterAction::Finished => WriterActionView::Finished,
        }
    }
}

/// The action sends a search command.
pub open spec fn is_search(action: WriterActionView) -> bool {
    action matches WriterActionView::Send(CommandView::Search { .. })
}

/// The commands of the setup: the handshake, then the options for the number of worker
/// threads, the hash size and the number of candidate lines.
pub open spec fn setup_command(k: int) -> CommandView {
    if k == 0 {
        CommandView::Handshake
    } else if k == 1 {
        CommandView::SetOption { name: "Threads"@, value: decimal(WORKER_THREADS as nat) }
    } else if k == 2 {
        CommandView::SetOption { name: "Hash"@, value: decimal(HASH_MEGABYTES as nat) }
    } else {
        CommandView::SetOption { name: "MultiPV"@, value: decimal(LINES_PER_POSITION as nat) }
    }
}

/// The setup: its commands, in order.
pub open spec fn setup_script() -> Seq<WriterActionView> {
    Seq::new(SETUP_COMMANDS as nat, |k: int| WriterActionView::Send(setup_command(k)))
}

/// The steps for one position: set it, start the search, flush, and wait for the signal that
/// its results are collected.
pub open spec fn position_script(notation: Seq<char>) -> Seq<WriterActionView> {
    seq![
        WriterActionView::Send(CommandView::SetPosition { notation }),
        WriterActionView::Send(CommandView::Search { depth: SEARCH_DEPTH }),
        WriterActionView::Flush,
        WriterActionView::AwaitSignal,
    ]
}

/// The steps for a list of positions, in order.
pub open spec fn batch_script(positions: Seq<Seq<char>>) -> Seq<WriterActionView>
    decreases positions.len(),
{
    if positions.len() == 0 {
        Seq::empty()
    } else {
        batch_script(positions.drop_last()) + position_script(positions.last())
    }
}

/// Everything the writer does for a batch: the setup, the steps for each position, and the
/// shutdown command.
pub open spec fn script(positions: Seq<Seq<char>>) -> Seq<WriterActionView> {
    setup_script() + batch_script(positions) + seq![WriterActionView::Send(CommandView::Quit)]
}

/// The steps for a list of positions are four for each, those of position `i` standing at
/// `4 * i`.
pub proof fn lemma_batch_script(positions: Seq<Seq<char>>)
    ensures
        batch_script(positions).len() == STEPS_PER_POSITION * positions.len(),
        forall|i: int, r: int|
            0 <= i < positions.len() && 0 <= r < STEPS_PER_POSITION ==> batch_script(
                positions,
            )[STEPS_PER_POSITION * i + r] == #[trigger] position_script(positions[i])[r],
    decreases positions.len(),
{
    if positions.len() > 0 {
        let front = positions.drop_last();
        lemma_batch_script(front);
        assert forall|i: int, r: int|
            0 <= i < positions.len() && 0 <= r < STEPS_PER_POSITION implies batch_script(
            positions,
        )[STEPS_PER_POSITION * i + r] == #[trigger] position_script(positions[i])[r] by {
            if i < front.len() {
                assert(front[i] == positions[i]);
                assert(batch_script(front)[STEPS_PER_POSITION * i + r] == position_script(
                    front[i],
                )[r]);
            }
        }
    }
}

/// The length of the script, and what stands where in it.
pub proof fn lemma_script(positions: Seq<Seq<char>>)
    ensures
        script(positions).len() == SETUP_COMMANDS + STEPS_PER_POSITION * positions.len() + 1,
        forall|k: int|
            0 <= k < SETUP_COMMANDS ==> #[trigger] script(positions)[k] == WriterActionView::Send(
                setup_command(k),
            ),
        forall|i: int, r: int|
            0 <= i < positions.len() && 0 <= r < STEPS_PER_POSITION ==> script(
                positions,
            )[SETUP_COMMANDS + STEPS_PER_POSITION * i + r] == #[trigger] position_script(
                positions[i],
            )[r],
        script(positions)[SETUP_COMMANDS + STEPS_PER_POSITION * positions.len()]
            == WriterActionView::Send(CommandView::Quit),
{
    lemma_batch_script(positions);
    assert forall|i: int, r: int|
        0 <= i < positions.len() && 0 <= r < STEPS_PER_POSITION implies script(
        positions,
    )[SETUP_COMMANDS + STEPS_PER_POSITION * i + r] == #[trigger] position_script(
        positions[i],
    )[r] by {
        assert(batch_script(positions)[STEPS_PER_POSITION * i + r] == position_script(
            positions[i],
        )[r]);
    }
}

/// Where the writer stands.
#[derive(Clone, Copy, PartialEq, Eq, Structural, Debug)]
pub enum WriterStage {
    /// Sending the setup.
    Setup,
    /// About to set a position.
    Position,
    /// About to start the search of the position just set.
    Search,
    /// About to flush the search command.
    Flush,
    /// About to wait for the completion signal.
    Await,
    /// About to send the shutdown command.
    Quit,
    /// Finished.
    Done,
}

/// The command writer: it yields, one call at a time, the steps of the script for a batch.
/// The caller carries each step out before it asks for the next.
#[derive(Clone, Copy, PartialEq, Eq, Debug)]
pub struct CommandWriter {
    stage: WriterStage,
    setup_sent: usize,
    index: usize,
}

impl CommandWriter {
    /// The stage the writer is in.
    pub closed spec fn stage(&self) -> WriterStage {
        self.stage
    }

    /// The number of positions whose steps are all taken.
    pub closed spec fn positions_done(&self) -> nat {
        self.index as nat
    }

    /// The invariant of the type, for a batch of `count` positions.
    pub closed spec fn wf(&self, count: nat) -> bool {
        match self.stage {
            WriterStage::Setup => self.setup_sent < SETUP_COMMANDS && self.index == 0,
            WriterStage::Position | WriterStage::Search | WriterStage::Flush | WriterStage::Await => {
                self.setup_sent == SETUP_COMMANDS && self.index < count
            },
            WriterStage::Quit | WriterStage::Done => self.setup_sent == SETUP_COMMANDS && self.index
                == count,
        }
    }

    /// The number of steps of the script taken so far.
    pub closed spec fn cursor(&self) -> nat {
        (match self.stage {
            WriterStage::Setup => self.setup_sent as int,
            WriterStage::Position | WriterStage::Quit => SETUP_COMMANDS + STEPS_PER_POSITION
                * self.index,
            WriterStage::Search | WriterStage::Done => SETUP_COMMANDS + STEPS_PER_POSITION
                * self.index + 1,
            WriterStage::Flush => SETUP_COMMANDS + STEPS_PER_POSITION * self.index + 2,
            WriterStage::Await => SETUP_COMMANDS + STEPS_PER_POSITION * self.index + 3,
        }) as nat
    }

    /// The number of search commands sent so far.
    pub closed spec fn searches_issued(&self) -> nat {
        match self.stage {
            WriterStage::Flush | WriterStage::Await => self.index as nat + 1,
            _ => self.index as nat,
        }
    }

    /// The number of completion signals consumed so far.
    pub closed spec fn signals_awaited(&self) -> nat {
        self.index as nat
    }

    /// A writer at the start of the script.
    pub fn new() -> (writer: CommandWriter)
        ensures
            forall|count: nat| writer.wf(count),
            writer.cursor() == 0,
            writer.searches_issued() == 0,
            writer.signals_awaited() == 0,
            writer.positions_done() == 0,
            writer.stage() == WriterStage::Setup,
    {
        CommandWriter { stage: WriterStage::Setup, setup_sent: 0, index: 0 }
    }

    /// Whether every step of the script is taken.
    pub fn finished(&self) -> (done: bool)
        ensures
            done == (self.stage() == WriterStage::Done),
    {
        match self.stage {
            WriterStage::Done => true,
            _ => false,
        }
    }

    /// The next step of the script for `positions`. After the last step the answer is
    /// `Finished`, as often as it is asked for.
    pub fn next(&mut self, positions: &Vec<String>) -> (action: WriterAction)
        requires
            old(self).wf(positions@.len()),
        ensures
            final(self).wf(positions@.len()),
            old(self).cursor() < script(texts(positions@)).len() ==> action@ == script(
                texts(positions@),
            )[old(self).cursor() as int] && final(self).cursor() == old(self).cursor() + 1,
            old(self).cursor() >= script(texts(positions@)).len() ==> action@ is Finished
                && *final(self) == *old(self),
            (action@ is Finished) == (old(self).stage() == WriterStage::Done),
            final(self).cursor() <= script(texts(positions@)).len(),
            final(self).searches_issued() == old(self).searches_issued() + if is_search(action@) {
                1nat
            } else {
                0nat
            },
            final(self).signals_awaited() == old(self).signals_awaited() + if action@ is AwaitSignal {
                1nat
            } else {
                0nat
            },
            is_search(action@) ==> old(self).searches_issued() == old(self).signals_awaited(),
            action@ is AwaitSignal ==> old(self).searches_issued() == old(self).signals_awaited() + 1,
            action@ is AwaitSignal ==> final(self).positions_done() == old(self).positions_done() + 1,
            !(action@ is AwaitSignal) ==> final(self).positions_done() == old(self).positions_done(),
    {
        proof {
            lemma_script(texts(positions@));
        }
        let ghost all = texts(positions@);
        let count = positions.len();
        match self.stage {
            WriterStage::Setup => {
                let command = setup_message(self.setup_sent);
                self.setup_sent = self.setup_sent + 1;
                if self.setup_sent == SETUP_COMMANDS {
                    if count == 0 {
                        self.stage = WriterStage::Quit;
                    } else {
                        self.stage = WriterStage::Position;
                    }
                }
                WriterAction::Send(command)
            },
            WriterStage::Position => {
                let notation = positions[self.index].clone();
                assert(all[self.index as int] == notation@);
                assert(position_script(all[self.index as int])[0] == WriterActionView::Send(
                    CommandView::SetPosition { notation: notation@ },
                ));
                self.stage = WriterStage::Search;
                WriterAction::Send(Command::SetPosition { notation })
            },
            WriterStage::Search => {
                assert(position_script(all[self.index as int])[1] == WriterActionView::Send(
                    CommandView::Search { depth: SEARCH_DEPTH },
                ));
                self.stage = WriterStage::Flush;
                WriterAction::Send(Command::Search { depth: SEARCH_DEPTH })
            },
            WriterStage::Flush => {
                assert(position_script(all[self.index as int])[2] == WriterActionView::Flush);
                self.stage = WriterStage::Await;
                WriterAction::Flush
            },
            WriterStage::Await => {
                assert(position_script(all[self.index as int])[3] == WriterActionView::AwaitSignal);
                self.index = self.index + 1;
                if self.index == count {
                    self.stage = WriterStage::Quit;
                } else {
                    self.stage = WriterStage::Position;
                }
                WriterAction::AwaitSignal
            },
            WriterStage::Quit => {
                self.stage = WriterStage::Done;
                WriterAction::Send(Command::Quit)
            },
            WriterStage::Done => WriterAction::Finished,
        }
    }
}

/// At most one search is outstanding: the writer has sent as many search commands as it has
/// consumed signals, or one more.
pub proof fn lemma_one_search_outstanding(writer: CommandWriter, count: nat)
    requires
        writer.wf(count),
    ensures
        writer.signals_awaited() <= writer.searches_issued() <= writer.signals_awaited() + 1,
        writer.searches_issued() <= count,
{
}

/// A finished writer has taken every step of the script and dealt with every position.
pub proof fn lemma_finished_writer(writer: CommandWriter, positions: Seq<Seq<char>>)
    requires
        writer.wf(positions.len()),
        writer.stage() == WriterStage::Done,
    ensures
        writer.cursor() == script(positions).len(),
        writer.positions_done() == positions.len(),
{
    lemma_script(positions);
}

/// A writer has dealt with no more positions than there are, and where it waits for a
/// signal or has just sent a position's commands, that position is still open.
pub proof fn lemma_positions_done_bound(writer: CommandWriter, count: nat)
    requires
        writer.wf(count),
    ensures
        writer.positions_done() <= count,
        writer.cursor() <= SETUP_COMMANDS + STEPS_PER_POSITION * count + 1,
{
    assert(STEPS_PER_POSITION * writer.positions_done() <= STEPS_PER_POSITION * count) by (nonlinear_arith)
        requires
            writer.positions_done() <= count,
    ;
}

/// The `k`-th command of the setup.
fn setup_message(k: usize) -> (command: Command)
    requires
        k < SETUP_COMMANDS,
    ensures
        command@ == setup_command(k as int),
{
    if k == 0 {
        Command::Handshake
    } else if k == 1 {
        Command::SetOption { name: String::from_str("Threads"), value: decimal_string(WORKER_THREADS) }
    } else if k == 2 {
        Command::SetOption { name: String::from_str("Hash"), value: decimal_string(HASH_MEGABYTES) }
    } else {
        Command::SetOption {
            name: String::from_str("MultiPV"),
            value: decimal_string(LINES_PER_POSITION as u64),
        }
    }
}

} // verus!
