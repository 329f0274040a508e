use vstd::prelude::*;
use crate::command::{command_line, write_message};
use crate::error::DriverError;
use crate::position::{fen_accepted, Position};
use crate::reader::{lemma_read_from_valid, read_all_evals, read_from};
use crate::report::{build_report, report_for, report_views, PositionReport, PositionReportView};
use crate::signal::CompletionSignal;
use crate::text::texts;
use crate::triple::{empty_slots, VariationTriple};
use crate::writer::{lemma_finished_writer, lemma_positions_done_bound, script, CommandWriter, WriterAction, WriterActionView};

verus! {

/// The reports of the positions from number `done` on, when the engine's output is read
/// from line `from` on. Each position takes the output up to the next terminal marker; its
/// notation is checked when its results are in. The first violation or invalid position
/// ends the batch with nothing reported.
pub open spec fn session_reports(
    positions: Seq<Seq<char>>,
    lines: Seq<Seq<char>>,
    done: int,
    from: int,
) -> Result<Seq<PositionReportView>, DriverError>
    decreases positions.len() - done,
{
    if done < 0 || done >= positions.len() {
        Ok(Seq::empty())
    } else {
        match read_from(lines, from, empty_slots()) {
            Err(error) => Err(DriverError::Protocol { index: done as usize, error }),
            Ok((slots, next)) => if !fen_accepted(positions[done]) {
                Err(DriverError::InvalidPosition { index: done as usize })
            } else {
                match session_reports(positions, lines, done + 1, next) {
                    Ok(rest) => Ok(seq![report_for(positions[done], slots)] + rest),
                    Err(error) => Err(error),
                }
            },
        }
    }
}

/// The lines that a list of writer steps puts on the wire: one for each command sent, in
/// order.
pub open spec fn sent_lines(actions: Seq<WriterActionView>) -> Seq<Seq<char>>
    decreases actions.len(),
{
    if actions.len() == 0 {
        Seq::empty()
    } else {
        match actions.last() {
            WriterActionView::Send(command) => sent_lines(actions.drop_last()).push(
                command_line(command),
            ),
            _ => sent_lines(actions.drop_last()),
        }
    }
}

/// Everything written to the engine for a batch.
pub open spec fn command_lines(positions: Seq<Seq<char>>) -> Seq<Seq<char>> {
    sent_lines(script(positions))
}

/// A batch that succeeds reports every position, in the order given: there are as many
/// reports as positions, and each carries the notation of its position.
pub proof fn lemma_reports_follow_positions(
    positions: Seq<Seq<char>>,
    lines: Seq<Seq<char>>,
    done: int,
    from: int,
)
    requires
        0 <= done <= positions.len(),
        0 <= from,
    ensures
        session_reports(positions, lines, done, from) matches Ok(reports) ==> {
            &&& reports.len() == positions.len() - done
            &&& forall|i: int|
                0 <= i < reports.len() ==> (#[trigger] reports[i]).position == positions[done + i]
        },
    decreases positions.len() - done,
{
    if done < positions.len() {
        if let Ok((slots, next)) = read_from(lines, from, empty_slots()) {
            lemma_read_from_valid(lines, from, empty_slots());
            lemma_reports_follow_positions(positions, lines, done + 1, next);
        }
    }
}

/// The reports collected for a batch, in the order of its positions.
pub struct ResultAggregator {
    reports: Vec<PositionReport>,
}

impl View for ResultAggregator {
    type V = Seq<PositionReportView>;

    closed spec fn view(&self) -> Seq<PositionReportView> {
        report_views(self.reports@)
    }
}

impl ResultAggregator {
    /// An aggregator without reports.
    pub fn new() -> (aggregator: ResultAggregator)
        ensures
            aggregator@ == Seq::<PositionReportView>::empty(),
    {
        let aggregator = ResultAggregator { reports: Vec::new() };
        assert(aggregator@ =~= Seq::<PositionReportView>::empty());
        aggregator
    }

    /// The number of positions reported.
    pub fn len(&self) -> (count: usize)
        ensures
            count == self@.len(),
    {
        self.reports.len()
    }

    /// Takes in the results of the next position: checks its notation, folds the filled
    /// slots into a report and appends it. Where the notation is not valid, nothing is
    /// appended and the error names the position by its place in the batch.
    pub fn complete_position(&mut self, notation: &str, triple: &VariationTriple) -> (outcome: Result<
        (),
        DriverError,
    >)
        requires
            triple.wf(),
        ensures
            fen_accepted(notation@) ==> outcome is Ok && final(self)@ == old(self)@.push(
                report_for(notation@, triple@),
            ),
            !fen_accepted(notation@) ==> outcome == Err::<(), DriverError>(
                DriverError::InvalidPosition { index: old(self)@.len() as usize },
            ) && final(self)@ == old(self)@,
    {
        let index = self.reports.len();
        match Position::parse(notation) {
            None => Err(DriverError::InvalidPosition { index }),
            Some(position) => {
                let report = build_report(&position, triple);
                let ghost before = self.reports@;
                self.reports.push(report);
                assert(report_views(self.reports@) =~= report_views(before).push(report@));
                Ok(())
            },
        }
    }

    /// Hands out the reports.
    pub fn into_reports(self) -> (reports: Vec<PositionReport>)
        ensures
            report_views(reports@) == self@,
    {
        self.reports
    }
}

/// What a batch run against a recorded engine output gives: every line written to the
/// engine, and the report of every position.
#[derive(Clone, PartialEq, Eq, Debug)]
pub struct Session {
    pub commands: Vec<String>,
    pub reports: Vec<PositionReport>,
}

/// Unfolds the reports of the positions still open by one position.
proof fn lemma_session_step(
    positions: Seq<Seq<char>>,
    lines: Seq<Seq<char>>,
    done: int,
    from: int,
    so_far: Seq<PositionReportView>,
)
    requires
        0 <= done < positions.len(),
        read_from(lines, from, empty_slots()) is Ok,
        fen_accepted(positions[done]),
    ensures
        ({
            let (slots, next) = read_from(lines, from, empty_slots())->Ok_0;
            (match session_reports(positions, lines, done, from) {
                Ok(rest) => Ok::<Seq<PositionReportView>, DriverError>(so_far + rest),
                Err(error) => Err(error),
            }) == (match session_reports(positions, lines, done + 1, next) {
                Ok(rest) => Ok::<Seq<PositionReportView>, DriverError>(
                    so_far.push(report_for(positions[done], slots)) + rest,
                ),
                Err(error) => Err(error),
            })
        }),
{
    let (slots, next) = read_from(lines, from, empty_slots())->Ok_0;
    if let Ok(rest) = session_reports(positions, lines, done + 1, next) {
        let report = report_for(positions[done], slots);
        assert(so_far + (seq![report] + rest) =~= so_far.push(report) + rest);
    }
}

/// Runs a batch against a recorded engine output. The writer takes its steps until it has
/// to wait for the completion signal; then the reading side takes the output up to the next
/// terminal marker, reports the position and raises the signal, and the writer goes on.
pub fn run_session(positions: &Vec<String>, lines: &Vec<String>) -> (outcome: Result<
    Session,
    DriverError,
>)
    ensures
        match session_reports(texts(positions@), texts(lines@), 0, 0) {
            Ok(reports) => outcome matches Ok(session) && report_views(session.reports@) == reports
                && texts(session.commands@) == command_lines(texts(positions@)),
            Err(error) => outcome matches Err(e) && e == error,
        },
        outcome matches Ok(session) ==> session.reports@.len() == positions@.len() && forall|i: int|
            0 <= i < positions@.len() ==> (#[trigger] session.reports@[i]).position@
                == positions@[i]@,
{
    let ghost all = texts(positions@);
    let ghost output = texts(lines@);
    let ghost steps = script(all);
    let mut writer = CommandWriter::new();
    let mut signal = CompletionSignal::new();
    let mut aggregator = ResultAggregator::new();
    let mut commands: Vec<String> = Vec::new();
    let mut cursor: usize = 0;
    assert(steps.take(0) =~= Seq::<WriterActionView>::empty());
    assert(texts(commands@) =~= sent_lines(steps.take(0)));
    assert(aggregator@ + session_reports(all, output, 0, 0)->Ok_0 =~= session_reports(
        all,
        output,
        0,
        0,
    )->Ok_0);
    while !writer.finished()
        invariant
            all == texts(positions@),
            output == texts(lines@),
            steps == script(all),
            writer.wf(positions@.len()),
            writer.cursor() <= steps.len(),
            texts(commands@) == sent_lines(steps.take(writer.cursor() as int)),
            aggregator@.len() == writer.positions_done(),
            !signal.is_pending(),
            session_reports(all, output, 0, 0) == (match session_reports(
                all,
                output,
                writer.positions_done() as int,
                cursor as int,
            ) {
                Ok(rest) => Ok::<Seq<PositionReportView>, DriverError>(aggregator@ + rest),
                Err(error) => Err(error),
            }),
        decreases steps.len() - writer.cursor(),
    {
        let ghost at = writer.cursor() as int;
        let ghost done = writer.positions_done() as int;
        let action = writer.next(positions);
        proof {
            lemma_positions_done_bound(writer, positions@.len() as nat);
            assert(steps.take(at + 1).drop_last() == steps.take(at));
            assert(steps.take(at + 1).last() == action@);
        }
        match action {
            WriterAction::Send(command) => {
                let line = write_message(&command);
                let ghost before = commands@;
                commands.push(line);
                assert(texts(commands@) =~= texts(before).push(line@));
            },
            WriterAction::Flush => {},
            WriterAction::AwaitSignal => {
                let index = aggregator.len();
                let ghost so_far = aggregator@;
                assert(index < positions@.len());
                match read_all_evals(lines, cursor) {
                    Err(error) => {
                        return Err(DriverError::Protocol { index, error });
                    },
                    Ok((triple, next)) => {
                        assert(all[index as int] == positions@[index as int]@);
                        match aggregator.complete_position(positions[index].as_str(), &triple) {
                            Err(error) => {
                                return Err(error);
                            },
                            Ok(()) => {
                                proof {
                                    lemma_session_step(
                                        all,
                                        output,
                                        done,
                                        cursor as int,
                                        so_far,
                                    );
                                }
                                cursor = next;
                                signal.raise();
                            },
                        }
                    },
                }
                let taken = signal.try_consume();
                assert(taken);
            },
            WriterAction::Finished => {},
        }
    }
    proof {
        lemma_finished_writer(writer, all);
        assert(steps.take(steps.len() as int) == steps);
        lemma_reports_follow_positions(all, output, 0, 0);
    }
    let reports = aggregator.into_reports();
    assert(report_views(reports@) + Seq::<PositionReportView>::empty() =~= report_views(reports@));
    assert forall|i: int| 0 <= i < positions@.len() implies (#[trigger] reports@[i]).position@
        == positions@[i]@ by {
        assert(report_views(reports@)[i].position == all[i]);
    }
    Ok(Session { commands, reports })
}

} // verus!
