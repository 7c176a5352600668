//! The supervisor: one worker for each pair, each on its own.

use vstd::prelude::*;
use crate::message::message_of;
use crate::mode::delivers;
use crate::pairs::{ChannelLambdaPair, PairView};
use crate::resolve::ResolvedConfig;
use crate::text::{decimal, decimal_of, join};
use crate::worker::{next_command, next_report, next_state, report_view};
use crate::worker::{Command, CommandKind, Step, Worker, WorkerEvent, WorkerEventView, WorkerState};

verus! {

/// The line that announces how many channels are bridged.
pub open spec fn heading_of(count: nat) -> Seq<char> {
    "Starting srill with "@ + decimal_of(count) + " channel(s):"@
}

/// The line that announces one pair.
pub open spec fn pair_line_of(pair: PairView) -> Seq<char> {
    "  "@ + pair.channel + " => "@ + pair.lambda
}

/// What is shown before the workers start: how many channels there are, and
/// then each channel with its lambda, in the order of the pairs.
pub open spec fn startup_lines_of(pairs: Seq<PairView>) -> Seq<Seq<char>> {
    seq![heading_of(pairs.len())] + pairs.map_values(|pair: PairView| pair_line_of(pair))
}

/// The lines to show before the workers start.
pub fn startup_lines(config: &ResolvedConfig) -> (lines: Vec<String>)
    ensures
        lines@.map_values(|line: String| line@) == startup_lines_of(config@.pairs),
{
    let mut lines: Vec<String> = Vec::new();
    let heading = join("Starting srill with ", decimal(config.pairs.len()).as_str());
    lines.push(join(heading.as_str(), " channel(s):"));
    let mut i: usize = 0;
    while i < config.pairs.len()
        invariant
            i <= config.pairs@.len(),
            lines@.len() == i + 1,
            lines@[0]@ == heading_of(config.pairs@.len()),
            forall|j: int| 0 <= j < i ==> (#[trigger] lines@[j + 1])@ == pair_line_of(config.pairs@[j]@),
        decreases config.pairs@.len() - i,
    {
        let pair = &config.pairs[i];
        let line = join("  ", pair.channel.as_str());
        let line = join(line.as_str(), " => ");
        lines.push(join(line.as_str(), pair.lambda.as_str()));
        i += 1;
    }
    proof {
        let shown = lines@.map_values(|line: String| line@);
        let expected = startup_lines_of(config@.pairs);
        assert(shown.len() == expected.len());
        assert forall|k: int| 0 <= k < shown.len() implies shown[k] == expected[k] by {
            if k > 0 {
                assert(lines@[(k - 1) + 1]@ == pair_line_of(config.pairs@[k - 1]@));
            }
        }
        assert(shown =~= expected);
    }
    lines
}

/// The workers of a bridge, one for each pair, in the order of the pairs.
#[derive(Debug)]
pub struct Supervisor {
    pub workers: Vec<Worker>,
}

/// Where each worker stands after worker `index` has taken `event`: that
/// worker moves, and no other does.
pub open spec fn states_after(
    states: Seq<WorkerState>,
    index: int,
    event: WorkerEventView,
) -> Seq<WorkerState> {
    if 0 <= index < states.len() {
        states.update(index, next_state(states[index], event))
    } else {
        states
    }
}

impl Supervisor {
    /// Where each worker stands.
    pub open spec fn states(&self) -> Seq<WorkerState> {
        self.workers@.map_values(|worker: Worker| worker.state)
    }

    /// The pair of each worker.
    pub open spec fn pairs(&self) -> Seq<PairView> {
        self.workers@.map_values(|worker: Worker| worker.pair@)
    }

    /// One worker for each pair of the configuration, none of them subscribed
    /// yet. Two pairs with the same channel get a worker each.
    pub fn new(config: &ResolvedConfig) -> (supervisor: Self)
        ensures
            supervisor.pairs() == config@.pairs,
            supervisor.workers@.len() == config.pairs@.len(),
            forall|i: int|
                0 <= i < supervisor.workers@.len() ==> {
                    &&& (#[trigger] supervisor.workers@[i]).state == WorkerState::Connecting
                    &&& supervisor.workers@[i].mode == config.mode
                },
    {
        let mut workers: Vec<Worker> = Vec::new();
        let mut i: usize = 0;
        while i < config.pairs.len()
            invariant
                i <= config.pairs@.len(),
                workers@.len() == i,
                forall|j: int|
                    0 <= j < i ==> {
                        &&& (#[trigger] workers@[j]).state == WorkerState::Connecting
                        &&& workers@[j].mode == config.mode
                        &&& workers@[j].pair@ == config.pairs@[j]@
                    },
            decreases config.pairs@.len() - i,
        {
            let pair = &config.pairs[i];
            let own = ChannelLambdaPair { channel: pair.channel.clone(), lambda: pair.lambda.clone() };
            workers.push(Worker::new(own, config.mode));
            i += 1;
        }
        let supervisor = Supervisor { workers };
        proof {
            assert(supervisor.pairs() =~= config@.pairs);
        }
        supervisor
    }

    /// Hands an event to the worker at `index` and returns its answer; `None`
    /// where there is no such worker. No other worker is touched.
    pub fn handle(&mut self, index: usize, event: WorkerEvent) -> (r: Option<Step>)
        ensures
            final(self).states() == states_after(old(self).states(), index as int, event@),
            final(self).pairs() == old(self).pairs(),
            final(self).workers@.len() == old(self).workers@.len(),
            forall|j: int|
                0 <= j < old(self).workers@.len() && j != index ==> final(self).workers@[j] == old(
                    self,
                ).workers@[j],
            r is Some <==> index < old(self).workers@.len(),
            r matches Some(step) ==> {
                let worker = old(self).workers@[index as int];
                &&& step.command.kind() == next_command(worker.state, event@)
                &&& report_view(step.report) == next_report(
                    worker.pair.channel@,
                    worker.mode,
                    worker.pair.lambda@,
                    worker.state,
                    event@,
                )
                &&& step.command matches Command::Invoke { lambda, event: built } ==> {
                    &&& event@ matches WorkerEventView::Message(raw)
                    &&& lambda@ == worker.pair.lambda@
                    &&& built@.len() == 1
                    &&& delivers(
                        built@[0],
                        message_of(raw).body,
                        message_of(raw).message_attributes,
                    )
                }
            },
    {
        if index >= self.workers.len() {
            return None;
        }
        let step = self.workers[index].handle(event);
        proof {
            assert(self.states() =~= states_after(old(self).states(), index as int, event@));
            assert(self.pairs() =~= old(self).pairs());
        }
        Some(step)
    }

    /// Whether every worker has stopped.
    pub fn all_stopped(&self) -> (r: bool)
        ensures
            r == forall|i: int|
                0 <= i < self.states().len() ==> self.states()[i] == WorkerState::Stopped,
    {
        let mut i: usize = 0;
        while i < self.workers.len()
            invariant
                i <= self.workers@.len(),
                forall|j: int| 0 <= j < i ==> self.states()[j] == WorkerState::Stopped,
            decreases self.workers@.len() - i,
        {
            if self.workers[i].state != WorkerState::Stopped {
                proof {
                    assert(self.states()[i as int] != WorkerState::Stopped);
                }
                return false;
            }
            i += 1;
        }
        true
    }
}

/// A failure of one worker's transport is that worker's alone: the worker
/// stops, every other worker stands where it stood, and one that is
/// subscribed still has the lambda invoked for the next message it takes.
pub proof fn lemma_failure_is_contained(
    states: Seq<WorkerState>,
    failed: int,
    other: int,
    reason: Seq<char>,
    raw: Seq<char>,
)
    requires
        0 <= failed < states.len(),
        0 <= other < states.len(),
        failed != other,
    ensures
        states_after(states, failed, WorkerEventView::TransportFailed(reason))[failed]
            == WorkerState::Stopped,
        states_after(states, failed, WorkerEventView::TransportFailed(reason))[other]
            == states[other],
        states[other] == WorkerState::Subscribed ==> {
            let after = states_after(states, failed, WorkerEventView::TransportFailed(reason));
            &&& next_command(after[other], WorkerEventView::Message(raw)) == CommandKind::Invoke
            &&& states_after(after, other, WorkerEventView::Message(raw))[other]
                == WorkerState::Invoking
        },
{
}

} // verus!
