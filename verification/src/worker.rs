//! The worker of one channel: what it does next, given what just happened.
//!
//! A worker owns one subscription. It waits for the subscription to stand,
//! then takes one message at a time: it builds the event, has the lambda
//! invoked with it, reports the outcome, and only then takes the next
//! message. A failure of the transport ends the worker; a failure of an
//! invocation does not.

use vstd::prelude::*;
use crate::invoke::InvokeResult;
use crate::message::{build_event, message_of};
use crate::mode::{delivers, Mode, SqsEvent};
use crate::pairs::ChannelLambdaPair;
use crate::text::join;

verus! {

/// Where a worker stands.
#[derive(Debug, Clone, Copy, PartialEq, Eq, Structural)]
pub enum WorkerState {
    /// The subscription does not stand yet.
    Connecting,
    /// Subscribed, and waiting for a message.
    Subscribed,
    /// A message was taken, and its invocation has not returned.
    Invoking,
    /// The transport failed. The worker takes nothing more.
    Stopped,
}

/// What happened on the worker's subscription, or to its invocation.
#[derive(Debug)]
pub enum WorkerEvent {
    /// The subscription stands.
    Subscribed,
    /// A message arrived.
    Message(String),
    /// The invocation was made, and this is what it reported.
    Invoked(InvokeResult),
    /// The invocation could not be made.
    InvokeFailed(String),
    /// The connection or the subscription failed.
    TransportFailed(String),
}

/// The mathematical content of a [`WorkerEvent`].
pub enum WorkerEventView {
    Subscribed,
    Message(Seq<char>),
    Invoked(bool),
    InvokeFailed(Seq<char>),
    TransportFailed(Seq<char>),
}

impl View for WorkerEvent {
    type V = WorkerEventView;

    open spec fn view(&self) -> WorkerEventView {
        match self {
            WorkerEvent::Subscribed => WorkerEventView::Subscribed,
            WorkerEvent::Message(raw) => WorkerEventView::Message(raw@),
            WorkerEvent::Invoked(result) => WorkerEventView::Invoked(result.success),
            WorkerEvent::InvokeFailed(reason) => WorkerEventView::InvokeFailed(reason@),
            WorkerEvent::TransportFailed(reason) => WorkerEventView::TransportFailed(reason@),
        }
    }
}

/// A line for the user.
#[derive(Debug, Clone)]
pub struct Report {
    pub line: String,
    /// Whether the line tells of a failure to act, and goes to the error stream.
    pub failure: bool,
}

/// The mathematical content of a [`Report`].
pub struct ReportView {
    pub line: Seq<char>,
    pub failure: bool,
}

impl View for Report {
    type V = ReportView;

    open spec fn view(&self) -> ReportView {
        ReportView { line: self.line@, failure: self.failure }
    }
}

/// What the worker wants done next.
#[derive(Debug)]
pub enum Command {
    /// Wait for the next message of the channel.
    Receive,
    /// Invoke the lambda with the event, and come back with the outcome.
    Invoke { lambda: String, event: SqsEvent },
    /// Nothing: the event was not awaited, and the worker goes on waiting
    /// for what it awaited before.
    Resume,
    /// End the worker.
    Stop,
}

/// What a [`Command`] is, without the content of the event it may carry.
#[derive(PartialEq, Eq, Structural)]
pub enum CommandKind {
    Receive,
    Invoke,
    Resume,
    Stop,
}

impl Command {
    /// Which command this is.
    pub open spec fn kind(self) -> CommandKind {
        match self {
            Command::Receive => CommandKind::Receive,
            Command::Invoke { .. } => CommandKind::Invoke,
            Command::Resume => CommandKind::Resume,
            Command::Stop => CommandKind::Stop,
        }
    }
}

/// What the worker answers to an event.
#[derive(Debug)]
pub struct Step {
    /// A line to show, if there is one.
    pub report: Option<Report>,
    /// What to do next.
    pub command: Command,
}

/// Whether the worker awaits `event` in `state`.
pub open spec fn awaited(state: WorkerState, event: WorkerEventView) -> bool {
    match (state, event) {
        (WorkerState::Stopped, _) => false,
        (_, WorkerEventView::TransportFailed(_)) => true,
        (WorkerState::Connecting, WorkerEventView::Subscribed) => true,
        (WorkerState::Subscribed, WorkerEventView::Message(_)) => true,
        (WorkerState::Invoking, WorkerEventView::Invoked(_)) => true,
        (WorkerState::Invoking, WorkerEventView::InvokeFailed(_)) => true,
        _ => false,
    }
}

/// Where the worker stands after `event`. An event that is not awaited
/// changes nothing.
pub open spec fn next_state(state: WorkerState, event: WorkerEventView) -> WorkerState {
    if !awaited(state, event) {
        state
    } else {
        match event {
            WorkerEventView::TransportFailed(_) => WorkerState::Stopped,
            WorkerEventView::Subscribed => WorkerState::Subscribed,
            WorkerEventView::Message(_) => WorkerState::Invoking,
            WorkerEventView::Invoked(_) => WorkerState::Subscribed,
            WorkerEventView::InvokeFailed(_) => WorkerState::Subscribed,
        }
    }
}

/// What the worker wants done after `event`.
pub open spec fn next_command(state: WorkerState, event: WorkerEventView) -> CommandKind {
    if state == WorkerState::Stopped {
        CommandKind::Stop
    } else if !awaited(state, event) {
        CommandKind::Resume
    } else {
        match event {
            WorkerEventView::TransportFailed(_) => CommandKind::Stop,
            WorkerEventView::Message(_) => CommandKind::Invoke,
            _ => CommandKind::Receive,
        }
    }
}

/// The words that stand before every line about a message: the channel, the
/// mode and the lambda.
pub open spec fn prompt_of(channel: Seq<char>, mode: Mode, lambda: Seq<char>) -> Seq<char> {
    "[srill "@ + channel + " ==("@ + mode.spec_name() + ")==> "@ + lambda + "]"@
}

/// The line that the worker shows after `event`, if any: the outcome of an
/// invocation, or the failure that ends the worker.
pub open spec fn next_report(
    channel: Seq<char>,
    mode: Mode,
    lambda: Seq<char>,
    state: WorkerState,
    event: WorkerEventView,
) -> Option<ReportView> {
    if !awaited(state, event) {
        None
    } else {
        match event {
            WorkerEventView::TransportFailed(reason) => Some(
                ReportView {
                    line: "Failed to subscribe to channel "@ + channel + ": "@ + reason,
                    failure: true,
                },
            ),
            WorkerEventView::Invoked(success) => Some(
                ReportView {
                    line: prompt_of(channel, mode, lambda) + if success {
                        " success"@
                    } else {
                        " failed"@
                    },
                    failure: false,
                },
            ),
            WorkerEventView::InvokeFailed(reason) => Some(
                ReportView {
                    line: prompt_of(channel, mode, lambda) + " Failed to invoke lambda: "@
                        + reason,
                    failure: true,
                },
            ),
            _ => None,
        }
    }
}

/// The view of a report that may be absent.
pub open spec fn report_view(report: Option<Report>) -> Option<ReportView> {
    match report {
        Some(r) => Some(r@),
        None => None,
    }
}

/// The worker of one channel.
#[derive(Debug)]
pub struct Worker {
    pub pair: ChannelLambdaPair,
    pub mode: Mode,
    pub state: WorkerState,
}

impl Worker {
    /// A worker for `pair` that has not subscribed yet.
    pub fn new(pair: ChannelLambdaPair, mode: Mode) -> (worker: Self)
        ensures
            worker.pair == pair,
            worker.mode == mode,
            worker.state == WorkerState::Connecting,
    {
        Worker { pair, mode, state: WorkerState::Connecting }
    }

    /// The words that stand before every line about a message of this worker.
    pub fn prompt(&self) -> (r: String)
        ensures
            r@ == prompt_of(self.pair.channel@, self.mode, self.pair.lambda@),
    {
        let r = join("[srill ", self.pair.channel.as_str());
        let r = join(r.as_str(), " ==(");
        let r = join(r.as_str(), self.mode.name().as_str());
        let r = join(r.as_str(), ")==> ");
        let r = join(r.as_str(), self.pair.lambda.as_str());
        join(r.as_str(), "]")
    }

    /// Takes an event and says what to do next.
    ///
    /// The worker awaits the subscription, then a message, then the outcome
    /// of that message's invocation, then the next message, and so on; a
    /// failure of the transport is awaited at any time and ends the worker.
    /// An event that is not awaited is passed over.
    pub fn handle(&mut self, event: WorkerEvent) -> (step: Step)
        ensures
            final(self).pair == old(self).pair,
            final(self).mode == old(self).mode,
            final(self).state == next_state(old(self).state, event@),
            step.command.kind() == next_command(old(self).state, event@),
            report_view(step.report) == next_report(
                old(self).pair.channel@,
                old(self).mode,
                old(self).pair.lambda@,
                old(self).state,
                event@,
            ),
            step.command matches Command::Invoke { lambda, event: built } ==> {
                &&& event@ matches WorkerEventView::Message(raw)
                &&& lambda@ == old(self).pair.lambda@
                &&& built@.len() == 1
                &&& delivers(built@[0], message_of(raw).body, message_of(raw).message_attributes)
            },
    {
        match self.state {
            WorkerState::Stopped => {
                return Step { report: None, command: Command::Stop };
            },
            _ => {},
        }
        match (self.state, event) {
            (_, WorkerEvent::TransportFailed(reason)) => {
                let line = join("Failed to subscribe to channel ", self.pair.channel.as_str());
                let line = join(line.as_str(), ": ");
                let line = join(line.as_str(), reason.as_str());
                self.state = WorkerState::Stopped;
                Step { report: Some(Report { line, failure: true }), command: Command::Stop }
            },
            (WorkerState::Connecting, WorkerEvent::Subscribed) => {
                self.state = WorkerState::Subscribed;
                Step { report: None, command: Command::Receive }
            },
            (WorkerState::Subscribed, WorkerEvent::Message(raw)) => {
                let event = build_event(raw.as_str(), self.mode);
                self.state = WorkerState::Invoking;
                Step {
                    report: None,
                    command: Command::Invoke { lambda: self.pair.lambda.clone(), event },
                }
            },
            (WorkerState::Invoking, WorkerEvent::Invoked(result)) => {
                let prompt = self.prompt();
                let line = if result.success {
                    join(prompt.as_str(), " success")
                } else {
                    join(prompt.as_str(), " failed")
                };
                self.state = WorkerState::Subscribed;
                Step { report: Some(Report { line, failure: false }), command: Command::Receive }
            },
            (WorkerState::Invoking, WorkerEvent::InvokeFailed(reason)) => {
                let prompt = self.prompt();
                let line = join(prompt.as_str(), " Failed to invoke lambda: ");
                let line = join(line.as_str(), reason.as_str());
                self.state = WorkerState::Subscribed;
                Step { report: Some(Report { line, failure: true }), command: Command::Receive }
            },
            _ => Step { report: None, command: Command::Resume },
        }
    }
}

/// Where the worker stands after it has taken `events` one after another.
pub open spec fn state_after(state: WorkerState, events: Seq<WorkerEventView>) -> WorkerState
    decreases events.len(),
{
    if events.len() == 0 {
        state
    } else {
        state_after(next_state(state, events[0]), events.drop_first())
    }
}

/// The messages for which the worker has the lambda invoked, in the order of
/// the invocations, as it takes `events` one after another.
pub open spec fn invocations(state: WorkerState, events: Seq<WorkerEventView>) -> Seq<Seq<char>>
    decreases events.len(),
{
    if events.len() == 0 {
        Seq::empty()
    } else {
        let later = invocations(next_state(state, events[0]), events.drop_first());
        match events[0] {
            WorkerEventView::Message(raw) => if next_command(state, events[0])
                == CommandKind::Invoke {
                seq![raw] + later
            } else {
                later
            },
            _ => later,
        }
    }
}

/// Whether `event` is the outcome of an invocation.
pub open spec fn is_outcome(event: WorkerEventView) -> bool {
    event is Invoked || event is InvokeFailed
}

/// What a subscribed worker sees when each message is followed by the
/// outcome of its invocation.
pub open spec fn one_at_a_time(
    messages: Seq<Seq<char>>,
    outcomes: Seq<WorkerEventView>,
) -> Seq<WorkerEventView>
    decreases messages.len(),
{
    if messages.len() == 0 {
        Seq::empty()
    } else {
        seq![WorkerEventView::Message(messages[0]), outcomes[0]] + one_at_a_time(
            messages.drop_first(),
            outcomes.drop_first(),
        )
    }
}

/// Messages are invoked in the order in which they arrive: a subscribed
/// worker that sees each message followed by the outcome of its invocation,
/// whatever the outcomes are, has the lambda invoked for every message, once,
/// in the order of arrival, and is subscribed again at the end.
pub proof fn lemma_invocations_keep_order(
    messages: Seq<Seq<char>>,
    outcomes: Seq<WorkerEventView>,
)
    requires
        outcomes.len() == messages.len(),
        forall|i: int| 0 <= i < outcomes.len() ==> is_outcome(#[trigger] outcomes[i]),
    ensures
        invocations(WorkerState::Subscribed, one_at_a_time(messages, outcomes)) == messages,
        state_after(WorkerState::Subscribed, one_at_a_time(messages, outcomes))
            == WorkerState::Subscribed,
    decreases messages.len(),
{
    let events = one_at_a_time(messages, outcomes);
    if messages.len() > 0 {
        let later = one_at_a_time(messages.drop_first(), outcomes.drop_first());
        assert forall|i: int| 0 <= i < outcomes.drop_first().len() implies is_outcome(
            #[trigger] outcomes.drop_first()[i],
        ) by {
            assert(outcomes.drop_first()[i] == outcomes[i + 1]);
        }
        lemma_invocations_keep_order(messages.drop_first(), outcomes.drop_first());
        assert(is_outcome(outcomes[0]));
        assert(events[0] == WorkerEventView::Message(messages[0]));
        assert(events.drop_first()[0] == outcomes[0]);
        assert(events.drop_first().drop_first() =~= later);
        reveal_with_fuel(invocations, 3);
        reveal_with_fuel(state_after, 3);
        assert(invocations(WorkerState::Subscribed, events) =~= seq![messages[0]] + invocations(
            WorkerState::Subscribed,
            later,
        ));
        assert(seq![messages[0]] + messages.drop_first() =~= messages);
    } else {
        assert(messages =~= Seq::empty());
    }
}

/// No invocation starts while another has not returned: a message that comes
/// in between is passed over, and the worker keeps waiting for the outcome.
pub proof fn lemma_no_overlap(raw: Seq<char>)
    ensures
        next_command(WorkerState::Invoking, WorkerEventView::Message(raw)) == CommandKind::Resume,
        next_state(WorkerState::Invoking, WorkerEventView::Message(raw)) == WorkerState::Invoking,
        invocations(WorkerState::Invoking, seq![WorkerEventView::Message(raw)]) == Seq::<
            Seq<char>,
        >::empty(),
{
    reveal_with_fuel(invocations, 2);
    let events = seq![WorkerEventView::Message(raw)];
    assert(events.drop_first().len() == 0);
}

/// A failed invocation does not end the worker: it is subscribed afterwards
/// and takes the next message.
pub proof fn lemma_invocation_failure_is_survived(reason: Seq<char>, raw: Seq<char>)
    ensures
        next_state(WorkerState::Invoking, WorkerEventView::InvokeFailed(reason))
            == WorkerState::Subscribed,
        next_state(WorkerState::Invoking, WorkerEventView::Invoked(false))
            == WorkerState::Subscribed,
        next_command(WorkerState::Subscribed, WorkerEventView::Message(raw))
            == CommandKind::Invoke,
{
}

/// A failure of the transport ends the worker for good: whatever comes
/// after it, the worker stays stopped and has nothing invoked.
pub proof fn lemma_transport_failure_is_final(
    state: WorkerState,
    reason: Seq<char>,
    events: Seq<WorkerEventView>,
)
    ensures
        state_after(next_state(state, WorkerEventView::TransportFailed(reason)), events)
            == WorkerState::Stopped,
        invocations(next_state(state, WorkerEventView::TransportFailed(reason)), events)
            == Seq::<Seq<char>>::empty(),
    decreases events.len(),
{
    if events.len() > 0 {
        lemma_transport_failure_is_final(WorkerState::Stopped, reason, events.drop_first());
    }
}

} // verus!
