use srill::invoke::InvokeResult;
use srill::mode::Mode;
use srill::pairs::ChannelLambdaPair;
use srill::resolve::ResolvedConfig;
use srill::supervisor::{startup_lines, Supervisor};
use srill::text::{join, decimal, same_text};
use srill::worker::{Command, Worker, WorkerEvent, WorkerState};

fn pair(channel: &str, lambda: &str) -> ChannelLambdaPair {
    ChannelLambdaPair { channel: channel.to_string(), lambda: lambda.to_string() }
}

fn config(pairs: Vec<ChannelLambdaPair>) -> ResolvedConfig {
    ResolvedConfig { redis_url: "redis://localhost:6379".to_string(), mode: Mode::Sqs, pairs }
}

fn subscribed(channel: &str, lambda: &str) -> Worker {
    let mut worker = Worker::new(pair(channel, lambda), Mode::Sqs);
    let step = worker.handle(WorkerEvent::Subscribed);
    assert!(matches!(step.command, Command::Receive));
    assert!(step.report.is_none());
    worker
}

#[test]
fn worker_starts_unsubscribed() {
    let worker = Worker::new(pair("c", "l"), Mode::Sqs);
    assert_eq!(worker.state, WorkerState::Connecting);
    assert_eq!(worker.prompt(), "[srill c ==(sqs)==> l]");
}

#[test]
fn messages_are_invoked_in_the_order_of_arrival() {
    let mut worker = subscribed("c", "l");
    let mut bodies = Vec::new();
    for raw in ["a", "b"] {
        let step = worker.handle(WorkerEvent::Message(raw.to_string()));
        assert!(step.report.is_none());
        match step.command {
            Command::Invoke { lambda, event } => {
                assert_eq!(lambda, "l");
                assert_eq!(event.records.len(), 1);
                bodies.push(event.records[0].body.clone());
            }
            _ => panic!("an invocation was expected"),
        }
        assert_eq!(worker.state, WorkerState::Invoking);
        let step = worker.handle(WorkerEvent::Invoked(InvokeResult { success: true }));
        assert!(matches!(step.command, Command::Receive));
        assert_eq!(worker.state, WorkerState::Subscribed);
    }
    assert_eq!(bodies, vec!["a".to_string(), "b".to_string()]);
}

#[test]
fn no_invocation_starts_while_another_runs() {
    let mut worker = subscribed("c", "l");
    let step = worker.handle(WorkerEvent::Message("a".to_string()));
    assert!(matches!(step.command, Command::Invoke { .. }));
    let step = worker.handle(WorkerEvent::Message("b".to_string()));
    assert!(matches!(step.command, Command::Resume));
    assert!(step.report.is_none());
    assert_eq!(worker.state, WorkerState::Invoking);
}

#[test]
fn outcome_of_an_invocation_is_reported() {
    let mut worker = subscribed("chan", "fn");
    worker.handle(WorkerEvent::Message("a".to_string()));
    let step = worker.handle(WorkerEvent::Invoked(InvokeResult { success: true }));
    let report = step.report.unwrap();
    assert_eq!(report.line, "[srill chan ==(sqs)==> fn] success");
    assert!(!report.failure);
    worker.handle(WorkerEvent::Message("b".to_string()));
    let step = worker.handle(WorkerEvent::Invoked(InvokeResult { success: false }));
    let report = step.report.unwrap();
    assert_eq!(report.line, "[srill chan ==(sqs)==> fn] failed");
    assert!(!report.failure);
    assert!(matches!(step.command, Command::Receive));
}

#[test]
fn invocation_that_cannot_be_made_is_survived() {
    let mut worker = subscribed("chan", "fn");
    worker.handle(WorkerEvent::Message("a".to_string()));
    let step = worker.handle(WorkerEvent::InvokeFailed("no such file".to_string()));
    let report = step.report.unwrap();
    assert_eq!(report.line, "[srill chan ==(sqs)==> fn] Failed to invoke lambda: no such file");
    assert!(report.failure);
    assert!(matches!(step.command, Command::Receive));
    assert_eq!(worker.state, WorkerState::Subscribed);
    let step = worker.handle(WorkerEvent::Message("b".to_string()));
    assert!(matches!(step.command, Command::Invoke { .. }));
}

#[test]
fn transport_failure_ends_the_worker() {
    let mut worker = Worker::new(pair("chan", "fn"), Mode::Sqs);
    let step = worker.handle(WorkerEvent::TransportFailed("refused".to_string()));
    let report = step.report.unwrap();
    assert_eq!(report.line, "Failed to subscribe to channel chan: refused");
    assert!(report.failure);
    assert!(matches!(step.command, Command::Stop));
    assert_eq!(worker.state, WorkerState::Stopped);
    let step = worker.handle(WorkerEvent::Message("a".to_string()));
    assert!(matches!(step.command, Command::Stop));
    assert!(step.report.is_none());
    let step = worker.handle(WorkerEvent::TransportFailed("again".to_string()));
    assert!(matches!(step.command, Command::Stop));
    assert!(step.report.is_none());
    assert_eq!(worker.state, WorkerState::Stopped);
}

#[test]
fn transport_failure_after_subscription_ends_the_worker() {
    let mut worker = subscribed("chan", "fn");
    let step = worker.handle(WorkerEvent::TransportFailed("closed".to_string()));
    assert_eq!(step.report.unwrap().line, "Failed to subscribe to channel chan: closed");
    assert!(matches!(step.command, Command::Stop));
    assert_eq!(worker.state, WorkerState::Stopped);
}

#[test]
fn events_that_are_not_awaited_are_passed_over() {
    let mut worker = Worker::new(pair("c", "l"), Mode::Sqs);
    let step = worker.handle(WorkerEvent::Message("early".to_string()));
    assert!(matches!(step.command, Command::Resume));
    assert_eq!(worker.state, WorkerState::Connecting);
    let step = worker.handle(WorkerEvent::Invoked(InvokeResult { success: true }));
    assert!(matches!(step.command, Command::Resume));
    assert!(step.report.is_none());
    let mut worker = subscribed("c", "l");
    let step = worker.handle(WorkerEvent::Subscribed);
    assert!(matches!(step.command, Command::Resume));
    let step = worker.handle(WorkerEvent::InvokeFailed("x".to_string()));
    assert!(matches!(step.command, Command::Resume));
    assert!(step.report.is_none());
    assert_eq!(worker.state, WorkerState::Subscribed);
}

#[test]
fn failure_of_one_worker_leaves_the_others_running() {
    let mut supervisor = Supervisor::new(&config(vec![pair("c0", "l0"), pair("c1", "l1")]));
    assert_eq!(supervisor.workers.len(), 2);
    assert!(supervisor.handle(0, WorkerEvent::Subscribed).is_some());
    assert!(supervisor.handle(1, WorkerEvent::Subscribed).is_some());
    let step = supervisor.handle(0, WorkerEvent::TransportFailed("lost".to_string())).unwrap();
    assert!(matches!(step.command, Command::Stop));
    assert_eq!(supervisor.workers[0].state, WorkerState::Stopped);
    assert_eq!(supervisor.workers[1].state, WorkerState::Subscribed);
    assert!(!supervisor.all_stopped());
    let step = supervisor.handle(1, WorkerEvent::Message("m".to_string())).unwrap();
    match step.command {
        Command::Invoke { lambda, event } => {
            assert_eq!(lambda, "l1");
            assert_eq!(event.records[0].body, "m");
        }
        _ => panic!("an invocation was expected"),
    }
    let step = supervisor.handle(0, WorkerEvent::Message("m".to_string())).unwrap();
    assert!(matches!(step.command, Command::Stop));
}

#[test]
fn supervisor_has_one_worker_for_each_pair() {
    let supervisor =
        Supervisor::new(&config(vec![pair("c", "l1"), pair("d", "l2"), pair("c", "l1")]));
    let seen: Vec<(&str, &str, WorkerState)> = supervisor
        .workers
        .iter()
        .map(|w| (w.pair.channel.as_str(), w.pair.lambda.as_str(), w.state))
        .collect();
    assert_eq!(
        seen,
        vec![
            ("c", "l1", WorkerState::Connecting),
            ("d", "l2", WorkerState::Connecting),
            ("c", "l1", WorkerState::Connecting),
        ]
    );
    assert!(!supervisor.all_stopped());
}

#[test]
fn supervisor_knows_no_worker_beyond_its_pairs() {
    let mut supervisor = Supervisor::new(&config(vec![pair("c", "l")]));
    assert!(supervisor.handle(1, WorkerEvent::Subscribed).is_none());
    assert_eq!(supervisor.workers[0].state, WorkerState::Connecting);
    supervisor.handle(0, WorkerEvent::TransportFailed("x".to_string()));
    assert!(supervisor.all_stopped());
    assert!(Supervisor::new(&config(vec![])).all_stopped());
}

#[test]
fn startup_lines_list_every_pair() {
    let lines = startup_lines(&config(vec![pair("c1", "l1"), pair("c2", "l2")]));
    assert_eq!(
        lines,
        vec![
            "Starting srill with 2 channel(s):".to_string(),
            "  c1 => l1".to_string(),
            "  c2 => l2".to_string(),
        ]
    );
    assert_eq!(startup_lines(&config(vec![])), vec!["Starting srill with 0 channel(s):".to_string()]);
}

#[test]
fn numbers_are_written_in_decimal() {
    assert_eq!(decimal(0), "0");
    assert_eq!(decimal(7), "7");
    assert_eq!(decimal(10), "10");
    assert_eq!(decimal(1203), "1203");
    assert_eq!(decimal(usize::MAX), usize::MAX.to_string());
}

#[test]
fn texts_are_compared_by_their_characters() {
    assert!(same_text("", ""));
    assert!(same_text("sqs", "sqs"));
    assert!(!same_text("sqs", "sqS"));
    assert!(!same_text("sq", "sqs"));
    assert!(same_text("λ→", "λ→"));
    assert!(!same_text("é", "e"));
    assert_eq!(join("ab", "cd"), "abcd");
}
