use clash_tui::page::stream_worker::RETRY_DELAY_SECONDS;
use clash_tui::page::{StreamWorker, WorkerAction, WorkerEvent, WorkerState, WsMsg};

fn is_failure(action: &WorkerAction<String>) -> bool {
    matches!(action, WorkerAction::Forward(WsMsg::ConnectFail(_)))
}

fn is_message(action: &WorkerAction<String>) -> bool {
    matches!(action, WorkerAction::Forward(WsMsg::Message(_)))
}

#[test]
fn three_failed_attempts_then_success_forward_three_failures_before_data() {
    let mut worker = StreamWorker::new();
    let mut actions: Vec<WorkerAction<String>> = worker.start();
    assert_eq!(actions, vec![WorkerAction::Connect]);
    for attempt in 0..3 {
        actions.extend(worker.on_event(WorkerEvent::ConnectFailed(format!("refused {}", attempt))));
        actions.extend(worker.on_event(WorkerEvent::TimerFired));
    }
    actions.extend(worker.on_event(WorkerEvent::Connected));
    actions.extend(worker.on_event(WorkerEvent::Received("payload".to_string())));
    let first_message = actions.iter().position(is_message).unwrap();
    let failures_before = actions[..first_message].iter().filter(|a| is_failure(a)).count();
    assert_eq!(failures_before, 3);
    assert_eq!(actions.iter().filter(|a| is_failure(a)).count(), 3);
    assert_eq!(actions.iter().filter(|a| matches!(a, WorkerAction::Connect)).count(), 4);
}

#[test]
fn failed_attempt_is_forwarded_before_the_wait() {
    let mut worker = StreamWorker::new();
    assert_eq!(
        worker.on_event::<String>(WorkerEvent::ConnectFailed("no route".to_string())),
        vec![
            WorkerAction::Forward(WsMsg::ConnectFail("no route".to_string())),
            WorkerAction::Sleep(1),
        ]
    );
    assert_eq!(RETRY_DELAY_SECONDS, 1);
    assert_eq!(worker.current(), WorkerState::Waiting);
    assert_eq!(worker.on_event::<String>(WorkerEvent::TimerFired), vec![WorkerAction::Connect]);
    assert_eq!(worker.current(), WorkerState::Connecting);
}

#[test]
fn open_stream_forwards_every_message_and_reads_on() {
    let mut worker = StreamWorker::new();
    assert_eq!(worker.on_event::<String>(WorkerEvent::Connected), vec![WorkerAction::Read]);
    assert_eq!(worker.current(), WorkerState::Streaming);
    for text in ["a", "b"] {
        assert_eq!(
            worker.on_event(WorkerEvent::Received(text.to_string())),
            vec![WorkerAction::Forward(WsMsg::Message(text.to_string())), WorkerAction::Read]
        );
    }
    assert_eq!(worker.current(), WorkerState::Streaming);
}

#[test]
fn remote_close_is_reported_and_followed_by_a_new_attempt() {
    let mut worker = StreamWorker::new();
    worker.on_event::<String>(WorkerEvent::Connected);
    assert_eq!(
        worker.on_event::<String>(WorkerEvent::RemoteClosed),
        vec![WorkerAction::Forward(WsMsg::Closed), WorkerAction::Sleep(1)]
    );
    assert_eq!(worker.on_event::<String>(WorkerEvent::TimerFired), vec![WorkerAction::Connect]);
}

#[test]
fn read_failure_is_reported_and_followed_by_a_new_attempt() {
    let mut worker = StreamWorker::new();
    worker.on_event::<String>(WorkerEvent::Connected);
    assert_eq!(
        worker.on_event::<String>(WorkerEvent::ReadFailed("reset".to_string())),
        vec![WorkerAction::Forward(WsMsg::ConnectFail("reset".to_string())), WorkerAction::Sleep(1)]
    );
    assert_eq!(worker.current(), WorkerState::Waiting);
}

#[test]
fn cancellation_stops_the_worker_in_every_state() {
    let mut connecting = StreamWorker::new();
    assert_eq!(connecting.on_event::<String>(WorkerEvent::Cancelled), vec![]);
    assert!(connecting.is_stopped());

    let mut streaming = StreamWorker::new();
    streaming.on_event::<String>(WorkerEvent::Connected);
    assert_eq!(
        streaming.on_event::<String>(WorkerEvent::Cancelled),
        vec![WorkerAction::CloseSocket]
    );
    assert!(streaming.is_stopped());

    let mut waiting = StreamWorker::new();
    waiting.on_event::<String>(WorkerEvent::ConnectFailed("x".to_string()));
    assert_eq!(waiting.on_event::<String>(WorkerEvent::Cancelled), vec![]);
    assert!(waiting.is_stopped());
}

#[test]
fn stopped_worker_does_nothing_more() {
    let mut worker = StreamWorker::new();
    worker.on_event::<String>(WorkerEvent::Cancelled);
    assert_eq!(worker.on_event::<String>(WorkerEvent::Connected), vec![]);
    assert_eq!(worker.on_event(WorkerEvent::Received("late".to_string())), vec![]);
    assert_eq!(worker.on_event::<String>(WorkerEvent::TimerFired), vec![]);
    assert_eq!(worker.on_event::<String>(WorkerEvent::ConnectFailed("x".to_string())), vec![]);
    assert!(worker.is_stopped());
}

#[test]
fn event_that_does_not_belong_to_the_state_changes_nothing() {
    let mut worker = StreamWorker::new();
    assert_eq!(worker.on_event::<String>(WorkerEvent::TimerFired), vec![]);
    assert_eq!(worker.on_event(WorkerEvent::Received("early".to_string())), vec![]);
    assert_eq!(worker.current(), WorkerState::Connecting);
    worker.on_event::<String>(WorkerEvent::Connected);
    assert_eq!(worker.on_event::<String>(WorkerEvent::Connected), vec![]);
    assert_eq!(worker.current(), WorkerState::Streaming);
}
