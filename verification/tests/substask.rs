use clash_tui::clash_config::{Connection, Subscription};
use clash_tui::substask::{Status, SubsTask};

fn subscription(name: &str) -> Subscription {
    Subscription { id: "1".to_string(), name: name.to_string(), url: "http://x".to_string() }
}

fn connection(tag: &str) -> Connection {
    Connection {
        conn_type: "shadowsocks".to_string(),
        tag: tag.to_string(),
        server: "s".to_string(),
        server_port: 1,
        method: "m".to_string(),
        password: "p".to_string(),
        tls: None,
    }
}

#[test]
fn new_task_is_ready_and_has_no_outcome() {
    let mut task = SubsTask::new();
    assert_eq!(task.status, Status::Ready);
    assert_eq!(task.result.msg, None);
    assert_eq!(task.result.subscription, Subscription::default());
    assert_eq!(task.result.connections, vec![]);
    assert_eq!(task.get_result(), None);
    assert_eq!(task.status, Status::Ready);
}

#[test]
fn fetch_runs_from_ready_to_working_to_finish_to_ready() {
    let mut task = SubsTask::new();
    assert!(task.begin());
    assert_eq!(task.status, Status::Working);
    assert_eq!(task.get_result(), None);
    assert_eq!(task.status, Status::Working);
    task.finish(Ok((subscription("a"), vec![connection("x")])));
    assert_eq!(task.status, Status::Finish);
    let outcome = task.get_result().unwrap();
    assert_eq!(outcome.msg, None);
    assert_eq!(outcome.subscription, subscription("a"));
    assert_eq!(outcome.connections, vec![connection("x")]);
    assert_eq!(task.status, Status::Ready);
    assert_eq!(task.get_result(), None);
}

#[test]
fn fetch_started_while_another_runs_is_finished_with_a_message() {
    let mut task = SubsTask::new();
    assert!(task.begin());
    assert!(!task.begin());
    assert_eq!(task.status, Status::Finish);
    let outcome = task.get_result().unwrap();
    assert_eq!(outcome.msg, Some("状态不正确: 不是READY".to_string()));
}

#[test]
fn failed_fetch_keeps_the_earlier_outcome_and_sets_the_message() {
    let mut task = SubsTask::new();
    task.begin();
    task.finish(Ok((subscription("a"), vec![connection("x")])));
    task.get_result();
    assert!(task.begin());
    task.finish(Err("timeout".to_string()));
    let outcome = task.get_result().unwrap();
    assert_eq!(outcome.msg, Some("timeout".to_string()));
    assert_eq!(outcome.subscription, subscription("a"));
    assert_eq!(outcome.connections, vec![connection("x")]);
}

#[test]
fn successful_fetch_clears_an_earlier_message() {
    let mut task = SubsTask::new();
    task.begin();
    task.finish(Err("timeout".to_string()));
    task.get_result();
    task.begin();
    task.finish(Ok((subscription("b"), vec![])));
    let outcome = task.get_result().unwrap();
    assert_eq!(outcome.msg, None);
    assert_eq!(outcome.subscription, subscription("b"));
}
