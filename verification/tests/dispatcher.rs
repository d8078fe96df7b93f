use clash_tui::app::{App, CurrentPage, PageFrame};
use clash_tui::clash_api::{Connection, HistoryItem, LogItem, NameMap, ProxyData, ProxyItem};
use clash_tui::dispatcher::Dispatcher;
use clash_tui::my_event::{input_event, AppEvent, Command, KeyCode, KeyEvent, Request};
use clash_tui::page::connection_page::Instant;

fn node(name: &str, delay: i32) -> ProxyItem {
    ProxyItem {
        name: name.to_string(),
        all: vec![],
        now: String::new(),
        kind: "Shadowsocks".to_string(),
        history: vec![HistoryItem { time: "t".to_string(), delay }],
    }
}

fn group(name: &str, members: &[&str], now: &str) -> ProxyItem {
    ProxyItem {
        name: name.to_string(),
        all: members.iter().map(|m| m.to_string()).collect(),
        now: now.to_string(),
        kind: "Selector".to_string(),
        history: vec![],
    }
}

fn sample() -> ProxyData {
    let mut map = NameMap::new();
    for item in [
        group("GLOBAL", &["Proxy", "Video"], "Proxy"),
        group("Proxy", &["HK", "JP", "US"], "JP"),
        group("Video", &["US", "HK"], "HK"),
        node("HK", 120),
        node("JP", 80),
        node("US", 200),
    ] {
        map.insert(item.name.clone(), item);
    }
    ProxyData { proxies: map, providers: NameMap::new() }
}

fn key(code: KeyCode) -> AppEvent {
    AppEvent::Key(KeyEvent { code, control: false })
}

fn now() -> Instant {
    Instant { seconds: 1_704_067_200, nanos: 0 }
}

fn log(text: &str) -> AppEvent {
    AppEvent::Log(LogItem { kind: "info".to_string(), payload: text.to_string() })
}

fn settle(dispatcher: &mut Dispatcher) -> Vec<Request> {
    let mut requests = Vec::new();
    while dispatcher.pending() > 0 {
        requests.extend(dispatcher.drain_at(now()).requests);
    }
    requests
}

fn run(events: Vec<AppEvent>) -> Dispatcher {
    let mut dispatcher = Dispatcher::new();
    for event in events {
        dispatcher.submit(event);
    }
    settle(&mut dispatcher);
    dispatcher
}

fn summary(dispatcher: &Dispatcher) -> (CurrentPage, String, Vec<(&'static str, &'static str)>, Option<usize>, Vec<String>, bool) {
    let app = dispatcher.app();
    (
        app.current_page(),
        app.status().to_string(),
        app.menu().clone(),
        app.group_page().table().selected(),
        app.log_page().inner().log().lines().clone(),
        app.has_quit(),
    )
}

#[test]
fn dashboard_starts_on_the_group_page() {
    let mut app = App::new();
    assert_eq!(app.current_page(), CurrentPage::Group);
    assert_eq!(app.status(), "就绪");
    assert_eq!(app.status_width(), 4);
    assert_eq!(app.menu()[0], ("CTRL-M", "模式:RULE"));
    assert!(!app.has_quit());
    assert_eq!(app.start(), vec![Command::Ask(Request::LoadProxies)]);
}

#[test]
fn returning_to_a_group_keeps_its_cursor() {
    let mut dispatcher = run(vec![
        AppEvent::ProxyLoaded(sample()),
        key(KeyCode::Down),
        key(KeyCode::Enter),
    ]);
    let app = dispatcher.app();
    assert_eq!(app.current_page(), CurrentPage::GroupItem);
    assert_eq!(app.group_item_page().table().rows()[0][0], "US");
    let first_visit = app.group_item_page().table().selected();
    assert_eq!(first_visit, Some(1));
    assert_eq!(app.group_page().table().selected(), Some(1));

    dispatcher.submit(key(KeyCode::Esc));
    settle(&mut dispatcher);
    assert_eq!(dispatcher.app().current_page(), CurrentPage::Group);
    assert_eq!(dispatcher.app().group_page().table().selected(), Some(1));
    assert_eq!(dispatcher.app().group_page().table().current_row().unwrap()[0], "Video");

    dispatcher.submit(key(KeyCode::Enter));
    settle(&mut dispatcher);
    assert_eq!(dispatcher.app().current_page(), CurrentPage::GroupItem);
    assert_eq!(dispatcher.app().group_item_page().table().selected(), first_visit);
    assert_eq!(dispatcher.app().menu(), &vec![("CTRL-T", "测速"), ("ENTER", "选择"), ("ESC", "返回")]);
}

#[test]
fn opening_a_group_selects_its_chosen_member() {
    let dispatcher = run(vec![AppEvent::ProxyLoaded(sample()), key(KeyCode::Enter)]);
    assert_eq!(dispatcher.app().group_item_page().table().selected(), Some(1));
    assert_eq!(dispatcher.app().group_item_page().table().current_row().unwrap()[0], "JP");
}

#[test]
fn confirming_a_member_asks_to_choose_it_and_returns_to_the_groups() {
    let mut dispatcher = run(vec![AppEvent::ProxyLoaded(sample()), key(KeyCode::Enter)]);
    dispatcher.submit(key(KeyCode::Up));
    dispatcher.submit(key(KeyCode::Enter));
    let requests = settle(&mut dispatcher);
    assert_eq!(
        requests,
        vec![Request::SelectMember { group: "Proxy".to_string(), member: "HK".to_string() }]
    );
    assert_eq!(dispatcher.app().current_page(), CurrentPage::Group);
}

#[test]
fn events_are_applied_in_submission_order() {
    let first = run(vec![
        AppEvent::Status("one".to_string()),
        AppEvent::Status("two".to_string()),
        log("a"),
        log("b"),
    ]);
    assert_eq!(first.app().status(), "two");
    assert_eq!(first.app().log_page().inner().log().lines(), &vec!["a".to_string(), "b".to_string()]);
    let second = run(vec![
        log("b"),
        AppEvent::Status("two".to_string()),
        log("a"),
        AppEvent::Status("one".to_string()),
    ]);
    assert_eq!(second.app().status(), "one");
    assert_eq!(second.app().log_page().inner().log().lines(), &vec!["b".to_string(), "a".to_string()]);
}

#[test]
fn one_batch_ends_where_single_steps_end() {
    let events = || {
        vec![
            AppEvent::ProxyLoaded(sample()),
            key(KeyCode::Down),
            AppEvent::ModeChanged("Global".to_string()),
            log("x"),
            AppEvent::ShowLogPage,
            log("y"),
            key(KeyCode::Char('/')),
            key(KeyCode::Char('y')),
            key(KeyCode::Enter),
            AppEvent::Status("done".to_string()),
        ]
    };
    let mut batched = Dispatcher::new();
    for event in events() {
        batched.submit(event);
    }
    let mut batched_requests = Vec::new();
    let mut batched_redraw = false;
    while batched.pending() > 0 {
        let drained = batched.drain_at(now());
        batched_requests.extend(drained.requests);
        batched_redraw |= drained.redraw;
    }

    let mut stepped = Dispatcher::new();
    let mut stepped_requests = Vec::new();
    let mut stepped_redraw = false;
    for event in events() {
        stepped.submit(event);
        while stepped.pending() > 0 {
            let drained = stepped.step_at(now());
            stepped_requests.extend(drained.requests);
            stepped_redraw |= drained.redraw;
        }
    }
    assert_eq!(summary(&batched), summary(&stepped));
    assert_eq!(batched_requests, stepped_requests);
    assert_eq!(batched_requests, vec![Request::StartLogStream]);
    assert!(batched_redraw && stepped_redraw);
    assert_eq!(batched.app().current_page(), CurrentPage::Log);
    assert_eq!(batched.app().status(), "done");
}

#[test]
fn events_given_rise_to_wait_at_the_back() {
    let mut dispatcher = Dispatcher::new();
    dispatcher.submit(AppEvent::ProxyLoaded(sample()));
    dispatcher.submit(key(KeyCode::Char('l')));
    dispatcher.submit(AppEvent::Status("after key".to_string()));
    assert_eq!(dispatcher.pending(), 3);
    let drained = dispatcher.drain_at(now());
    assert_eq!(drained.requests, vec![]);
    assert!(drained.redraw);
    assert_eq!(dispatcher.pending(), 1);
    assert_eq!(dispatcher.app().current_page(), CurrentPage::Group);
    assert_eq!(dispatcher.app().status(), "after key");
    let drained = dispatcher.drain_at(now());
    assert_eq!(drained.requests, vec![Request::StartLogStream]);
    assert_eq!(dispatcher.pending(), 0);
    assert_eq!(dispatcher.app().current_page(), CurrentPage::Log);
}

#[test]
fn step_without_waiting_event_does_nothing() {
    let mut dispatcher = Dispatcher::new();
    let drained = dispatcher.step_at(now());
    assert_eq!(drained.requests, vec![]);
    assert!(!drained.redraw);
    let drained = dispatcher.drain();
    assert_eq!(drained.requests, vec![]);
    assert!(!drained.redraw);
}

#[test]
fn key_press_alone_asks_for_no_redraw() {
    let mut dispatcher = Dispatcher::new();
    dispatcher.submit(key(KeyCode::Down));
    let drained = dispatcher.step_at(now());
    assert!(!drained.redraw);
    assert_eq!(dispatcher.pending(), 1);
    let drained = dispatcher.step_at(now());
    assert!(drained.redraw);
}

#[test]
fn quit_stops_the_workers_and_ends_the_dashboard() {
    let mut dispatcher = run(vec![AppEvent::ShowConnection]);
    dispatcher.submit(key(KeyCode::Esc));
    dispatcher.submit(AppEvent::Status("late".to_string()));
    let requests = settle(&mut dispatcher);
    assert_eq!(requests, vec![Request::StopLogStream, Request::StopConnectionStream]);
    assert!(dispatcher.app().has_quit());
    assert_eq!(dispatcher.app().status(), "late");
    dispatcher.submit(AppEvent::Status("ignored".to_string()));
    dispatcher.submit(AppEvent::ShowLogPage);
    assert_eq!(settle(&mut dispatcher), vec![]);
    assert_eq!(dispatcher.app().status(), "late");
    assert_eq!(dispatcher.app().current_page(), CurrentPage::Connection);
}

#[test]
fn opening_and_leaving_the_streams_starts_and_stops_their_workers() {
    let mut dispatcher = Dispatcher::new();
    dispatcher.submit(key(KeyCode::Char('l')));
    assert_eq!(settle(&mut dispatcher), vec![Request::StartLogStream]);
    assert_eq!(dispatcher.app().current_page(), CurrentPage::Log);
    dispatcher.submit(log("kept until leaving"));
    dispatcher.submit(key(KeyCode::Char('c')));
    assert_eq!(
        settle(&mut dispatcher),
        vec![Request::StopLogStream, Request::StartConnectionStream]
    );
    assert_eq!(dispatcher.app().current_page(), CurrentPage::Connection);
    assert_eq!(dispatcher.app().log_page().inner().log().len(), 0);
    dispatcher.submit(key(KeyCode::Char('p')));
    assert_eq!(settle(&mut dispatcher), vec![Request::StopConnectionStream]);
    assert_eq!(dispatcher.app().current_page(), CurrentPage::Group);
    assert_eq!(dispatcher.app().status(), "就绪");
}

#[test]
fn mode_change_updates_the_menu_only_on_the_group_page() {
    let dispatcher = run(vec![AppEvent::ModeChanged("DIRECT".to_string())]);
    assert_eq!(dispatcher.app().menu()[0], ("CTRL-M", "模式:DIRECT"));
    let dispatcher = run(vec![AppEvent::ShowLogPage, AppEvent::ModeChanged("direct".to_string())]);
    assert_eq!(dispatcher.app().menu()[0], ("<Space>", "暂停"));
    let dispatcher = run(vec![
        AppEvent::ShowLogPage,
        AppEvent::ModeChanged("direct".to_string()),
        AppEvent::ShowGroupPage,
    ]);
    assert_eq!(dispatcher.app().menu()[0], ("CTRL-M", "模式:DIRECT"));
}

#[test]
fn status_message_brings_back_the_menu_of_the_page() {
    let dispatcher = run(vec![
        AppEvent::ShowLogPage,
        AppEvent::SetMenu(vec![("X", "y")]),
    ]);
    assert_eq!(dispatcher.app().menu(), &vec![("X", "y")]);
    let dispatcher = run(vec![
        AppEvent::ShowLogPage,
        AppEvent::SetMenu(vec![("X", "y")]),
        AppEvent::Status("s".to_string()),
    ]);
    assert_eq!(dispatcher.app().menu()[0], ("<Space>", "暂停"));
    let dispatcher = run(vec![
        AppEvent::ProxyLoaded(sample()),
        AppEvent::ShowGroupItemPage("Proxy".to_string()),
        AppEvent::SetMenu(vec![("X", "y")]),
        AppEvent::Status("s".to_string()),
    ]);
    assert_eq!(
        dispatcher.app().menu(),
        &vec![("CTRL-T", "测速"), ("ENTER", "选择"), ("ESC", "返回")]
    );
    let dispatcher = run(vec![
        AppEvent::ModeChanged("global".to_string()),
        AppEvent::SetMenu(vec![("X", "y")]),
        AppEvent::Status("s".to_string()),
    ]);
    assert_eq!(dispatcher.app().menu()[0], ("CTRL-M", "模式:GLOBAL"));
}

#[test]
fn data_without_the_root_is_reported_in_the_status_line() {
    let mut proxies = NameMap::new();
    proxies.insert("HK".to_string(), node("HK", 5));
    let rootless = ProxyData { proxies, providers: NameMap::new() };
    let dispatcher = run(vec![AppEvent::ProxyLoaded(rootless)]);
    assert_eq!(dispatcher.app().status(), "加载数据出错: 代理不存在: GLOBAL");
    assert_eq!(dispatcher.app().group_page().table().rows().len(), 0);
}

#[test]
fn data_for_a_page_that_is_not_shown_is_kept_for_later() {
    let dispatcher = run(vec![
        AppEvent::ShowLogPage,
        AppEvent::ProxyLoaded(sample()),
        AppEvent::ShowGroupItemPage("Video".to_string()),
    ]);
    assert_eq!(dispatcher.app().group_page().table().rows().len(), 0);
    assert_eq!(dispatcher.app().group_item_page().table().rows().len(), 2);
    assert_eq!(dispatcher.app().group_item_page().table().selected(), Some(1));
}

#[test]
fn opening_a_group_without_data_shows_an_empty_page() {
    let dispatcher = run(vec![AppEvent::ShowGroupItemPage("Proxy".to_string())]);
    assert_eq!(dispatcher.app().current_page(), CurrentPage::GroupItem);
    assert_eq!(dispatcher.app().group_item_page().table().rows().len(), 0);
}

#[test]
fn opening_a_missing_group_reports_it() {
    let dispatcher = run(vec![
        AppEvent::ProxyLoaded(sample()),
        AppEvent::ShowGroupItemPage("Nope".to_string()),
    ]);
    assert_eq!(dispatcher.app().status(), "加载数据出错: 代理不存在: Nope");
}

#[test]
fn connection_snapshot_sets_the_status_line() {
    let dispatcher = run(vec![AppEvent::Connection(Connection {
        connections: vec![],
        download_total: 2048,
        upload_total: 0,
    })]);
    assert_eq!(dispatcher.app().status(), "下载速度:0 B|上传速度:0 B|总下载:2 KiB|总上传:0 B");
}

#[test]
fn handle_reads_the_clock() {
    let mut app = App::new();
    let outcome = app.handle(AppEvent::Status("x".to_string()));
    assert!(outcome.redraw);
    assert_eq!(outcome.commands, vec![]);
    assert_eq!(app.status(), "x");
    let outcome = app.handle_at(AppEvent::Draw, now());
    assert!(outcome.redraw);
}

#[test]
fn drawing_prepares_the_page_that_is_shown() {
    let mut dispatcher = run(vec![AppEvent::ProxyLoaded(sample())]);
    let screen = dispatcher.draw(80, 24);
    assert_eq!(screen.status_cells, 4);
    match screen.page {
        PageFrame::Group(frame) => {
            assert_eq!(frame.widths.len(), 3);
            assert_eq!(frame.visible, vec![0, 1, 2]);
        }
        other => panic!("unexpected frame {:?}", other),
    }
    dispatcher.submit(AppEvent::ShowLogPage);
    dispatcher.submit(log("one two three four"));
    settle(&mut dispatcher);
    match dispatcher.draw(12, 6).page {
        PageFrame::Log(frame) => {
            assert_eq!(frame.filter_line, None);
            assert_eq!(frame.inner, vec!["one two".to_string(), "three four".to_string()]);
        }
        other => panic!("unexpected frame {:?}", other),
    }
    dispatcher.submit(AppEvent::ShowConnection);
    settle(&mut dispatcher);
    assert!(matches!(dispatcher.draw(80, 24).page, PageFrame::Connection(_)));
    dispatcher.submit(AppEvent::ShowGroupItemPage("Proxy".to_string()));
    settle(&mut dispatcher);
    match dispatcher.draw(80, 24).page {
        PageFrame::GroupItem(frame) => assert_eq!(frame.marked, vec![false, true, false]),
        other => panic!("unexpected frame {:?}", other),
    }
}

#[test]
fn run_applies_events_until_none_waits() {
    let mut dispatcher = Dispatcher::new();
    assert_eq!(dispatcher.start(), vec![Request::LoadProxies]);
    dispatcher.submit(AppEvent::ProxyLoaded(sample()));
    dispatcher.submit(key(KeyCode::Enter));
    dispatcher.submit(key(KeyCode::Char('l')));
    let drained = dispatcher.run_at(now());
    assert_eq!(dispatcher.pending(), 0);
    assert!(drained.redraw);
    assert_eq!(drained.requests, vec![Request::StartLogStream]);
    assert_eq!(dispatcher.app().current_page(), CurrentPage::Log);
    assert_eq!(dispatcher.app().group_item_page().table().selected(), Some(1));
}

#[test]
fn run_ends_where_repeated_batches_end() {
    let events = || {
        vec![
            AppEvent::ProxyLoaded(sample()),
            key(KeyCode::Down),
            key(KeyCode::Enter),
            key(KeyCode::Down),
            key(KeyCode::Enter),
            AppEvent::Status("s".to_string()),
            key(KeyCode::Char('c')),
        ]
    };
    let mut whole = Dispatcher::new();
    for event in events() {
        whole.submit(event);
    }
    let drained = whole.run_at(now());
    let batched = run(events());
    assert_eq!(summary(&whole), summary(&batched));
    assert_eq!(
        whole.app().group_item_page().table().selected(),
        batched.app().group_item_page().table().selected()
    );
    assert_eq!(whole.app().current_page(), CurrentPage::Connection);
    assert_eq!(drained.requests, vec![Request::StartConnectionStream]);
    assert_eq!(whole.app().group_page().table().selected(), Some(2));
    assert_eq!(whole.app().group_item_page().table().rows()[0][0], "Proxy");
}

#[test]
fn run_on_an_empty_queue_does_nothing() {
    let mut dispatcher = Dispatcher::new();
    let drained = dispatcher.run();
    assert_eq!(drained.requests, vec![]);
    assert!(!drained.redraw);
    assert_eq!(dispatcher.pending(), 0);
}

#[test]
fn run_after_quit_empties_the_queue_without_effect() {
    let mut dispatcher = Dispatcher::new();
    dispatcher.submit(AppEvent::Quit);
    dispatcher.submit(key(KeyCode::Char('l')));
    dispatcher.submit(AppEvent::Status("late".to_string()));
    let drained = dispatcher.run_at(now());
    assert_eq!(drained.requests, vec![Request::StopLogStream, Request::StopConnectionStream]);
    assert!(!drained.redraw);
    assert_eq!(dispatcher.pending(), 0);
    assert!(dispatcher.app().has_quit());
    assert_eq!(dispatcher.app().status(), "就绪");
    assert_eq!(dispatcher.app().current_page(), CurrentPage::Group);
}

#[test]
fn entering_a_stream_page_again_stops_its_worker_before_starting_a_new_one() {
    let mut dispatcher = Dispatcher::new();
    dispatcher.submit(AppEvent::ShowLogPage);
    assert_eq!(settle(&mut dispatcher), vec![Request::StartLogStream]);
    dispatcher.submit(AppEvent::ShowLogPage);
    assert_eq!(settle(&mut dispatcher), vec![Request::StopLogStream, Request::StartLogStream]);
    dispatcher.submit(AppEvent::ShowConnection);
    dispatcher.submit(AppEvent::ShowConnection);
    assert_eq!(
        settle(&mut dispatcher),
        vec![
            Request::StartConnectionStream,
            Request::StopConnectionStream,
            Request::StartConnectionStream,
        ]
    );
}

#[test]
fn no_stream_ever_has_two_workers() {
    let keys = [
        KeyCode::Char('l'),
        KeyCode::Char('c'),
        KeyCode::Char('l'),
        KeyCode::Char('p'),
        KeyCode::Char('c'),
        KeyCode::Char('p'),
        KeyCode::Char('l'),
        KeyCode::Char('/'),
        KeyCode::Char('p'),
        KeyCode::Enter,
        KeyCode::Char('P'),
        KeyCode::Char('c'),
        KeyCode::Esc,
    ];
    let mut dispatcher = Dispatcher::new();
    let mut log_live = false;
    let mut connection_live = false;
    for code in keys {
        dispatcher.submit(key(code));
        dispatcher.submit(AppEvent::ShowLogPage);
        for request in settle(&mut dispatcher) {
            match request {
                Request::StartLogStream => {
                    assert!(!log_live);
                    log_live = true;
                }
                Request::StopLogStream => log_live = false,
                Request::StartConnectionStream => {
                    assert!(!connection_live);
                    connection_live = true;
                }
                Request::StopConnectionStream => connection_live = false,
                _ => {}
            }
        }
    }
    assert!(dispatcher.app().has_quit());
    assert!(!log_live && !connection_live);
}

#[test]
fn control_c_quits_and_other_keys_go_to_the_page() {
    let control = |c: char| KeyEvent { code: KeyCode::Char(c), control: true };
    assert_eq!(input_event(control('c')), AppEvent::Quit);
    assert_eq!(input_event(control('C')), AppEvent::Quit);
    assert_eq!(input_event(control('m')), AppEvent::Key(control('m')));
    let plain = KeyEvent { code: KeyCode::Char('c'), control: false };
    assert_eq!(input_event(plain), AppEvent::Key(plain));
    let up = KeyEvent { code: KeyCode::Up, control: true };
    assert_eq!(input_event(up), AppEvent::Key(up));
}

#[test]
fn status_text_takes_one_cell_for_a_narrow_letter_and_two_for_a_wide_one() {
    let mut dispatcher = run(vec![AppEvent::Status("אב 就绪 ok".to_string())]);
    assert_eq!(dispatcher.app().status_width(), 10);
    assert_eq!(dispatcher.draw(80, 24).status_cells, 10);
}

#[test]
fn leaving_a_stream_page_leads_back_to_the_page_it_was_opened_from() {
    let mut dispatcher = run(vec![
        AppEvent::ProxyLoaded(sample()),
        key(KeyCode::Down),
        key(KeyCode::Enter),
    ]);
    dispatcher.submit(key(KeyCode::Up));
    settle(&mut dispatcher);
    assert_eq!(dispatcher.app().current_page(), CurrentPage::GroupItem);
    let cursor = dispatcher.app().group_item_page().table().selected();
    assert_eq!(cursor, Some(0));

    dispatcher.submit(key(KeyCode::Char('l')));
    settle(&mut dispatcher);
    assert_eq!(dispatcher.app().current_page(), CurrentPage::Log);
    dispatcher.submit(key(KeyCode::Char('p')));
    assert_eq!(settle(&mut dispatcher), vec![Request::StopLogStream]);
    assert_eq!(dispatcher.app().current_page(), CurrentPage::GroupItem);
    assert_eq!(dispatcher.app().group_item_page().table().selected(), cursor);
    assert_eq!(dispatcher.app().menu()[0], ("CTRL-T", "测速"));

    dispatcher.submit(key(KeyCode::Char('c')));
    settle(&mut dispatcher);
    assert_eq!(dispatcher.app().current_page(), CurrentPage::Connection);
    dispatcher.submit(key(KeyCode::Char('l')));
    settle(&mut dispatcher);
    assert_eq!(dispatcher.app().current_page(), CurrentPage::Log);
    dispatcher.submit(key(KeyCode::Char('P')));
    settle(&mut dispatcher);
    assert_eq!(dispatcher.app().current_page(), CurrentPage::GroupItem);
    assert_eq!(dispatcher.app().group_item_page().table().selected(), cursor);
}

#[test]
fn leaving_a_stream_page_opened_from_the_groups_leads_back_to_the_groups() {
    let mut dispatcher = run(vec![AppEvent::ProxyLoaded(sample())]);
    for code in [KeyCode::Enter, KeyCode::Esc, KeyCode::Char('c')] {
        dispatcher.submit(key(code));
        settle(&mut dispatcher);
    }
    assert_eq!(dispatcher.app().current_page(), CurrentPage::Connection);
    dispatcher.submit(key(KeyCode::Char('p')));
    settle(&mut dispatcher);
    assert_eq!(dispatcher.app().current_page(), CurrentPage::Group);
    assert_eq!(dispatcher.app().menu()[0], ("CTRL-M", "模式:RULE"));
    dispatcher.submit(AppEvent::ShowPrevious);
    settle(&mut dispatcher);
    assert_eq!(dispatcher.app().current_page(), CurrentPage::Group);
}

#[test]
fn status_message_keeps_the_editing_menu_while_a_filter_is_edited() {
    let mut dispatcher = Dispatcher::new();
    for event in [key(KeyCode::Char('c')), key(KeyCode::Char('/')), key(KeyCode::Char('x'))] {
        dispatcher.submit(event);
        settle(&mut dispatcher);
    }
    assert_eq!(dispatcher.app().menu(), &vec![("ENTER", "确认"), ("ESC", "放弃")]);
    dispatcher.submit(AppEvent::Connection(Connection {
        connections: vec![],
        download_total: 1,
        upload_total: 1,
    }));
    settle(&mut dispatcher);
    assert_eq!(dispatcher.app().status(), "下载速度:0 B|上传速度:0 B|总下载:1 B|总上传:1 B");
    assert_eq!(dispatcher.app().menu(), &vec![("ENTER", "确认"), ("ESC", "放弃")]);
    dispatcher.submit(key(KeyCode::Enter));
    settle(&mut dispatcher);
    assert_eq!(dispatcher.app().menu()[0], ("<Space>", "暂停"));
}
