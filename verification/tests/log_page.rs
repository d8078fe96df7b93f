use clash_tui::clash_api::LogItem;
use clash_tui::my_event::{AppEvent, Command, KeyCode, KeyEvent, Request};
use clash_tui::page::connection_page::Instant;
use clash_tui::page::log_page::LOG_CAPACITY;
use clash_tui::page::widget::{FilterInnerWidget, FilterWidget};
use clash_tui::page::{ConnectionPage, LogPage, WsMsg};

fn key(code: KeyCode) -> KeyEvent {
    KeyEvent { code, control: false }
}

fn log(text: &str) -> LogItem {
    LogItem { kind: "info".to_string(), payload: text.to_string() }
}

fn texts(items: &[&str]) -> Vec<String> {
    items.iter().map(|t| t.to_string()).collect()
}

fn now() -> Instant {
    Instant { seconds: 0, nanos: 0 }
}

fn set_menu(menu: Vec<(&'static str, &'static str)>) -> Command {
    Command::Emit(AppEvent::SetMenu(menu))
}

#[test]
fn log_page_keeps_five_thousand_lines() {
    assert_eq!(LOG_CAPACITY, 5000);
    let mut page = LogPage::new();
    for i in 0..5003 {
        assert_eq!(page.on_data(log(&format!("m{}", i))), vec![]);
    }
    assert_eq!(page.log().len(), 5000);
    assert_eq!(page.log().lines()[0], "m3");
    assert_eq!(page.log().lines()[4999], "m5002");
}

#[test]
fn log_page_shows_message_texts() {
    let mut page = LogPage::new();
    page.on_data(log("first"));
    page.on_data(log("second"));
    assert_eq!(page.show(40, 10), texts(&["first", "second"]));
}

#[test]
fn paused_log_page_ignores_messages() {
    let mut page = LogPage::new();
    assert_eq!(
        page.on_key(key(KeyCode::Char(' '))),
        vec![Command::Emit(AppEvent::Status("暂停".to_string()))]
    );
    page.on_data(log("lost"));
    assert_eq!(page.log().len(), 0);
    assert_eq!(
        page.on_key(key(KeyCode::Char(' '))),
        vec![Command::Emit(AppEvent::Status("恢复".to_string()))]
    );
    page.on_data(log("kept"));
    assert_eq!(page.log().len(), 1);
}

#[test]
fn entering_the_log_page_resumes_and_asks_for_the_stream() {
    let mut page = LogPage::new();
    page.on_key(key(KeyCode::Char(' ')));
    assert_eq!(page.active(), vec![Command::Ask(Request::StartLogStream)]);
    page.on_data(log("kept"));
    assert_eq!(page.log().len(), 1);
}

#[test]
fn leaving_the_log_page_clears_lines_and_stops_the_stream() {
    let mut page = LogPage::new();
    page.active();
    page.on_data(log("a"));
    assert_eq!(
        page.on_key(key(KeyCode::Char('p'))),
        vec![Command::Emit(AppEvent::ShowPrevious), Command::Ask(Request::StopLogStream)]
    );
    assert_eq!(page.log().len(), 0);
    page.on_data(log("b"));
    assert_eq!(
        page.on_key(key(KeyCode::Char('C'))),
        vec![Command::Emit(AppEvent::ShowConnection), Command::Ask(Request::StopLogStream)]
    );
    assert_eq!(page.log().len(), 0);
    assert_eq!(page.inactive(), vec![Command::Ask(Request::StopLogStream)]);
}

#[test]
fn log_page_keys() {
    let mut page = LogPage::new();
    assert_eq!(page.on_key(key(KeyCode::Esc)), vec![Command::Emit(AppEvent::Quit)]);
    assert_eq!(page.on_key(key(KeyCode::Up)), vec![Command::Emit(AppEvent::Draw)]);
    assert_eq!(page.on_key(key(KeyCode::Down)), vec![Command::Emit(AppEvent::Draw)]);
    assert_eq!(page.on_key(key(KeyCode::Char('x'))), vec![]);
    assert_eq!(
        LogPage::get_menu(),
        vec![("<Space>", "暂停"), ("/", "搜索"), ("P", "代理"), ("C", "链接"), ("ESC", "退出")]
    );
}

#[test]
fn log_stream_messages_become_events() {
    assert_eq!(
        LogPage::stream_event(WsMsg::ConnectFail("refused".to_string())),
        AppEvent::Log(LogItem { kind: String::new(), payload: "连接失败，重试: refused".to_string() })
    );
    assert_eq!(
        LogPage::stream_event(WsMsg::Closed),
        AppEvent::Log(LogItem { kind: String::new(), payload: "连接已断开，重连".to_string() })
    );
    assert_eq!(LogPage::stream_event(WsMsg::Message(Ok(log("hello")))), AppEvent::Log(log("hello")));
    assert_eq!(
        LogPage::stream_event(WsMsg::Message(Err("EOF".to_string()))),
        AppEvent::Status("处理日志数据出错: EOF".to_string())
    );
}

#[test]
fn filter_frame_passes_keys_on_until_slash() {
    let mut frame = FilterWidget::new(LogPage::new());
    assert_eq!(frame.on_key(key(KeyCode::Esc)), vec![Command::Emit(AppEvent::Quit)]);
    assert_eq!(
        frame.on_key(key(KeyCode::Char('/'))),
        vec![set_menu(vec![("ENTER", "确认"), ("ESC", "放弃")])]
    );
    assert_eq!(frame.on_key(key(KeyCode::Char('p'))), vec![Command::Emit(AppEvent::Draw)]);
    assert_eq!(frame.on_key(key(KeyCode::Up)), vec![]);
}

#[test]
fn filter_frame_applies_typed_filter_on_enter() {
    let mut frame = FilterWidget::new(LogPage::new());
    for text in ["apple pie", "banana", "pineapple"] {
        frame.on_data(log(text), now());
    }
    frame.on_key(key(KeyCode::Char('/')));
    for c in ['a', 'p', 'x'] {
        assert_eq!(frame.on_key(key(KeyCode::Char(c))), vec![Command::Emit(AppEvent::Draw)]);
    }
    assert_eq!(frame.on_key(key(KeyCode::Backspace)), vec![Command::Emit(AppEvent::Draw)]);
    let drawn = frame.show(40, 11);
    assert_eq!(drawn.filter_line, Some("过滤: ap".to_string()));
    assert!(drawn.editing);
    assert_eq!(drawn.inner, texts(&["apple pie", "banana", "pineapple"]));
    assert_eq!(frame.on_key(key(KeyCode::Enter)), vec![set_menu(LogPage::get_menu())]);
    let drawn = frame.show(40, 11);
    assert_eq!(drawn.filter_line, Some("过滤: ap".to_string()));
    assert!(!drawn.editing);
    assert_eq!(drawn.inner, texts(&["apple pie", "pineapple"]));
}

#[test]
fn filter_frame_drops_filter_on_escape() {
    let mut frame = FilterWidget::new(LogPage::new());
    for text in ["apple", "banana"] {
        frame.on_data(log(text), now());
    }
    frame.on_key(key(KeyCode::Char('/')));
    frame.on_key(key(KeyCode::Char('b')));
    frame.on_key(key(KeyCode::Enter));
    assert_eq!(frame.show(40, 10).inner, texts(&["banana"]));
    frame.on_key(key(KeyCode::Char('/')));
    assert_eq!(frame.show(40, 10).inner, texts(&["apple", "banana"]));
    assert_eq!(frame.on_key(key(KeyCode::Esc)), vec![set_menu(LogPage::get_menu())]);
    let drawn = frame.show(40, 10);
    assert_eq!(drawn.filter_line, None);
    assert_eq!(drawn.inner, texts(&["apple", "banana"]));
}

#[test]
fn filter_frame_backspace_on_empty_filter_keeps_it_empty() {
    let mut frame = FilterWidget::new(LogPage::new());
    frame.on_key(key(KeyCode::Char('/')));
    assert_eq!(frame.on_key(key(KeyCode::Backspace)), vec![Command::Emit(AppEvent::Draw)]);
    assert_eq!(frame.show(40, 10).filter_line, Some("过滤: ".to_string()));
    assert_eq!(frame.on_key(key(KeyCode::Other)), vec![]);
}

#[test]
fn filter_frame_gives_the_page_one_line_less_under_a_filter_line() {
    let mut frame = FilterWidget::new(LogPage::new());
    for i in 0..6 {
        frame.on_data(log(&format!("l{}", i)), now());
    }
    assert_eq!(frame.show(20, 6).inner, texts(&["l2", "l3", "l4", "l5"]));
    frame.on_key(key(KeyCode::Char('/')));
    assert_eq!(frame.show(20, 6).inner, texts(&["l3", "l4", "l5"]));
}

#[test]
fn filter_frame_around_connections_filters_rows() {
    let mut frame = FilterWidget::new(ConnectionPage::new());
    assert_eq!(frame.active(), vec![Command::Ask(Request::StartConnectionStream)]);
    assert_eq!(
        FilterWidget::<ConnectionPage>::get_menu(),
        ConnectionPage::get_menu()
    );
    assert_eq!(frame.inner().table().rows().len(), 0);
    frame.on_key(key(KeyCode::Char('/')));
    frame.on_key(key(KeyCode::Char('z')));
    frame.on_key(key(KeyCode::Enter));
    let drawn = frame.show(80, 24);
    assert_eq!(drawn.filter_line, Some("过滤: z".to_string()));
    assert_eq!(drawn.inner.visible, Vec::<usize>::new());
}

#[test]
fn page_trait_methods_match_the_page() {
    let mut page = LogPage::new();
    assert_eq!(<LogPage as FilterInnerWidget>::get_menu(), LogPage::get_menu());
    assert_eq!(FilterInnerWidget::on_data(&mut page, log("abc"), now()), vec![]);
    FilterInnerWidget::set_filter(&mut page, "zzz");
    assert_eq!(FilterInnerWidget::show(&mut page, 20, 10), Vec::<String>::new());
}

#[test]
fn filter_frame_knows_its_menu() {
    let mut frame = FilterWidget::new(LogPage::new());
    assert_eq!(frame.current_menu(), LogPage::get_menu());
    frame.on_key(key(KeyCode::Char('/')));
    assert_eq!(frame.current_menu(), vec![("ENTER", "确认"), ("ESC", "放弃")]);
    frame.on_key(key(KeyCode::Esc));
    assert_eq!(frame.current_menu(), LogPage::get_menu());
}
