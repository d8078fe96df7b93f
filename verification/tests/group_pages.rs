use clash_tui::clash_api::{HistoryItem, NameMap, ProxyData, ProxyItem};
use clash_tui::my_event::{AppEvent, Command, KeyCode, KeyEvent, Request};
use clash_tui::page::group_item_page::{chosen_events, probed_events};
use clash_tui::page::group_page::{data_event, label_of_mode, loaded_events, mode_event};
use clash_tui::page::{GroupItemPage, GroupPage};

fn node(name: &str, delay: i32) -> ProxyItem {
    ProxyItem {
        name: name.to_string(),
        all: vec![],
        now: String::new(),
        kind: "Shadowsocks".to_string(),
        history: vec![HistoryItem { time: "t".to_string(), delay }],
    }
}

fn group(name: &str, members: &[&str], now: &str) -> ProxyItem {
    ProxyItem {
        name: name.to_string(),
        all: members.iter().map(|m| m.to_string()).collect(),
        now: now.to_string(),
        kind: "Selector".to_string(),
        history: vec![],
    }
}

fn data(proxies: Vec<ProxyItem>) -> ProxyData {
    let mut map = NameMap::new();
    for item in proxies {
        map.insert(item.name.clone(), item);
    }
    ProxyData { proxies: map, providers: NameMap::new() }
}

fn sample() -> ProxyData {
    data(vec![
        group("GLOBAL", &["Proxy", "Video"], "Proxy"),
        group("Proxy", &["HK", "JP"], "JP"),
        group("Video", &["JP", "HK"], "HK"),
        node("HK", 120),
        node("JP", 80),
    ])
}

fn key(code: KeyCode) -> KeyEvent {
    KeyEvent { code, control: false }
}

fn control(c: char) -> KeyEvent {
    KeyEvent { code: KeyCode::Char(c), control: true }
}

fn status(text: &str) -> Command {
    Command::Emit(AppEvent::Status(text.to_string()))
}

#[test]
fn group_page_lists_groups_and_keeps_cursor_on_remembered_group() {
    let mut page = GroupPage::new();
    assert_eq!(page.on_proxy_loaded(&sample()), vec![]);
    assert_eq!(page.table().rows().len(), 3);
    assert_eq!(page.table().selected(), Some(0));
    page.select_down();
    assert_eq!(page.table().selected(), Some(1));
    let reordered = data(vec![
        group("GLOBAL", &["Video", "Proxy"], "Proxy"),
        group("Proxy", &["HK", "JP"], "JP"),
        group("Video", &["JP", "HK"], "HK"),
        node("HK", 120),
        node("JP", 80),
    ]);
    page.on_proxy_loaded(&reordered);
    assert_eq!(page.table().selected(), Some(0));
    assert_eq!(page.table().current_row().unwrap()[0], "Video");
}

#[test]
fn group_page_falls_back_to_first_row_when_remembered_group_is_gone() {
    let mut page = GroupPage::new();
    page.on_proxy_loaded(&sample());
    page.select_down();
    page.on_proxy_loaded(&data(vec![
        group("GLOBAL", &["Proxy"], "Proxy"),
        group("Proxy", &["HK"], "HK"),
        node("HK", 1),
    ]));
    assert_eq!(page.table().selected(), Some(0));
}

#[test]
fn group_page_reports_data_it_cannot_show() {
    let mut page = GroupPage::new();
    page.on_proxy_loaded(&sample());
    let broken = data(vec![group("GLOBAL", &["G"], "G"), group("G", &["X"], "X")]);
    assert_eq!(page.on_proxy_loaded(&broken), vec![status("加载数据出错: 代理不存在: X")]);
    assert_eq!(page.table().rows().len(), 3);
}

#[test]
fn group_page_mode_label_follows_mode_name_in_any_case() {
    let mut page = GroupPage::new();
    assert_eq!(page.get_menu()[0], ("CTRL-M", "模式:RULE"));
    page.set_current_mode("GLOBAL");
    assert_eq!(page.get_menu()[0], ("CTRL-M", "模式:GLOBAL"));
    page.set_current_mode("Direct");
    assert_eq!(page.get_menu()[0], ("CTRL-M", "模式:DIRECT"));
    page.set_current_mode("rule");
    assert_eq!(page.get_menu()[0], ("CTRL-M", "模式:RULE"));
    page.set_current_mode("script");
    assert_eq!(page.get_menu()[0], ("CTRL-M", "模式:RULE"));
    assert_eq!(
        page.get_menu(),
        vec![("CTRL-M", "模式:RULE"), ("L", "日志"), ("C", "链接"), ("ENTER", "查看"), ("ESC", "退出")]
    );
}

#[test]
fn group_page_mode_switch_goes_round() {
    let mut page = GroupPage::new();
    assert_eq!(page.on_key(control('m')), vec![Command::Ask(Request::SwitchMode("global".to_string()))]);
    page.set_current_mode("global");
    assert_eq!(page.on_key(control('M')), vec![Command::Ask(Request::SwitchMode("direct".to_string()))]);
    page.set_current_mode("direct");
    assert_eq!(page.on_key(control('m')), vec![Command::Ask(Request::SwitchMode("rule".to_string()))]);
    assert_eq!(page.on_key(key(KeyCode::Char('m'))), vec![]);
}

#[test]
fn group_page_keys() {
    let mut page = GroupPage::new();
    assert_eq!(page.on_key(key(KeyCode::Enter)), vec![]);
    page.on_proxy_loaded(&sample());
    assert_eq!(page.on_key(key(KeyCode::Down)), vec![Command::Emit(AppEvent::Draw)]);
    assert_eq!(
        page.on_key(key(KeyCode::Enter)),
        vec![Command::Emit(AppEvent::ShowGroupItemPage("Video".to_string()))]
    );
    assert_eq!(page.on_key(key(KeyCode::Up)), vec![Command::Emit(AppEvent::Draw)]);
    assert_eq!(
        page.on_key(key(KeyCode::Enter)),
        vec![Command::Emit(AppEvent::ShowGroupItemPage("Proxy".to_string()))]
    );
    assert_eq!(page.on_key(key(KeyCode::Char('l'))), vec![Command::Emit(AppEvent::ShowLogPage)]);
    assert_eq!(page.on_key(key(KeyCode::Char('C'))), vec![Command::Emit(AppEvent::ShowConnection)]);
    assert_eq!(page.on_key(key(KeyCode::Esc)), vec![Command::Emit(AppEvent::Quit)]);
    assert_eq!(page.on_key(key(KeyCode::Backspace)), vec![]);
    assert_eq!(page.active(), vec![Command::Ask(Request::LoadProxies)]);
}

#[test]
fn member_page_lists_members_and_selects_the_chosen_one() {
    let mut page = GroupItemPage::new();
    page.set_group_name("Proxy");
    assert_eq!(page.on_proxy_loaded(&sample()), vec![]);
    assert_eq!(
        page.table().rows(),
        &vec![
            vec!["HK".to_string(), "120ms".to_string(), String::new()],
            vec!["JP".to_string(), "80ms".to_string(), "✓".to_string()],
        ]
    );
    page.select_selected();
    assert_eq!(page.table().selected(), Some(1));
}

#[test]
fn member_page_selects_first_row_when_nothing_is_marked() {
    let mut page = GroupItemPage::new();
    page.set_group_name("G");
    page.on_proxy_loaded(&data(vec![group("G", &["HK", "JP"], ""), node("HK", 1), node("JP", 2)]));
    page.select_down();
    page.select_selected();
    assert_eq!(page.table().selected(), Some(0));
}

#[test]
fn member_page_reports_a_missing_group() {
    let mut page = GroupItemPage::new();
    page.set_group_name("Nope");
    assert_eq!(page.on_proxy_loaded(&sample()), vec![status("加载数据出错: 代理不存在: Nope")]);
    assert_eq!(page.table().rows().len(), 0);
}

#[test]
fn member_page_shows_no_rows_of_another_group_after_a_failure() {
    let mut page = GroupItemPage::new();
    page.set_group_name("Proxy");
    page.on_proxy_loaded(&sample());
    assert_eq!(page.table().rows().len(), 2);
    page.set_group_name("Gone");
    assert_eq!(page.on_proxy_loaded(&sample()), vec![status("加载数据出错: 代理不存在: Gone")]);
    assert_eq!(page.table().rows().len(), 0);
    assert_eq!(page.on_key(key(KeyCode::Enter)), vec![]);
    assert_eq!(page.on_key(key(KeyCode::Esc)), vec![Command::Emit(AppEvent::ShowGroupPage)]);
}

#[test]
fn member_page_enter_chooses_a_member_that_is_not_chosen() {
    let mut page = GroupItemPage::new();
    page.set_group_name("Proxy");
    page.on_proxy_loaded(&sample());
    assert_eq!(
        page.on_key(key(KeyCode::Enter)),
        vec![
            Command::Emit(AppEvent::ShowGroupPage),
            Command::Ask(Request::SelectMember {
                group: "Proxy".to_string(),
                member: "HK".to_string()
            }),
        ]
    );
    page.select_down();
    assert_eq!(page.on_key(key(KeyCode::Enter)), vec![Command::Emit(AppEvent::ShowGroupPage)]);
}

#[test]
fn member_page_keys() {
    let mut page = GroupItemPage::new();
    assert_eq!(page.on_key(key(KeyCode::Esc)), vec![Command::Emit(AppEvent::ShowGroupPage)]);
    assert_eq!(page.on_key(key(KeyCode::Enter)), vec![]);
    page.set_group_name("Proxy");
    page.on_proxy_loaded(&sample());
    assert_eq!(page.on_key(key(KeyCode::Esc)), vec![Command::Emit(AppEvent::ShowGroupPage)]);
    assert_eq!(
        page.on_key(control('t')),
        vec![status("测速中..."), Command::Ask(Request::ProbeDelay("Proxy".to_string()))]
    );
    assert_eq!(page.on_key(key(KeyCode::Char('t'))), vec![]);
    assert_eq!(page.on_key(key(KeyCode::Char('L'))), vec![Command::Emit(AppEvent::ShowLogPage)]);
    assert_eq!(page.on_key(key(KeyCode::Char('c'))), vec![Command::Emit(AppEvent::ShowConnection)]);
    assert_eq!(page.on_key(key(KeyCode::Char('C'))), vec![Command::Emit(AppEvent::ShowConnection)]);
    assert_eq!(page.on_key(key(KeyCode::Down)), vec![Command::Emit(AppEvent::Draw)]);
    assert_eq!(page.table().selected(), Some(1));
    assert_eq!(
        GroupItemPage::get_menu(),
        vec![("CTRL-T", "测速"), ("ENTER", "选择"), ("ESC", "返回")]
    );
}

#[test]
fn outcome_of_loading_becomes_events() {
    assert_eq!(mode_event(Ok("rule".to_string())), AppEvent::ModeChanged("rule".to_string()));
    assert_eq!(
        mode_event(Err("timeout".to_string())),
        AppEvent::Status("加载数据出错: timeout".to_string())
    );
    assert_eq!(
        data_event(Err("refused".to_string())),
        AppEvent::Status("加载数据出错: refused".to_string())
    );
    assert_eq!(data_event(Ok(sample())), AppEvent::ProxyLoaded(sample()));
    assert_eq!(
        loaded_events(Ok("global".to_string()), Err("refused".to_string())),
        vec![
            AppEvent::ModeChanged("global".to_string()),
            AppEvent::Status("加载数据出错: refused".to_string()),
        ]
    );
}

#[test]
fn outcome_of_a_delay_probe_becomes_events() {
    assert_eq!(
        probed_events(Ok(()), Ok(sample())),
        vec![AppEvent::ProxyLoaded(sample()), AppEvent::Status("测速完成".to_string())]
    );
    assert_eq!(
        probed_events(Err("slow".to_string()), Err("down".to_string())),
        vec![
            AppEvent::Status("检查延时出错: slow".to_string()),
            AppEvent::Status("加载数据出错: down".to_string()),
        ]
    );
}

#[test]
fn outcome_of_choosing_a_member_becomes_events() {
    assert_eq!(chosen_events(Ok(()), Ok(sample())), vec![AppEvent::ProxyLoaded(sample())]);
    assert_eq!(
        chosen_events(Err("denied".to_string()), Ok(sample())),
        vec![AppEvent::Status("设置分组出错: denied".to_string()), AppEvent::ProxyLoaded(sample())]
    );
}

#[test]
fn label_for_a_mode_in_lowercase() {
    assert_eq!(label_of_mode("direct"), "模式:DIRECT");
    assert_eq!(label_of_mode("global"), "模式:GLOBAL");
    assert_eq!(label_of_mode("rule"), "模式:RULE");
    assert_eq!(label_of_mode("GLOBAL"), "模式:RULE");
    assert_eq!(label_of_mode(""), "模式:RULE");
}

#[test]
fn group_page_reports_data_without_the_root() {
    let mut page = GroupPage::new();
    page.on_proxy_loaded(&sample());
    let rootless = data(vec![group("Proxy", &["HK"], "HK"), node("HK", 1)]);
    assert_eq!(page.on_proxy_loaded(&rootless), vec![status("加载数据出错: 代理不存在: GLOBAL")]);
    assert_eq!(page.table().rows().len(), 3);
    let mut fresh = GroupPage::new();
    assert_eq!(
        fresh.on_proxy_loaded(&data(vec![])),
        vec![status("加载数据出错: 代理不存在: GLOBAL")]
    );
    assert_eq!(fresh.table().rows().len(), 0);
}
