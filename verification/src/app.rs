//! The dashboard's state and the one function that applies an event to it.

use crate::clash_api::proxy::{group_table, member_table, ProxyData};
use crate::clash_api::{Connection, LogItem};
use crate::my_event::{
    commands_view, menu_view, AppEvent, Command, CommandView, EventView, KeyEvent, Menu,
    Request, RequestView,
};
use crate::page::connection_page::{
    connection_menu, current_instant, ConnectionPage, ConnectionPageView, Instant,
};
use crate::page::group_item_page::{member_menu, GroupItemPage, GroupItemPageView};
use crate::page::group_page::{group_menu, mode_label, GroupPage, GroupPageView};
use crate::page::log_page::{log_menu, LogPage, LogPageView};
use crate::page::widget::filter_widget::{FilterFrame, FilterView, FilterWidget};
use crate::page::widget::table_widget::TableFrame;
use crate::text::{capped_width, display_width, lowercase, string_width};
use vstd::prelude::*;
use vstd::string::StringExecFns;

verus! {

/// The page that is drawn and gets the keys.
#[derive(Clone, Copy, Debug, PartialEq, Eq, Structural)]
pub enum CurrentPage {
    Group,
    GroupItem,
    Log,
    Connection,
}

/// The state of the dashboard.
pub struct AppView {
    pub page: CurrentPage,
    /// The page from which the stream pages were last opened.
    pub previous: CurrentPage,
    /// The daemon's data of the latest fetch.
    pub proxy_data: Option<ProxyData>,
    /// The text of the status line.
    pub status: Seq<char>,
    pub group: GroupPageView,
    pub group_item: GroupItemPageView,
    pub log: FilterView<LogPageView>,
    pub connection: FilterView<ConnectionPageView>,
    /// The menu that is drawn.
    pub menu: Seq<(Seq<char>, Seq<char>)>,
    /// Whether the dashboard has quit.
    pub quit: bool,
}

/// An event that may be applied: the daemon's data it carries, if any, is
/// well formed.
pub open spec fn event_ok(event: EventView) -> bool {
    match event {
        EventView::ProxyLoaded(data) => data.wf(),
        _ => true,
    }
}

/// The table that the group page makes of the daemon's data.
pub open spec fn groups_of(data: ProxyData) -> crate::clash_api::proxy::Table {
    group_table(data.proxies@, data.proxies.keys().len())
}

/// The table that the member page makes of the daemon's data for a group.
pub open spec fn members_of(data: ProxyData, group: Seq<char>) -> crate::clash_api::proxy::Table {
    member_table(data.proxies@, data.proxies.keys().len(), group)
}

/// The event that shows `page`, for the pages that are shown without a
/// name.
pub open spec fn show_event(page: CurrentPage) -> EventView {
    match page {
        CurrentPage::Log => EventView::ShowLogPage,
        CurrentPage::Connection => EventView::ShowConnection,
        _ => EventView::ShowGroupPage,
    }
}

/// The commands that stop the workers of both streams.
pub open spec fn stop_commands() -> Seq<CommandView> {
    seq![
        CommandView::Ask(RequestView::StopLogStream),
        CommandView::Ask(RequestView::StopConnectionStream),
    ]
}

impl AppView {
    /// The dashboard at its start: on the group page, with that page's
    /// menu, the status line saying ready, every page as it is before any
    /// data, and no data yet.
    pub open spec fn initial() -> AppView {
        AppView {
            page: CurrentPage::Group,
            previous: CurrentPage::Group,
            proxy_data: None,
            status: "就绪"@,
            group: GroupPageView::initial(),
            group_item: GroupItemPageView::initial(),
            log: FilterView { filter: Seq::empty(), editing: false, inner: LogPageView::initial() },
            connection: FilterView {
                filter: Seq::empty(),
                editing: false,
                inner: ConnectionPageView::initial(),
            },
            menu: group_menu(GroupPageView::initial().mode),
            quit: false,
        }
    }

    /// The log is well formed, and so is the daemon's data if there is any.
    pub open spec fn wf(self) -> bool {
        &&& self.log.inner.wf()
        &&& match self.proxy_data {
            Some(data) => data.wf(),
            None => true,
        }
    }

    /// The page to go back to from a stream page: the page that is shown,
    /// if it is the group page or the member page, else the one remembered.
    pub open spec fn came_from(self) -> CurrentPage {
        match self.page {
            CurrentPage::Group => CurrentPage::Group,
            CurrentPage::GroupItem => CurrentPage::GroupItem,
            _ => self.previous,
        }
    }

    /// The page that leaving a stream page leads to: the member page, if
    /// the stream pages were opened from there, else the group page.
    pub open spec fn back_page(self) -> CurrentPage {
        match self.previous {
            CurrentPage::GroupItem => CurrentPage::GroupItem,
            _ => CurrentPage::Group,
        }
    }

    /// The dashboard after going back from a stream page: the page from
    /// which the stream pages were opened is shown as it was left, with its
    /// menu.
    pub open spec fn gone_back(self) -> AppView {
        match self.back_page() {
            CurrentPage::GroupItem => AppView {
                page: CurrentPage::GroupItem,
                menu: member_menu(),
                ..self
            },
            _ => AppView { page: CurrentPage::Group, menu: group_menu(self.group.mode), ..self },
        }
    }

    /// The menu of the page that is shown; on a stream page whose filter
    /// is being edited, the editing menu.
    pub open spec fn page_menu(self) -> Seq<(Seq<char>, Seq<char>)> {
        match self.page {
            CurrentPage::Group => group_menu(self.group.mode),
            CurrentPage::GroupItem => member_menu(),
            CurrentPage::Log => FilterWidget::<LogPage>::menu_shown(self.log),
            CurrentPage::Connection => FilterWidget::<ConnectionPage>::menu_shown(self.connection),
        }
    }

    /// The member page after it was opened for `group`: it lists the
    /// group's members from the latest data, with the cursor on the chosen
    /// member.
    pub open spec fn opened_group(self, group: Seq<char>) -> GroupItemPageView {
        let named = GroupItemPageView { group_name: group, ..self.group_item };
        match self.proxy_data {
            Some(data) => named.after_proxies(members_of(data, group)).on_chosen(),
            None => named.on_chosen(),
        }
    }

    /// The state after `event` is applied at `now`. A dashboard that has
    /// quit stays as it is.
    #[verifier::opaque]
    pub open spec fn step(self, event: EventView, now: Instant) -> AppView {
        if self.quit {
            self
        } else {
            match event {
                EventView::Quit => AppView { quit: true, ..self },
                EventView::Draw => self,
                EventView::ProxyLoaded(data) => {
                    let kept = AppView { proxy_data: Some(data), ..self };
                    match self.page {
                        CurrentPage::Group => AppView {
                            group: self.group.after_proxies(groups_of(data)),
                            ..kept
                        },
                        CurrentPage::GroupItem => AppView {
                            group_item: self.group_item.after_proxies(
                                members_of(data, self.group_item.group_name),
                            ),
                            ..kept
                        },
                        _ => kept,
                    }
                },
                EventView::Key(key) => match self.page {
                    CurrentPage::Group => AppView { group: self.group.after_key(key), ..self },
                    CurrentPage::GroupItem => AppView {
                        group_item: self.group_item.after_key(key),
                        ..self
                    },
                    CurrentPage::Log => AppView {
                        log: FilterWidget::<LogPage>::key_pressed(self.log, key),
                        ..self
                    },
                    CurrentPage::Connection => AppView {
                        connection: FilterWidget::<ConnectionPage>::key_pressed(
                            self.connection,
                            key,
                        ),
                        ..self
                    },
                },
                EventView::SetMenu(menu) => AppView { menu, ..self },
                EventView::ShowGroupPage => AppView {
                    page: CurrentPage::Group,
                    menu: group_menu(self.group.mode),
                    ..self
                },
                EventView::ShowGroupItemPage(group) => AppView {
                    page: CurrentPage::GroupItem,
                    group_item: self.opened_group(group),
                    menu: member_menu(),
                    ..self
                },
                EventView::ShowLogPage => AppView {
                    page: CurrentPage::Log,
                    previous: self.came_from(),
                    log: FilterView { inner: self.log.inner.entered(), ..self.log },
                    menu: log_menu(),
                    ..self
                },
                EventView::ShowConnection => AppView {
                    page: CurrentPage::Connection,
                    previous: self.came_from(),
                    connection: FilterView {
                        inner: self.connection.inner.entered(),
                        ..self.connection
                    },
                    menu: connection_menu(),
                    ..self
                },
                EventView::ShowPrevious => self.gone_back(),
                EventView::Status(text) => AppView { status: text, menu: self.page_menu(), ..self },
                EventView::Log(_, payload) => AppView {
                    log: FilterView { inner: self.log.inner.after_data(payload), ..self.log },
                    ..self
                },
                EventView::Connection(snapshot) => AppView {
                    connection: FilterView {
                        inner: self.connection.inner.after_data(snapshot, now),
                        ..self.connection
                    },
                    ..self
                },
                EventView::ModeChanged(mode) => {
                    let label = mode_label(lowercase(mode));
                    AppView {
                        group: GroupPageView { mode: label, ..self.group },
                        menu: if self.page == CurrentPage::Group {
                            group_menu(label)
                        } else {
                            self.menu
                        },
                        ..self
                    }
                },
            }
        }
    }

    /// The commands that applying `event` hands back.
    #[verifier::opaque]
    pub open spec fn commands(self, event: EventView) -> Seq<CommandView> {
        if self.quit {
            Seq::empty()
        } else {
            match event {
                EventView::Quit => stop_commands(),
                EventView::ProxyLoaded(data) => match self.page {
                    CurrentPage::Group => GroupPageView::proxies_commands(groups_of(data)),
                    CurrentPage::GroupItem => GroupItemPageView::proxies_commands(
                        members_of(data, self.group_item.group_name),
                    ),
                    _ => Seq::empty(),
                },
                EventView::Key(key) => match self.page {
                    CurrentPage::Group => self.group.key_commands(key),
                    CurrentPage::GroupItem => self.group_item.key_commands(key),
                    CurrentPage::Log => FilterWidget::<LogPage>::key_commands(self.log, key),
                    CurrentPage::Connection => FilterWidget::<ConnectionPage>::key_commands(
                        self.connection,
                        key,
                    ),
                },
                EventView::ShowGroupItemPage(group) => match self.proxy_data {
                    Some(data) => GroupItemPageView::proxies_commands(members_of(data, group)),
                    None => Seq::empty(),
                },
                EventView::ShowLogPage => self.log.inner.enter_commands(),
                EventView::ShowConnection => self.connection.inner.enter_commands(),
                EventView::Connection(snapshot) => self.connection.inner.data_commands(snapshot),
                _ => Seq::empty(),
            }
        }
    }

    /// The state after the dashboard was drawn into an area of the given
    /// size: the page that is shown was drawn into the area above the
    /// bottom line.
    pub open spec fn drawn(self, width: u16, height: u16) -> AppView {
        match self.page {
            CurrentPage::Group => AppView {
                group: GroupPageView { table: self.group.table.drawn(), ..self.group },
                ..self
            },
            CurrentPage::GroupItem => AppView {
                group_item: GroupItemPageView {
                    table: self.group_item.table.drawn(),
                    ..self.group_item
                },
                ..self
            },
            CurrentPage::Log => AppView {
                log: FilterWidget::<LogPage>::shown(self.log, width, page_height(height)),
                ..self
            },
            CurrentPage::Connection => AppView {
                connection: FilterWidget::<ConnectionPage>::shown(
                    self.connection,
                    width,
                    page_height(height),
                ),
                ..self
            },
        }
    }

    /// Whether `screen` is what drawing the dashboard into an area of the
    /// given size needs: what the page that is shown needs for the area
    /// above the bottom line, and the cells of the status text.
    pub open spec fn screened(self, width: u16, height: u16, screen: Screen) -> bool {
        &&& screen.status_cells == status_cells(display_width(self.status))
        &&& match self.page {
            CurrentPage::Group => screen.page matches PageFrame::Group(frame)
                && self.group.table.frames(frame),
            CurrentPage::GroupItem => screen.page matches PageFrame::GroupItem(frame)
                && self.group_item.table.frames(frame),
            CurrentPage::Log => screen.page matches PageFrame::Log(frame) && FilterWidget::<
                LogPage,
            >::framed(self.log, width, page_height(height), frame),
            CurrentPage::Connection => screen.page matches PageFrame::Connection(frame)
                && FilterWidget::<ConnectionPage>::framed(
                self.connection,
                width,
                page_height(height),
                frame,
            ),
        }
    }

    /// Whether the dashboard is drawn anew after `event`: after every event
    /// but a key press and the event that quits, and not once it has quit.
    pub open spec fn redraws(self, event: EventView) -> bool {
        !self.quit && !(event is Quit) && !(event is Key)
    }
}

/// What drawing the page needs, by the page that is drawn.
#[derive(Debug, PartialEq, Eq)]
pub enum PageFrame {
    Group(TableFrame),
    GroupItem(TableFrame),
    Log(FilterFrame<Vec<String>>),
    Connection(FilterFrame<TableFrame>),
}

/// What drawing the dashboard needs besides its texts.
#[derive(Debug, PartialEq, Eq)]
pub struct Screen {
    pub page: PageFrame,
    /// Cells for the status text at the left of the bottom line; the menu
    /// fills the rest of that line.
    pub status_cells: u16,
}

/// Height of the page above the bottom line.
pub open spec fn page_height(height: u16) -> u16 {
    if height > 0 {
        (height - 1) as u16
    } else {
        0
    }
}

/// Cells for a status text of the given display width: its width, at most
/// what a `u16` holds.
pub open spec fn status_cells(width: nat) -> u16 {
    if width <= u16::MAX {
        width as u16
    } else {
        u16::MAX
    }
}

/// What opening a group does to the dashboard.
proof fn lemma_open_group(app: AppView, group: Seq<char>, now: Instant)
    requires
        !app.quit,
    ensures
        app.step(EventView::ShowGroupItemPage(group), now) == (AppView {
            page: CurrentPage::GroupItem,
            group_item: app.opened_group(group),
            menu: member_menu(),
            ..app
        }),
{
    reveal(AppView::step);
}

/// What going back to the groups does to the dashboard.
proof fn lemma_show_groups(app: AppView, now: Instant)
    requires
        !app.quit,
    ensures
        app.step(EventView::ShowGroupPage, now) == (AppView {
            page: CurrentPage::Group,
            menu: group_menu(app.group.mode),
            ..app
        }),
{
    reveal(AppView::step);
}

/// Opening a group that is open changes nothing on the member page.
proof fn lemma_opened_twice(app: AppView, group: Seq<char>)
    ensures
        (AppView { group_item: app.opened_group(group), ..app }).opened_group(group)
            == app.opened_group(group),
{
}

/// Going back and forth keeps a group's cursor: opening a group, going back
/// to the groups and opening the same group again shows the member page as
/// the first opening left it, and the group page as it was.
pub proof fn lemma_reopening_keeps_cursor(app: AppView, group: Seq<char>, now: Instant)
    requires
        !app.quit,
    ensures
        ({
            let opened = app.step(EventView::ShowGroupItemPage(group), now);
            let back = opened.step(EventView::ShowGroupPage, now);
            let again = back.step(EventView::ShowGroupItemPage(group), now);
            &&& back.page == CurrentPage::Group
            &&& back.group == app.group
            &&& again.page == CurrentPage::GroupItem
            &&& again.group_item == opened.group_item
        }),
{
    let opened = app.step(EventView::ShowGroupItemPage(group), now);
    lemma_open_group(app, group, now);
    lemma_show_groups(opened, now);
    let back = opened.step(EventView::ShowGroupPage, now);
    lemma_open_group(back, group, now);
    lemma_opened_twice(app, group);
}

/// What opening a stream page does to the pages of groups and members.
proof fn lemma_open_stream(app: AppView, event: EventView, now: Instant)
    requires
        !app.quit,
        event is ShowLogPage || event is ShowConnection,
    ensures
        app.step(event, now).previous == app.came_from(),
        app.step(event, now).page == (if event is ShowLogPage {
            CurrentPage::Log
        } else {
            CurrentPage::Connection
        }),
        app.step(event, now).group == app.group,
        app.step(event, now).group_item == app.group_item,
        !app.step(event, now).quit,
{
    reveal(AppView::step);
}

/// What going back from a stream page does to the dashboard.
proof fn lemma_go_back(app: AppView, now: Instant)
    requires
        !app.quit,
    ensures
        app.step(EventView::ShowPrevious, now) == app.gone_back(),
{
    reveal(AppView::step);
}

/// Leaving leads back: from the group page or the member page, opening the
/// log, moving on to the connections and leaving them shows the page that
/// the log was opened from, with its table and cursor as they were; so
/// does opening and leaving one stream page alone.
pub proof fn lemma_leaving_leads_back(app: AppView, now: Instant)
    requires
        !app.quit,
        app.page == CurrentPage::Group || app.page == CurrentPage::GroupItem,
    ensures
        ({
            let log = app.step(EventView::ShowLogPage, now);
            let connections = log.step(EventView::ShowConnection, now);
            let left = log.step(EventView::ShowPrevious, now);
            let left_both = connections.step(EventView::ShowPrevious, now);
            &&& left.page == app.page
            &&& left.group == app.group
            &&& left.group_item == app.group_item
            &&& left_both.page == app.page
            &&& left_both.group == app.group
            &&& left_both.group_item == app.group_item
        }),
{
    let log = app.step(EventView::ShowLogPage, now);
    lemma_open_stream(app, EventView::ShowLogPage, now);
    lemma_go_back(log, now);
    let connections = log.step(EventView::ShowConnection, now);
    lemma_open_stream(log, EventView::ShowConnection, now);
    lemma_go_back(connections, now);
}

/// What applying an event hands back.
#[derive(Debug, PartialEq, Eq)]
pub struct Outcome {
    /// Events for the back of the queue and work for the outside, in the
    /// order in which they arose.
    pub commands: Vec<Command>,
    /// Whether the dashboard is to be drawn anew.
    pub redraw: bool,
}

/// The dashboard: which page is shown, the four pages, the status line,
/// the menu, and the daemon's data of the latest fetch.
pub struct App {
    current_page: CurrentPage,
    previous_page: CurrentPage,
    proxy_data: Option<ProxyData>,
    status: String,
    group_page: GroupPage,
    group_item_page: GroupItemPage,
    log_page: FilterWidget<LogPage>,
    connection_page: FilterWidget<ConnectionPage>,
    menu: Menu,
    quit: bool,
}

impl View for App {
    type V = AppView;

    closed spec fn view(&self) -> AppView {
        AppView {
            page: self.current_page,
            previous: self.previous_page,
            proxy_data: self.proxy_data,
            status: self.status@,
            group: self.group_page@,
            group_item: self.group_item_page@,
            log: self.log_page@,
            connection: self.connection_page@,
            menu: menu_view(self.menu),
            quit: self.quit,
        }
    }
}

impl App {
    /// The dashboard at its start: on the group page, with that page's
    /// menu, the status line saying ready, and no data yet.
    pub fn new() -> (app: Self)
        ensures
            app@.wf(),
            app@ == AppView::initial(),
    {
        let group_page = GroupPage::new();
        let menu = group_page.get_menu();
        App {
            current_page: CurrentPage::Group,
            previous_page: CurrentPage::Group,
            proxy_data: None,
            status: String::from_str("就绪"),
            group_page,
            group_item_page: GroupItemPage::new(),
            log_page: FilterWidget::new(LogPage::new()),
            connection_page: FilterWidget::new(ConnectionPage::new()),
            menu,
            quit: false,
        }
    }

    /// What the dashboard does first: it enters the group page, which asks
    /// for the daemon's data.
    pub fn start(&mut self) -> (commands: Vec<Command>)
        ensures
            final(self)@ == old(self)@,
            commands_view(commands@) == seq![CommandView::Ask(RequestView::LoadProxies)],
    {
        self.group_page.active()
    }

    /// Whether the dashboard has quit.
    pub fn has_quit(&self) -> (quit: bool)
        ensures
            quit == self@.quit,
    {
        self.quit
    }

    /// The page that is drawn.
    pub fn current_page(&self) -> (page: CurrentPage)
        ensures
            page == self@.page,
    {
        self.current_page
    }

    /// The text of the status line.
    pub fn status(&self) -> (text: &str)
        ensures
            text@ == self@.status,
    {
        self.status.as_str()
    }

    /// The menu that is drawn.
    pub fn menu(&self) -> (menu: &Menu)
        ensures
            menu_view(*menu) == self@.menu,
    {
        &self.menu
    }

    /// Cells that the status line's text takes when it is drawn.
    pub fn status_width(&self) -> (width: u32)
        ensures
            width as nat == capped_width(display_width(self@.status)),
    {
        string_width(self.status.as_str())
    }

    /// The group page.
    pub fn group_page(&self) -> (page: &GroupPage)
        ensures
            page@ == self@.group,
    {
        &self.group_page
    }

    /// The member page.
    pub fn group_item_page(&self) -> (page: &GroupItemPage)
        ensures
            page@ == self@.group_item,
    {
        &self.group_item_page
    }

    /// The log page in its filter frame.
    pub fn log_page(&self) -> (page: &FilterWidget<LogPage>)
        ensures
            page@ == self@.log,
    {
        &self.log_page
    }

    /// The connection page in its filter frame.
    pub fn connection_page(&self) -> (page: &FilterWidget<ConnectionPage>)
        ensures
            page@ == self@.connection,
    {
        &self.connection_page
    }

    /// Prepares drawing the dashboard into an area of the given size: the
    /// page that is shown gets the area above the bottom line, and the
    /// status text gets as many cells of the bottom line as it is wide.
    pub fn draw(&mut self, width: u16, height: u16) -> (screen: Screen)
        requires
            old(self)@.wf(),
        ensures
            final(self)@.wf(),
            final(self)@ == old(self)@.drawn(width, height),
            old(self)@.screened(width, height, screen),
    {
        let above: u16 = if height > 0 {
            height - 1
        } else {
            0
        };
        let page = match self.current_page {
            CurrentPage::Group => PageFrame::Group(self.group_page.show()),
            CurrentPage::GroupItem => PageFrame::GroupItem(self.group_item_page.show()),
            CurrentPage::Log => PageFrame::Log(self.log_page.show(width, above)),
            CurrentPage::Connection => PageFrame::Connection(
                self.connection_page.show(width, above),
            ),
        };
        let wide: u32 = string_width(self.status.as_str());
        let cells: u16 = if wide <= 65535 {
            wide as u16
        } else {
            u16::MAX
        };
        Screen { page, status_cells: cells }
    }

    /// Takes in the daemon's data.
    fn apply_proxies(&mut self, proxy: ProxyData, now: Instant) -> (outcome: Outcome)
        requires
            old(self)@.wf(),
            !old(self)@.quit,
            proxy.wf(),
        ensures
            final(self)@.wf(),
            final(self)@ == old(self)@.step(EventView::ProxyLoaded(proxy), now),
            commands_view(outcome.commands@) == old(self)@.commands(EventView::ProxyLoaded(proxy)),
            outcome.redraw,
    {
        proof {
            reveal(AppView::step);
            reveal(AppView::commands);
        }
        let mut commands: Vec<Command> = Vec::new();
        match self.current_page {
            CurrentPage::Group => {
                commands = self.group_page.on_proxy_loaded(&proxy);
            },
            CurrentPage::GroupItem => {
                commands = self.group_item_page.on_proxy_loaded(&proxy);
            },
            _ => {},
        }
        self.proxy_data = Some(proxy);
        Outcome { commands, redraw: true }
    }

    /// Hands a key press to the page that is shown.
    fn apply_key(&mut self, key_event: KeyEvent, now: Instant) -> (outcome: Outcome)
        requires
            old(self)@.wf(),
            !old(self)@.quit,
        ensures
            final(self)@.wf(),
            final(self)@ == old(self)@.step(EventView::Key(key_event), now),
            commands_view(outcome.commands@) == old(self)@.commands(EventView::Key(key_event)),
            !outcome.redraw,
    {
        proof {
            reveal(AppView::step);
            reveal(AppView::commands);
        }
        let commands = match self.current_page {
            CurrentPage::Group => self.group_page.on_key(key_event),
            CurrentPage::GroupItem => self.group_item_page.on_key(key_event),
            CurrentPage::Log => self.log_page.on_key(key_event),
            CurrentPage::Connection => self.connection_page.on_key(key_event),
        };
        Outcome { commands, redraw: false }
    }

    /// Opens the member page for a group.
    fn apply_open_group(&mut self, name: String, now: Instant) -> (outcome: Outcome)
        requires
            old(self)@.wf(),
            !old(self)@.quit,
        ensures
            final(self)@.wf(),
            final(self)@ == old(self)@.step(EventView::ShowGroupItemPage(name@), now),
            commands_view(outcome.commands@) == old(self)@.commands(
                EventView::ShowGroupItemPage(name@),
            ),
            outcome.redraw,
    {
        proof {
            reveal(AppView::step);
            reveal(AppView::commands);
        }
        let mut commands: Vec<Command> = Vec::new();
        self.current_page = CurrentPage::GroupItem;
        self.group_item_page.set_group_name(name.as_str());
        match &self.proxy_data {
            Some(proxy) => {
                commands = self.group_item_page.on_proxy_loaded(proxy);
            },
            None => {},
        }
        self.group_item_page.select_selected();
        self.menu = GroupItemPage::get_menu();
        Outcome { commands, redraw: true }
    }

    /// Opens a stream page, or goes back to the group page.
    fn apply_show(&mut self, page: CurrentPage, now: Instant) -> (outcome: Outcome)
        requires
            old(self)@.wf(),
            !old(self)@.quit,
            page != CurrentPage::GroupItem,
        ensures
            final(self)@.wf(),
            final(self)@ == old(self)@.step(show_event(page), now),
            commands_view(outcome.commands@) == old(self)@.commands(show_event(page)),
            outcome.redraw,
    {
        proof {
            reveal(AppView::step);
            reveal(AppView::commands);
        }
        let mut commands: Vec<Command> = Vec::new();
        let from: CurrentPage = match self.current_page {
            CurrentPage::Group => CurrentPage::Group,
            CurrentPage::GroupItem => CurrentPage::GroupItem,
            _ => self.previous_page,
        };
        self.current_page = page;
        match page {
            CurrentPage::Log => {
                self.previous_page = from;
                commands = self.log_page.active();
                self.menu = FilterWidget::<LogPage>::get_menu();
            },
            CurrentPage::Connection => {
                self.previous_page = from;
                commands = self.connection_page.active();
                self.menu = FilterWidget::<ConnectionPage>::get_menu();
            },
            _ => {
                self.menu = self.group_page.get_menu();
            },
        }
        Outcome { commands, redraw: true }
    }

    /// Sets the status line and brings back the menu of the page.
    fn apply_status(&mut self, text: String, now: Instant) -> (outcome: Outcome)
        requires
            old(self)@.wf(),
            !old(self)@.quit,
        ensures
            final(self)@.wf(),
            final(self)@ == old(self)@.step(EventView::Status(text@), now),
            commands_view(outcome.commands@) == old(self)@.commands(EventView::Status(text@)),
            outcome.redraw,
    {
        proof {
            reveal(AppView::step);
            reveal(AppView::commands);
        }
        let commands: Vec<Command> = Vec::new();
        self.status = text;
        self.menu = match self.current_page {
            CurrentPage::Group => self.group_page.get_menu(),
            CurrentPage::GroupItem => GroupItemPage::get_menu(),
            CurrentPage::Log => self.log_page.current_menu(),
            CurrentPage::Connection => self.connection_page.current_menu(),
        };
        Outcome { commands, redraw: true }
    }

    /// Takes in what a stream brought.
    fn apply_log(&mut self, item: LogItem, now: Instant) -> (outcome: Outcome)
        requires
            old(self)@.wf(),
            !old(self)@.quit,
        ensures
            final(self)@.wf(),
            final(self)@ == old(self)@.step(EventView::Log(item.kind@, item.payload@), now),
            commands_view(outcome.commands@) == old(self)@.commands(
                EventView::Log(item.kind@, item.payload@),
            ),
            outcome.redraw,
    {
        proof {
            reveal(AppView::step);
            reveal(AppView::commands);
        }
        let commands = self.log_page.on_data(item, now);
        Outcome { commands, redraw: true }
    }

    /// Takes in a connection snapshot.
    fn apply_connections(&mut self, snapshot: Connection, now: Instant) -> (outcome: Outcome)
        requires
            old(self)@.wf(),
            !old(self)@.quit,
        ensures
            final(self)@.wf(),
            final(self)@ == old(self)@.step(EventView::Connection(snapshot), now),
            commands_view(outcome.commands@) == old(self)@.commands(
                EventView::Connection(snapshot),
            ),
            outcome.redraw,
    {
        proof {
            reveal(AppView::step);
            reveal(AppView::commands);
        }
        let commands = self.connection_page.on_data(snapshot, now);
        Outcome { commands, redraw: true }
    }

    /// Takes in the routing mode.
    fn apply_mode(&mut self, mode: String, now: Instant) -> (outcome: Outcome)
        requires
            old(self)@.wf(),
            !old(self)@.quit,
        ensures
            final(self)@.wf(),
            final(self)@ == old(self)@.step(EventView::ModeChanged(mode@), now),
            commands_view(outcome.commands@) == old(self)@.commands(EventView::ModeChanged(mode@)),
            outcome.redraw,
    {
        proof {
            reveal(AppView::step);
            reveal(AppView::commands);
        }
        let commands: Vec<Command> = Vec::new();
        self.group_page.set_current_mode(mode.as_str());
        match self.current_page {
            CurrentPage::Group => {
                self.menu = self.group_page.get_menu();
            },
            _ => {},
        }
        Outcome { commands, redraw: true }
    }

    /// Quits, goes back from a stream page, replaces the menu, or only asks
    /// for a redraw.
    fn apply_plain(&mut self, event: AppEvent, now: Instant) -> (outcome: Outcome)
        requires
            old(self)@.wf(),
            !old(self)@.quit,
            event is Quit || event is Draw || event is SetMenu || event is ShowPrevious,
        ensures
            final(self)@.wf(),
            final(self)@ == old(self)@.step(event@, now),
            commands_view(outcome.commands@) == old(self)@.commands(event@),
            outcome.redraw == !(event is Quit),
    {
        proof {
            reveal(AppView::step);
            reveal(AppView::commands);
        }
        let mut commands: Vec<Command> = Vec::new();
        match event {
            AppEvent::Quit => {
                self.quit = true;
                commands.push(Command::Ask(Request::StopLogStream));
                commands.push(Command::Ask(Request::StopConnectionStream));
                Outcome { commands, redraw: false }
            },
            AppEvent::ShowPrevious => {
                match self.previous_page {
                    CurrentPage::GroupItem => {
                        self.current_page = CurrentPage::GroupItem;
                        self.menu = GroupItemPage::get_menu();
                    },
                    _ => {
                        self.current_page = CurrentPage::Group;
                        self.menu = self.group_page.get_menu();
                    },
                }
                Outcome { commands, redraw: true }
            },
            AppEvent::SetMenu(menu) => {
                self.menu = menu;
                Outcome { commands, redraw: true }
            },
            _ => {
                Outcome { commands, redraw: true }
            },
        }
    }

    /// Applies `event`, which is handled at `now`.
    pub fn handle_at(&mut self, event: AppEvent, now: Instant) -> (outcome: Outcome)
        requires
            old(self)@.wf(),
            event_ok(event@),
        ensures
            final(self)@.wf(),
            final(self)@ == old(self)@.step(event@, now),
            commands_view(outcome.commands@) == old(self)@.commands(event@),
            outcome.redraw == old(self)@.redraws(event@),
    {
        if self.quit {
            let commands: Vec<Command> = Vec::new();
            proof {
                reveal(AppView::step);
                reveal(AppView::commands);
            }
            return Outcome { commands, redraw: false };
        }
        match event {
            AppEvent::ProxyLoaded(proxy) => self.apply_proxies(proxy, now),
            AppEvent::Key(key_event) => self.apply_key(key_event, now),
            AppEvent::ShowGroupPage => self.apply_show(CurrentPage::Group, now),
            AppEvent::ShowGroupItemPage(name) => self.apply_open_group(name, now),
            AppEvent::ShowLogPage => self.apply_show(CurrentPage::Log, now),
            AppEvent::ShowConnection => self.apply_show(CurrentPage::Connection, now),
            AppEvent::Status(text) => self.apply_status(text, now),
            AppEvent::Log(item) => self.apply_log(item, now),
            AppEvent::Connection(snapshot) => self.apply_connections(snapshot, now),
            AppEvent::ModeChanged(mode) => self.apply_mode(mode, now),
            other => self.apply_plain(other, now),
        }
    }

    /// Applies `event`, which is handled now, by the machine's clock.
    pub fn handle(&mut self, event: AppEvent) -> (outcome: Outcome)
        requires
            old(self)@.wf(),
            event_ok(event@),
        ensures
            final(self)@.wf(),
            exists|now: Instant| final(self)@ == old(self)@.step(event@, now),
            commands_view(outcome.commands@) == old(self)@.commands(event@),
            outcome.redraw == old(self)@.redraws(event@),
    {
        let now = current_instant();
        self.handle_at(event, now)
    }
}

} // verus!
