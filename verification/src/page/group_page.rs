//! The page that lists the switchable groups.

use crate::clash_api::proxy::{failure_text, group_table, ProxyData, Table};
use crate::my_event::{
    commands_view, draw_command, menu_view, status, status_command, AppEvent, Command,
    CommandView, EventView, KeyCode, KeyEvent, Menu, Request, RequestView,
};
use crate::page::widget::table_widget::{
    lemma_first_match, row_of, titles_of, Row, TableFrame, TableView, TableWidget,
};
use crate::text::{join2, lowercase, str_eq, to_lowercase};
use vstd::prelude::*;
use vstd::string::StringExecFns;

verus! {

/// The menu label of the routing mode that follows rules.
pub const MODE_RULE: &'static str = "模式:RULE";

/// The menu label of the routing mode that sends everything through one
/// proxy.
pub const MODE_GLOBAL: &'static str = "模式:GLOBAL";

/// The menu label of the routing mode that uses no proxy.
pub const MODE_DIRECT: &'static str = "模式:DIRECT";

/// The titles of the group table.
pub open spec fn group_titles() -> Seq<Seq<char>> {
    seq!["名称"@, "详情"@, "延迟"@]
}

/// The menu label for a routing mode in lowercase; an unknown mode counts
/// as the rule mode.
pub open spec fn mode_label(lower: Seq<char>) -> Seq<char> {
    if lower == "direct"@ {
        MODE_DIRECT@
    } else if lower == "global"@ {
        MODE_GLOBAL@
    } else {
        MODE_RULE@
    }
}

/// The menu label for a routing mode whose name is given in lowercase; an
/// unknown mode counts as the rule mode.
pub fn label_of_mode(lower: &str) -> (label: &'static str)
    ensures
        label@ == mode_label(lower@),
{
    if str_eq(lower, "direct") {
        MODE_DIRECT
    } else if str_eq(lower, "global") {
        MODE_GLOBAL
    } else {
        MODE_RULE
    }
}

/// The routing mode that a mode switch asks for, by the label shown:
/// direct, rule, global, in a circle.
pub open spec fn next_mode(label: Seq<char>) -> Seq<char> {
    if label == MODE_DIRECT@ {
        "rule"@
    } else if label == MODE_RULE@ {
        "global"@
    } else if label == MODE_GLOBAL@ {
        "direct"@
    } else {
        "rule"@
    }
}

/// The text of a status that reports a failure to load data.
pub open spec fn load_failure(message: Seq<char>) -> Seq<char> {
    "加载数据出错: "@ + message
}

/// Whether the first cell of a row is `name`.
pub open spec fn named(row: Seq<Seq<char>>, name: Seq<char>) -> bool {
    row.len() > 0 && row[0] == name
}

/// The first cell of a row, if it has one.
pub open spec fn first_cell(row: Option<Seq<Seq<char>>>) -> Option<Seq<char>> {
    match row {
        Some(cells) if cells.len() > 0 => Some(cells[0]),
        _ => None,
    }
}

/// The state of the group page.
pub struct GroupPageView {
    /// The menu label of the routing mode.
    pub mode: Seq<char>,
    pub table: TableView,
    /// The name of the group the cursor was last moved to.
    pub selected: Seq<char>,
}

/// The menu of the group page under a mode label.
pub open spec fn group_menu(mode: Seq<char>) -> Seq<(Seq<char>, Seq<char>)> {
    seq![
        ("CTRL-M"@, mode),
        ("L"@, "日志"@),
        ("C"@, "链接"@),
        ("ENTER"@, "查看"@),
        ("ESC"@, "退出"@),
    ]
}

impl GroupPageView {
    /// The page before any data: an empty table under the group titles, the
    /// rule mode's label, no group remembered.
    pub open spec fn initial() -> GroupPageView {
        GroupPageView {
            mode: MODE_RULE@,
            table: TableView::empty(group_titles()),
            selected: Seq::empty(),
        }
    }

    /// The page after the daemon's data arrived: the table shows the
    /// groups, with the cursor on the group last moved to, or on the first
    /// row if that group is gone. Data from which no table can be made
    /// leaves the page as it is.
    pub open spec fn after_proxies(self, table: Table) -> GroupPageView {
        match table {
            Table::Rows(rows) => GroupPageView {
                table: self.table.with_rows(rows).first_where(
                    |row: Seq<Seq<char>>| named(row, self.selected),
                ),
                ..self
            },
            Table::Failed(_) => self,
        }
    }

    /// The commands of arriving data: a status for data from which no table
    /// can be made.
    pub open spec fn proxies_commands(table: Table) -> Seq<CommandView> {
        match table {
            Table::Rows(_) => Seq::empty(),
            Table::Failed(failure) => seq![status_command(load_failure(failure_text(failure)))],
        }
    }

    /// The page after a cursor step that led to `table`: the group under
    /// the cursor is remembered.
    pub open spec fn stepped(self, table: TableView) -> GroupPageView {
        GroupPageView {
            table,
            selected: match first_cell(table.current()) {
                Some(name) if self.table.rows.len() > 0 => name,
                _ => self.selected,
            },
            ..self
        }
    }

    /// The page after a key press.
    pub open spec fn after_key(self, key: KeyEvent) -> GroupPageView {
        match key.code {
            KeyCode::Up => self.stepped(self.table.up()),
            KeyCode::Down => self.stepped(self.table.down()),
            _ => self,
        }
    }

    /// The commands of a key press.
    pub open spec fn key_commands(self, key: KeyEvent) -> Seq<CommandView> {
        match key.code {
            KeyCode::Up => seq![draw_command()],
            KeyCode::Down => seq![draw_command()],
            KeyCode::Char(c) => if c == 'l' || c == 'L' {
                seq![CommandView::Emit(EventView::ShowLogPage)]
            } else if c == 'c' || c == 'C' {
                seq![CommandView::Emit(EventView::ShowConnection)]
            } else if (c == 'm' || c == 'M') && key.control {
                seq![CommandView::Ask(RequestView::SwitchMode(next_mode(self.mode)))]
            } else {
                Seq::empty()
            },
            KeyCode::Esc => seq![CommandView::Emit(EventView::Quit)],
            KeyCode::Enter => match first_cell(self.table.current()) {
                Some(name) => seq![CommandView::Emit(EventView::ShowGroupItemPage(name))],
                None => Seq::empty(),
            },
            _ => Seq::empty(),
        }
    }
}

/// A text or the reason why there is none, as character sequences.
pub open spec fn text_view(r: Result<String, String>) -> Result<Seq<char>, Seq<char>> {
    match r {
        Ok(text) => Ok(text@),
        Err(reason) => Err(reason@),
    }
}

/// The daemon's data or the reason why there is none, with the reason as a
/// character sequence.
pub open spec fn data_view(r: Result<ProxyData, String>) -> Result<ProxyData, Seq<char>> {
    match r {
        Ok(data) => Ok(data),
        Err(reason) => Err(reason@),
    }
}

/// The event for the outcome of fetching the routing mode: the mode, or a
/// status that reports the failure.
pub open spec fn mode_outcome(mode: Result<Seq<char>, Seq<char>>) -> EventView {
    match mode {
        Ok(name) => EventView::ModeChanged(name),
        Err(reason) => EventView::Status(load_failure(reason)),
    }
}

/// The event for the outcome of fetching the daemon's data: the data, or a
/// status that reports the failure.
pub open spec fn data_outcome(data: Result<ProxyData, Seq<char>>) -> EventView {
    match data {
        Ok(proxies) => EventView::ProxyLoaded(proxies),
        Err(reason) => EventView::Status(load_failure(reason)),
    }
}

/// The event to submit for the outcome of fetching the routing mode.
pub fn mode_event(mode: Result<String, String>) -> (event: AppEvent)
    ensures
        event@ == mode_outcome(text_view(mode)),
{
    match mode {
        Ok(name) => AppEvent::ModeChanged(name),
        Err(reason) => AppEvent::Status(join2("加载数据出错: ", reason.as_str())),
    }
}

/// The event to submit for the outcome of fetching the daemon's data.
pub fn data_event(data: Result<ProxyData, String>) -> (event: AppEvent)
    ensures
        event@ == data_outcome(data_view(data)),
{
    match data {
        Ok(proxies) => AppEvent::ProxyLoaded(proxies),
        Err(reason) => AppEvent::Status(join2("加载数据出错: ", reason.as_str())),
    }
}

/// The events to submit when the group page's request for the routing mode
/// and the daemon's data is done: first the one for the mode, then the one
/// for the data.
pub fn loaded_events(mode: Result<String, String>, data: Result<ProxyData, String>) -> (events:
    Vec<AppEvent>)
    ensures
        crate::dispatcher::events_view(events@) == seq![
            mode_outcome(text_view(mode)),
            data_outcome(data_view(data)),
        ],
{
    let mut events: Vec<AppEvent> = Vec::new();
    events.push(mode_event(mode));
    events.push(data_event(data));
    events
}

/// The group page: the label of the routing mode, the table of groups, and
/// the name of the group the cursor was last moved to.
pub struct GroupPage {
    current_mode: &'static str,
    table_widget: TableWidget,
    selected: String,
}

impl View for GroupPage {
    type V = GroupPageView;

    closed spec fn view(&self) -> GroupPageView {
        GroupPageView {
            mode: self.current_mode@,
            table: self.table_widget@,
            selected: self.selected@,
        }
    }
}

impl GroupPage {
    /// The page before any data: an empty table under the group titles, the
    /// rule mode's label, no group remembered.
    pub fn new() -> (page: Self)
        ensures
            page@ == GroupPageView::initial(),
    {
        let mut header: Vec<&'static str> = Vec::new();
        header.push("名称");
        header.push("详情");
        header.push("延迟");
        proof {
            assert(titles_of(header) =~= group_titles());
        }
        GroupPage {
            current_mode: MODE_RULE,
            table_widget: TableWidget::new(header),
            selected: String::new(),
        }
    }

    /// Puts the cursor on the row of the remembered group.
    fn select_remembered(&mut self)
        ensures
            final(self)@ == (GroupPageView {
                table: old(self)@.table.first_where(
                    |row: Seq<Seq<char>>| named(row, old(self)@.selected),
                ),
                ..old(self)@
            }),
    {
        let wanted: &String = &self.selected;
        let ghost name = self.selected@;
        let ghost keep = |row: Seq<Seq<char>>| named(row, name);
        let ghost before = self.table_widget;
        let is_wanted = |row: &Row| -> (found: bool)
            ensures
                found == named(row_of(*row), wanted@),
            { row.len() > 0 && str_eq(row[0].as_str(), wanted.as_str()) };
        self.table_widget.select(is_wanted);
        proof {
            before.lemma_rows();
            let at = self.table_widget@.cursor->0 as int;
            let rows = before.data()@;
            lemma_first_match(before@.rows, keep, at);
        }
    }

    /// Takes in the daemon's data: the table shows the groups, with the
    /// cursor on the group last moved to. Data from which no table can be
    /// made gives a status and changes nothing.
    pub fn on_proxy_loaded(&mut self, proxy: &ProxyData) -> (commands: Vec<Command>)
        requires
            proxy.wf(),
        ensures
            final(self)@ == old(self)@.after_proxies(
                group_table(proxy.proxies@, proxy.proxies.keys().len()),
            ),
            commands_view(commands@) == GroupPageView::proxies_commands(
                group_table(proxy.proxies@, proxy.proxies.keys().len()),
            ),
    {
        let mut commands: Vec<Command> = Vec::new();
        match proxy.to_groups() {
            Ok(rows) => {
                self.table_widget.set_data(rows);
                self.select_remembered();
            },
            Err(error) => {
                commands.push(status(join2("加载数据出错: ", error.message().as_str())));
            },
        }
        commands
    }

    /// Sets the label of the routing mode from the mode's name in any case
    /// of letters.
    pub fn set_current_mode(&mut self, mode: &str)
        ensures
            final(self)@ == (GroupPageView { mode: mode_label(lowercase(mode@)), ..old(self)@ }),
    {
        let lower = to_lowercase(mode);
        self.current_mode = label_of_mode(lower.as_str());
    }

    /// The menu of the page.
    pub fn get_menu(&self) -> (menu: Menu)
        ensures
            menu_view(menu) == group_menu(self@.mode),
    {
        let mut menu: Menu = Vec::new();
        menu.push(("CTRL-M", self.current_mode));
        menu.push(("L", "日志"));
        menu.push(("C", "链接"));
        menu.push(("ENTER", "查看"));
        menu.push(("ESC", "退出"));
        menu
    }

    /// Remembers the group of `row`, the row a cursor step returned.
    fn remember(&mut self, row: Vec<String>)
        ensures
            final(self)@ == (GroupPageView {
                selected: if row@.len() > 0 {
                    row@[0]@
                } else {
                    old(self)@.selected
                },
                ..old(self)@
            }),
    {
        if row.len() > 0 {
            self.selected = row[0].clone();
        }
    }

    /// Moves the cursor up by one row and remembers the group it stands on.
    pub fn select_up(&mut self)
        ensures
            final(self)@ == old(self)@.stepped(old(self)@.table.up()),
    {
        let row = self.table_widget.select_up();
        self.remember(row);
    }

    /// Moves the cursor down by one row and remembers the group it stands
    /// on.
    pub fn select_down(&mut self)
        ensures
            final(self)@ == old(self)@.stepped(old(self)@.table.down()),
    {
        let row = self.table_widget.select_down();
        self.remember(row);
    }

    /// Handles a key press: the arrows move the cursor, `l` and `c` open
    /// the log and the connections, enter opens the group under the cursor,
    /// control with `m` asks for the next routing mode, escape quits.
    pub fn on_key(&mut self, key_event: KeyEvent) -> (commands: Vec<Command>)
        ensures
            final(self)@ == old(self)@.after_key(key_event),
            commands_view(commands@) == old(self)@.key_commands(key_event),
    {
        let mut commands: Vec<Command> = Vec::new();
        match key_event.code {
            KeyCode::Up => {
                self.select_up();
                commands.push(Command::Emit(AppEvent::Draw));
            },
            KeyCode::Down => {
                self.select_down();
                commands.push(Command::Emit(AppEvent::Draw));
            },
            KeyCode::Char(c) => {
                if c == 'l' || c == 'L' {
                    commands.push(Command::Emit(AppEvent::ShowLogPage));
                } else if c == 'c' || c == 'C' {
                    commands.push(Command::Emit(AppEvent::ShowConnection));
                } else if (c == 'm' || c == 'M') && key_event.control {
                    let mode: &str = if str_eq(self.current_mode, MODE_DIRECT) {
                        "rule"
                    } else if str_eq(self.current_mode, MODE_RULE) {
                        "global"
                    } else if str_eq(self.current_mode, MODE_GLOBAL) {
                        "direct"
                    } else {
                        "rule"
                    };
                    commands.push(Command::Ask(Request::SwitchMode(String::from_str(mode))));
                }
            },
            KeyCode::Esc => {
                commands.push(Command::Emit(AppEvent::Quit));
            },
            KeyCode::Enter => {
                match self.table_widget.current_row() {
                    Some(row) => {
                        if row.len() > 0 {
                            commands.push(Command::Emit(AppEvent::ShowGroupItemPage(row[0].clone())));
                        }
                    },
                    None => {},
                }
            },
            _ => {},
        }
        commands
    }

    /// The table of the page.
    pub fn table(&self) -> (table: &TableWidget)
        ensures
            table@ == self@.table,
    {
        &self.table_widget
    }

    /// Settles the table's cursor and works out what drawing the table
    /// needs.
    pub fn show(&mut self) -> (frame: TableFrame)
        ensures
            final(self)@ == (GroupPageView { table: old(self)@.table.drawn(), ..old(self)@ }),
            old(self)@.table.frames(frame),
    {
        self.table_widget.render()
    }

    /// Enters the page: the routing mode and the proxies are asked for.
    pub fn active(&mut self) -> (commands: Vec<Command>)
        ensures
            final(self)@ == old(self)@,
            commands_view(commands@) == seq![CommandView::Ask(RequestView::LoadProxies)],
    {
        let mut commands: Vec<Command> = Vec::new();
        commands.push(Command::Ask(Request::LoadProxies));
        commands
    }
}

} // verus!
