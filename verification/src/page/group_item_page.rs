//! The page that lists the members of one group.

use crate::clash_api::proxy::{failure_text, member_table, ProxyData, Table};
use crate::my_event::{
    commands_view, draw_command, menu_view, status, status_command, AppEvent, Command,
    CommandView, EventView, KeyCode, KeyEvent, Menu, Request, RequestView,
};
use crate::dispatcher::events_view;
use crate::page::group_page::{data_event, data_outcome, data_view, load_failure};
use crate::page::widget::table_widget::{
    lemma_first_match, row_of, titles_of, Row, TableFrame, TableView, TableWidget,
};
use crate::text::join2;
use vstd::prelude::*;
use vstd::string::StringExecFns;

verus! {

/// The titles of the member table.
pub open spec fn member_titles() -> Seq<Seq<char>> {
    seq!["名称"@, "延迟"@, "选中"@]
}

/// The menu of the member page.
pub open spec fn member_menu() -> Seq<(Seq<char>, Seq<char>)> {
    seq![("CTRL-T"@, "测速"@), ("ENTER"@, "选择"@), ("ESC"@, "返回"@)]
}

/// Whether a row carries the mark of the chosen member.
pub open spec fn marked(row: Seq<Seq<char>>) -> bool {
    row.len() >= 3 && row[2].len() > 0
}

/// The state of the member page.
pub struct GroupItemPageView {
    pub table: TableView,
    /// The name of the group whose members are listed.
    pub group_name: Seq<char>,
}

impl GroupItemPageView {
    /// The page before any data: an empty table under the member titles,
    /// for no group.
    pub open spec fn initial() -> GroupItemPageView {
        GroupItemPageView { table: TableView::empty(member_titles()), group_name: Seq::empty() }
    }

    /// The page after the daemon's data arrived: the table shows the
    /// members of the page's group. Data from which no table can be made
    /// leaves the page without rows, so that no member of another group is
    /// shown under this group's name.
    pub open spec fn after_proxies(self, table: Table) -> GroupItemPageView {
        match table {
            Table::Rows(rows) => GroupItemPageView { table: self.table.with_rows(rows), ..self },
            Table::Failed(_) => GroupItemPageView {
                table: self.table.with_rows(Seq::empty()),
                ..self
            },
        }
    }

    /// The commands of arriving data: a status for data from which no table
    /// can be made.
    pub open spec fn proxies_commands(table: Table) -> Seq<CommandView> {
        match table {
            Table::Rows(_) => Seq::empty(),
            Table::Failed(failure) => seq![status_command(load_failure(failure_text(failure)))],
        }
    }

    /// The page with the cursor on the chosen member, and on the first row
    /// if no member is marked.
    pub open spec fn on_chosen(self) -> GroupItemPageView {
        GroupItemPageView {
            table: self.table.first_where(|row: Seq<Seq<char>>| marked(row)),
            ..self
        }
    }

    /// The page after a key press.
    pub open spec fn after_key(self, key: KeyEvent) -> GroupItemPageView {
        match key.code {
            KeyCode::Up => GroupItemPageView { table: self.table.up(), ..self },
            KeyCode::Down => GroupItemPageView { table: self.table.down(), ..self },
            _ => self,
        }
    }

    /// The commands of a key press.
    pub open spec fn key_commands(self, key: KeyEvent) -> Seq<CommandView> {
        match key.code {
            KeyCode::Up => seq![draw_command()],
            KeyCode::Down => seq![draw_command()],
            KeyCode::Char(c) => if (c == 't' || c == 'T') && key.control {
                seq![
                    status_command("测速中..."@),
                    CommandView::Ask(RequestView::ProbeDelay(self.group_name)),
                ]
            } else if c == 'l' || c == 'L' {
                seq![CommandView::Emit(EventView::ShowLogPage)]
            } else if c == 'c' || c == 'C' {
                seq![CommandView::Emit(EventView::ShowConnection)]
            } else {
                Seq::empty()
            },
            KeyCode::Enter => match self.table.current() {
                Some(row) => if row.len() >= 3 && row[2].len() == 0 {
                    seq![
                        CommandView::Emit(EventView::ShowGroupPage),
                        CommandView::Ask(
                            RequestView::SelectMember { group: self.group_name, member: row[0] },
                        ),
                    ]
                } else {
                    seq![CommandView::Emit(EventView::ShowGroupPage)]
                },
                None => Seq::empty(),
            },
            KeyCode::Esc => seq![CommandView::Emit(EventView::ShowGroupPage)],
            _ => Seq::empty(),
        }
    }
}

/// The text of the status that reports a failed delay probe.
pub open spec fn probe_failure(reason: Seq<char>) -> Seq<char> {
    "检查延时出错: "@ + reason
}

/// The text of the status that reports a failure to choose a member.
pub open spec fn choose_failure(reason: Seq<char>) -> Seq<char> {
    "设置分组出错: "@ + reason
}

/// The reason of a failed step, if it failed.
pub open spec fn failure_of(step: Result<(), String>) -> Option<Seq<char>> {
    match step {
        Ok(_) => None,
        Err(reason) => Some(reason@),
    }
}

/// The events of a delay probe's outcome: a status if the probe failed;
/// then the fetched data followed by a status that says done, or a status
/// that reports that fetching failed.
pub open spec fn probe_outcome(check: Option<Seq<char>>, data: Result<ProxyData, Seq<char>>)
    -> Seq<EventView> {
    let first = match check {
        Some(reason) => seq![EventView::Status(probe_failure(reason))],
        None => Seq::empty(),
    };
    match data {
        Ok(_) => first + seq![data_outcome(data), EventView::Status("测速完成"@)],
        Err(_) => first + seq![data_outcome(data)],
    }
}

/// The events of the outcome of choosing a member: a status if choosing
/// failed; then the fetched data, or a status that reports that fetching
/// failed.
pub open spec fn choose_outcome(choice: Option<Seq<char>>, data: Result<ProxyData, Seq<char>>)
    -> Seq<EventView> {
    let first = match choice {
        Some(reason) => seq![EventView::Status(choose_failure(reason))],
        None => Seq::empty(),
    };
    first + seq![data_outcome(data)]
}

/// The events to submit when a delay probe and the fetch after it are
/// done.
pub fn probed_events(check: Result<(), String>, data: Result<ProxyData, String>) -> (events: Vec<
    AppEvent,
>)
    ensures
        events_view(events@) == probe_outcome(failure_of(check), data_view(data)),
{
    let mut events: Vec<AppEvent> = Vec::new();
    match check {
        Ok(_) => {},
        Err(reason) => {
            events.push(AppEvent::Status(join2("检查延时出错: ", reason.as_str())));
        },
    }
    let done: bool = data.is_ok();
    events.push(data_event(data));
    if done {
        events.push(AppEvent::Status(String::from_str("测速完成")));
    }
    events
}

/// The events to submit when choosing a member and the fetch after it are
/// done.
pub fn chosen_events(choice: Result<(), String>, data: Result<ProxyData, String>) -> (events: Vec<
    AppEvent,
>)
    ensures
        events_view(events@) == choose_outcome(failure_of(choice), data_view(data)),
{
    let mut events: Vec<AppEvent> = Vec::new();
    match choice {
        Ok(_) => {},
        Err(reason) => {
            events.push(AppEvent::Status(join2("设置分组出错: ", reason.as_str())));
        },
    }
    events.push(data_event(data));
    events
}

/// The member page: the table of a group's members and the group's name.
pub struct GroupItemPage {
    table_widget: TableWidget,
    group_name: String,
}

impl View for GroupItemPage {
    type V = GroupItemPageView;

    closed spec fn view(&self) -> GroupItemPageView {
        GroupItemPageView { table: self.table_widget@, group_name: self.group_name@ }
    }
}

impl GroupItemPage {
    /// The page before any data: an empty table under the member titles,
    /// for no group.
    pub fn new() -> (page: Self)
        ensures
            page@ == GroupItemPageView::initial(),
    {
        let mut header: Vec<&'static str> = Vec::new();
        header.push("名称");
        header.push("延迟");
        header.push("选中");
        proof {
            assert(titles_of(header) =~= member_titles());
        }
        GroupItemPage { table_widget: TableWidget::new(header), group_name: String::new() }
    }

    /// The menu of the page.
    pub fn get_menu() -> (menu: Menu)
        ensures
            menu_view(menu) == member_menu(),
    {
        let mut menu: Menu = Vec::new();
        menu.push(("CTRL-T", "测速"));
        menu.push(("ENTER", "选择"));
        menu.push(("ESC", "返回"));
        menu
    }

    /// Handles a key press: the arrows move the cursor; control with `t`
    /// asks for a delay probe of the group; `l` opens the log and `c` the
    /// connections; enter goes
    /// back to the groups and, on a member that is not the chosen one, asks
    /// to choose it; escape goes back to the groups, whatever the table
    /// holds.
    pub fn on_key(&mut self, key_event: KeyEvent) -> (commands: Vec<Command>)
        ensures
            final(self)@ == old(self)@.after_key(key_event),
            commands_view(commands@) == old(self)@.key_commands(key_event),
    {
        let mut commands: Vec<Command> = Vec::new();
        match key_event.code {
            KeyCode::Up => {
                self.select_up();
                commands.push(Command::Emit(AppEvent::Draw));
            },
            KeyCode::Down => {
                self.select_down();
                commands.push(Command::Emit(AppEvent::Draw));
            },
            KeyCode::Char(c) => {
                if (c == 't' || c == 'T') && key_event.control {
                    commands.push(status(String::from_str("测速中...")));
                    commands.push(Command::Ask(Request::ProbeDelay(self.group_name.clone())));
                } else if c == 'l' || c == 'L' {
                    commands.push(Command::Emit(AppEvent::ShowLogPage));
                } else if c == 'c' || c == 'C' {
                    commands.push(Command::Emit(AppEvent::ShowConnection));
                }
            },
            KeyCode::Enter => {
                match self.table_widget.current_row() {
                    Some(row) => {
                        commands.push(Command::Emit(AppEvent::ShowGroupPage));
                        if row.len() >= 3 && row[2].as_str().is_empty() {
                            commands.push(
                                Command::Ask(
                                    Request::SelectMember {
                                        group: self.group_name.clone(),
                                        member: row[0].clone(),
                                    },
                                ),
                            );
                        }
                    },
                    None => {},
                }
            },
            KeyCode::Esc => {
                commands.push(Command::Emit(AppEvent::ShowGroupPage));
            },
            _ => {},
        }
        commands
    }

    /// Sets the group whose members the page lists.
    pub fn set_group_name(&mut self, group_name: &str)
        ensures
            final(self)@ == (GroupItemPageView { group_name: group_name@, ..old(self)@ }),
    {
        self.group_name = String::from_str(group_name);
    }

    /// Takes in the daemon's data: the table shows the members of the
    /// page's group. Data from which no table can be made gives a status
    /// and leaves the page without rows.
    pub fn on_proxy_loaded(&mut self, proxy: &ProxyData) -> (commands: Vec<Command>)
        requires
            proxy.wf(),
        ensures
            final(self)@ == old(self)@.after_proxies(
                member_table(proxy.proxies@, proxy.proxies.keys().len(), old(self)@.group_name),
            ),
            commands_view(commands@) == GroupItemPageView::proxies_commands(
                member_table(proxy.proxies@, proxy.proxies.keys().len(), old(self)@.group_name),
            ),
    {
        let mut commands: Vec<Command> = Vec::new();
        match proxy.to_group_items(self.group_name.as_str()) {
            Ok(rows) => {
                self.table_widget.set_data(rows);
            },
            Err(error) => {
                let none: Vec<Vec<String>> = Vec::new();
                proof {
                    assert(crate::page::widget::table_widget::rows_of(none) =~= Seq::empty());
                }
                self.table_widget.set_data(none);
                commands.push(status(join2("加载数据出错: ", error.message().as_str())));
            },
        }
        commands
    }

    /// Moves the cursor up by one row.
    pub fn select_up(&mut self)
        ensures
            final(self)@ == (GroupItemPageView { table: old(self)@.table.up(), ..old(self)@ }),
    {
        self.table_widget.select_up();
    }

    /// Moves the cursor down by one row.
    pub fn select_down(&mut self)
        ensures
            final(self)@ == (GroupItemPageView { table: old(self)@.table.down(), ..old(self)@ }),
    {
        self.table_widget.select_down();
    }

    /// Puts the cursor on the chosen member, and on the first row if no
    /// member is marked.
    pub fn select_selected(&mut self)
        ensures
            final(self)@ == old(self)@.on_chosen(),
    {
        let ghost keep = |row: Seq<Seq<char>>| marked(row);
        let ghost before = self.table_widget;
        let is_marked = |row: &Row| -> (found: bool)
            ensures
                found == marked(row_of(*row)),
            {
                row.len() >= 3 && !row[2].as_str().is_empty()
            };
        self.table_widget.select(is_marked);
        proof {
            before.lemma_rows();
            let at = self.table_widget@.cursor->0 as int;
            let rows = before.data()@;
            lemma_first_match(before@.rows, keep, at);
        }
    }

    /// The table of the page.
    pub fn table(&self) -> (table: &TableWidget)
        ensures
            table@ == self@.table,
    {
        &self.table_widget
    }

    /// Settles the table's cursor and works out what drawing the table
    /// needs.
    pub fn show(&mut self) -> (frame: TableFrame)
        ensures
            final(self)@ == (GroupItemPageView { table: old(self)@.table.drawn(), ..old(self)@ }),
            old(self)@.table.frames(frame),
    {
        self.table_widget.render()
    }
}

} // verus!
