//! The page that follows the daemon's log.

use crate::clash_api::LogItem;
use crate::my_event::{
    commands_view, draw_command, menu_view, status, status_command, AppEvent, Command,
    CommandView, EventView, KeyCode, KeyEvent, Menu, Request, RequestView,
};
use crate::page::connection_page::{pause_text, Instant};
use crate::page::stream_worker::{MsgView, WsMsg};
use crate::page::widget::filter_widget::FilterInnerWidget;
use crate::page::widget::log_widget::{LogView, LogWidget};
use crate::text::join2;
use vstd::prelude::*;
use vstd::string::StringExecFns;

verus! {

/// How many log lines the page keeps.
pub const LOG_CAPACITY: usize = 5000;

/// The state of the log page.
pub struct LogPageView {
    pub log: LogView,
    /// Whether the page has asked for its stream and not yet for its end.
    pub streaming: bool,
    /// Whether arriving messages are ignored.
    pub pause: bool,
}

/// The menu of the log page.
pub open spec fn log_menu() -> Seq<(Seq<char>, Seq<char>)> {
    seq![
        ("<Space>"@, "暂停"@),
        ("/"@, "搜索"@),
        ("P"@, "代理"@),
        ("C"@, "链接"@),
        ("ESC"@, "退出"@),
    ]
}

impl LogPageView {
    /// The page before any message: an empty log of the page's capacity, no
    /// stream, not paused.
    pub open spec fn initial() -> LogPageView {
        LogPageView { log: LogView::empty(LOG_CAPACITY), streaming: false, pause: false }
    }

    /// The log widget is well formed.
    pub open spec fn wf(self) -> bool {
        self.log.wf()
    }

    /// The page after it was left: without lines and without stream.
    pub open spec fn left(self) -> LogPageView {
        LogPageView { log: self.log.cleared(), streaming: false, ..self }
    }

    /// The commands of leaving: the stream's worker is stopped.
    pub open spec fn leave_commands() -> Seq<CommandView> {
        seq![CommandView::Ask(RequestView::StopLogStream)]
    }

    /// The page after it was entered: not paused, with its stream asked
    /// for.
    pub open spec fn entered(self) -> LogPageView {
        LogPageView { streaming: true, pause: false, ..self }
    }

    /// The commands of entering: a worker that the page still has is
    /// stopped, and a new one is started.
    pub open spec fn enter_commands(self) -> Seq<CommandView> {
        if self.streaming {
            seq![
                CommandView::Ask(RequestView::StopLogStream),
                CommandView::Ask(RequestView::StartLogStream),
            ]
        } else {
            seq![CommandView::Ask(RequestView::StartLogStream)]
        }
    }

    /// The page after a message arrived: unchanged while paused, else with
    /// the message's text as a new line.
    pub open spec fn after_data(self, payload: Seq<char>) -> LogPageView {
        if self.pause {
            self
        } else {
            LogPageView { log: self.log.with_line(payload), ..self }
        }
    }

    /// The page after a key press.
    pub open spec fn after_key(self, key: KeyEvent) -> LogPageView {
        match key.code {
            KeyCode::Up => LogPageView { log: self.log.up(), ..self },
            KeyCode::Down => LogPageView { log: self.log.down(), ..self },
            KeyCode::Char(c) => if c == 'p' || c == 'P' || c == 'c' || c == 'C' {
                self.left()
            } else if c == ' ' {
                LogPageView { pause: !self.pause, ..self }
            } else {
                self
            },
            _ => self,
        }
    }

    /// The commands of a key press.
    pub open spec fn key_commands(self, key: KeyEvent) -> Seq<CommandView> {
        match key.code {
            KeyCode::Up => seq![draw_command()],
            KeyCode::Down => seq![draw_command()],
            KeyCode::Char(c) => if c == 'p' || c == 'P' {
                seq![CommandView::Emit(EventView::ShowPrevious)] + Self::leave_commands()
            } else if c == 'c' || c == 'C' {
                seq![CommandView::Emit(EventView::ShowConnection)] + Self::leave_commands()
            } else if c == ' ' {
                seq![status_command(pause_text(!self.pause))]
            } else {
                Seq::empty()
            },
            KeyCode::Esc => seq![CommandView::Emit(EventView::Quit)],
            _ => Seq::empty(),
        }
    }
}

/// The text that reports a failed attempt to open or read a stream.
pub open spec fn retry_text(reason: Seq<char>) -> Seq<char> {
    "连接失败，重试: "@ + reason
}

/// The text that reports a stream closed by the daemon.
pub open spec fn closed_text() -> Seq<char> {
    "连接已断开，重连"@
}

/// The text that reports a message that could not be decoded.
pub open spec fn log_decode_failure(reason: Seq<char>) -> Seq<char> {
    "处理日志数据出错: "@ + reason
}

/// A decoded message, or the reason why decoding failed, with the texts as
/// character sequences.
pub open spec fn decoded_log(decoded: Result<LogItem, String>) -> Result<
    (Seq<char>, Seq<char>),
    Seq<char>,
> {
    match decoded {
        Ok(item) => Ok((item.kind@, item.payload@)),
        Err(reason) => Err(reason@),
    }
}

/// The event that the log page's stream worker submits for what it
/// forwards: a message as it is; a failure or a close as a log line of its
/// own; a message that could not be decoded as a status.
pub open spec fn log_stream_event(message: MsgView<Result<LogItem, String>>) -> EventView {
    match message {
        MsgView::ConnectFail(reason) => EventView::Log(Seq::empty(), retry_text(reason)),
        MsgView::Closed => EventView::Log(Seq::empty(), closed_text()),
        MsgView::Message(decoded) => match decoded_log(decoded) {
            Ok(item) => EventView::Log(item.0, item.1),
            Err(reason) => EventView::Status(log_decode_failure(reason)),
        },
    }
}

/// The log page: the log, whether its stream was asked for, and whether
/// arriving messages are ignored.
pub struct LogPage {
    log_widget: LogWidget,
    streaming: bool,
    pause: bool,
}

impl View for LogPage {
    type V = LogPageView;

    closed spec fn view(&self) -> LogPageView {
        LogPageView { log: self.log_widget@, streaming: self.streaming, pause: self.pause }
    }
}

impl LogPage {
    /// The page before any message: an empty log of the page's capacity, no
    /// stream, not paused.
    pub fn new() -> (page: Self)
        ensures
            page@.wf(),
            page@ == LogPageView::initial(),
    {
        LogPage { log_widget: LogWidget::new(LOG_CAPACITY), streaming: false, pause: false }
    }

    /// Leaves the page: the lines go and the stream's worker is stopped.
    pub fn inactive(&mut self) -> (commands: Vec<Command>)
        requires
            old(self)@.wf(),
        ensures
            final(self)@.wf(),
            final(self)@ == old(self)@.left(),
            commands_view(commands@) == LogPageView::leave_commands(),
    {
        self.streaming = false;
        self.log_widget.clear();
        let mut commands: Vec<Command> = Vec::new();
        commands.push(Command::Ask(Request::StopLogStream));
        commands
    }

    /// Sets the filter of the log.
    pub fn set_filter(&mut self, filter: &str)
        requires
            old(self)@.wf(),
        ensures
            final(self)@.wf(),
            final(self)@ == (LogPageView { log: old(self)@.log.with_filter(filter@), ..old(self)@ }),
    {
        self.log_widget.set_filter(filter);
    }

    /// The menu of the page.
    pub fn get_menu() -> (menu: Menu)
        ensures
            menu_view(menu) == log_menu(),
    {
        let mut menu: Menu = Vec::new();
        menu.push(("<Space>", "暂停"));
        menu.push(("/", "搜索"));
        menu.push(("P", "代理"));
        menu.push(("C", "链接"));
        menu.push(("ESC", "退出"));
        menu
    }

    /// Handles a key press: the arrows scroll, `p` leaves for the page from
    /// which the stream pages were opened, `c` for the connection page, the
    /// space bar pauses and resumes, escape quits.
    pub fn on_key(&mut self, key_event: KeyEvent) -> (commands: Vec<Command>)
        requires
            old(self)@.wf(),
        ensures
            final(self)@.wf(),
            final(self)@ == old(self)@.after_key(key_event),
            commands_view(commands@) == old(self)@.key_commands(key_event),
    {
        let mut commands: Vec<Command> = Vec::new();
        match key_event.code {
            KeyCode::Up => {
                self.log_widget.select_up();
                commands.push(Command::Emit(AppEvent::Draw));
            },
            KeyCode::Down => {
                self.log_widget.select_down();
                commands.push(Command::Emit(AppEvent::Draw));
            },
            KeyCode::Char(c) => {
                if c == 'p' || c == 'P' || c == 'c' || c == 'C' {
                    if c == 'p' || c == 'P' {
                        commands.push(Command::Emit(AppEvent::ShowPrevious));
                    } else {
                        commands.push(Command::Emit(AppEvent::ShowConnection));
                    }
                    let mut rest = self.inactive();
                    commands.append(&mut rest);
                } else if c == ' ' {
                    self.pause = !self.pause;
                    let text: &str = if self.pause {
                        "暂停"
                    } else {
                        "恢复"
                    };
                    commands.push(status(String::from_str(text)));
                }
            },
            KeyCode::Esc => {
                commands.push(Command::Emit(AppEvent::Quit));
            },
            _ => {},
        }
        commands
    }

    /// The log of the page.
    pub fn log(&self) -> (log: &LogWidget)
        ensures
            log@ == self@.log,
    {
        &self.log_widget
    }

    /// Prepares drawing the log into an area of the given size and returns
    /// the display lines inside the viewport.
    pub fn show(&mut self, area_width: u16, area_height: u16) -> (visible: Vec<String>)
        requires
            old(self)@.wf(),
        ensures
            final(self)@.wf(),
            final(self)@ == (LogPageView {
                log: old(self)@.log.rendered(area_width, area_height),
                ..old(self)@
            }),
            crate::page::widget::log_widget::lines_of(visible@) == final(self)@.log.window(
                area_height,
            ),
    {
        self.log_widget.render(area_width, area_height)
    }

    /// Enters the page: arriving messages count again, and the stream's
    /// worker is asked for. A worker that the page still has is stopped
    /// first, so that the stream never has two.
    pub fn active(&mut self) -> (commands: Vec<Command>)
        requires
            old(self)@.wf(),
        ensures
            final(self)@.wf(),
            final(self)@ == old(self)@.entered(),
            commands_view(commands@) == old(self)@.enter_commands(),
    {
        let mut commands: Vec<Command> = Vec::new();
        if self.streaming {
            commands.push(Command::Ask(Request::StopLogStream));
        }
        commands.push(Command::Ask(Request::StartLogStream));
        self.pause = false;
        self.streaming = true;
        commands
    }

    /// The event to submit for what the page's stream worker forwards.
    pub fn stream_event(message: WsMsg<Result<LogItem, String>>) -> (event: AppEvent)
        ensures
            event@ == log_stream_event(message@),
    {
        match message {
            WsMsg::ConnectFail(reason) => AppEvent::Log(
                LogItem { kind: String::new(), payload: join2("连接失败，重试: ", reason.as_str()) },
            ),
            WsMsg::Closed => AppEvent::Log(
                LogItem { kind: String::new(), payload: String::from_str("连接已断开，重连") },
            ),
            WsMsg::Message(decoded) => match decoded {
                Ok(item) => AppEvent::Log(item),
                Err(reason) => AppEvent::Status(join2("处理日志数据出错: ", reason.as_str())),
            },
        }
    }

    /// Takes in a message: its text becomes a new line, unless the page is
    /// paused.
    pub fn on_data(&mut self, data: LogItem) -> (commands: Vec<Command>)
        requires
            old(self)@.wf(),
        ensures
            final(self)@.wf(),
            final(self)@ == old(self)@.after_data(data.payload@),
            commands@.len() == 0,
    {
        if !self.pause {
            self.log_widget.add_line(data.payload);
        }
        Vec::new()
    }
}

impl FilterInnerWidget for LogPage {
    type Data = LogItem;

    type Frame = Vec<String>;

    open spec fn ready(v: LogPageView) -> bool {
        v.wf()
    }

    open spec fn filter_set(v: LogPageView, filter: Seq<char>) -> LogPageView {
        LogPageView { log: v.log.with_filter(filter), ..v }
    }

    open spec fn key_pressed(v: LogPageView, key: KeyEvent) -> LogPageView {
        v.after_key(key)
    }

    open spec fn key_commands(v: LogPageView, key: KeyEvent) -> Seq<CommandView> {
        v.key_commands(key)
    }

    open spec fn menu_texts() -> Seq<(Seq<char>, Seq<char>)> {
        log_menu()
    }

    open spec fn entered(v: LogPageView) -> LogPageView {
        v.entered()
    }

    open spec fn enter_commands(v: LogPageView) -> Seq<CommandView> {
        v.enter_commands()
    }

    open spec fn data_taken(v: LogPageView, data: LogItem, now: Instant) -> LogPageView {
        v.after_data(data.payload@)
    }

    open spec fn data_commands(v: LogPageView, data: LogItem) -> Seq<CommandView> {
        Seq::empty()
    }

    open spec fn shown(v: LogPageView, area_width: u16, area_height: u16) -> LogPageView {
        LogPageView { log: v.log.rendered(area_width, area_height), ..v }
    }

    open spec fn framed(v: LogPageView, area_width: u16, area_height: u16, frame: Vec<String>)
        -> bool {
        crate::page::widget::log_widget::lines_of(frame@) == v.log.rendered(
            area_width,
            area_height,
        ).window(area_height)
    }

    fn set_filter(&mut self, filter: &str) {
        LogPage::set_filter(self, filter)
    }

    fn get_menu() -> (menu: Menu) {
        LogPage::get_menu()
    }

    fn on_key(&mut self, key_event: KeyEvent) -> (commands: Vec<Command>) {
        LogPage::on_key(self, key_event)
    }

    fn show(&mut self, area_width: u16, area_height: u16) -> (frame: Vec<String>) {
        LogPage::show(self, area_width, area_height)
    }

    fn active(&mut self) -> (commands: Vec<Command>) {
        LogPage::active(self)
    }

    fn on_data(&mut self, data: LogItem, now: Instant) -> (commands: Vec<Command>) {
        let commands = LogPage::on_data(self, data);
        commands
    }
}

} // verus!
