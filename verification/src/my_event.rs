//! What flows through the dispatcher: the events it serialises, and the
//! commands that handling an event hands back.

use crate::clash_api::{Connection, LogItem, ProxyData};
use vstd::prelude::*;

verus! {

/// The key of a key press, as far as the pages tell keys apart.
#[derive(Clone, Copy, Debug, PartialEq, Eq, Structural)]
pub enum KeyCode {
    Up,
    Down,
    Enter,
    Esc,
    Backspace,
    Char(char),
    Other,
}

/// One key press.
#[derive(Clone, Copy, Debug, PartialEq, Eq, Structural)]
pub struct KeyEvent {
    pub code: KeyCode,
    /// Whether the control key, and no other modifier, was held.
    pub control: bool,
}

/// A menu: keys and what they do.
pub type Menu = Vec<(&'static str, &'static str)>;

/// The texts of a menu.
pub open spec fn menu_view(menu: Menu) -> Seq<(Seq<char>, Seq<char>)> {
    Seq::new(menu@.len(), |i: int| (menu@[i].0@, menu@[i].1@))
}

/// An event in the dispatcher's queue.
#[derive(Debug, PartialEq, Eq)]
pub enum AppEvent {
    Quit,
    Draw,
    ProxyLoaded(ProxyData),
    Key(KeyEvent),
    SetMenu(Menu),
    ShowGroupPage,
    ShowGroupItemPage(String),
    ShowLogPage,
    ShowConnection,
    /// Go back to the page from which a stream page was opened.
    ShowPrevious,
    Status(String),
    Log(LogItem),
    Connection(Connection),
    ModeChanged(String),
}

/// Work for the world outside the dispatcher. Whoever performs it reports
/// back with events.
#[derive(Debug, Clone, PartialEq, Eq)]
pub enum Request {
    /// Fetch the routing mode, then the proxies and providers.
    LoadProxies,
    /// Set the routing mode, then fetch it again.
    SwitchMode(String),
    /// Have the daemon probe the delays of a group, then fetch the proxies.
    ProbeDelay(String),
    /// Make `member` the chosen member of `group`, then fetch the proxies.
    SelectMember { group: String, member: String },
    /// Start the log stream's worker; one that runs is cancelled first.
    StartLogStream,
    /// Cancel the log stream's worker.
    StopLogStream,
    /// Start the connection stream's worker; one that runs is cancelled
    /// first.
    StartConnectionStream,
    /// Cancel the connection stream's worker.
    StopConnectionStream,
}

/// What handling an event hands back, besides the new state.
#[derive(Debug, PartialEq, Eq)]
pub enum Command {
    /// An event to put at the back of the dispatcher's queue.
    Emit(AppEvent),
    /// Work for the outside.
    Ask(Request),
}

/// An event with its texts as character sequences.
pub enum EventView {
    Quit,
    Draw,
    ProxyLoaded(ProxyData),
    Key(KeyEvent),
    SetMenu(Seq<(Seq<char>, Seq<char>)>),
    ShowGroupPage,
    ShowGroupItemPage(Seq<char>),
    ShowLogPage,
    ShowConnection,
    ShowPrevious,
    Status(Seq<char>),
    Log(Seq<char>, Seq<char>),
    Connection(Connection),
    ModeChanged(Seq<char>),
}

/// A request with its texts as character sequences.
pub enum RequestView {
    LoadProxies,
    SwitchMode(Seq<char>),
    ProbeDelay(Seq<char>),
    SelectMember { group: Seq<char>, member: Seq<char> },
    StartLogStream,
    StopLogStream,
    StartConnectionStream,
    StopConnectionStream,
}

/// A command with its texts as character sequences.
pub enum CommandView {
    Emit(EventView),
    Ask(RequestView),
}

impl View for AppEvent {
    type V = EventView;

    open spec fn view(&self) -> EventView {
        match self {
            AppEvent::Quit => EventView::Quit,
            AppEvent::Draw => EventView::Draw,
            AppEvent::ProxyLoaded(data) => EventView::ProxyLoaded(*data),
            AppEvent::Key(key) => EventView::Key(*key),
            AppEvent::SetMenu(menu) => EventView::SetMenu(menu_view(*menu)),
            AppEvent::ShowGroupPage => EventView::ShowGroupPage,
            AppEvent::ShowGroupItemPage(name) => EventView::ShowGroupItemPage(name@),
            AppEvent::ShowLogPage => EventView::ShowLogPage,
            AppEvent::ShowConnection => EventView::ShowConnection,
            AppEvent::ShowPrevious => EventView::ShowPrevious,
            AppEvent::Status(text) => EventView::Status(text@),
            AppEvent::Log(item) => EventView::Log(item.kind@, item.payload@),
            AppEvent::Connection(snapshot) => EventView::Connection(*snapshot),
            AppEvent::ModeChanged(mode) => EventView::ModeChanged(mode@),
        }
    }
}

impl View for Request {
    type V = RequestView;

    open spec fn view(&self) -> RequestView {
        match self {
            Request::LoadProxies => RequestView::LoadProxies,
            Request::SwitchMode(mode) => RequestView::SwitchMode(mode@),
            Request::ProbeDelay(group) => RequestView::ProbeDelay(group@),
            Request::SelectMember { group, member } => RequestView::SelectMember {
                group: group@,
                member: member@,
            },
            Request::StartLogStream => RequestView::StartLogStream,
            Request::StopLogStream => RequestView::StopLogStream,
            Request::StartConnectionStream => RequestView::StartConnectionStream,
            Request::StopConnectionStream => RequestView::StopConnectionStream,
        }
    }
}

impl View for Command {
    type V = CommandView;

    open spec fn view(&self) -> CommandView {
        match self {
            Command::Emit(event) => CommandView::Emit(event@),
            Command::Ask(request) => CommandView::Ask(request@),
        }
    }
}

/// The views of a list of commands.
pub open spec fn commands_view(commands: Seq<Command>) -> Seq<CommandView> {
    Seq::new(commands.len(), |i: int| commands[i]@)
}

/// The event for a key press as it comes from the keyboard: control with
/// `c` quits, every other key goes to the page that is shown.
pub open spec fn key_event_view(key: KeyEvent) -> EventView {
    if key.control && (key.code == KeyCode::Char('c') || key.code == KeyCode::Char('C')) {
        EventView::Quit
    } else {
        EventView::Key(key)
    }
}

/// The event to submit for a key press as it comes from the keyboard.
pub fn input_event(key: KeyEvent) -> (event: AppEvent)
    ensures
        event@ == key_event_view(key),
{
    let quits: bool = key.control && match key.code {
        KeyCode::Char(c) => c == 'c' || c == 'C',
        _ => false,
    };
    if quits {
        AppEvent::Quit
    } else {
        AppEvent::Key(key)
    }
}

/// The command that shows `text` in the status line.
pub open spec fn status_command(text: Seq<char>) -> CommandView {
    CommandView::Emit(EventView::Status(text))
}

/// The command that shows `text` in the status line.
pub fn status(text: String) -> (command: Command)
    ensures
        command@ == status_command(text@),
{
    Command::Emit(AppEvent::Status(text))
}

/// The command that asks for a redraw.
pub open spec fn draw_command() -> CommandView {
    CommandView::Emit(EventView::Draw)
}

} // verus!
