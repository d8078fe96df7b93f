//! The decisions of a worker that keeps a push-style stream open: it
//! connects, forwards what arrives, and after a failure or a close waits
//! and connects again, until it is cancelled.

use vstd::prelude::*;

verus! {

/// Seconds that the worker waits before it connects again.
pub const RETRY_DELAY_SECONDS: u64 = 1;

/// What a worker forwards to the page that started it.
#[derive(Debug, PartialEq, Eq)]
pub enum WsMsg<T> {
    /// Connecting or reading failed, for this reason.
    ConnectFail(String),
    /// The daemon closed the stream.
    Closed,
    /// A message arrived.
    Message(T),
}

/// What the outside reports to the worker.
#[derive(Debug, PartialEq, Eq)]
pub enum WorkerEvent<T> {
    /// The stream is open.
    Connected,
    /// The stream could not be opened, for this reason.
    ConnectFailed(String),
    /// A message arrived.
    Received(T),
    /// Reading failed, for this reason.
    ReadFailed(String),
    /// The daemon closed the stream.
    RemoteClosed,
    /// The wait before the next attempt is over.
    TimerFired,
    /// The worker's owner cancelled it.
    Cancelled,
}

/// What the worker has the outside do next.
#[derive(Debug, PartialEq, Eq)]
pub enum WorkerAction<T> {
    /// Try to open the stream.
    Connect,
    /// Await the next message.
    Read,
    /// Hand this to the page.
    Forward(WsMsg<T>),
    /// Wait this many seconds, then report that the timer fired.
    Sleep(u64),
    /// Close the open stream.
    CloseSocket,
}

/// Where a worker stands.
#[derive(Clone, Copy, Debug, PartialEq, Eq, Structural)]
pub enum WorkerState {
    /// An attempt to open the stream is under way.
    Connecting,
    /// The stream is open and the next message is awaited.
    Streaming,
    /// The worker waits before its next attempt.
    Waiting,
    /// The worker was cancelled and does nothing more.
    Stopped,
}

/// A forwarded message with its text as a character sequence.
pub enum MsgView<T> {
    ConnectFail(Seq<char>),
    Closed,
    Message(T),
}

/// An event with its text as a character sequence.
pub enum WorkerEventView<T> {
    Connected,
    ConnectFailed(Seq<char>),
    Received(T),
    ReadFailed(Seq<char>),
    RemoteClosed,
    TimerFired,
    Cancelled,
}

/// An action with its text as a character sequence.
pub enum ActionView<T> {
    Connect,
    Read,
    Forward(MsgView<T>),
    Sleep(u64),
    CloseSocket,
}

impl<T> View for WsMsg<T> {
    type V = MsgView<T>;

    open spec fn view(&self) -> MsgView<T> {
        match self {
            WsMsg::ConnectFail(reason) => MsgView::ConnectFail(reason@),
            WsMsg::Closed => MsgView::Closed,
            WsMsg::Message(message) => MsgView::Message(*message),
        }
    }
}

impl<T> View for WorkerEvent<T> {
    type V = WorkerEventView<T>;

    open spec fn view(&self) -> WorkerEventView<T> {
        match self {
            WorkerEvent::Connected => WorkerEventView::Connected,
            WorkerEvent::ConnectFailed(reason) => WorkerEventView::ConnectFailed(reason@),
            WorkerEvent::Received(message) => WorkerEventView::Received(*message),
            WorkerEvent::ReadFailed(reason) => WorkerEventView::ReadFailed(reason@),
            WorkerEvent::RemoteClosed => WorkerEventView::RemoteClosed,
            WorkerEvent::TimerFired => WorkerEventView::TimerFired,
            WorkerEvent::Cancelled => WorkerEventView::Cancelled,
        }
    }
}

impl<T> View for WorkerAction<T> {
    type V = ActionView<T>;

    open spec fn view(&self) -> ActionView<T> {
        match self {
            WorkerAction::Connect => ActionView::Connect,
            WorkerAction::Read => ActionView::Read,
            WorkerAction::Forward(message) => ActionView::Forward(message@),
            WorkerAction::Sleep(seconds) => ActionView::Sleep(*seconds),
            WorkerAction::CloseSocket => ActionView::CloseSocket,
        }
    }
}

/// The views of a list of actions.
pub open spec fn actions_view<T>(actions: Seq<WorkerAction<T>>) -> Seq<ActionView<T>> {
    Seq::new(actions.len(), |i: int| actions[i]@)
}

/// Forwarding `message` and then waiting for the next attempt.
pub open spec fn report_and_wait<T>(message: MsgView<T>) -> Seq<ActionView<T>> {
    seq![ActionView::Forward(message), ActionView::Sleep(RETRY_DELAY_SECONDS)]
}

/// Where the worker stands after `event`. Cancelling stops it from any
/// state, and a stopped worker stays stopped. An event that does not belong
/// to the state changes nothing.
pub open spec fn next_state<T>(state: WorkerState, event: WorkerEventView<T>) -> WorkerState {
    match (state, event) {
        (WorkerState::Stopped, _) => WorkerState::Stopped,
        (_, WorkerEventView::Cancelled) => WorkerState::Stopped,
        (WorkerState::Connecting, WorkerEventView::Connected) => WorkerState::Streaming,
        (WorkerState::Connecting, WorkerEventView::ConnectFailed(_)) => WorkerState::Waiting,
        (WorkerState::Streaming, WorkerEventView::Received(_)) => WorkerState::Streaming,
        (WorkerState::Streaming, WorkerEventView::ReadFailed(_)) => WorkerState::Waiting,
        (WorkerState::Streaming, WorkerEventView::RemoteClosed) => WorkerState::Waiting,
        (WorkerState::Waiting, WorkerEventView::TimerFired) => WorkerState::Connecting,
        (state, _) => state,
    }
}

/// What the worker has the outside do after `event`. A failure or a close
/// is forwarded before the wait; a cancelled worker forwards nothing, and
/// closes the stream if it was open.
pub open spec fn next_actions<T>(state: WorkerState, event: WorkerEventView<T>) -> Seq<
    ActionView<T>,
> {
    match (state, event) {
        (WorkerState::Stopped, _) => Seq::empty(),
        (WorkerState::Streaming, WorkerEventView::Cancelled) => seq![ActionView::CloseSocket],
        (_, WorkerEventView::Cancelled) => Seq::empty(),
        (WorkerState::Connecting, WorkerEventView::Connected) => seq![ActionView::Read],
        (WorkerState::Connecting, WorkerEventView::ConnectFailed(reason)) => report_and_wait(
            MsgView::ConnectFail(reason),
        ),
        (WorkerState::Streaming, WorkerEventView::Received(message)) => seq![
            ActionView::Forward(MsgView::Message(message)),
            ActionView::Read,
        ],
        (WorkerState::Streaming, WorkerEventView::ReadFailed(reason)) => report_and_wait(
            MsgView::ConnectFail(reason),
        ),
        (WorkerState::Streaming, WorkerEventView::RemoteClosed) => report_and_wait(
            MsgView::Closed,
        ),
        (WorkerState::Waiting, WorkerEventView::TimerFired) => seq![ActionView::Connect],
        _ => Seq::empty(),
    }
}

/// Whether an action hands something to the page.
pub open spec fn forwards<T>(action: ActionView<T>) -> bool {
    action is Forward
}

/// Cancellation is final: whatever is reported to a stopped worker, it
/// stays stopped and has nothing done.
pub proof fn lemma_stopped_is_final<T>(event: WorkerEventView<T>)
    ensures
        next_state(WorkerState::Stopped, event) == WorkerState::Stopped,
        next_actions(WorkerState::Stopped, event).len() == 0,
{
}

/// Cancellation has priority: from any state it stops the worker, and
/// nothing is forwarded to the page.
pub proof fn lemma_cancel_stops<T>(state: WorkerState)
    ensures
        next_state::<T>(state, WorkerEventView::Cancelled) == WorkerState::Stopped,
        forall|i: int|
            0 <= i < next_actions::<T>(state, WorkerEventView::Cancelled).len() ==> !forwards(
                #[trigger] next_actions::<T>(state, WorkerEventView::Cancelled)[i],
            ),
{
}

/// The worker never gives up: unless it is cancelled, a worker that is not
/// stopped stays so, and after a failure or a close it waits for the retry
/// delay and then connects again.
pub proof fn lemma_retries<T>(state: WorkerState, event: WorkerEventView<T>)
    requires
        state != WorkerState::Stopped,
        !(event is Cancelled),
    ensures
        next_state(state, event) != WorkerState::Stopped,
        next_state(state, event) == WorkerState::Waiting && state != WorkerState::Waiting
            ==> next_actions(state, event).len() == 2 && next_actions(state, event)[1]
            == ActionView::<T>::Sleep(RETRY_DELAY_SECONDS),
        next_state::<T>(WorkerState::Waiting, WorkerEventView::TimerFired)
            == WorkerState::Connecting,
        next_actions::<T>(WorkerState::Waiting, WorkerEventView::TimerFired)
            == seq![ActionView::<T>::Connect],
{
}

/// The worker's memory: where it stands.
pub struct StreamWorker {
    state: WorkerState,
}

impl StreamWorker {
    /// Where the worker stands.
    pub closed spec fn state(&self) -> WorkerState {
        self.state
    }

    /// A worker that is about to make its first attempt.
    pub fn new() -> (worker: Self)
        ensures
            worker.state() == WorkerState::Connecting,
    {
        StreamWorker { state: WorkerState::Connecting }
    }

    /// What a new worker has the outside do first: try to open the stream.
    pub fn start<T>(&self) -> (actions: Vec<WorkerAction<T>>)
        ensures
            actions_view(actions@) == seq![ActionView::<T>::Connect],
    {
        let mut actions: Vec<WorkerAction<T>> = Vec::new();
        actions.push(WorkerAction::Connect);
        actions
    }

    /// Where the worker stands.
    pub fn current(&self) -> (state: WorkerState)
        ensures
            state == self.state(),
    {
        self.state
    }

    /// Whether the worker was cancelled.
    pub fn is_stopped(&self) -> (stopped: bool)
        ensures
            stopped == (self.state() == WorkerState::Stopped),
    {
        match self.state {
            WorkerState::Stopped => true,
            _ => false,
        }
    }

    /// Takes in what the outside reports and says what to do next.
    pub fn on_event<T>(&mut self, event: WorkerEvent<T>) -> (actions: Vec<WorkerAction<T>>)
        ensures
            final(self).state() == next_state(old(self).state(), event@),
            actions_view(actions@) == next_actions(old(self).state(), event@),
    {
        let mut actions: Vec<WorkerAction<T>> = Vec::new();
        match self.state {
            WorkerState::Stopped => {},
            WorkerState::Connecting => match event {
                WorkerEvent::Cancelled => {
                    self.state = WorkerState::Stopped;
                },
                WorkerEvent::Connected => {
                    self.state = WorkerState::Streaming;
                    actions.push(WorkerAction::Read);
                },
                WorkerEvent::ConnectFailed(reason) => {
                    self.state = WorkerState::Waiting;
                    actions.push(WorkerAction::Forward(WsMsg::ConnectFail(reason)));
                    actions.push(WorkerAction::Sleep(RETRY_DELAY_SECONDS));
                },
                _ => {},
            },
            WorkerState::Streaming => match event {
                WorkerEvent::Cancelled => {
                    self.state = WorkerState::Stopped;
                    actions.push(WorkerAction::CloseSocket);
                },
                WorkerEvent::Received(message) => {
                    actions.push(WorkerAction::Forward(WsMsg::Message(message)));
                    actions.push(WorkerAction::Read);
                },
                WorkerEvent::ReadFailed(reason) => {
                    self.state = WorkerState::Waiting;
                    actions.push(WorkerAction::Forward(WsMsg::ConnectFail(reason)));
                    actions.push(WorkerAction::Sleep(RETRY_DELAY_SECONDS));
                },
                WorkerEvent::RemoteClosed => {
                    self.state = WorkerState::Waiting;
                    actions.push(WorkerAction::Forward(WsMsg::Closed));
                    actions.push(WorkerAction::Sleep(RETRY_DELAY_SECONDS));
                },
                _ => {},
            },
            WorkerState::Waiting => match event {
                WorkerEvent::Cancelled => {
                    self.state = WorkerState::Stopped;
                },
                WorkerEvent::TimerFired => {
                    self.state = WorkerState::Connecting;
                    actions.push(WorkerAction::Connect);
                },
                _ => {},
            },
        }
        actions
    }
}

} // verus!
