//! The bookkeeping of a background fetch of one subscription: whether it
//! may start, what it came to, and who has seen the outcome.

use crate::clash_config::{
    connections_view, copy_connections, Connection, ConnectionView, Subscription,
    SubscriptionView,
};
use vstd::prelude::*;
use vstd::string::StringExecFns;

verus! {

/// Where a fetch stands.
#[derive(Clone, Copy, Debug, PartialEq, Eq, Structural)]
pub enum Status {
    /// No fetch is under way and no outcome waits.
    Ready,
    /// A fetch is under way.
    Working,
    /// An outcome waits to be taken.
    Finish,
}

/// What a fetch came to.
#[derive(Debug, PartialEq, Eq)]
pub struct Result {
    /// The reason of a failure, if the fetch failed.
    pub msg: Option<String>,
    pub subscription: Subscription,
    pub connections: Vec<Connection>,
}

/// An outcome with its texts as character sequences.
pub struct ResultView {
    pub msg: Option<Seq<char>>,
    pub subscription: SubscriptionView,
    pub connections: Seq<ConnectionView>,
}

impl View for Result {
    type V = ResultView;

    open spec fn view(&self) -> ResultView {
        ResultView {
            msg: match self.msg {
                Some(text) => Some(text@),
                None => None,
            },
            subscription: self.subscription@,
            connections: connections_view(self.connections@),
        }
    }
}

/// The bookkeeping of one subscription's fetches.
pub struct SubsTask {
    pub result: Result,
    pub status: Status,
}

/// The state of a fetch's bookkeeping.
pub struct TaskView {
    pub result: ResultView,
    pub status: Status,
}

/// The message of a fetch that was started while another was under way or
/// its outcome not yet taken.
pub open spec fn busy_text() -> Seq<char> {
    "状态不正确: 不是READY"@
}

/// What a fetch brought or why it failed, as views.
pub open spec fn fetched_view(
    fetched: core::result::Result<(Subscription, Vec<Connection>), String>,
) -> core::result::Result<(SubscriptionView, Seq<ConnectionView>), Seq<char>> {
    match fetched {
        Ok(pair) => Ok((pair.0@, connections_view(pair.1@))),
        Err(reason) => Err(reason@),
    }
}

impl TaskView {
    /// Whether a fetch may start.
    pub open spec fn may_start(self) -> bool {
        self.status == Status::Ready
    }

    /// The bookkeeping after a fetch was asked for: under way if it may
    /// start; else finished with a message that says so.
    pub open spec fn begun(self) -> TaskView {
        if self.may_start() {
            TaskView { status: Status::Working, ..self }
        } else {
            TaskView {
                status: Status::Finish,
                result: ResultView { msg: Some(busy_text()), ..self.result },
            }
        }
    }

    /// The bookkeeping after the fetch ended: a success replaces the
    /// outcome, a failure only its message.
    pub open spec fn finished(
        self,
        fetched: core::result::Result<(SubscriptionView, Seq<ConnectionView>), Seq<char>>,
    ) -> TaskView {
        TaskView {
            status: Status::Finish,
            result: match fetched {
                Ok(pair) => ResultView { msg: None, subscription: pair.0, connections: pair.1 },
                Err(reason) => ResultView { msg: Some(reason), ..self.result },
            },
        }
    }

    /// The bookkeeping after the outcome was asked for: ready again if an
    /// outcome waited, else unchanged.
    pub open spec fn taken(self) -> TaskView {
        if self.status == Status::Finish {
            TaskView { status: Status::Ready, ..self }
        } else {
            self
        }
    }
}

impl View for SubsTask {
    type V = TaskView;

    open spec fn view(&self) -> TaskView {
        TaskView { result: self.result@, status: self.status }
    }
}

impl SubsTask {
    /// Bookkeeping for a fetch that has not been asked for.
    pub fn new() -> (task: Self)
        ensures
            task@.status == Status::Ready,
            task@.result.msg is None,
            task@.result.subscription == (SubscriptionView {
                id: Seq::empty(),
                name: Seq::empty(),
                url: Seq::empty(),
            }),
            task@.result.connections.len() == 0,
    {
        SubsTask {
            status: Status::Ready,
            result: Result {
                msg: None,
                subscription: Subscription {
                    id: String::new(),
                    name: String::new(),
                    url: String::new(),
                },
                connections: Vec::new(),
            },
        }
    }

    /// Asks for a fetch and says whether it may start. One that may not
    /// start is finished at once, with a message that says so.
    pub fn begin(&mut self) -> (started: bool)
        ensures
            started == old(self)@.may_start(),
            final(self)@ == old(self)@.begun(),
    {
        match self.status {
            Status::Ready => {
                self.status = Status::Working;
                true
            },
            _ => {
                self.status = Status::Finish;
                self.result.msg = Some(String::from_str("状态不正确: 不是READY"));
                false
            },
        }
    }

    /// Records what the fetch brought, or why it failed.
    pub fn finish(&mut self, fetched: core::result::Result<(Subscription, Vec<Connection>), String>)
        ensures
            final(self)@ == old(self)@.finished(fetched_view(fetched)),
    {
        match fetched {
            Ok(pair) => {
                self.result.msg = None;
                self.result.subscription = pair.0;
                self.result.connections = pair.1;
            },
            Err(reason) => {
                self.result.msg = Some(reason);
            },
        }
        self.status = Status::Finish;
    }

    /// Hands out a copy of the outcome if one waits, and is then ready for
    /// the next fetch.
    pub fn get_result(&mut self) -> (outcome: Option<Result>)
        ensures
            final(self)@ == old(self)@.taken(),
            match outcome {
                Some(result) => old(self)@.status == Status::Finish && result@ == old(self)@.result,
                None => old(self)@.status != Status::Finish,
            },
    {
        match self.status {
            Status::Finish => {
                self.status = Status::Ready;
                let msg: Option<String> = match &self.result.msg {
                    Some(text) => Some(text.clone()),
                    None => None,
                };
                Some(
                    Result {
                        msg,
                        subscription: self.result.subscription.copy(),
                        connections: copy_connections(&self.result.connections),
                    },
                )
            },
            _ => None,
        }
    }
}

} // verus!
