//! The single ordered queue of events and the loop that applies them, one
//! at a time and in arrival order, to the dashboard's state.

pub mod order;
pub mod rest;
pub mod workers;

use crate::app::{event_ok, App, AppView};
use crate::clash_api::ConnectionItem;
use crate::dispatcher::order::lemma_batches_compose;
use crate::dispatcher::rest::{lemma_step_comes_closer, ranked};
use crate::my_event::{
    commands_view, AppEvent, Command, CommandView, EventView, Request, RequestView,
};
use crate::page::connection_page::{current_instant, start_failures, Instant};
use std::collections::VecDeque;
use vstd::prelude::*;

verus! {

/// The events that a list of commands puts back into the queue, in order.
pub open spec fn emitted(commands: Seq<CommandView>) -> Seq<EventView>
    decreases commands.len(),
{
    if commands.len() == 0 {
        Seq::empty()
    } else {
        let rest = emitted(commands.drop_last());
        match commands.last() {
            CommandView::Emit(event) => rest.push(event),
            CommandView::Ask(_) => rest,
        }
    }
}

/// The work that a list of commands asks of the outside, in order.
pub open spec fn asked(commands: Seq<CommandView>) -> Seq<RequestView>
    decreases commands.len(),
{
    if commands.len() == 0 {
        Seq::empty()
    } else {
        let rest = asked(commands.drop_last());
        match commands.last() {
            CommandView::Emit(_) => rest,
            CommandView::Ask(request) => rest.push(request),
        }
    }
}

/// The views of a list of events.
pub open spec fn events_view(events: Seq<AppEvent>) -> Seq<EventView> {
    Seq::new(events.len(), |i: int| events[i]@)
}

/// The views of a list of requests.
pub open spec fn requests_view(requests: Seq<Request>) -> Seq<RequestView> {
    Seq::new(requests.len(), |i: int| requests[i]@)
}

/// The state of the dispatcher: the dashboard and the events that wait.
pub struct DispatcherView {
    pub app: AppView,
    /// The waiting events, the next one first.
    pub queue: Seq<EventView>,
}

impl DispatcherView {
    /// The dashboard is well formed and every waiting event may be applied.
    pub open spec fn wf(self) -> bool {
        &&& self.app.wf()
        &&& forall|i: int| 0 <= i < self.queue.len() ==> event_ok(#[trigger] self.queue[i])
    }

    /// The dispatcher after `event` was submitted: the event waits behind
    /// all that came before it.
    pub open spec fn submitted(self, event: EventView) -> DispatcherView {
        DispatcherView { queue: self.queue.push(event), ..self }
    }

    /// The dispatcher after the events of `events` were submitted in order.
    pub open spec fn submitted_all(self, events: Seq<EventView>) -> DispatcherView {
        DispatcherView { queue: self.queue + events, ..self }
    }

    /// The dispatcher after the next event was applied at `now`: the event
    /// left the queue, the dashboard took it in, and the events it gave
    /// rise to wait at the back. Without a waiting event nothing changes.
    pub open spec fn stepped(self, now: Instant) -> DispatcherView {
        if self.queue.len() == 0 {
            self
        } else {
            DispatcherView {
                app: self.app.step(self.queue[0], now),
                queue: self.queue.drop_first() + emitted(self.app.commands(self.queue[0])),
            }
        }
    }

    /// The work that applying the next event asks of the outside.
    pub open spec fn step_requests(self) -> Seq<RequestView> {
        if self.queue.len() == 0 {
            Seq::empty()
        } else {
            asked(self.app.commands(self.queue[0]))
        }
    }

    /// Whether applying the next event asks for a redraw.
    pub open spec fn step_redraws(self) -> bool {
        self.queue.len() > 0 && self.app.redraws(self.queue[0])
    }

    /// The dispatcher after the next `count` events were applied one after
    /// the other.
    pub open spec fn batch(self, count: nat, now: Instant) -> DispatcherView
        decreases count,
    {
        if count == 0 {
            self
        } else {
            self.stepped(now).batch((count - 1) as nat, now)
        }
    }

    /// The work that applying the next `count` events asks of the outside,
    /// in order.
    pub open spec fn batch_requests(self, count: nat, now: Instant) -> Seq<RequestView>
        decreases count,
    {
        if count == 0 {
            Seq::empty()
        } else {
            self.step_requests() + self.stepped(now).batch_requests((count - 1) as nat, now)
        }
    }

    /// Whether applying the next `count` events asks for a redraw.
    pub open spec fn batch_redraws(self, count: nat, now: Instant) -> bool
        decreases count,
    {
        if count == 0 {
            false
        } else {
            self.step_redraws() || self.stepped(now).batch_redraws((count - 1) as nat, now)
        }
    }
}

/// None of the commands puts the daemon's data into the queue.
pub open spec fn carries_no_data(commands: Seq<CommandView>) -> bool {
    forall|i: int|
        0 <= i < commands.len() ==> !(#[trigger] commands[i] matches CommandView::Emit(
            EventView::ProxyLoaded(_),
        ))
}

/// The events put back by commands that carry no data may all be applied.
pub proof fn lemma_emitted_ok(commands: Seq<CommandView>)
    requires
        carries_no_data(commands),
    ensures
        forall|i: int| 0 <= i < emitted(commands).len() ==> event_ok(#[trigger] emitted(commands)[i]),
    decreases commands.len(),
{
    if commands.len() > 0 {
        assert(carries_no_data(commands.drop_last())) by {
            assert forall|i: int| 0 <= i < commands.drop_last().len() implies !(
            #[trigger] commands.drop_last()[i] matches CommandView::Emit(
                EventView::ProxyLoaded(_),
            )) by {
                assert(commands.drop_last()[i] == commands[i]);
            }
        }
        lemma_emitted_ok(commands.drop_last());
        let rest = emitted(commands.drop_last());
        let last = commands[commands.len() - 1];
        assert(!(last matches CommandView::Emit(EventView::ProxyLoaded(_))));
        assert(commands.last() == last);
        assert forall|i: int| 0 <= i < emitted(commands).len() implies event_ok(
            #[trigger] emitted(commands)[i],
        ) by {
            if i < rest.len() {
                assert(emitted(commands)[i] == rest[i]);
            }
        }
    }
}

/// The statuses for unreadable start times carry no data.
pub proof fn lemma_start_failures_carry_no_data(connections: Seq<ConnectionItem>, upto: int)
    ensures
        carries_no_data(start_failures(connections, upto)),
    decreases upto,
{
    if upto > 0 {
        lemma_start_failures_carry_no_data(connections, upto - 1);
    }
}

/// Whatever event the dashboard takes in, the commands it hands back carry
/// no data.
pub proof fn lemma_commands_carry_no_data(app: AppView, event: EventView)
    ensures
        carries_no_data(app.commands(event)),
{
    reveal(AppView::commands);
    match event {
        EventView::Connection(snapshot) => {
            lemma_start_failures_carry_no_data(
                snapshot.connections@,
                snapshot.connections@.len() as int,
            );
        },
        _ => {},
    }
}

/// Sorts `commands`: the events go to the back of `queue`, the requests to
/// the back of `requests`, each in order.
fn route(commands: Vec<Command>, queue: &mut VecDeque<AppEvent>, requests: &mut Vec<Request>)
    ensures
        events_view(final(queue)@) == events_view(old(queue)@) + emitted(commands_view(commands@)),
        requests_view(final(requests)@) == requests_view(old(requests)@) + asked(
            commands_view(commands@),
        ),
{
    let ghost all = commands_view(commands@);
    for command in it: commands
        invariant
            it.seq() == commands@,
            all == commands_view(commands@),
            events_view(queue@) == events_view(old(queue)@) + emitted(all.take(it.index() as int)),
            requests_view(requests@) == requests_view(old(requests)@) + asked(
                all.take(it.index() as int),
            ),
    {
        let ghost k = it.index() as int;
        let ghost waiting = queue@;
        let ghost wanted = requests@;
        proof {
            assert(all.take(k + 1).drop_last() =~= all.take(k));
        }
        match command {
            Command::Emit(event) => {
                queue.push_back(event);
                proof {
                    assert(events_view(queue@) =~= events_view(waiting).push(event@));
                }
            },
            Command::Ask(request) => {
                requests.push(request);
                proof {
                    assert(requests_view(requests@) =~= requests_view(wanted).push(request@));
                }
            },
        }
    }
    proof {
        assert(all.take(all.len() as int) =~= all);
    }
}

/// What applying waiting events hands to the outside.
#[derive(Debug, PartialEq, Eq)]
pub struct Drained {
    /// Work for the outside, in the order in which it arose.
    pub requests: Vec<Request>,
    /// Whether the dashboard is to be drawn anew.
    pub redraw: bool,
}

/// The dispatcher: the dashboard and the queue of events that wait for
/// it.
pub struct Dispatcher {
    app: App,
    queue: VecDeque<AppEvent>,
}

impl View for Dispatcher {
    type V = DispatcherView;

    closed spec fn view(&self) -> DispatcherView {
        DispatcherView { app: self.app@, queue: events_view(self.queue@) }
    }
}

impl Dispatcher {
    /// A dispatcher for the dashboard at its start, with an empty queue.
    pub fn new() -> (dispatcher: Self)
        ensures
            dispatcher@.wf(),
            dispatcher@ == (DispatcherView { app: AppView::initial(), queue: Seq::empty() }),
    {
        let dispatcher = Dispatcher { app: App::new(), queue: VecDeque::new() };
        proof {
            assert(events_view(dispatcher.queue@) =~= Seq::empty());
        }
        dispatcher
    }

    /// What the dashboard does first: it asks for the daemon's data.
    pub fn start(&mut self) -> (requests: Vec<Request>)
        ensures
            final(self)@ == old(self)@,
            requests_view(requests@) == seq![RequestView::LoadProxies],
    {
        let mut requests: Vec<Request> = Vec::new();
        let commands = self.app.start();
        proof {
            let views = commands_view(commands@);
            assert(emitted(views.drop_last()) =~= Seq::empty());
            assert(asked(views.drop_last()) =~= Seq::empty());
        }
        route(commands, &mut self.queue, &mut requests);
        requests
    }

    /// The dashboard.
    pub fn app(&self) -> (app: &App)
        ensures
            app@ == self@.app,
    {
        &self.app
    }

    /// Prepares drawing the dashboard into an area of the given size.
    pub fn draw(&mut self, width: u16, height: u16) -> (screen: crate::app::Screen)
        requires
            old(self)@.wf(),
        ensures
            final(self)@.wf(),
            final(self)@ == (DispatcherView {
                app: old(self)@.app.drawn(width, height),
                ..old(self)@
            }),
            old(self)@.app.screened(width, height, screen),
    {
        self.app.draw(width, height)
    }

    /// How many events wait.
    pub fn pending(&self) -> (count: usize)
        ensures
            count == self@.queue.len(),
    {
        self.queue.len()
    }

    /// Puts `event` at the back of the queue.
    pub fn submit(&mut self, event: AppEvent)
        requires
            old(self)@.wf(),
            event_ok(event@),
        ensures
            final(self)@.wf(),
            final(self)@ == old(self)@.submitted(event@),
    {
        let ghost waiting = self.queue@;
        self.queue.push_back(event);
        proof {
            assert(events_view(self.queue@) =~= events_view(waiting).push(event@));
        }
    }

    /// Applies the event at the front of the queue, handled at `now`. The
    /// events it gives rise to go to the back of the queue. Without a
    /// waiting event nothing happens.
    pub fn step_at(&mut self, now: Instant) -> (drained: Drained)
        requires
            old(self)@.wf(),
        ensures
            final(self)@.wf(),
            final(self)@ == old(self)@.stepped(now),
            requests_view(drained.requests@) == old(self)@.step_requests(),
            drained.redraw == old(self)@.step_redraws(),
    {
        let mut requests: Vec<Request> = Vec::new();
        let ghost waiting = self.queue@;
        match self.queue.pop_front() {
            None => Drained { requests, redraw: false },
            Some(event) => {
                let ghost rest = self.queue@;
                proof {
                    assert(events_view(rest) =~= events_view(waiting).drop_first());
                    lemma_commands_carry_no_data(self.app@, event@);
                    lemma_emitted_ok(self.app@.commands(event@));
                }
                let outcome = self.app.handle_at(event, now);
                route(outcome.commands, &mut self.queue, &mut requests);
                Drained { requests, redraw: outcome.redraw }
            },
        }
    }

    /// Applies the events that wait now, one after the other and in the
    /// order of the queue, all handled at `now`. Events that they give rise
    /// to wait for the next call. The dashboard is to be drawn anew once if
    /// any of the events asks for it.
    pub fn drain_at(&mut self, now: Instant) -> (drained: Drained)
        requires
            old(self)@.wf(),
        ensures
            final(self)@.wf(),
            final(self)@ == old(self)@.batch(old(self)@.queue.len(), now),
            requests_view(drained.requests@) == old(self)@.batch_requests(
                old(self)@.queue.len(),
                now,
            ),
            drained.redraw == old(self)@.batch_redraws(old(self)@.queue.len(), now),
    {
        let count: usize = self.queue.len();
        let mut requests: Vec<Request> = Vec::new();
        let mut redraw: bool = false;
        let mut done: usize = 0;
        while done < count
            invariant
                done <= count,
                self@.wf(),
                old(self)@.batch(count as nat, now) == self@.batch((count - done) as nat, now),
                old(self)@.batch_requests(count as nat, now) == requests_view(requests@)
                    + self@.batch_requests((count - done) as nat, now),
                old(self)@.batch_redraws(count as nat, now) == (redraw || self@.batch_redraws(
                    (count - done) as nat,
                    now,
                )),
            decreases count - done,
        {
            let mut step = self.step_at(now);
            requests.append(&mut step.requests);
            redraw = redraw || step.redraw;
            done += 1;
        }
        Drained { requests, redraw }
    }

    /// Applies events, all handled at `now`, until none waits: first the
    /// events that wait now, then the events that those give rise to, and
    /// so on, always in the order of the queue. This always comes to an
    /// end, because an event gives rise only to events of lower rank.
    pub fn run_at(&mut self, now: Instant) -> (drained: Drained)
        requires
            old(self)@.wf(),
        ensures
            final(self)@.wf(),
            final(self)@.queue.len() == 0,
            exists|count: nat|
                final(self)@ == old(self)@.batch(count, now) && requests_view(drained.requests@)
                    == old(self)@.batch_requests(count, now) && drained.redraw
                    == old(self)@.batch_redraws(count, now),
    {
        let mut requests: Vec<Request> = Vec::new();
        let mut redraw: bool = false;
        let ghost mut count: nat = 0;
        while self.queue.len() > 0
            invariant
                self@.wf(),
                self@ == old(self)@.batch(count, now),
                requests_view(requests@) == old(self)@.batch_requests(count, now),
                redraw == old(self)@.batch_redraws(count, now),
            decreases
                    ranked(self@.queue, 2),
                    ranked(self@.queue, 1),
                    ranked(self@.queue, 0),
        {
            let ghost state = self@;
            proof {
                lemma_step_comes_closer(state, now);
                lemma_batches_compose(old(self)@, count, 1, now);
                assert(state.batch(1, now) == state.stepped(now)) by {
                    assert(state.stepped(now).batch(0, now) == state.stepped(now));
                }
                assert(state.batch_requests(1, now) =~= state.step_requests()) by {
                    assert(state.stepped(now).batch_requests(0, now) =~= Seq::empty());
                }
                assert(state.batch_redraws(1, now) == state.step_redraws()) by {
                    assert(!state.stepped(now).batch_redraws(0, now));
                }
            }
            let mut step = self.step_at(now);
            requests.append(&mut step.requests);
            redraw = redraw || step.redraw;
            proof {
                count = count + 1;
            }
        }
        Drained { requests, redraw }
    }

    /// Applies events until none waits, handled now, by the machine's
    /// clock.
    pub fn run(&mut self) -> (drained: Drained)
        requires
            old(self)@.wf(),
        ensures
            final(self)@.wf(),
            final(self)@.queue.len() == 0,
            exists|now: Instant, count: nat|
                final(self)@ == old(self)@.batch(count, now) && requests_view(drained.requests@)
                    == old(self)@.batch_requests(count, now) && drained.redraw
                    == old(self)@.batch_redraws(count, now),
    {
        let now = current_instant();
        self.run_at(now)
    }

    /// Applies the events that wait now, handled now, by the machine's
    /// clock.
    pub fn drain(&mut self) -> (drained: Drained)
        requires
            old(self)@.wf(),
        ensures
            final(self)@.wf(),
            exists|now: Instant|
                final(self)@ == old(self)@.batch(old(self)@.queue.len(), now)
                    && requests_view(drained.requests@) == old(self)@.batch_requests(
                    old(self)@.queue.len(),
                    now,
                ) && drained.redraw == old(self)@.batch_redraws(old(self)@.queue.len(), now),
    {
        let now = current_instant();
        self.drain_at(now)
    }
}

} // verus!
