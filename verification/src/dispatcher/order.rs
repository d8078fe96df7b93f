//! Laws of order: events are applied one after the other in the order of
//! their submission, however the run is cut into batches.

use crate::app::AppView;
use crate::dispatcher::DispatcherView;
use crate::my_event::{EventView, RequestView};
use crate::page::connection_page::Instant;
use vstd::prelude::*;

verus! {

/// The dashboard after the events of `events` were applied to it one after
/// the other, in order.
pub open spec fn applied(app: AppView, events: Seq<EventView>, now: Instant) -> AppView
    decreases events.len(),
{
    if events.len() == 0 {
        app
    } else {
        applied(app.step(events[0], now), events.drop_first(), now)
    }
}

/// The dispatcher after the events of `events` were submitted one by one.
pub open spec fn submitted_each(d: DispatcherView, events: Seq<EventView>) -> DispatcherView
    decreases events.len(),
{
    if events.len() == 0 {
        d
    } else {
        submitted_each(d, events.drop_last()).submitted(events.last())
    }
}

/// Submission keeps order: events submitted one by one, by whomever, wait
/// behind the events that waited before, in the order of their submission.
pub proof fn lemma_submission_keeps_order(d: DispatcherView, events: Seq<EventView>)
    ensures
        submitted_each(d, events) == d.submitted_all(events),
    decreases events.len(),
{
    if events.len() > 0 {
        lemma_submission_keeps_order(d, events.drop_last());
        assert((d.queue + events.drop_last()).push(events.last()) =~= d.queue + events);
    }
}

/// Serial application: after a batch over waiting events, the dashboard is
/// in the state that applying those events one after the other, in the
/// order of their submission, leads to.
pub proof fn lemma_batch_is_serial(d: DispatcherView, count: nat, now: Instant)
    requires
        count <= d.queue.len(),
    ensures
        d.batch(count, now).app == applied(d.app, d.queue.take(count as int), now),
    decreases count,
{
    if count > 0 {
        let next = d.stepped(now);
        lemma_batch_is_serial(next, (count - 1) as nat, now);
        assert(next.queue.take(count - 1) =~= d.queue.take(count as int).drop_first());
    }
}

/// Batches compose: however a run of events is cut into batches, the
/// dispatcher ends in the same state, has asked the outside for the same
/// work in the same order, and asks for a redraw in the same cases.
pub proof fn lemma_batches_compose(d: DispatcherView, first: nat, second: nat, now: Instant)
    ensures
        d.batch(first + second, now) == d.batch(first, now).batch(second, now),
        d.batch_requests(first + second, now) == d.batch_requests(first, now) + d.batch(
            first,
            now,
        ).batch_requests(second, now),
        d.batch_redraws(first + second, now) == (d.batch_redraws(first, now) || d.batch(
            first,
            now,
        ).batch_redraws(second, now)),
    decreases first,
{
    if first > 0 {
        let next = d.stepped(now);
        lemma_batches_compose(next, (first - 1) as nat, second, now);
    }
}

/// A dispatcher without waiting events is at rest: further steps change
/// nothing, ask for nothing and draw nothing.
pub proof fn lemma_rest_is_final(d: DispatcherView, count: nat, now: Instant)
    requires
        d.queue.len() == 0,
    ensures
        d.batch(count, now) == d,
        d.batch_requests(count, now) == Seq::<RequestView>::empty(),
        !d.batch_redraws(count, now),
    decreases count,
{
    if count > 0 {
        lemma_rest_is_final(d, (count - 1) as nat, now);
    }
}

/// Rest is reached in one way only: two runs of steps that both end
/// without waiting events end in the same state, having asked for the same
/// work and the same redraw.
pub proof fn lemma_rest_is_unique(d: DispatcherView, first: nat, second: nat, now: Instant)
    requires
        d.batch(first, now).queue.len() == 0,
        d.batch(second, now).queue.len() == 0,
    ensures
        d.batch(first, now) == d.batch(second, now),
        d.batch_requests(first, now) == d.batch_requests(second, now),
        d.batch_redraws(first, now) == d.batch_redraws(second, now),
{
    if first <= second {
        let more = (second - first) as nat;
        lemma_batches_compose(d, first, more, now);
        lemma_rest_is_final(d.batch(first, now), more, now);
    } else {
        let more = (first - second) as nat;
        lemma_batches_compose(d, second, more, now);
        lemma_rest_is_final(d.batch(second, now), more, now);
    }
}

} // verus!
