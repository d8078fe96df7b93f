//! Why the dispatcher always comes to rest: an event gives rise only to
//! events of lower rank.

use crate::app::AppView;
use crate::clash_api::ConnectionItem;
use crate::dispatcher::{emitted, DispatcherView};
use crate::my_event::{CommandView, EventView};
use crate::page::connection_page::{start_failures, Instant};
use vstd::prelude::*;

verus! {

/// How far an event is from events that give rise to nothing: a key press
/// may give rise to any other event; the daemon's data, the opening of a
/// group and a connection snapshot only to status messages; every other
/// event to nothing.
pub open spec fn rank(event: EventView) -> nat {
    match event {
        EventView::Key(_) => 2,
        EventView::ProxyLoaded(_) => 1,
        EventView::ShowGroupItemPage(_) => 1,
        EventView::Connection(_) => 1,
        _ => 0,
    }
}

/// How many of the events have rank `r`.
pub open spec fn ranked(events: Seq<EventView>, r: nat) -> nat
    decreases events.len(),
{
    if events.len() == 0 {
        0
    } else {
        ranked(events.drop_last(), r) + if rank(events.last()) == r {
            1nat
        } else {
            0nat
        }
    }
}

/// Every event that the commands put back has a rank below `bound`.
pub open spec fn emits_below(commands: Seq<CommandView>, bound: nat) -> bool {
    forall|i: int|
        0 <= i < commands.len() ==> match #[trigger] commands[i] {
            CommandView::Emit(event) => rank(event) < bound,
            CommandView::Ask(_) => true,
        }
}

/// Counting by rank adds up over two lists.
pub proof fn lemma_ranked_concat(a: Seq<EventView>, b: Seq<EventView>, r: nat)
    ensures
        ranked(a + b, r) == ranked(a, r) + ranked(b, r),
    decreases b.len(),
{
    if b.len() > 0 {
        lemma_ranked_concat(a, b.drop_last(), r);
        assert((a + b).drop_last() =~= a + b.drop_last());
    }
}

/// Taking the first event away takes one from the count of its rank.
pub proof fn lemma_ranked_drop_first(events: Seq<EventView>, r: nat)
    requires
        events.len() > 0,
    ensures
        ranked(events, r) == ranked(events.drop_first(), r) + if rank(events[0]) == r {
            1nat
        } else {
            0nat
        },
{
    let head = seq![events[0]];
    assert(head + events.drop_first() =~= events);
    lemma_ranked_concat(head, events.drop_first(), r);
    assert(ranked(head.drop_last(), r) == 0);
}

/// Commands that emit only below `bound` put back no event of rank `bound`
/// or above.
pub proof fn lemma_emitted_below(commands: Seq<CommandView>, bound: nat, r: nat)
    requires
        emits_below(commands, bound),
        r >= bound,
    ensures
        ranked(emitted(commands), r) == 0,
    decreases commands.len(),
{
    if commands.len() > 0 {
        lemma_emitted_below(commands.drop_last(), bound, r);
        let last = commands[commands.len() - 1];
        match last {
            CommandView::Emit(event) => {
                let rest = emitted(commands.drop_last());
                assert(rest.push(event).drop_last() =~= rest);
            },
            CommandView::Ask(_) => {},
        }
    }
}

/// The statuses for unreadable start times have rank zero.
pub proof fn lemma_start_failures_below(connections: Seq<ConnectionItem>, upto: int)
    ensures
        emits_below(start_failures(connections, upto), 1),
    decreases upto,
{
    if upto > 0 {
        lemma_start_failures_below(connections, upto - 1);
    }
}

/// Whatever event the dashboard takes in, the events that it gives rise to
/// have a lower rank.
pub proof fn lemma_commands_emit_below(app: AppView, event: EventView)
    ensures
        emits_below(app.commands(event), rank(event)),
{
    reveal(AppView::commands);
    match event {
        EventView::Connection(snapshot) => {
            lemma_start_failures_below(snapshot.connections@, snapshot.connections@.len() as int);
        },
        _ => {},
    }
}

/// Applying the next event brings the queue closer to empty: it takes one
/// from the count of the event's rank and adds only to counts of lower
/// ranks.
pub proof fn lemma_step_comes_closer(d: DispatcherView, now: Instant)
    requires
        d.queue.len() > 0,
    ensures
        ({
            let next = d.stepped(now).queue;
            ||| ranked(next, 2) < ranked(d.queue, 2)
            ||| ranked(next, 2) == ranked(d.queue, 2) && ranked(next, 1) < ranked(d.queue, 1)
            ||| ranked(next, 2) == ranked(d.queue, 2) && ranked(next, 1) == ranked(d.queue, 1)
                && ranked(next, 0) < ranked(d.queue, 0)
        }),
{
    let event = d.queue[0];
    let fresh = emitted(d.app.commands(event));
    lemma_commands_emit_below(d.app, event);
    lemma_ranked_drop_first(d.queue, 0);
    lemma_ranked_drop_first(d.queue, 1);
    lemma_ranked_drop_first(d.queue, 2);
    lemma_ranked_concat(d.queue.drop_first(), fresh, 0);
    lemma_ranked_concat(d.queue.drop_first(), fresh, 1);
    lemma_ranked_concat(d.queue.drop_first(), fresh, 2);
    lemma_emitted_below(d.app.commands(event), rank(event), 2);
    if rank(event) <= 1 {
        lemma_emitted_below(d.app.commands(event), rank(event), 1);
    }
    if rank(event) == 0 {
        lemma_emitted_below(d.app.commands(event), rank(event), 0);
    }
}

} // verus!
