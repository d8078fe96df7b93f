//! At most one worker per stream: the work that the dashboard asks for
//! never starts a worker for a stream that has one.

use crate::app::{AppView, CurrentPage};
use crate::clash_api::ConnectionItem;
use crate::dispatcher::{asked, DispatcherView};
use crate::my_event::{CommandView, EventView, KeyCode, KeyEvent, RequestView};
use crate::page::connection_page::{leaves, start_failures, ConnectionPageView, Instant};
use crate::page::group_item_page::GroupItemPageView;
use crate::page::group_page::GroupPageView;
use crate::page::log_page::LogPageView;
use vstd::prelude::*;

verus! {

/// The two streams that the dashboard follows.
#[derive(Clone, Copy, Debug, PartialEq, Eq, Structural)]
pub enum Stream {
    Log,
    Connection,
}

/// Whether a request starts the worker of `stream`.
pub open spec fn starts(request: RequestView, stream: Stream) -> bool {
    match stream {
        Stream::Log => request is StartLogStream,
        Stream::Connection => request is StartConnectionStream,
    }
}

/// Whether a request stops the worker of `stream`.
pub open spec fn stops(request: RequestView, stream: Stream) -> bool {
    match stream {
        Stream::Log => request is StopLogStream,
        Stream::Connection => request is StopConnectionStream,
    }
}

/// Whether `stream` has a worker once the requests are carried out, given
/// whether it had one before.
pub open spec fn live_after(requests: Seq<RequestView>, stream: Stream, live: bool) -> bool
    decreases requests.len(),
{
    if requests.len() == 0 {
        live
    } else if starts(requests.last(), stream) {
        true
    } else if stops(requests.last(), stream) {
        false
    } else {
        live_after(requests.drop_last(), stream, live)
    }
}

/// None of the requests starts a worker for `stream` while the stream has
/// one, given whether it had one before.
pub open spec fn never_two(requests: Seq<RequestView>, stream: Stream, live: bool) -> bool
    decreases requests.len(),
{
    if requests.len() == 0 {
        true
    } else {
        &&& never_two(requests.drop_last(), stream, live)
        &&& starts(requests.last(), stream) ==> !live_after(requests.drop_last(), stream, live)
    }
}

/// Whether the dashboard counts on a worker for `stream`.
pub open spec fn has_worker(app: AppView, stream: Stream) -> bool {
    !app.quit && match stream {
        Stream::Log => app.log.inner.streaming,
        Stream::Connection => app.connection.inner.streaming,
    }
}

/// Carrying out one list of requests after another is carrying out both in
/// a row.
pub proof fn lemma_requests_in_a_row(
    a: Seq<RequestView>,
    b: Seq<RequestView>,
    stream: Stream,
    live: bool,
)
    ensures
        live_after(a + b, stream, live) == live_after(b, stream, live_after(a, stream, live)),
        never_two(a + b, stream, live) == (never_two(a, stream, live) && never_two(
            b,
            stream,
            live_after(a, stream, live),
        )),
    decreases b.len(),
{
    if b.len() > 0 {
        lemma_requests_in_a_row(a, b.drop_last(), stream, live);
        assert((a + b).drop_last() =~= a + b.drop_last());
    }
}

/// The work asked for by commands that are all requests.
proof fn lemma_asked_of_requests(commands: Seq<CommandView>, requests: Seq<RequestView>)
    requires
        commands.len() == requests.len(),
        forall|i: int|
            0 <= i < commands.len() ==> #[trigger] commands[i] == CommandView::Ask(requests[i]),
    ensures
        asked(commands) == requests,
    decreases commands.len(),
{
    if commands.len() > 0 {
        lemma_asked_of_requests(commands.drop_last(), requests.drop_last());
    }
}

/// Commands that only put events back ask for no work.
proof fn lemma_asked_of_events(commands: Seq<CommandView>)
    requires
        forall|i: int| 0 <= i < commands.len() ==> #[trigger] commands[i] is Emit,
    ensures
        asked(commands) == Seq::<RequestView>::empty(),
    decreases commands.len(),
{
    if commands.len() > 0 {
        lemma_asked_of_events(commands.drop_last());
    }
}

/// The work asked for by two lists of commands in a row.
pub proof fn lemma_asked_concat(a: Seq<CommandView>, b: Seq<CommandView>)
    ensures
        asked(a + b) == asked(a) + asked(b),
    decreases b.len(),
{
    if b.len() > 0 {
        lemma_asked_concat(a, b.drop_last());
        assert((a + b).drop_last() =~= a + b.drop_last());
    }
}

/// The statuses for unreadable start times ask for no work.
proof fn lemma_start_failures_ask_nothing(connections: Seq<ConnectionItem>, upto: int)
    ensures
        asked(start_failures(connections, upto)) == Seq::<RequestView>::empty(),
    decreases upto,
{
    if upto > 0 {
        lemma_start_failures_ask_nothing(connections, upto - 1);
        let rest = start_failures(connections, upto - 1);
        let all = start_failures(connections, upto);
        if all.len() > rest.len() {
            assert(all.drop_last() =~= rest);
        }
    }
}

/// The work asked for by the commands of a key press on the log page.
proof fn lemma_log_key_requests(page: LogPageView, key: KeyEvent)
    ensures
        asked(page.key_commands(key)) == if key.code matches KeyCode::Char(c) && (c == 'p'
            || c == 'P' || c == 'c' || c == 'C') {
            seq![RequestView::StopLogStream]
        } else {
            Seq::<RequestView>::empty()
        },
        page.after_key(key).streaming == (page.streaming && !(key.code matches KeyCode::Char(c)
            && (c == 'p' || c == 'P' || c == 'c' || c == 'C'))),
{
    let commands = page.key_commands(key);
    let leaves = key.code matches KeyCode::Char(c) && (c == 'p' || c == 'P' || c == 'c' || c
        == 'C');
    if leaves {
        assert(asked(commands.drop_last().drop_last()) =~= Seq::empty());
        assert(asked(commands.drop_last()) =~= Seq::empty());
    } else {
        lemma_asked_of_events(commands);
    }
}

/// The work asked for by the commands of a key press on the connection
/// page.
proof fn lemma_connection_key_requests(
    page: ConnectionPageView,
    key: KeyEvent,
)
    ensures
        asked(page.key_commands(key)) == if key.code matches KeyCode::Char(c) && leaves(c) {
            seq![RequestView::StopConnectionStream]
        } else {
            Seq::<RequestView>::empty()
        },
        page.after_key(key).streaming == (page.streaming && !(key.code matches KeyCode::Char(c)
            && leaves(c))),
{
    let commands = page.key_commands(key);
    let leaves = key.code matches KeyCode::Char(c) && leaves(c);
    if leaves {
        let two = commands.drop_last();
        let one = two.drop_last();
        assert(asked(one.drop_last()) =~= Seq::empty());
        assert(asked(one) =~= Seq::empty());
        assert(asked(two) =~= Seq::empty());
    } else {
        lemma_asked_of_events(commands);
    }
}

/// Requests that neither start nor stop the worker of `stream` leave the
/// stream as it is.
proof fn lemma_neutral_requests(requests: Seq<RequestView>, stream: Stream, live: bool)
    requires
        forall|i: int|
            0 <= i < requests.len() ==> !starts(#[trigger] requests[i], stream) && !stops(
                requests[i],
                stream,
            ),
    ensures
        live_after(requests, stream, live) == live,
        never_two(requests, stream, live),
    decreases requests.len(),
{
    if requests.len() > 0 {
        lemma_neutral_requests(requests.drop_last(), stream, live);
    }
}

/// What one request does to a stream.
proof fn lemma_one_request(request: RequestView, stream: Stream, live: bool)
    ensures
        live_after(seq![request], stream, live) == if starts(request, stream) {
            true
        } else if stops(request, stream) {
            false
        } else {
            live
        },
        never_two(seq![request], stream, live) == (starts(request, stream) ==> !live),
{
    let one = seq![request];
    assert(live_after(one.drop_last(), stream, live) == live);
    assert(never_two(one.drop_last(), stream, live));
}

/// What two requests in a row do to a stream.
proof fn lemma_two_requests(first: RequestView, second: RequestView, stream: Stream, live: bool)
    ensures
        live_after(seq![first, second], stream, live) == live_after(
            seq![second],
            stream,
            live_after(seq![first], stream, live),
        ),
        never_two(seq![first, second], stream, live) == (never_two(seq![first], stream, live)
            && never_two(seq![second], stream, live_after(seq![first], stream, live))),
{
    assert(seq![first] + seq![second] =~= seq![first, second]);
    lemma_requests_in_a_row(seq![first], seq![second], stream, live);
}

/// At most one worker per stream, for one event: whatever event the
/// dashboard takes in, the work it asks for starts no worker for a stream
/// that has one, and afterwards a stream has a worker exactly if the
/// dashboard counts on one.
pub proof fn lemma_step_one_worker(app: AppView, event: EventView, now: Instant, stream: Stream)
    ensures
        never_two(asked(app.commands(event)), stream, has_worker(app, stream)),
        live_after(asked(app.commands(event)), stream, has_worker(app, stream)) == has_worker(
            app.step(event, now),
            stream,
        ),
{
    reveal(AppView::commands);
    reveal(AppView::step);
    let commands = app.commands(event);
    let live = has_worker(app, stream);
    if !app.quit {
        match event {
            EventView::Quit => {
                let first = RequestView::StopLogStream;
                let second = RequestView::StopConnectionStream;
                lemma_asked_of_requests(commands, seq![first, second]);
                lemma_two_requests(first, second, stream, live);
                lemma_one_request(first, stream, live);
                lemma_one_request(second, stream, live_after(seq![first], stream, live));
            },
            EventView::ShowLogPage => {
                let stop = RequestView::StopLogStream;
                let start = RequestView::StartLogStream;
                if app.log.inner.streaming {
                    lemma_asked_of_requests(commands, seq![stop, start]);
                    lemma_two_requests(stop, start, stream, live);
                    lemma_one_request(stop, stream, live);
                    lemma_one_request(start, stream, live_after(seq![stop], stream, live));
                } else {
                    lemma_asked_of_requests(commands, seq![start]);
                    lemma_one_request(start, stream, live);
                }
            },
            EventView::ShowConnection => {
                let stop = RequestView::StopConnectionStream;
                let start = RequestView::StartConnectionStream;
                if app.connection.inner.streaming {
                    lemma_asked_of_requests(commands, seq![stop, start]);
                    lemma_two_requests(stop, start, stream, live);
                    lemma_one_request(stop, stream, live);
                    lemma_one_request(start, stream, live_after(seq![stop], stream, live));
                } else {
                    lemma_asked_of_requests(commands, seq![start]);
                    lemma_one_request(start, stream, live);
                }
            },
            EventView::Connection(snapshot) => {
                if !app.connection.inner.pause {
                    let head = seq![commands[0]];
                    let tail = start_failures(
                        snapshot.connections@,
                        snapshot.connections@.len() as int,
                    );
                    lemma_asked_concat(head, tail);
                    lemma_start_failures_ask_nothing(
                        snapshot.connections@,
                        snapshot.connections@.len() as int,
                    );
                    lemma_asked_of_events(head);
                }
            },
            EventView::Key(key) => {
                match app.page {
                    CurrentPage::Log => {
                        lemma_log_key_requests(app.log.inner, key);
                        if !app.log.editing && key.code != KeyCode::Char('/') {
                            lemma_one_request(RequestView::StopLogStream, stream, live);
                        } else {
                            lemma_asked_of_events(commands);
                        }
                    },
                    CurrentPage::Connection => {
                        lemma_connection_key_requests(app.connection.inner, key);
                        if !app.connection.editing && key.code != KeyCode::Char(
                            '/',
                        ) {
                            lemma_one_request(RequestView::StopConnectionStream, stream, live);
                        } else {
                            lemma_asked_of_events(commands);
                        }
                    },
                    CurrentPage::Group => {
                        lemma_group_key_requests(app.group, key);
                        lemma_neutral_requests(asked(commands), stream, live);
                    },
                    CurrentPage::GroupItem => {
                        lemma_member_key_requests(app.group_item, key);
                        lemma_neutral_requests(asked(commands), stream, live);
                    },
                }
            },
            _ => {
                lemma_asked_of_events(commands);
            },
        }
    }
}

/// The work asked for by the commands of a key press on the group page
/// neither starts nor stops a worker.
proof fn lemma_group_key_requests(page: GroupPageView, key: KeyEvent)
    ensures
        asked(page.key_commands(key)).len() <= 1,
        forall|i: int|
            0 <= i < asked(page.key_commands(key)).len() ==> #[trigger] asked(
                page.key_commands(key),
            )[i] is SwitchMode,
{
    let commands = page.key_commands(key);
    if commands.len() == 1 && commands[0] is Ask {
        assert(asked(commands.drop_last()) =~= Seq::empty());
    } else {
        lemma_asked_of_events(commands);
    }
}

/// The work asked for by the commands of a key press on the member page
/// neither starts nor stops a worker.
proof fn lemma_member_key_requests(
    page: GroupItemPageView,
    key: KeyEvent,
)
    ensures
        asked(page.key_commands(key)).len() <= 1,
        forall|i: int|
            0 <= i < asked(page.key_commands(key)).len() ==> (#[trigger] asked(
                page.key_commands(key),
            )[i] is ProbeDelay || asked(page.key_commands(key))[i] is SelectMember),
{
    let commands = page.key_commands(key);
    if commands.len() == 2 && commands[1] is Ask {
        let one = commands.drop_last();
        assert(asked(one.drop_last()) =~= Seq::empty());
        assert(asked(one) =~= Seq::empty());
    } else {
        lemma_asked_of_events(commands);
    }
}

/// At most one worker per stream, for any run of events: the work that a
/// batch asks for, carried out in order, starts no worker for a stream that
/// has one, and after the batch a stream has a worker exactly if the
/// dashboard counts on one.
pub proof fn lemma_batch_one_worker(d: DispatcherView, count: nat, now: Instant, stream: Stream)
    ensures
        never_two(d.batch_requests(count, now), stream, has_worker(d.app, stream)),
        live_after(d.batch_requests(count, now), stream, has_worker(d.app, stream)) == has_worker(
            d.batch(count, now).app,
            stream,
        ),
    decreases count,
{
    if count > 0 {
        let next = d.stepped(now);
        lemma_batch_one_worker(next, (count - 1) as nat, now, stream);
        if d.queue.len() > 0 {
            lemma_step_one_worker(d.app, d.queue[0], now, stream);
        }
        lemma_requests_in_a_row(
            d.step_requests(),
            next.batch_requests((count - 1) as nat, now),
            stream,
            has_worker(d.app, stream),
        );
    }
}

} // verus!
