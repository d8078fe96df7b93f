//! A bounded buffer of log lines with a cached, wrapped projection for the
//! current viewport width and filter.

use crate::page::widget::table_widget::ScrollState;
use crate::text::{is_substring, str_contains, str_eq};
use std::borrow::Cow;
use vstd::prelude::*;
use vstd::string::StringExecFns;

verus! {

/// The display lines that `textwrap::wrap` makes of `line` at `width`
/// columns, with the crate's default options.
pub uninterp spec fn wrapped(line: Seq<char>, width: usize) -> Seq<Seq<char>>;

/// Trusted: `textwrap::wrap(line, width)`, each piece turned into an owned
/// string. The pieces depend on the text and the width alone; the contract
/// gives them the name `wrapped` and says no more of them.
#[verifier::external_body]
fn wrap_line(line: &str, width: usize) -> (pieces: Vec<String>)
    ensures
        pieces.deep_view() == wrapped(line@, width),
{
    textwrap::wrap(line, width).into_iter().map(Cow::into_owned).collect()
}

/// The texts of a list of strings.
pub open spec fn lines_of(v: Seq<String>) -> Seq<Seq<char>> {
    Seq::new(v.len(), |i: int| v[i]@)
}

/// A line passes a filter when it contains it. The empty filter passes every
/// line.
pub open spec fn line_passes(line: Seq<char>, filter: Seq<char>) -> bool {
    is_substring(filter, line)
}

/// What one line adds to the projection: its wrapped pieces if it passes the
/// filter, nothing otherwise.
pub open spec fn line_projection(line: Seq<char>, filter: Seq<char>, width: usize) -> Seq<Seq<char>> {
    if line_passes(line, filter) {
        wrapped(line, width)
    } else {
        Seq::empty()
    }
}

/// The projection made from scratch: the wrapped pieces of every line that
/// passes the filter, in the order of the lines.
pub open spec fn projection(lines: Seq<Seq<char>>, filter: Seq<char>, width: usize) -> Seq<Seq<char>>
    decreases lines.len(),
{
    if lines.len() == 0 {
        Seq::empty()
    } else {
        projection(lines.drop_last(), filter, width) + line_projection(lines.last(), filter, width)
    }
}

/// The last `cap` elements of `s`, or all of `s` if it has no more.
pub open spec fn keep_last<A>(s: Seq<A>, cap: nat) -> Seq<A> {
    if s.len() > cap {
        s.subrange(s.len() - cap, s.len() as int)
    } else {
        s
    }
}

/// The buffer after one line is appended under capacity `cap`.
pub open spec fn appended(buffer: Seq<Seq<char>>, line: Seq<char>, cap: nat) -> Seq<Seq<char>> {
    keep_last(buffer.push(line), cap)
}

/// The buffer after the lines of `added` are appended one by one under
/// capacity `cap`.
pub open spec fn appended_all(buffer: Seq<Seq<char>>, added: Seq<Seq<char>>, cap: nat) -> Seq<
    Seq<char>,
>
    decreases added.len(),
{
    if added.len() == 0 {
        buffer
    } else {
        appended(appended_all(buffer, added.drop_last(), cap), added.last(), cap)
    }
}

/// Largest scroll offset for `total` display lines in a viewport of
/// `height` lines.
pub open spec fn scroll_limit(total: nat, height: nat) -> nat {
    if total > height {
        (total - height) as nat
    } else {
        0
    }
}

/// The offset at which the view stands: the limit while pinned to the latest
/// line, else the chosen offset, at most the limit.
pub open spec fn view_offset(chosen: Option<usize>, limit: nat) -> nat {
    match chosen {
        None => limit,
        Some(i) => if i <= limit {
            i as nat
        } else {
            limit
        },
    }
}

/// Cells inside the border of an area side of `outer` cells.
pub open spec fn inner_size(outer: u16) -> usize {
    if outer >= 2 {
        (outer - 2) as usize
    } else {
        0
    }
}

/// Where a viewport of `height` lines that starts at `at` ends among `total`
/// lines.
pub open spec fn window_end(at: nat, height: nat, total: nat) -> nat {
    if at + height < total {
        at + height
    } else {
        total
    }
}

/// The offset from which a scroll step starts: the chosen one, or where the
/// scrollbar stands while the view is pinned.
pub open spec fn standing(chosen: Option<usize>, scroll: ScrollState) -> usize {
    match chosen {
        Some(i) => i,
        None => scroll.position,
    }
}

/// One less, not below zero.
pub open spec fn stepped_up(from: usize) -> usize {
    if from > 0 {
        (from - 1) as usize
    } else {
        0
    }
}

/// One more, not above `last`.
pub open spec fn stepped_down(from: usize, last: usize) -> usize {
    if from < last {
        (from + 1) as usize
    } else {
        last
    }
}

/// The last position of a scrollbar over `content_length` positions.
pub open spec fn scroll_range_end(content_length: usize) -> usize {
    if content_length > 0 {
        (content_length - 1) as usize
    } else {
        0
    }
}

/// The empty filter passes every line.
pub proof fn lemma_empty_filter_passes(line: Seq<char>)
    ensures
        line_passes(line, Seq::empty()),
{
    let none = Seq::<char>::empty();
    assert(line.subrange(0int, 0int + none.len()) =~= none);
}

/// Appending a line to the raw lines appends that line's projection to the
/// projection.
pub proof fn lemma_projection_push(
    lines: Seq<Seq<char>>,
    line: Seq<char>,
    filter: Seq<char>,
    width: usize,
)
    ensures
        projection(lines.push(line), filter, width) == projection(lines, filter, width)
            + line_projection(line, filter, width),
{
    assert(lines.push(line).drop_last() =~= lines);
}

/// Appending any number of lines, one at a time, to a buffer of capacity
/// `cap` leaves at most `cap` lines: the most recent ones of the old buffer
/// followed by the appended lines, in order.
pub proof fn lemma_appended_all(buffer: Seq<Seq<char>>, added: Seq<Seq<char>>, cap: nat)
    requires
        buffer.len() <= cap,
    ensures
        appended_all(buffer, added, cap) == keep_last(buffer + added, cap),
        appended_all(buffer, added, cap).len() <= cap,
    decreases added.len(),
{
    if added.len() > 0 {
        let front = added.drop_last();
        lemma_appended_all(buffer, front, cap);
    }
}

/// A bounded buffer of log lines. It keeps the wrapped display lines for
/// the width it was last drawn at and extends them as lines arrive.
pub struct LogWidget {
    max: usize,
    lines: Vec<String>,
    scroll: ScrollState,
    scroll_pos: Option<usize>,
    cached_width: Option<usize>,
    cached_lines: Vec<String>,
    filter: String,
}

/// Puts the display lines `pieces` at the end of `cache`.
pub fn append_pieces(cache: &mut Vec<String>, pieces: Vec<String>)
    ensures
        lines_of(final(cache)@) == lines_of(old(cache)@) + lines_of(pieces@),
{
    let mut pieces = pieces;
    cache.append(&mut pieces);
}

/// Copies of the strings of `v` from index `from` up to `to`.
fn clone_window(v: &Vec<String>, from: usize, to: usize) -> (out: Vec<String>)
    requires
        from <= to <= v.len(),
    ensures
        lines_of(out@) == lines_of(v@).subrange(from as int, to as int),
{
    let mut out: Vec<String> = Vec::new();
    let mut i: usize = from;
    while i < to
        invariant
            from <= i <= to <= v.len(),
            out@ == v@.subrange(from as int, i as int),
        decreases to - i,
    {
        out.push(v[i].clone());
        i += 1;
    }
    out
}

/// The state of a log widget.
pub struct LogView {
    /// How many raw lines are kept at most.
    pub capacity: usize,
    /// The raw lines, oldest first.
    pub lines: Seq<Seq<char>>,
    /// The active filter.
    pub filter: Seq<char>,
    /// The width that the cache was made for, if there is a cache.
    pub cached_width: Option<usize>,
    /// The cached display lines.
    pub cached: Seq<Seq<char>>,
    /// The offset the user scrolled to, or `None` while the view is pinned
    /// to the latest line.
    pub chosen: Option<usize>,
    /// The scrollbar's state as the last drawing left it.
    pub scroll: ScrollState,
}

impl LogView {
    /// The widget without lines, filter and cache, pinned to the latest
    /// line.
    pub open spec fn empty(capacity: usize) -> LogView {
        LogView {
            capacity,
            lines: Seq::empty(),
            filter: Seq::empty(),
            cached_width: None,
            cached: Seq::empty(),
            chosen: None,
            scroll: ScrollState { content_length: 0, position: 0 },
        }
    }

    /// The buffer is within its capacity, and the cache, where there is one,
    /// is the projection of the raw lines for the cached width and the
    /// active filter.
    pub open spec fn wf(self) -> bool {
        &&& self.lines.len() <= self.capacity
        &&& match self.cached_width {
            Some(width) => self.cached == projection(self.lines, self.filter, width),
            None => self.cached.len() == 0,
        }
    }

    /// The widget without cache.
    pub open spec fn uncached(self) -> LogView {
        LogView { cached_width: None, cached: Seq::empty(), ..self }
    }

    /// The widget after the filter is set: unchanged for the filter it has,
    /// else with the new filter and without cache.
    pub open spec fn with_filter(self, filter: Seq<char>) -> LogView {
        if filter == self.filter {
            self
        } else {
            LogView { filter, ..self.uncached() }
        }
    }

    /// The widget after a line is appended. A full buffer loses its oldest
    /// line and its cache; else a cache that exists grows by the line's
    /// projection.
    pub open spec fn with_line(self, line: Seq<char>) -> LogView {
        if self.lines.len() >= self.capacity {
            LogView { lines: appended(self.lines, line, self.capacity as nat), ..self.uncached() }
        } else {
            LogView {
                lines: self.lines.push(line),
                cached: match self.cached_width {
                    Some(width) => self.cached + line_projection(line, self.filter, width),
                    None => self.cached,
                },
                ..self
            }
        }
    }

    /// The widget after the lines of `added` are appended one by one.
    pub open spec fn with_lines(self, added: Seq<Seq<char>>) -> LogView
        decreases added.len(),
    {
        if added.len() == 0 {
            self
        } else {
            self.with_lines(added.drop_last()).with_line(added.last())
        }
    }

    /// The widget without lines and cache, pinned to the latest line.
    pub open spec fn cleared(self) -> LogView {
        LogView { lines: Seq::empty(), chosen: None, ..self.uncached() }
    }

    /// The widget with a cache for `width`: the one it has if that was made
    /// for `width`, else the projection made from scratch.
    pub open spec fn cached_for(self, width: usize) -> LogView {
        if self.cached_width == Some(width) {
            self
        } else {
            LogView {
                cached_width: Some(width),
                cached: projection(self.lines, self.filter, width),
                ..self
            }
        }
    }

    /// The widget after drawing into an area of `area_width` by
    /// `area_height` cells: cached for the inner width, the scrollbar over
    /// the scroll limit, and the view at the end while pinned, else at the
    /// chosen offset, at most the limit.
    pub open spec fn rendered(self, area_width: u16, area_height: u16) -> LogView {
        let cached = self.cached_for(inner_size(area_width));
        let limit = scroll_limit(cached.cached.len(), inner_size(area_height) as nat);
        let at = view_offset(self.chosen, limit);
        LogView {
            chosen: match self.chosen {
                None => None,
                Some(_) => Some(at as usize),
            },
            scroll: ScrollState { content_length: limit as usize, position: at as usize },
            ..cached
        }
    }

    /// The display lines inside the viewport of a widget drawn into an area
    /// `area_height` cells high.
    pub open spec fn window(self, area_height: u16) -> Seq<Seq<char>> {
        let at = self.scroll.position as nat;
        self.cached.subrange(
            at as int,
            window_end(at, inner_size(area_height) as nat, self.cached.len()) as int,
        )
    }

    /// The widget after one scroll step up.
    pub open spec fn up(self) -> LogView {
        LogView {
            chosen: Some(stepped_up(standing(self.chosen, self.scroll))),
            scroll: ScrollState {
                content_length: self.scroll.content_length,
                position: stepped_up(self.scroll.position),
            },
            ..self
        }
    }

    /// The widget after one scroll step down.
    pub open spec fn down(self) -> LogView {
        LogView {
            chosen: Some(stepped_down(standing(self.chosen, self.scroll), usize::MAX)),
            scroll: ScrollState {
                content_length: self.scroll.content_length,
                position: stepped_down(
                    self.scroll.position,
                    scroll_range_end(self.scroll.content_length),
                ),
            },
            ..self
        }
    }
}

/// Cache consistency for one append: a widget whose cache is the projection
/// of its lines still has such a cache after a line is appended, whether
/// the cache was extended or dropped.
pub proof fn lemma_with_line_wf(view: LogView, line: Seq<char>)
    requires
        view.wf(),
    ensures
        view.with_line(line).wf(),
        view.with_line(line).lines == appended(view.lines, line, view.capacity as nat),
{
    if view.lines.len() < view.capacity {
        match view.cached_width {
            Some(width) => {
                lemma_projection_push(view.lines, line, view.filter, width);
            },
            None => {},
        }
    }
}

/// Cache consistency for any sequence of appends: the incrementally
/// maintained cache equals the projection made from scratch of the lines
/// that the buffer then holds, which are the most recent ones, at most as
/// many as the capacity.
pub proof fn lemma_with_lines_wf(view: LogView, added: Seq<Seq<char>>)
    requires
        view.wf(),
    ensures
        view.with_lines(added).wf(),
        view.with_lines(added).lines == keep_last(view.lines + added, view.capacity as nat),
        view.with_lines(added).lines.len() <= view.capacity,
        view.with_lines(added).capacity == view.capacity,
        view.with_lines(added).filter == view.filter,
        match view.with_lines(added).cached_width {
            Some(width) => view.with_lines(added).cached == projection(
                view.with_lines(added).lines,
                view.filter,
                width,
            ),
            None => true,
        },
    decreases added.len(),
{
    lemma_appended_all(view.lines, added, view.capacity as nat);
    if added.len() > 0 {
        let front = view.with_lines(added.drop_last());
        lemma_with_lines_wf(view, added.drop_last());
        lemma_appended_all(view.lines, added.drop_last(), view.capacity as nat);
        lemma_with_line_wf(front, added.last());
    }
}

/// The viewport is never overfull: the display lines handed out for
/// drawing are at most as many as the area holds inside its border, and
/// they end with the last display line while the view is pinned.
pub proof fn lemma_window_fits(view: LogView, area_width: u16, area_height: u16)
    requires
        view.rendered(area_width, area_height).cached.len() <= usize::MAX,
    ensures
        view.rendered(area_width, area_height).window(area_height).len() <= inner_size(
            area_height,
        ),
        view.chosen is None ==> view.rendered(area_width, area_height).scroll.position
            + view.rendered(area_width, area_height).window(area_height).len() == view.rendered(
            area_width,
            area_height,
        ).cached.len(),
{
}

impl View for LogWidget {
    type V = LogView;

    closed spec fn view(&self) -> LogView {
        LogView {
            capacity: self.max,
            lines: lines_of(self.lines@),
            filter: self.filter@,
            cached_width: self.cached_width,
            cached: lines_of(self.cached_lines@),
            chosen: self.scroll_pos,
            scroll: self.scroll,
        }
    }
}

impl LogWidget {
    /// An empty widget that keeps at most `max` lines, pinned to the latest
    /// line, without filter and without cache.
    pub fn new(max: usize) -> (widget: Self)
        ensures
            widget@.wf(),
            widget@ == LogView::empty(max),
    {
        let widget = LogWidget {
            max,
            lines: Vec::new(),
            scroll: ScrollState { content_length: 0, position: 0 },
            scroll_pos: None,
            cached_width: None,
            cached_lines: Vec::new(),
            filter: String::new(),
        };
        proof {
            assert(lines_of(widget.lines@) =~= Seq::empty());
        }
        widget
    }

    /// The scrollbar's state as the last drawing left it.
    pub fn scroll_state(&self) -> (scroll: ScrollState)
        ensures
            scroll == self@.scroll,
    {
        self.scroll
    }

    /// How many raw lines the buffer holds.
    pub fn len(&self) -> (count: usize)
        ensures
            count == self@.lines.len(),
    {
        self.lines.len()
    }

    /// The raw lines, oldest first.
    pub fn lines(&self) -> (lines: &Vec<String>)
        ensures
            lines_of(lines@) == self@.lines,
    {
        &self.lines
    }

    /// Sets the filter. A filter that differs from the active one drops the
    /// cache; the same filter changes nothing.
    pub fn set_filter(&mut self, filter: &str)
        requires
            old(self)@.wf(),
        ensures
            final(self)@.wf(),
            final(self)@ == old(self)@.with_filter(filter@),
    {
        if !str_eq(self.filter.as_str(), filter) {
            self.filter = String::from_str(filter);
            self.cached_width = None;
            self.cached_lines = Vec::new();
            proof {
                assert(lines_of(self.cached_lines@) =~= Seq::empty());
            }
        }
    }

    /// Appends a line. Beyond the capacity the oldest line leaves and the
    /// cache is dropped. Otherwise a cache that exists is extended by the
    /// wrapped pieces of the new line, if the line passes the filter.
    pub fn add_line(&mut self, line: String)
        requires
            old(self)@.wf(),
        ensures
            final(self)@.wf(),
            final(self)@ == old(self)@.with_line(line@),
            final(self)@.lines == appended(old(self)@.lines, line@, old(self)@.capacity as nat),
    {
        let ghost before = self.lines@;
        let ghost text = line@;
        proof {
            assert(lines_of(before.push(line)) =~= lines_of(before).push(text));
            lemma_with_line_wf(self@, text);
        }
        if self.lines.len() >= self.max {
            if self.lines.len() > 0 {
                self.lines.remove(0);
                self.lines.push(line);
                proof {
                    assert(lines_of(self.lines@) =~= appended(
                        lines_of(before),
                        text,
                        self.max as nat,
                    ));
                }
            } else {
                proof {
                    assert(appended(lines_of(before), text, self.max as nat) =~= lines_of(
                        self.lines@,
                    ));
                }
            }
            self.cached_width = None;
            self.cached_lines = Vec::new();
            proof {
                assert(lines_of(self.cached_lines@) =~= Seq::empty());
            }
        } else {
            match self.cached_width {
                Some(width) => {
                    if str_contains(line.as_str(), self.filter.as_str()) {
                        let pieces = wrap_line(line.as_str(), width);
                        proof {
                            assert(lines_of(pieces@) =~= wrapped(text, width));
                        }
                        append_pieces(&mut self.cached_lines, pieces);
                    }
                },
                None => {},
            }
            self.lines.push(line);
        }
    }

    /// Drops every line and the cache, and pins the view to the latest line
    /// again.
    pub fn clear(&mut self)
        requires
            old(self)@.wf(),
        ensures
            final(self)@.wf(),
            final(self)@ == old(self)@.cleared(),
    {
        self.cached_width = None;
        self.cached_lines = Vec::new();
        self.lines = Vec::new();
        self.scroll_pos = None;
        proof {
            assert(lines_of(self.lines@) =~= Seq::empty());
        }
    }

    /// Makes the projection from scratch for `width` columns.
    fn rebuild(&mut self, width: usize)
        requires
            old(self)@.lines.len() <= old(self)@.capacity,
        ensures
            final(self)@.wf(),
            final(self)@ == (LogView {
                cached_width: Some(width),
                cached: projection(old(self)@.lines, old(self)@.filter, width),
                ..old(self)@
            }),
    {
        let mut cache: Vec<String> = Vec::new();
        let mut i: usize = 0;
        while i < self.lines.len()
            invariant
                i <= self.lines.len(),
                *self == *old(self),
                lines_of(cache@) == projection(
                    lines_of(self.lines@).take(i as int),
                    self.filter@,
                    width,
                ),
            decreases self.lines.len() - i,
        {
            let ghost text = self.lines@[i as int]@;
            if str_contains(self.lines[i].as_str(), self.filter.as_str()) {
                let pieces = wrap_line(self.lines[i].as_str(), width);
                append_pieces(&mut cache, pieces);
            }
            proof {
                lemma_projection_push(
                    lines_of(self.lines@).take(i as int),
                    text,
                    self.filter@,
                    width,
                );
                assert(lines_of(self.lines@).take(i as int).push(text) =~= lines_of(
                    self.lines@,
                ).take(i + 1));
            }
            i += 1;
        }
        proof {
            assert(lines_of(self.lines@).take(self.lines@.len() as int) =~= lines_of(self.lines@));
        }
        self.cached_lines = cache;
        self.cached_width = Some(width);
    }

    /// Prepares drawing into an area of `area_width` by `area_height` cells,
    /// of which a border takes one cell on every side. The projection is
    /// made anew only if it was not made for this width. The view stands at
    /// the end while pinned, else at the chosen offset, at most the scroll
    /// limit. Returns the display lines inside the viewport.
    pub fn render(&mut self, area_width: u16, area_height: u16) -> (visible: Vec<String>)
        requires
            old(self)@.wf(),
        ensures
            final(self)@.wf(),
            final(self)@ == old(self)@.rendered(area_width, area_height),
            lines_of(visible@) == final(self)@.window(area_height),
    {
        let width: usize = (if area_width >= 2 {
            area_width - 2
        } else {
            0
        }) as usize;
        let height: usize = (if area_height >= 2 {
            area_height - 2
        } else {
            0
        }) as usize;
        let stale: bool = match self.cached_width {
            Some(w) => w != width,
            None => true,
        };
        if stale {
            self.rebuild(width);
        }
        let total: usize = self.cached_lines.len();
        let limit: usize = if total > height {
            total - height
        } else {
            0
        };
        let at: usize = match self.scroll_pos {
            None => limit,
            Some(i) => if i <= limit {
                i
            } else {
                limit
            },
        };
        self.scroll = ScrollState { content_length: limit, position: at };
        if self.scroll_pos.is_some() {
            self.scroll_pos = Some(at);
        }
        let end: usize = if total - at > height {
            at + height
        } else {
            total
        };
        clone_window(&self.cached_lines, at, end)
    }

    /// Scrolls one display line up and fixes the view there: from the chosen
    /// offset, or from where the last drawing stood while pinned.
    pub fn select_up(&mut self)
        requires
            old(self)@.wf(),
        ensures
            final(self)@.wf(),
            final(self)@ == old(self)@.up(),
    {
        let from: usize = match self.scroll_pos {
            Some(i) => i,
            None => self.scroll.position,
        };
        self.scroll_pos = Some(if from > 0 {
            from - 1
        } else {
            0
        });
        self.scroll.position = if self.scroll.position > 0 {
            self.scroll.position - 1
        } else {
            0
        };
    }

    /// Scrolls one display line down and fixes the view there. The next
    /// drawing brings an offset past the scroll limit back to the limit.
    pub fn select_down(&mut self)
        requires
            old(self)@.wf(),
        ensures
            final(self)@.wf(),
            final(self)@ == old(self)@.down(),
    {
        let from: usize = match self.scroll_pos {
            Some(i) => i,
            None => self.scroll.position,
        };
        self.scroll_pos = Some(if from < usize::MAX {
            from + 1
        } else {
            from
        });
        let last: usize = if self.scroll.content_length > 0 {
            self.scroll.content_length - 1
        } else {
            0
        };
        self.scroll.position = if self.scroll.position < last {
            self.scroll.position + 1
        } else {
            last
        };
    }
}

} // verus!
