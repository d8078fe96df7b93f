//! A table of text cells under a fixed header, with a row cursor.

use crate::text::{capped_width, display_width, is_substring, str_contains, string_width};
use vstd::prelude::*;
use vstd::string::StringExecFns;

verus! {

/// What a scrollbar shows: how much there is to scroll over and where the
/// view stands.
#[derive(Clone, Copy, Debug, PartialEq, Eq, Structural)]
pub struct ScrollState {
    pub content_length: usize,
    pub position: usize,
}

/// Width of one column when the table is drawn.
#[derive(Clone, Copy, Debug, PartialEq, Eq, Structural)]
pub enum ColumnWidth {
    /// Exactly this many terminal cells.
    Length(u16),
    /// Whatever the other columns leave.
    Fill,
}

/// One row of a table: its cells.
pub type Row = Vec<String>;

/// What drawing a table needs besides its cells.
#[derive(Debug, PartialEq, Eq)]
pub struct TableFrame {
    /// One width per header column.
    pub widths: Vec<ColumnWidth>,
    /// Indices of the rows that pass the filter, ascending.
    pub visible: Vec<usize>,
    /// For each row, whether it is drawn as the marked member.
    pub marked: Vec<bool>,
    /// Where the row under the cursor stands among the visible rows, if it
    /// is one of them.
    pub cursor: Option<usize>,
}

/// A table of text cells under fixed titles, with a cursor on one row, a
/// scrollbar and a filter.
pub struct TableWidget {
    header: Vec<&'static str>,
    data: Vec<Vec<String>>,
    selected: Option<usize>,
    scroll: ScrollState,
    filter: String,
}

/// The cells of a table as character sequences.
pub open spec fn rows_of(data: Vec<Vec<String>>) -> Seq<Seq<Seq<char>>> {
    Seq::new(data@.len(), |i: int| row_of(data@[i]))
}

/// The cells of one row as character sequences.
pub open spec fn row_of(row: Vec<String>) -> Seq<Seq<char>> {
    Seq::new(row@.len(), |j: int| row@[j]@)
}

/// The header titles as character sequences.
pub open spec fn titles_of(header: Vec<&'static str>) -> Seq<Seq<char>> {
    Seq::new(header@.len(), |j: int| header@[j]@)
}

/// Scrolling range for a table of `len` rows: one less than the number of
/// rows, and zero for an empty table.
pub open spec fn scroll_range(len: nat) -> nat {
    if len > 0 {
        (len - 1) as nat
    } else {
        0
    }
}

/// Where the cursor stands after moving up by one in a table of `len > 0`
/// rows. Without a cursor the last row is taken.
pub open spec fn moved_up(selected: Option<usize>, len: nat) -> nat {
    let target: nat = match selected {
        None => usize::MAX as nat,
        Some(i) => if i > 0 {
            (i - 1) as nat
        } else {
            0
        },
    };
    if target < len {
        target
    } else {
        (len - 1) as nat
    }
}

/// Where the cursor stands after moving down by one in a table of `len > 0`
/// rows. Without a cursor the first row is taken.
pub open spec fn moved_down(selected: Option<usize>, len: nat) -> nat {
    let target: nat = match selected {
        None => 0,
        Some(i) => (i + 1) as nat,
    };
    if target < len {
        target
    } else {
        (len - 1) as nat
    }
}

/// The cursor as drawing leaves it: none on an empty table, else at most the
/// last row.
pub open spec fn settled(selected: Option<usize>, len: nat) -> Option<usize> {
    if len == 0 {
        None
    } else {
        match selected {
            None => None,
            Some(i) => if i < len {
                Some(i)
            } else {
                Some((len - 1) as usize)
            },
        }
    }
}

/// Display width of the cell of row `r` in column `col`; a row that is too
/// short counts as an empty cell.
pub open spec fn cell_width(rows: Seq<Seq<Seq<char>>>, r: int, col: int) -> nat {
    if 0 <= col < rows[r].len() {
        display_width(rows[r][col])
    } else {
        0
    }
}

/// The largest display width among the cells of column `col` in the first
/// `upto` rows.
pub open spec fn widest_cell(rows: Seq<Seq<Seq<char>>>, col: int, upto: int) -> nat
    decreases upto,
{
    if upto <= 0 {
        0
    } else {
        let rest = widest_cell(rows, col, upto - 1);
        let here = cell_width(rows, upto - 1, col);
        if here > rest {
            here
        } else {
            rest
        }
    }
}

/// Cells that column `col` asks for: the wider of its title and its widest
/// cell, and two more.
pub open spec fn column_cells(titles: Seq<Seq<char>>, rows: Seq<Seq<Seq<char>>>, col: int) -> nat {
    let title = display_width(titles[col]);
    let body = widest_cell(rows, col, rows.len() as int);
    if body > title {
        body + 2
    } else {
        title + 2
    }
}

/// The width given to column `col`: the last column fills, every other one
/// gets its cells, cut off at `u16::MAX`.
pub open spec fn column_width(titles: Seq<Seq<char>>, rows: Seq<Seq<Seq<char>>>, col: int)
    -> ColumnWidth {
    if col == titles.len() - 1 {
        ColumnWidth::Fill
    } else if column_cells(titles, rows, col) <= u16::MAX {
        ColumnWidth::Length(column_cells(titles, rows, col) as u16)
    } else {
        ColumnWidth::Length(u16::MAX)
    }
}

/// A row passes a filter when one of its cells contains it. The empty filter
/// passes every row.
pub open spec fn row_passes(row: Seq<Seq<char>>, filter: Seq<char>) -> bool {
    filter.len() == 0 || exists|j: int| 0 <= j < row.len() && is_substring(filter, #[trigger] row[j])
}

/// Indices below `upto` of the rows that pass `filter`, ascending.
pub open spec fn passing_rows(rows: Seq<Seq<Seq<char>>>, filter: Seq<char>, upto: int) -> Seq<usize>
    decreases upto,
{
    if upto <= 0 {
        Seq::empty()
    } else if row_passes(rows[upto - 1], filter) {
        passing_rows(rows, filter, upto - 1).push((upto - 1) as usize)
    } else {
        passing_rows(rows, filter, upto - 1)
    }
}

/// Where row `at` stands among the visible rows, if it is one of them.
pub open spec fn place_among(visible: Seq<usize>, at: Option<usize>) -> Option<usize> {
    match at {
        Some(row) if visible.contains(row) => Some(visible.index_of(row) as usize),
        _ => None,
    }
}

/// The visible rows are in ascending order, so none occurs twice.
pub proof fn lemma_passing_rows_ascend(rows: Seq<Seq<Seq<char>>>, filter: Seq<char>, upto: int)
    requires
        upto <= usize::MAX,
    ensures
        forall|i: int, j: int|
            0 <= i < j < passing_rows(rows, filter, upto).len() ==> passing_rows(
                rows,
                filter,
                upto,
            )[i] < passing_rows(rows, filter, upto)[j],
        forall|i: int|
            0 <= i < passing_rows(rows, filter, upto).len() ==> 0 <= #[trigger] passing_rows(
                rows,
                filter,
                upto,
            )[i] < upto,
    decreases upto,
{
    if upto > 0 {
        lemma_passing_rows_ascend(rows, filter, upto - 1);
        let rest = passing_rows(rows, filter, upto - 1);
        let all = passing_rows(rows, filter, upto);
        assert forall|i: int| 0 <= i < all.len() implies 0 <= #[trigger] all[i] < upto by {
            if i < rest.len() {
                assert(all[i] == rest[i]);
            }
        }
        assert forall|i: int, j: int| 0 <= i < j < all.len() implies all[i] < all[j] by {
            assert(all[i] == rest[i]);
            if j < rest.len() {
                assert(all[j] == rest[j]);
            }
        }
    }
}

/// Title of the third column in a table whose rows mark one member.
pub open spec fn mark_title() -> Seq<char> {
    "选中"@
}

/// A row is drawn as marked when the table's third column is the mark column
/// and the row's third cell is not empty.
pub open spec fn row_marked(titles: Seq<Seq<char>>, row: Seq<Seq<char>>) -> bool {
    titles.len() >= 3 && titles[2] == mark_title() && row.len() >= 3 && row[2].len() > 0
}

/// A copy of a row, cell by cell.
pub fn clone_row(row: &Vec<String>) -> (copy: Vec<String>)
    ensures
        copy@ == row@,
        row_of(copy) == row_of(*row),
{
    let mut copy: Vec<String> = Vec::new();
    let mut j: usize = 0;
    while j < row.len()
        invariant
            j <= row.len(),
            copy@ == row@.take(j as int),
        decreases row.len() - j,
    {
        copy.push(row[j].clone());
        j += 1;
    }
    copy
}

/// Whether two rows hold the same text in every cell.
pub fn same_row(a: &Vec<String>, b: &Vec<String>) -> (same: bool)
    ensures
        same == (row_of(*a) == row_of(*b)),
{
    if a.len() != b.len() {
        return false;
    }
    let mut j: usize = 0;
    while j < a.len()
        invariant
            j <= a.len(),
            a.len() == b.len(),
            forall|k: int| 0 <= k < j ==> a@[k]@ == b@[k]@,
        decreases a.len() - j,
    {
        if !(a[j] == b[j]) {
            proof {
                assert(row_of(*a)[j as int] == a@[j as int]@);
            }
            return false;
        }
        j += 1;
    }
    proof {
        assert(row_of(*a) =~= row_of(*b));
    }
    true
}

/// Whether two tables hold the same text in every cell of every row.
pub fn same_rows(a: &Vec<Vec<String>>, b: &Vec<Vec<String>>) -> (same: bool)
    ensures
        same == (rows_of(*a) == rows_of(*b)),
{
    if a.len() != b.len() {
        proof {
            assert(rows_of(*a).len() != rows_of(*b).len());
        }
        return false;
    }
    let mut i: usize = 0;
    while i < a.len()
        invariant
            i <= a.len(),
            a.len() == b.len(),
            forall|k: int| 0 <= k < i ==> row_of(a@[k]) == row_of(b@[k]),
        decreases a.len() - i,
    {
        if !same_row(&a[i], &b[i]) {
            proof {
                assert(rows_of(*a)[i as int] == row_of(a@[i as int]));
            }
            return false;
        }
        i += 1;
    }
    proof {
        assert(rows_of(*a) =~= rows_of(*b));
    }
    true
}

/// The state of a table widget.
pub struct TableView {
    pub titles: Seq<Seq<char>>,
    pub rows: Seq<Seq<Seq<char>>>,
    pub cursor: Option<usize>,
    pub scroll: ScrollState,
    pub filter: Seq<char>,
}

/// Index of the first row for which `keep` holds, and zero if there is none.
pub open spec fn first_match(rows: Seq<Seq<Seq<char>>>, keep: spec_fn(Seq<Seq<char>>) -> bool)
    -> int {
    if exists|i: int| 0 <= i < rows.len() && keep(#[trigger] rows[i]) {
        choose|i: int|
            0 <= i < rows.len() && keep(#[trigger] rows[i]) && forall|j: int|
                0 <= j < i ==> !keep(#[trigger] rows[j])
    } else {
        0
    }
}

/// An index at which `keep` holds and before which it does not is the first
/// match; so is zero when nothing matches.
pub proof fn lemma_first_match(
    rows: Seq<Seq<Seq<char>>>,
    keep: spec_fn(Seq<Seq<char>>) -> bool,
    at: int,
)
    requires
        ({
            ||| {
                &&& 0 <= at < rows.len()
                &&& keep(rows[at])
                &&& forall|j: int| 0 <= j < at ==> !keep(#[trigger] rows[j])
            }
            ||| {
                &&& at == 0
                &&& forall|j: int| 0 <= j < rows.len() ==> !keep(#[trigger] rows[j])
            }
        }),
    ensures
        first_match(rows, keep) == at,
{
    if 0 <= at < rows.len() && keep(rows[at]) {
        let found = first_match(rows, keep);
        assert(found == at);
    }
}

impl TableView {
    /// The table without rows, cursor and filter under `titles`.
    pub open spec fn empty(titles: Seq<Seq<char>>) -> TableView {
        TableView {
            titles,
            rows: Seq::empty(),
            cursor: None,
            scroll: ScrollState { content_length: 0, position: 0 },
            filter: Seq::empty(),
        }
    }

    /// The table with its cursor and its scrollbar at row `at`.
    pub open spec fn moved(self, at: usize) -> TableView {
        TableView {
            cursor: Some(at),
            scroll: ScrollState { content_length: self.scroll.content_length, position: at },
            ..self
        }
    }

    /// The table after its rows are replaced by `rows`: unchanged if they
    /// are the rows it has; else with the new rows, the cursor on the first
    /// row if there was none and on the last row if it stood past the end,
    /// and the scrolling range of the new rows.
    pub open spec fn with_rows(self, rows: Seq<Seq<Seq<char>>>) -> TableView {
        if rows == self.rows {
            self
        } else {
            TableView {
                rows,
                cursor: match self.cursor {
                    None => Some(0usize),
                    Some(i) => if i < rows.len() {
                        Some(i)
                    } else {
                        Some(scroll_range(rows.len()) as usize)
                    },
                },
                scroll: ScrollState {
                    content_length: scroll_range(rows.len()) as usize,
                    position: self.scroll.position,
                },
                ..self
            }
        }
    }

    /// The table after the cursor moved up by one row.
    pub open spec fn up(self) -> TableView {
        if self.rows.len() == 0 {
            self
        } else {
            self.moved(moved_up(self.cursor, self.rows.len()) as usize)
        }
    }

    /// The table after the cursor moved down by one row.
    pub open spec fn down(self) -> TableView {
        if self.rows.len() == 0 {
            self
        } else {
            self.moved(moved_down(self.cursor, self.rows.len()) as usize)
        }
    }

    /// The table with the cursor on the first row for which `keep` holds,
    /// and on the first row if there is none.
    pub open spec fn first_where(self, keep: spec_fn(Seq<Seq<char>>) -> bool) -> TableView {
        self.moved(first_match(self.rows, keep) as usize)
    }

    /// The table with the cursor as drawing leaves it.
    pub open spec fn drawn(self) -> TableView {
        TableView { cursor: settled(self.cursor, self.rows.len()), ..self }
    }

    /// Whether `frame` is what drawing this table needs: a width for every
    /// column, the rows that pass the filter, and for every row whether it
    /// is drawn as marked.
    pub open spec fn frames(self, frame: TableFrame) -> bool {
        &&& frame.widths@.len() == self.titles.len()
        &&& forall|col: int|
            0 <= col < frame.widths@.len() ==> #[trigger] frame.widths@[col] == column_width(
                self.titles,
                self.rows,
                col,
            )
        &&& frame.visible@ == passing_rows(self.rows, self.filter, self.rows.len() as int)
        &&& frame.cursor == place_among(frame.visible@, self.drawn().cursor)
        &&& frame.marked@.len() == self.rows.len()
        &&& forall|r: int|
            0 <= r < frame.marked@.len() ==> #[trigger] frame.marked@[r] == row_marked(
                self.titles,
                self.rows[r],
            )
    }

    /// The table with another filter.
    pub open spec fn with_filter(self, filter: Seq<char>) -> TableView {
        TableView { filter, ..self }
    }

    /// The row under the cursor, if the cursor stands on a row.
    pub open spec fn current(self) -> Option<Seq<Seq<char>>> {
        match self.cursor {
            Some(i) if i < self.rows.len() => Some(self.rows[i as int]),
            _ => None,
        }
    }

    /// The row that a cursor step returns: the one under the cursor, and an
    /// empty row for an empty table.
    pub open spec fn stepped_row(self) -> Seq<Seq<char>> {
        match self.current() {
            Some(row) => row,
            None => Seq::empty(),
        }
    }
}

/// Replacing the rows by the rows that are there changes nothing, neither
/// the cursor nor the scrollbar, however often it is done; and replacing
/// them twice by the same rows is the same as replacing them once.
pub proof fn lemma_same_rows_change_nothing(table: TableView, rows: Seq<Seq<Seq<char>>>)
    ensures
        rows == table.rows ==> table.with_rows(rows) == table,
        table.with_rows(rows).with_rows(rows) == table.with_rows(rows),
{
}

/// A cursor step leaves the cursor on a row of the table, whatever it was
/// before, as long as the table has rows; drawing leaves it on a row or
/// takes it away.
pub proof fn lemma_cursor_stays_inside(table: TableView)
    ensures
        table.rows.len() > 0 ==> table.up().current() is Some && table.down().current() is Some,
        table.rows.len() > 0 && table.rows.len() <= usize::MAX ==> (table.drawn().cursor is Some
            ==> table.drawn().current() is Some),
        table.rows.len() == 0 ==> table.drawn().cursor is None,
{
}

impl View for TableWidget {
    type V = TableView;

    closed spec fn view(&self) -> TableView {
        TableView {
            titles: titles_of(self.header),
            rows: rows_of(self.data),
            cursor: self.selected,
            scroll: self.scroll,
            filter: self.filter@,
        }
    }
}

impl TableWidget {
    /// The rows of the table.
    pub closed spec fn data(&self) -> Vec<Vec<String>> {
        self.data
    }

    /// The view's rows are the texts of the rows.
    pub proof fn lemma_rows(&self)
        ensures
            self@.rows == rows_of(self.data()),
    {
    }

    /// An empty table under `header`, without cursor and without filter.
    pub fn new(header: Vec<&'static str>) -> (table: Self)
        ensures
            table@ == TableView::empty(titles_of(header)),
    {
        let table = TableWidget {
            header,
            data: Vec::new(),
            selected: None,
            scroll: ScrollState { content_length: 0, position: 0 },
            filter: String::new(),
        };
        proof {
            assert(rows_of(table.data) =~= Seq::empty());
        }
        table
    }

    /// The header titles.
    pub fn header(&self) -> (header: &Vec<&'static str>)
        ensures
            titles_of(*header) == self@.titles,
    {
        &self.header
    }

    /// The rows.
    pub fn rows(&self) -> (rows: &Vec<Vec<String>>)
        ensures
            *rows == self.data(),
            rows_of(*rows) == self@.rows,
    {
        &self.data
    }

    /// Index of the row under the cursor, if there is a cursor.
    pub fn selected(&self) -> (cursor: Option<usize>)
        ensures
            cursor == self@.cursor,
    {
        self.selected
    }

    /// The scrollbar's state.
    pub fn scroll_state(&self) -> (scroll: ScrollState)
        ensures
            scroll == self@.scroll,
    {
        self.scroll
    }

    /// Replaces the rows. Rows that equal the current ones cell by cell
    /// change nothing, neither the cursor nor the scrollbar. Otherwise the
    /// cursor goes to the first row if there was none and to the last row
    /// if it stood past the end, and the scrolling range follows the new
    /// number of rows.
    pub fn set_data(&mut self, data: Vec<Vec<String>>)
        ensures
            final(self)@ == old(self)@.with_rows(rows_of(data)),
            rows_of(data) == old(self)@.rows ==> final(self)@ == old(self)@,
            final(self).data() == if rows_of(data) == old(self)@.rows {
                old(self).data()
            } else {
                data
            },
    {
        if same_rows(&data, &self.data) {
            return;
        }
        let mut len: usize = data.len();
        if len > 0 {
            len -= 1;
        }
        let rows: usize = data.len();
        self.data = data;
        self.selected = match self.selected {
            None => Some(0),
            Some(i) => if i < rows {
                Some(i)
            } else {
                Some(len)
            },
        };
        self.scroll.content_length = len;
    }

    /// Moves the cursor up by one row, not past the first row and not
    /// outside the table, and returns the row it then stands on. An empty
    /// table is left as it is and gives an empty row.
    pub fn select_up(&mut self) -> (row: Vec<String>)
        ensures
            final(self)@ == old(self)@.up(),
            final(self).data() == old(self).data(),
            row_of(row) == final(self)@.stepped_row(),
            old(self)@.rows.len() == 0 ==> row@.len() == 0,
    {
        if self.data.len() == 0 {
            return Vec::new();
        }
        let target: usize = match self.selected {
            None => usize::MAX,
            Some(i) => if i > 0 {
                i - 1
            } else {
                0
            },
        };
        let at: usize = if target < self.data.len() {
            target
        } else {
            self.data.len() - 1
        };
        self.selected = Some(at);
        self.scroll.position = at;
        clone_row(&self.data[at])
    }

    /// Moves the cursor down by one row, not past the last row, and returns
    /// the row it then stands on. An empty table is left as it is and gives
    /// an empty row.
    pub fn select_down(&mut self) -> (row: Vec<String>)
        ensures
            final(self)@ == old(self)@.down(),
            final(self).data() == old(self).data(),
            row_of(row) == final(self)@.stepped_row(),
            old(self)@.rows.len() == 0 ==> row@.len() == 0,
    {
        if self.data.len() == 0 {
            return Vec::new();
        }
        let target: usize = match self.selected {
            None => 0,
            Some(i) => if i < usize::MAX {
                i + 1
            } else {
                i
            },
        };
        let at: usize = if target < self.data.len() {
            target
        } else {
            self.data.len() - 1
        };
        self.selected = Some(at);
        self.scroll.position = at;
        clone_row(&self.data[at])
    }

    /// Puts the cursor on the first row for which `f` answers true, and on
    /// the first row of the table when it answers false for every row.
    pub fn select<F: Fn(&Vec<String>) -> bool>(&mut self, f: F)
        requires
            forall|i: int|
                0 <= i < old(self).data()@.len() ==> call_requires(
                    f,
                    (&#[trigger] old(self).data()@[i],),
                ),
        ensures
            final(self).data() == old(self).data(),
            final(self)@.cursor is Some,
            final(self)@ == old(self)@.moved(final(self)@.cursor->0),
            ({
                let at = final(self)@.cursor->0 as int;
                let rows = old(self).data()@;
                ||| {
                    &&& 0 <= at < rows.len()
                    &&& call_ensures(f, (&rows[at],), true)
                    &&& forall|j: int| 0 <= j < at ==> call_ensures(f, (&#[trigger] rows[j],), false)
                }
                ||| {
                    &&& at == 0
                    &&& forall|j: int|
                        0 <= j < rows.len() ==> call_ensures(f, (&#[trigger] rows[j],), false)
                }
            }),
    {
        let mut i: usize = 0;
        while i < self.data.len()
            invariant
                i <= self.data.len(),
                *self == *old(self),
                forall|k: int|
                    0 <= k < self.data()@.len() ==> call_requires(
                        f,
                        (&#[trigger] self.data()@[k],),
                    ),
                forall|j: int|
                    0 <= j < i ==> call_ensures(f, (&#[trigger] self.data()@[j],), false),
            decreases self.data.len() - i,
        {
            assert(call_requires(f, (&self.data()@[i as int],)));
            if f(&self.data[i]) {
                self.selected = Some(i);
                self.scroll.position = i;
                return;
            }
            i += 1;
        }
        self.selected = Some(0);
        self.scroll.position = 0;
    }

    /// The row under the cursor, if the cursor stands on a row.
    pub fn current_row(&self) -> (row: Option<Vec<String>>)
        ensures
            match row {
                Some(cells) => self@.current() == Some(row_of(cells)),
                None => self@.current() is None,
            },
    {
        match self.selected {
            None => None,
            Some(i) => if i < self.data.len() {
                Some(clone_row(&self.data[i]))
            } else {
                None
            },
        }
    }

    /// Whether one of the cells of `row` contains `filter`.
    fn passes(row: &Vec<String>, filter: &str) -> (pass: bool)
        ensures
            pass == row_passes(row_of(*row), filter@),
    {
        if filter.is_empty() {
            return true;
        }
        let mut j: usize = 0;
        while j < row.len()
            invariant
                j <= row.len(),
                filter@.len() > 0,
                forall|k: int| 0 <= k < j ==> !is_substring(filter@, #[trigger] row_of(*row)[k]),
            decreases row.len() - j,
        {
            if str_contains(row[j].as_str(), filter) {
                proof {
                    assert(is_substring(filter@, row_of(*row)[j as int]));
                }
                return true;
            }
            j += 1;
        }
        false
    }

    /// Where row `at` stands among the visible rows.
    fn place(visible: &Vec<usize>, at: Option<usize>) -> (place: Option<usize>)
        requires
            forall|i: int, j: int| 0 <= i < j < visible@.len() ==> visible@[i] < visible@[j],
        ensures
            place == place_among(visible@, at),
    {
        match at {
            None => None,
            Some(row) => {
                let mut i: usize = 0;
                while i < visible.len()
                    invariant
                        i <= visible.len(),
                        at == Some(row),
                        forall|k: int| 0 <= k < i ==> visible@[k] != row,
                        forall|a: int, b: int|
                            0 <= a < b < visible@.len() ==> visible@[a] < visible@[b],
                    decreases visible.len() - i,
                {
                    if visible[i] == row {
                        proof {
                            let found = visible@.index_of(row);
                            assert(visible@[i as int] == row);
                            assert(visible@.contains(row));
                            assert(0 <= found < visible@.len() && visible@[found] == row);
                            assert(found == i) by {
                                if found < i {
                                    assert(visible@[found] < visible@[i as int]);
                                } else if i < found {
                                    assert(visible@[i as int] < visible@[found]);
                                }
                            }
                        }
                        return Some(i);
                    }
                    i += 1;
                }
                None
            },
        }
    }

    /// Display width of the widest cell in column `col`.
    fn widest(&self, col: usize) -> (w: u32)
        ensures
            w as nat == capped_width(widest_cell(self@.rows, col as int, self@.rows.len() as int)),
    {
        let mut w: u32 = 0;
        let mut i: usize = 0;
        while i < self.data.len()
            invariant
                i <= self.data.len(),
                w as nat == capped_width(widest_cell(self@.rows, col as int, i as int)),
            decreases self.data.len() - i,
        {
            let row = &self.data[i];
            let here: u32 = if col < row.len() {
                string_width(row[col].as_str())
            } else {
                0
            };
            if here > w {
                w = here;
            }
            i += 1;
        }
        w
    }

    /// Settles the cursor as drawing does and works out what drawing needs:
    /// the column widths, the rows that pass the filter, and the rows drawn
    /// as marked.
    pub fn render(&mut self) -> (frame: TableFrame)
        ensures
            final(self)@ == old(self)@.drawn(),
            final(self).data() == old(self).data(),
            old(self)@.frames(frame),
    {
        let len: usize = self.data.len();
        if len == 0 {
            self.selected = None;
        } else {
            match self.selected {
                None => {},
                Some(i) => {
                    if i >= len {
                        self.selected = Some(len - 1);
                    }
                },
            }
        }
        let mut widths: Vec<ColumnWidth> = Vec::new();
        let mut col: usize = 0;
        while col < self.header.len()
            invariant
                col <= self.header.len(),
                self.data() == old(self).data(),
                self@ == old(self)@.drawn(),
                widths@.len() == col,
                forall|c: int|
                    0 <= c < col ==> #[trigger] widths@[c] == column_width(
                        self@.titles,
                        self@.rows,
                        c,
                    ),
            decreases self.header.len() - col,
        {
            let title: u32 = string_width(self.header[col]);
            let body: u32 = self.widest(col);
            let widest: u32 = if body > title {
                body
            } else {
                title
            };
            let width = if col == self.header.len() - 1 {
                ColumnWidth::Fill
            } else if widest <= 65533 {
                ColumnWidth::Length((widest + 2) as u16)
            } else {
                ColumnWidth::Length(u16::MAX)
            };
            widths.push(width);
            col += 1;
        }
        let has_mark: bool = self.header.len() >= 3 && crate::text::str_eq(self.header[2], "选中");
        let mut visible: Vec<usize> = Vec::new();
        let mut marked: Vec<bool> = Vec::new();
        let mut r: usize = 0;
        while r < len
            invariant
                r <= len,
                len == self@.rows.len(),
                self.data() == old(self).data(),
                self@ == old(self)@.drawn(),
                has_mark == (self@.titles.len() >= 3 && self@.titles[2] == mark_title()),
                visible@ == passing_rows(self@.rows, self@.filter, r as int),
                marked@.len() == r,
                forall|k: int|
                    0 <= k < r ==> #[trigger] marked@[k] == row_marked(
                        self@.titles,
                        self@.rows[k],
                    ),
            decreases len - r,
        {
            let row = &self.data[r];
            if Self::passes(row, self.filter.as_str()) {
                visible.push(r);
            }
            let mark: bool = has_mark && row.len() >= 3 && !row[2].as_str().is_empty();
            marked.push(mark);
            r += 1;
        }
        proof {
            lemma_passing_rows_ascend(self@.rows, self@.filter, len as int);
        }
        let cursor = Self::place(&visible, self.selected);
        TableFrame { widths, visible, marked, cursor }
    }

    /// Sets the filter that decides which rows are drawn.
    pub fn set_filter(&mut self, filter: &str)
        ensures
            final(self)@ == old(self)@.with_filter(filter@),
            final(self).data() == old(self).data(),
    {
        self.filter = String::from_str(filter);
    }
}

} // verus!
