//! The decoded sheet: calamine's `Range<DataType>`, and the mathematical
//! model of it over which every contract of this crate is stated.

use calamine::{DataType, Range};
use vstd::prelude::*;

verus! {

/// calamine's `Range`, the rectangle of cells of one sheet. Nothing inside
/// it is visible to the verifier: what this crate knows of a range, it knows
/// by `range_start`, `range_end` and `range_text`.
#[verifier::external_type_specification]
#[verifier::external_body]
#[verifier::reject_recursive_types(T)]
pub struct ExRange<T>(Range<T>);

/// calamine's `DataType`, the value of one cell. It is only carried inside
/// a `Range`.
#[verifier::external_type_specification]
#[verifier::external_body]
pub struct ExDataType(DataType);

/// What `Range::start` returns: the top left corner `(row, column)` of the
/// range's bounding box, or `None` for a range without cells.
pub uninterp spec fn range_start(range: Range<DataType>) -> Option<(u32, u32)>;

/// What `Range::end` returns: the bottom right corner `(row, column)` of the
/// range's bounding box, or `None` for a range without cells.
pub uninterp spec fn range_end(range: Range<DataType>) -> Option<(u32, u32)>;

/// The cells that a range holds: for each absolute `(row, column)` position
/// at which `Range::get_value` finds a cell, the text that `DataType`'s
/// `Display` gives for that cell.
pub uninterp spec fn range_text(range: Range<DataType>) -> Map<(int, int), Seq<char>>;

/// What the header locator and the lookups read of a sheet: the corners of
/// its bounding box and the text of each of its cells.
pub struct Grid {
    pub start: Option<(u32, u32)>,
    pub end: Option<(u32, u32)>,
    pub text: Map<(int, int), Seq<char>>,
}

/// The model of a decoded sheet.
pub open spec fn grid_of(range: Range<DataType>) -> Grid {
    Grid { start: range_start(range), end: range_end(range), text: range_text(range) }
}

/// Calls `Range::start`. Its result is a function of the range alone, and
/// is taken as the meaning of `range_start`.
#[verifier::external_body]
pub(crate) fn start_of(range: &Range<DataType>) -> (res: Option<(u32, u32)>)
    ensures
        res == range_start(*range),
{
    range.start()
}

/// Calls `Range::end`. Its result is a function of the range alone, and is
/// taken as the meaning of `range_end`.
#[verifier::external_body]
pub(crate) fn end_of(range: &Range<DataType>) -> (res: Option<(u32, u32)>)
    ensures
        res == range_end(*range),
{
    range.end()
}

/// Calls `Range::get_value` with an absolute position and turns the cell it
/// finds into text with `DataType`'s `Display`. Neither panics, and the
/// result is a function of the range and the position alone: `None` where
/// the range holds no cell at that position, and otherwise the text of that
/// cell. It is taken as the meaning of `range_text`.
#[verifier::external_body]
pub(crate) fn text_at(range: &Range<DataType>, row: u32, col: u32) -> (res: Option<String>)
    ensures
        res is Some <==> range_text(*range).contains_key((row as int, col as int)),
        res matches Some(text) ==> text@ == range_text(*range)[(row as int, col as int)],
{
    range.get_value((row, col)).map(ToString::to_string)
}

/// The bounding box of a sheet, if it has one of at least one row and one
/// column.
pub fn bounding_box(range: &Range<DataType>) -> (res: Option<((u32, u32), (u32, u32))>)
    ensures
        res is Some <==> grid_of(*range).has_box(),
        res matches Some(corners) ==> Some(corners.0) == grid_of(*range).start && Some(corners.1)
            == grid_of(*range).end,
{
    match (start_of(range), end_of(range)) {
        (Some(start), Some(end)) => {
            if start.0 <= end.0 && start.1 <= end.1 {
                Some((start, end))
            } else {
                None
            }
        },
        _ => None,
    }
}

impl Grid {
    /// The sheet has a bounding box of at least one row and one column.
    pub open spec fn has_box(self) -> bool {
        &&& self.start matches Some(start)
        &&& self.end matches Some(end)
        &&& start.0 <= end.0
        &&& start.1 <= end.1
    }

    /// The first row of the bounding box.
    pub open spec fn top(self) -> int {
        (self.start->0).0 as int
    }

    /// The last row of the bounding box.
    pub open spec fn bottom(self) -> int {
        (self.end->0).0 as int
    }

    /// The first column of the bounding box.
    pub open spec fn left(self) -> int {
        (self.start->0).1 as int
    }

    /// The last column of the bounding box.
    pub open spec fn right(self) -> int {
        (self.end->0).1 as int
    }

    /// The number of columns of the bounding box.
    pub open spec fn width(self) -> int {
        self.right() - self.left() + 1
    }

    /// The sheet holds a cell at this position and its text is not empty.
    pub open spec fn populated(self, row: int, col: int) -> bool {
        self.text.contains_key((row, col)) && self.text[(row, col)].len() > 0
    }

    /// How many cells of `row` are populated among the columns from `from`
    /// up to, and without, `to`.
    pub open spec fn populated_count(self, row: int, from: int, to: int) -> nat
        decreases to - from,
    {
        if from >= to {
            0
        } else if self.populated(row, to - 1) {
            self.populated_count(row, from, to - 1) + 1
        } else {
            self.populated_count(row, from, to - 1)
        }
    }

    /// How many cells of `row` are populated within the bounding box.
    pub open spec fn populated_cells(self, row: int) -> nat {
        self.populated_count(row, self.left(), self.right() + 1)
    }

    /// The row has at least as many populated cells as the bounding box has
    /// columns.
    pub open spec fn row_is_full(self, row: int) -> bool {
        self.populated_cells(row) >= self.width()
    }

    /// `row` is the header row: the first full row of the bounding box.
    pub open spec fn is_header_row(self, row: int) -> bool {
        &&& self.has_box()
        &&& self.top() <= row <= self.bottom()
        &&& self.row_is_full(row)
        &&& forall|earlier: int| self.top() <= earlier < row ==> !self.row_is_full(earlier)
    }

    /// The header row of the sheet, if it has one.
    pub open spec fn header_row(self) -> Option<int> {
        if exists|row: int| self.is_header_row(row) {
            Some(choose|row: int| self.is_header_row(row))
        } else {
            None
        }
    }

    /// The texts of `row` in column order, one for each column of the
    /// bounding box.
    pub open spec fn row_texts(self, row: int) -> Seq<Seq<char>> {
        Seq::new(self.width() as nat, |offset: int| self.text[(row, self.left() + offset)])
    }
}

/// A row never has more populated cells than columns, and it has as many
/// exactly when each of its cells is populated.
pub proof fn lemma_count_bounded(grid: Grid, row: int, from: int, to: int)
    requires
        from <= to,
    ensures
        grid.populated_count(row, from, to) <= to - from,
        grid.populated_count(row, from, to) == to - from <==> forall|col: int|
            from <= col < to ==> grid.populated(row, col),
    decreases to - from,
{
    if from < to {
        lemma_count_bounded(grid, row, from, to - 1);
    }
}

/// A row of the bounding box is full exactly when every column of the box
/// is populated in it.
pub proof fn lemma_full_row(grid: Grid, row: int)
    requires
        grid.has_box(),
    ensures
        grid.row_is_full(row) <==> forall|col: int|
            grid.left() <= col <= grid.right() ==> grid.populated(row, col),
{
    lemma_count_bounded(grid, row, grid.left(), grid.right() + 1);
}

/// A sheet has at most one header row.
pub proof fn lemma_header_row_unique(grid: Grid, row: int)
    requires
        grid.is_header_row(row),
    ensures
        grid.header_row() == Some(row),
{
    let chosen = choose|r: int| grid.is_header_row(r);
    assert(grid.is_header_row(chosen));
    if chosen < row {
        assert(!grid.row_is_full(chosen));
    } else if row < chosen {
        assert(!grid.row_is_full(row));
    }
}

} // verus!
