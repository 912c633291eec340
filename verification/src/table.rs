//! The tabular view: a sheet together with its located header, which answers
//! lookups by row number and column name.

use crate::columns::{column_index, index_columns, lemma_column_index_entries, texts_of};
use crate::grid::{
    bounding_box, grid_of, lemma_full_row, lemma_header_row_unique, text_at, Grid,
};
use crate::header::locate_header;
use calamine::{DataType, Range};
use vstd::hash_map::StringHashMap;
use vstd::prelude::*;

verus! {

/// The mathematical model of a tabular view.
pub struct TableView {
    /// From each column name to the offset of its column in the header row.
    pub columns: Map<Seq<char>, u32>,
    /// The text of each cell of the sheet, keyed by `(row, column)`.
    pub cells: Map<(int, int), Seq<char>>,
    /// The first data row: the row after the header row.
    pub first_row: u32,
    /// The last data row: the last row of the sheet.
    pub last_row: u32,
    /// The first column of the sheet.
    pub first_col: u32,
    /// The last column of the sheet.
    pub last_col: u32,
}

impl TableView {
    /// The text found in `row` under the column called `name`: `None` where
    /// `row` is no data row, where no column has that name, and where the
    /// sheet holds no cell there.
    pub open spec fn value(self, row: int, name: Seq<char>) -> Option<Seq<char>> {
        if self.first_row <= row <= self.last_row && self.columns.contains_key(name)
            && self.cells.contains_key((row, self.first_col + self.columns[name])) {
            Some(self.cells[(row, self.first_col + self.columns[name])])
        } else {
            None
        }
    }

    /// Under every column name, `row` has no text or an empty one.
    pub open spec fn row_is_blank(self, row: int) -> bool {
        forall|name: Seq<char>| #[trigger]
            self.columns.contains_key(name) ==> match self.value(row, name) {
                Some(text) => text.len() == 0,
                None => true,
            }
    }

    /// The numbers of the data rows, in ascending order.
    pub open spec fn row_numbers(self) -> Seq<u32> {
        row_span(self.first_row as int, self.last_row as int)
    }
}

/// The row numbers from `first` to `last`, both included, in ascending order.
pub open spec fn row_span(first: int, last: int) -> Seq<u32> {
    if first <= last {
        Seq::new((last - first + 1) as nat, |i: int| (first + i) as u32)
    } else {
        Seq::empty()
    }
}

/// The tabular view of a sheet. A sheet has one exactly when it has a header
/// row that is not the last row a `u32` can number: the data rows start
/// after the header row and end with the sheet, and the columns are those of
/// the sheet's bounding box.
pub open spec fn located(grid: Grid) -> Option<TableView> {
    match grid.header_row() {
        Some(row) => if row < u32::MAX {
            Some(
                TableView {
                    columns: column_index(grid.row_texts(row)),
                    cells: grid.text,
                    first_row: (row + 1) as u32,
                    last_row: grid.bottom() as u32,
                    first_col: grid.left() as u32,
                    last_col: grid.right() as u32,
                },
            )
        } else {
            None
        },
        None => None,
    }
}

/// Where every column of the bounding box is populated in the first row of
/// the sheet, that row is the header row, and the data rows start with the
/// row after it.
pub proof fn lemma_full_first_row_is_header(grid: Grid)
    requires
        grid.has_box(),
        forall|col: int| grid.left() <= col <= grid.right() ==> grid.populated(grid.top(), col),
        grid.top() < u32::MAX,
    ensures
        grid.header_row() == Some(grid.top()),
        located(grid) matches Some(view) && view.first_row == grid.top() + 1,
{
    lemma_leading_rows_are_skipped(grid, 0, grid.top());
}

/// Where the first `skipped` rows of the sheet each have fewer populated
/// cells than the bounding box has columns, and every column is populated in
/// the row `header` that follows them, that row is the header row: the
/// locator skips exactly the rows before it.
pub proof fn lemma_leading_rows_are_skipped(grid: Grid, skipped: nat, header: int)
    requires
        grid.has_box(),
        header == grid.top() + skipped,
        header <= grid.bottom(),
        forall|row: int| grid.top() <= row < header ==> grid.populated_cells(row) < grid.width(),
        forall|col: int| grid.left() <= col <= grid.right() ==> grid.populated(header, col),
        header < u32::MAX,
    ensures
        grid.header_row() == Some(header),
        located(grid) matches Some(view) && view.first_row == header + 1,
{
    lemma_full_row(grid, header);
    lemma_header_row_unique(grid, header);
}

/// A sheet without cells, and one whose bounding box has no row or no
/// column, has no header row and no tabular view.
pub proof fn lemma_no_box_no_table(grid: Grid)
    requires
        !grid.has_box(),
    ensures
        grid.header_row() is None,
        located(grid) is None,
{
}

/// A sheet in which every row has fewer populated cells than the bounding
/// box has columns has no header row and no tabular view.
pub proof fn lemma_no_full_row_no_table(grid: Grid)
    requires
        forall|row: int|
            grid.top() <= row <= grid.bottom() ==> grid.populated_cells(row) < grid.width(),
    ensures
        grid.header_row() is None,
        located(grid) is None,
{
}

/// The tabular view of a sheet has the sheet's cells, starts after the
/// header row, ends with the sheet, and has one column name for each
/// distinct text of the header row, none of them empty.
pub proof fn lemma_located_view(grid: Grid)
    requires
        located(grid) is Some,
    ensures
        ({
            let view = located(grid)->0;
            &&& grid.has_box()
            &&& grid.header_row() == Some(view.first_row - 1)
            &&& grid.top() < view.first_row <= view.last_row + 1
            &&& view.last_row == grid.bottom()
            &&& view.first_col == grid.left()
            &&& view.last_col == grid.right()
            &&& view.cells == grid.text
            &&& forall|name: Seq<char>| #[trigger]
                view.columns.contains_key(name) ==> {
                    &&& name.len() > 0
                    &&& 0 <= view.columns[name] <= view.last_col - view.first_col
                    &&& grid.text[(view.first_row - 1, view.first_col + view.columns[name])]
                        == name
                }
        }),
{
    let row = grid.header_row()->0;
    lemma_full_row(grid, row);
    let view = located(grid)->0;
    assert forall|name: Seq<char>| #[trigger] view.columns.contains_key(name) implies {
        &&& name.len() > 0
        &&& 0 <= view.columns[name] <= view.last_col - view.first_col
        &&& grid.text[(view.first_row - 1, view.first_col + view.columns[name])] == name
    } by {
        lemma_column_index_entries(grid.row_texts(row), name);
        assert(grid.populated(row, grid.left() + view.columns[name]));
    }
}

/// A sheet with its header located: the rows after the header row,
/// addressable by row number and column name. Beside the column index it
/// keeps the names of the header row in column order.
pub struct WorkbookData {
    header: StringHashMap<u32>,
    names: Vec<String>,
    range: Range<DataType>,
    first_row: u32,
    last_row: u32,
    first_col: u32,
    last_col: u32,
}

impl View for WorkbookData {
    type V = TableView;

    closed spec fn view(&self) -> TableView {
        TableView {
            columns: self.header@,
            cells: grid_of(self.range).text,
            first_row: self.first_row,
            last_row: self.last_row,
            first_col: self.first_col,
            last_col: self.last_col,
        }
    }
}

impl WorkbookData {
    /// The sheet that this view was made of.
    pub closed spec fn grid(&self) -> Grid {
        grid_of(self.range)
    }

    /// A view is the tabular view of its own sheet, and keeps the names of
    /// the header row in column order.
    #[verifier::type_invariant]
    pub closed spec fn wf(&self) -> bool {
        &&& located(self.grid()) == Some(self@)
        &&& self.first_row >= 1
        &&& texts_of(self.names@) == self.grid().row_texts(self.first_row - 1)
    }

    /// What the invariant of a view says: the view is the tabular view of
    /// its own sheet.
    pub proof fn lemma_view_is_located(self)
        requires
            self.wf(),
        ensures
            located(self.grid()) == Some(self@),
    {
    }

    /// Locates the header of a sheet and builds the tabular view of it.
    pub fn from_range(range: Range<DataType>) -> (res: Option<WorkbookData>)
        ensures
            res is Some <==> located(grid_of(range)) is Some,
            res matches Some(data) ==> {
                &&& data.wf()
                &&& data.grid() == grid_of(range)
                &&& Some(data@) == located(grid_of(range))
            },
    {
        let (header_row, names) = match locate_header(&range) {
            Some(found) => found,
            None => {
                return None;
            },
        };
        let (start, end) = match bounding_box(&range) {
            Some(corners) => corners,
            None => {
                return None;
            },
        };
        if header_row == u32::MAX {
            return None;
        }
        assert(texts_of(names@).len() == names.len());
        let header = index_columns(&names);
        Some(
            WorkbookData {
                header,
                names,
                range,
                first_row: header_row + 1,
                last_row: end.0,
                first_col: start.1,
                last_col: end.1,
            },
        )
    }

    /// The first data row.
    pub fn first_row(&self) -> (row: u32)
        ensures
            row == self@.first_row,
    {
        self.first_row
    }

    /// The last data row.
    pub fn last_row(&self) -> (row: u32)
        ensures
            row == self@.last_row,
    {
        self.last_row
    }

    /// The first column of the sheet.
    pub fn first_col(&self) -> (col: u32)
        ensures
            col == self@.first_col,
    {
        self.first_col
    }

    /// The last column of the sheet.
    pub fn last_col(&self) -> (col: u32)
        ensures
            col == self@.last_col,
    {
        self.last_col
    }

    /// The text of the cell in row `row_number` under the column called
    /// `column_header`.
    pub fn get(&self, row_number: u32, column_header: &str) -> (res: Option<String>)
        ensures
            res is Some <==> self@.value(row_number as int, column_header@) is Some,
            res matches Some(text) ==> Some(text@) == self@.value(
                row_number as int,
                column_header@,
            ),
            row_number < self@.first_row ==> res is None,
            row_number > self@.last_row ==> res is None,
            !self@.columns.contains_key(column_header@) ==> res is None,
    {
        if row_number < self.first_row || row_number > self.last_row {
            return None;
        }
        let offset: u32 = match self.header.get(column_header) {
            Some(offset) => *offset,
            None => {
                return None;
            },
        };
        proof {
            use_type_invariant(self);
            lemma_column_index_entries(
                self.grid().row_texts(self.first_row - 1),
                column_header@,
            );
        }
        text_at(&self.range, row_number, self.first_col + offset)
    }

    /// Whether the row is blank: under every column name it has no text or
    /// an empty one.
    pub fn is_row_empty(&self, row_number: u32) -> (res: bool)
        ensures
            res == self@.row_is_blank(row_number as int),
    {
        proof {
            use_type_invariant(self);
        }
        let mut offset: usize = 0;
        while offset < self.names.len()
            invariant
                offset <= self.names.len(),
                forall|seen: int|
                    0 <= seen < offset ==> match self@.value(
                        row_number as int,
                        #[trigger] texts_of(self.names@)[seen],
                    ) {
                        Some(text) => text.len() == 0,
                        None => true,
                    },
            decreases self.names.len() - offset,
        {
            match self.get(row_number, self.names[offset].as_str()) {
                Some(text) => {
                    if !text.as_str().is_empty() {
                        return false;
                    }
                },
                None => {},
            }
            offset += 1;
        }
        proof {
            let texts = texts_of(self.names@);
            assert forall|name: Seq<char>| #[trigger]
                self@.columns.contains_key(name) implies match self@.value(
                row_number as int,
                name,
            ) {
                Some(text) => text.len() == 0,
                None => true,
            } by {
                lemma_column_index_entries(texts, name);
            }
        }
        true
    }
}

} // verus!
