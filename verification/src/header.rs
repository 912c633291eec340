//! The header locator: finds the row of a sheet that names its columns.
//!
//! Title rows and merged cells that precede a table leave most columns of
//! their row blank, so the header is taken to be the first row in which every
//! column of the sheet's bounding box holds a non-empty text.

use crate::columns::texts_of;
use crate::grid::{bounding_box, grid_of, lemma_full_row, lemma_header_row_unique, text_at};
use calamine::{DataType, Range};
use vstd::prelude::*;

verus! {

/// Reads the cells of `row` between two columns, both included, as long as
/// they are populated. The result holds their texts in column order, or is
/// `None` where one of them is blank.
pub fn read_full_row(range: &Range<DataType>, row: u32, first_col: u32, last_col: u32) -> (res:
    Option<Vec<String>>)
    ensures
        res is Some <==> forall|col: int|
            first_col <= col <= last_col ==> grid_of(*range).populated(row as int, col),
        res matches Some(names) ==> {
            &&& first_col <= last_col ==> names.len() == last_col - first_col + 1
            &&& first_col > last_col ==> names.len() == 0
            &&& forall|offset: int|
                0 <= offset < names.len() ==> (#[trigger] names[offset])@ == grid_of(*range).text[(
                    row as int,
                    first_col + offset,
                )]
        },
{
    let mut names: Vec<String> = Vec::new();
    if first_col > last_col {
        return Some(names);
    }
    let mut col: u32 = first_col;
    loop
        invariant
            first_col <= col <= last_col,
            names.len() == col - first_col,
            forall|seen: int| first_col <= seen < col ==> grid_of(*range).populated(row as int, seen),
            forall|offset: int|
                0 <= offset < names.len() ==> (#[trigger] names[offset])@ == grid_of(*range).text[(
                    row as int,
                    first_col + offset,
                )],
        decreases last_col - col,
    {
        match text_at(range, row, col) {
            Some(text) => {
                if text.as_str().is_empty() {
                    assert(!grid_of(*range).populated(row as int, col as int));
                    return None;
                }
                names.push(text);
            },
            None => {
                assert(!grid_of(*range).populated(row as int, col as int));
                return None;
            },
        }
        if col == last_col {
            return Some(names);
        }
        col += 1;
    }
}

/// Finds the header row of a sheet: the first row of its bounding box that
/// is full. The result holds the number of that row and its texts in column
/// order, and is `None` where the sheet has no cells or no full row.
pub fn locate_header(range: &Range<DataType>) -> (res: Option<(u32, Vec<String>)>)
    ensures
        res is Some <==> grid_of(*range).header_row() is Some,
        res matches Some(found) ==> {
            &&& grid_of(*range).header_row() == Some(found.0 as int)
            &&& texts_of(found.1@) == grid_of(*range).row_texts(found.0 as int)
        },
{
    let ghost grid = grid_of(*range);
    let (start, end) = match bounding_box(range) {
        Some(corners) => corners,
        None => {
            return None;
        },
    };
    let mut row: u32 = start.0;
    loop
        invariant
            grid == grid_of(*range),
            grid.has_box(),
            grid.start == Some(start),
            grid.end == Some(end),
            start.0 <= row <= end.0,
            forall|earlier: int| start.0 <= earlier < row ==> !grid.row_is_full(earlier),
        decreases end.0 - row,
    {
        proof {
            lemma_full_row(grid, row as int);
        }
        match read_full_row(range, row, start.1, end.1) {
            Some(names) => {
                proof {
                    lemma_header_row_unique(grid, row as int);
                }
                return Some((row, names));
            },
            None => {},
        }
        if row == end.0 {
            return None;
        }
        row += 1;
    }
}

} // verus!
