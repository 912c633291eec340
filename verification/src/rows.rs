//! Rows of a tabular view: the handle of one row, and the sequence of the
//! handles of all data rows.

use crate::error::DataError;
use crate::table::{row_span, TableView, WorkbookData};
use std::str::FromStr;
use vstd::prelude::*;

verus! {

/// One row of a tabular view. The handle borrows the view and holds the
/// row's number; every lookup goes back to the view.
pub struct RowData<'a> {
    source: &'a WorkbookData,
    row_number: u32,
}

/// The data rows of a tabular view that are still to come, first to last.
/// The row that comes next is counted in 64 bits, so that it can stand one
/// past the last row that a `u32` can number.
pub struct RowsIterator<'a> {
    source: &'a WorkbookData,
    current_row: u64,
    last_row: u32,
    first_col: u32,
    last_col: u32,
}

/// Calls `str::parse`, which reads a text as a `T` in the way that `T`'s
/// `FromStr` defines, and keeps the value where that succeeds. Nothing is
/// claimed of the outcome: it is `T`'s to decide.
#[verifier::external_body]
fn parse_text<T: FromStr>(text: &str) -> (res: Option<T>) {
    match text.parse::<T>() {
        Ok(value) => Some(value),
        Err(_) => None,
    }
}

/// The outcome of reading the text `value`, found under `column_header`, as
/// a `T`: the value that parsing gave, or a parse error that names the
/// column and the text.
pub fn parsed_or_error<T>(column_header: &str, value: String, parsed: Option<T>) -> (res: Result<
    T,
    DataError,
>)
    ensures
        parsed matches Some(v) ==> res == Ok::<T, DataError>(v),
        parsed is None ==> {
            &&& res matches Err(DataError::ParseError { key, value: raw })
            &&& key@ == column_header@
            &&& raw@ == value@
        },
{
    match parsed {
        Some(v) => Ok(v),
        None => Err(DataError::ParseError { key: column_header.to_owned(), value }),
    }
}

impl<'a> RowData<'a> {
    /// The view that this row belongs to.
    pub closed spec fn table(&self) -> TableView {
        self.source@
    }

    /// The number of this row in the sheet.
    pub closed spec fn spec_number(&self) -> u32 {
        self.row_number
    }

    /// The number of this row in the sheet.
    #[verifier::when_used_as_spec(spec_number)]
    pub fn number(&self) -> (n: u32)
        ensures
            n == self.spec_number(),
    {
        self.row_number
    }

    /// The text of this row under the column called `column_header`, or an
    /// error that names the column where the view has no text there.
    pub fn get(&self, column_header: &str) -> (res: Result<String, DataError>)
        ensures
            match self.table().value(self.number() as int, column_header@) {
                Some(text) => res matches Ok(found) && found@ == text,
                None => res matches Err(DataError::NoValue(key)) && key@ == column_header@,
            },
    {
        match self.source.get(self.row_number, column_header) {
            Some(value) => Ok(value),
            None => Err(DataError::NoValue(column_header.to_owned())),
        }
    }

    /// Reads the text of this row under the column called `column_header`
    /// as a `T`. Where the view has no text there, the error names the
    /// column; where the text is no `T`, the error names the column and the
    /// text.
    pub fn parse<T: FromStr>(&self, column_header: &str) -> (res: Result<T, DataError>)
        ensures
            match self.table().value(self.number() as int, column_header@) {
                Some(text) => res is Ok || {
                    &&& res matches Err(DataError::ParseError { key, value })
                    &&& key@ == column_header@
                    &&& value@ == text
                },
                None => res matches Err(DataError::NoValue(key)) && key@ == column_header@,
            },
    {
        let value_str = match self.get(column_header) {
            Ok(value) => value,
            Err(err) => {
                return Err(err);
            },
        };
        let parsed = parse_text::<T>(value_str.as_str());
        parsed_or_error(column_header, value_str, parsed)
    }

    /// Whether this row is blank: under every column name it has no text or
    /// an empty one.
    pub fn is_empty(&self) -> (res: bool)
        ensures
            res == self.table().row_is_blank(self.number() as int),
    {
        self.source.is_row_empty(self.row_number)
    }
}

impl<'a> RowsIterator<'a> {
    /// The view whose rows these are.
    pub closed spec fn table(&self) -> TableView {
        self.source@
    }

    /// The number of the row that comes next; past `last_row` where none is
    /// left.
    pub closed spec fn spec_current_row(&self) -> u64 {
        self.current_row
    }

    /// The number of the last row.
    pub closed spec fn spec_last_row(&self) -> u32 {
        self.last_row
    }

    /// The first column of the sheet.
    pub closed spec fn spec_first_col(&self) -> u32 {
        self.first_col
    }

    /// The last column of the sheet.
    pub closed spec fn spec_last_col(&self) -> u32 {
        self.last_col
    }

    /// The numbers of the rows that are still to come, in the order in which
    /// they come.
    pub open spec fn remaining(&self) -> Seq<u32> {
        row_span(self.current_row() as int, self.last_row() as int)
    }

    /// The number of the row that comes next; past `last_row` where none is
    /// left.
    #[verifier::when_used_as_spec(spec_current_row)]
    pub fn current_row(&self) -> (row: u64)
        ensures
            row == self.spec_current_row(),
    {
        self.current_row
    }

    /// The number of the last row.
    #[verifier::when_used_as_spec(spec_last_row)]
    pub fn last_row(&self) -> (row: u32)
        ensures
            row == self.spec_last_row(),
    {
        self.last_row
    }

    /// The first column of the sheet.
    #[verifier::when_used_as_spec(spec_first_col)]
    pub fn first_col(&self) -> (col: u32)
        ensures
            col == self.spec_first_col(),
    {
        self.first_col
    }

    /// The last column of the sheet.
    #[verifier::when_used_as_spec(spec_last_col)]
    pub fn last_col(&self) -> (col: u32)
        ensures
            col == self.spec_last_col(),
    {
        self.last_col
    }

    /// Hands out the next row, if one is left, and moves on by one row.
    pub fn next(&mut self) -> (res: Option<RowData<'a>>)
        ensures
            final(self).table() == old(self).table(),
            final(self).last_row() == old(self).last_row(),
            final(self).first_col() == old(self).first_col(),
            final(self).last_col() == old(self).last_col(),
            old(self).remaining().len() == 0 ==> {
                &&& res is None
                &&& final(self).current_row() == old(self).current_row()
                &&& final(self).remaining() == old(self).remaining()
            },
            old(self).remaining().len() > 0 ==> {
                &&& res matches Some(row)
                &&& row.number() == old(self).remaining()[0]
                &&& row.table() == old(self).table()
                &&& final(self).current_row() == old(self).current_row() + 1
                &&& final(self).remaining() == old(self).remaining().drop_first()
            },
    {
        if self.current_row > self.last_row as u64 {
            return None;
        }
        let row_number: u32 = self.current_row as u32;
        self.current_row = self.current_row + 1;
        Some(RowData { source: self.source, row_number })
    }
}

impl WorkbookData {
    /// The data rows of the view, from the first to the last. Each call
    /// starts again at the first row.
    pub fn iter_rows<'a>(&'a self) -> (rows: RowsIterator<'a>)
        ensures
            rows.table() == self@,
            rows.current_row() == self@.first_row,
            rows.last_row() == self@.last_row,
            rows.first_col() == self@.first_col,
            rows.last_col() == self@.last_col,
            rows.remaining() == self@.row_numbers(),
    {
        RowsIterator {
            source: self,
            current_row: self.first_row() as u64,
            last_row: self.last_row(),
            first_col: self.first_col(),
            last_col: self.last_col(),
        }
    }
}

} // verus!
