//! The errors of loading a sheet and of reading a row.

use calamine::Error;
use vstd::prelude::*;
use vstd::std_specs::convert::FromSpecImpl;

verus! {

/// calamine's `Error`, the failure of opening a workbook or decoding a
/// sheet. It is carried through unread.
#[verifier::external_type_specification]
#[verifier::external_body]
pub struct ExError(Error);

/// Why no tabular view could be loaded.
#[derive(Debug)]
pub enum LoadError {
    /// No sheet of the workbook has a header row.
    Empty { filename: String },
    /// The sheet that was asked for is missing or has no header row.
    EmptySheet { filename: String, sheet_name: String },
    /// The decoder failed.
    CalamineError(Error),
}

impl From<Error> for LoadError {
    fn from(err: Error) -> (res: LoadError) {
        LoadError::CalamineError(err)
    }
}

impl FromSpecImpl<Error> for LoadError {
    open spec fn obeys_from_spec() -> bool {
        true
    }

    open spec fn from_spec(err: Error) -> LoadError {
        LoadError::CalamineError(err)
    }
}

/// Why a row gave no value for a column.
#[derive(Debug, PartialEq, Eq)]
pub enum DataError {
    /// The text under column `key` could not be read as the type asked for.
    ParseError { key: String, value: String },
    /// The row has no cell under this column, or no column has this name.
    NoValue(String),
}

} // verus!
