//! Header-aware access to the rows of a decoded spreadsheet sheet.
//!
//! A sheet arrives as a `calamine::Range<DataType>`. The header locator finds
//! the first row in which every column of the sheet's bounding box holds a
//! non-empty text and maps each header text to its column offset. The
//! resulting [`WorkbookData`] answers lookups by row number and column name,
//! and hands out its data rows one by one.

pub mod columns;
pub mod error;
pub mod grid;
pub mod header;
pub mod load;
pub mod rows;
pub mod table;

pub use crate::error::{DataError, LoadError};
pub use crate::load::{SearchStep, SheetSearch};
pub use crate::rows::{RowData, RowsIterator};
pub use crate::table::WorkbookData;
