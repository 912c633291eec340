//! Loading: from what decoding a sheet gave to a tabular view or an error.
//!
//! Opening a workbook and decoding a sheet are the caller's part. This
//! module decides what follows from the outcome: for one sheet, for a sheet
//! asked for by name, and for the search through the sheets of a workbook
//! for the first one that has a header.

use crate::columns::texts_of;
use crate::error::LoadError;
use crate::grid::grid_of;
use crate::table::{located, WorkbookData};
use calamine::{DataType, Error, Range};
use vstd::prelude::*;

verus! {

/// The sheet of a decoding outcome, where decoding found one and succeeded.
pub open spec fn decoded(sheet: Option<Result<Range<DataType>, Error>>) -> Option<Range<DataType>> {
    match sheet {
        Some(Ok(range)) => Some(range),
        _ => None,
    }
}

/// Decoding gave a sheet, and that sheet has a tabular view.
pub open spec fn has_table(sheet: Option<Result<Range<DataType>, Error>>) -> bool {
    decoded(sheet) matches Some(range) && located(grid_of(range)) is Some
}

/// `data` is the tabular view of the sheet that decoding gave.
pub open spec fn is_table_of(
    data: WorkbookData,
    sheet: Option<Result<Range<DataType>, Error>>,
) -> bool {
    &&& decoded(sheet) matches Some(range)
    &&& data.wf()
    &&& data.grid() == grid_of(range)
    &&& Some(data@) == located(grid_of(range))
}

/// A sheet that is missing, that failed to decode, or that has no cells, no
/// row or no column, has no tabular view.
pub proof fn lemma_no_cells_no_table(sheet: Option<Result<Range<DataType>, Error>>)
    requires
        decoded(sheet) matches Some(range) ==> !grid_of(range).has_box(),
    ensures
        !has_table(sheet),
{
}

impl WorkbookData {
    /// The tabular view of a sheet, from what decoding it gave. A missing
    /// sheet and a sheet without header give `None`; a failure of the
    /// decoder is handed on.
    pub fn from_sheet(sheet: Option<Result<Range<DataType>, Error>>) -> (res: Option<
        Result<WorkbookData, LoadError>,
    >)
        ensures
            match sheet {
                Some(Err(err)) => res == Some(
                    Err::<WorkbookData, LoadError>(LoadError::CalamineError(err)),
                ),
                _ => if has_table(sheet) {
                    res matches Some(Ok(data)) && is_table_of(data, sheet)
                } else {
                    res is None
                },
            },
    {
        match sheet {
            None => None,
            Some(Err(err)) => Some(Err(LoadError::CalamineError(err))),
            Some(Ok(range)) => match WorkbookData::from_range(range) {
                Some(data) => Some(Ok(data)),
                None => None,
            },
        }
    }

    /// The tabular view of the sheet called `sheet_name` of the workbook
    /// `filename`, from what decoding that sheet gave. A missing sheet and a
    /// sheet without header give an error that names the workbook and the
    /// sheet; a failure of the decoder is handed on.
    pub fn from_named_sheet(
        filename: String,
        sheet_name: &str,
        sheet: Option<Result<Range<DataType>, Error>>,
    ) -> (res: Result<WorkbookData, LoadError>)
        ensures
            match sheet {
                Some(Err(err)) => res == Err::<WorkbookData, LoadError>(
                    LoadError::CalamineError(err),
                ),
                _ => if has_table(sheet) {
                    res matches Ok(data) && is_table_of(data, sheet)
                } else {
                    &&& res matches Err(LoadError::EmptySheet { filename: file, sheet_name: name })
                    &&& file@ == filename@
                    &&& name@ == sheet_name@
                },
            },
    {
        match WorkbookData::from_sheet(sheet) {
            Some(Ok(data)) => Ok(data),
            Some(Err(err)) => Err(err),
            None => Err(LoadError::EmptySheet { filename, sheet_name: sheet_name.to_owned() }),
        }
    }
}

/// The search for the first sheet of a workbook that has a header, waiting
/// for one sheet to be decoded.
pub struct SheetSearch {
    filename: String,
    sheet_names: Vec<String>,
    position: usize,
}

/// Where the search stands.
pub enum SearchStep {
    /// The sheet that `sheet_name` gives is to be decoded, and the outcome
    /// handed to `resume`.
    Pending(SheetSearch),
    /// The search is over.
    Finished(Result<WorkbookData, LoadError>),
}

impl SheetSearch {
    /// The name of the workbook, for the error.
    pub closed spec fn filename(&self) -> Seq<char> {
        self.filename@
    }

    /// The names of the workbook's sheets, in workbook order.
    pub closed spec fn sheet_names(&self) -> Seq<Seq<char>> {
        texts_of(self.sheet_names@)
    }

    /// Which sheet the search waits for.
    pub closed spec fn position(&self) -> int {
        self.position as int
    }

    /// The search waits for one of the workbook's sheets.
    #[verifier::type_invariant]
    pub closed spec fn wf(&self) -> bool {
        self.position < self.sheet_names.len()
    }

    /// Starts the search at the first sheet. A workbook without sheets has
    /// no data.
    pub fn start(filename: String, sheet_names: Vec<String>) -> (res: SearchStep)
        ensures
            sheet_names.len() == 0 ==> {
                &&& res matches SearchStep::Finished(Err(LoadError::Empty { filename: file }))
                &&& file@ == filename@
            },
            sheet_names.len() > 0 ==> {
                &&& res matches SearchStep::Pending(search)
                &&& search.wf()
                &&& search.filename() == filename@
                &&& search.sheet_names() == texts_of(sheet_names@)
                &&& search.position() == 0
            },
            is_started(res, filename@, texts_of(sheet_names@)),
    {
        if sheet_names.len() == 0 {
            SearchStep::Finished(Err(LoadError::Empty { filename }))
        } else {
            SearchStep::Pending(SheetSearch { filename, sheet_names, position: 0 })
        }
    }

    /// The name of the sheet to decode next.
    pub fn sheet_name(&self) -> (name: &str)
        ensures
            0 <= self.position() < self.sheet_names().len(),
            name@ == self.sheet_names()[self.position()],
    {
        proof {
            use_type_invariant(self);
        }
        self.sheet_names[self.position].as_str()
    }

    /// Takes what decoding the awaited sheet gave. A failure of the decoder
    /// ends the search with that failure, and a sheet with a header ends it
    /// with the sheet's tabular view. A missing sheet and a sheet without
    /// header move the search to the next sheet, and after the last sheet
    /// end it with the error that names the workbook.
    pub fn resume(self, sheet: Option<Result<Range<DataType>, Error>>) -> (res: SearchStep)
        ensures
            sheet matches Some(Err(err)) ==> res == SearchStep::Finished(
                Err::<WorkbookData, LoadError>(LoadError::CalamineError(err)),
            ),
            has_table(sheet) ==> {
                &&& res matches SearchStep::Finished(Ok(data))
                &&& is_table_of(data, sheet)
            },
            !ends_search(sheet) && self.position() + 1 < self.sheet_names().len() ==> {
                &&& res matches SearchStep::Pending(search)
                &&& search.wf()
                &&& search.filename() == self.filename()
                &&& search.sheet_names() == self.sheet_names()
                &&& search.position() == self.position() + 1
            },
            !ends_search(sheet) && self.position() + 1 >= self.sheet_names().len() ==> {
                &&& res matches SearchStep::Finished(Err(LoadError::Empty { filename: file }))
                &&& file@ == self.filename()
            },
            is_resumed(res, self, sheet),
    {
        proof {
            use_type_invariant(&self);
        }
        match WorkbookData::from_sheet(sheet) {
            Some(found) => SearchStep::Finished(found),
            None => {
                if self.position + 1 < self.sheet_names.len() {
                    SearchStep::Pending(
                        SheetSearch {
                            filename: self.filename,
                            sheet_names: self.sheet_names,
                            position: self.position + 1,
                        },
                    )
                } else {
                    SearchStep::Finished(Err(LoadError::Empty { filename: self.filename }))
                }
            },
        }
    }
}

/// The outcome ends the search: the decoder failed, or the sheet has a
/// tabular view.
pub open spec fn ends_search(sheet: Option<Result<Range<DataType>, Error>>) -> bool {
    sheet matches Some(Err(_)) || has_table(sheet)
}

/// `res` is what a search ends with on an outcome that ends it: the
/// decoder's failure, or the tabular view of the sheet.
pub open spec fn is_end_of(
    res: Result<WorkbookData, LoadError>,
    sheet: Option<Result<Range<DataType>, Error>>,
) -> bool {
    match sheet {
        Some(Err(err)) => res == Err::<WorkbookData, LoadError>(LoadError::CalamineError(err)),
        _ => res matches Ok(data) && is_table_of(data, sheet),
    }
}

/// `res` is the error of a workbook without data, and names the workbook.
pub open spec fn is_no_data(res: Result<WorkbookData, LoadError>, filename: Seq<char>) -> bool {
    res matches Err(LoadError::Empty { filename: file }) && file@ == filename
}

/// `step` is where a search for the workbook `filename` with the sheets
/// `sheet_names` starts: what `SheetSearch::start` returns.
pub open spec fn is_started(step: SearchStep, filename: Seq<char>, sheet_names: Seq<Seq<char>>) -> bool {
    if sheet_names.len() == 0 {
        step matches SearchStep::Finished(res) && is_no_data(res, filename)
    } else {
        &&& step matches SearchStep::Pending(search)
        &&& search.wf()
        &&& search.filename() == filename
        &&& search.sheet_names() == sheet_names
        &&& search.position() == 0
    }
}

/// `step` is where the search `search` stands after the awaited sheet gave
/// `sheet`: what `SheetSearch::resume` returns.
pub open spec fn is_resumed(
    step: SearchStep,
    search: SheetSearch,
    sheet: Option<Result<Range<DataType>, Error>>,
) -> bool {
    if ends_search(sheet) {
        step matches SearchStep::Finished(res) && is_end_of(res, sheet)
    } else if search.position() + 1 < search.sheet_names().len() {
        &&& step matches SearchStep::Pending(next)
        &&& next.wf()
        &&& next.filename() == search.filename()
        &&& next.sheet_names() == search.sheet_names()
        &&& next.position() == search.position() + 1
    } else {
        step matches SearchStep::Finished(res) && is_no_data(res, search.filename())
    }
}

/// `first` is the first of the outcomes `sheets` that ends a search.
pub open spec fn is_first_end(
    sheets: Seq<Option<Result<Range<DataType>, Error>>>,
    first: int,
) -> bool {
    &&& 0 <= first < sheets.len()
    &&& ends_search(sheets[first])
    &&& forall|earlier: int| 0 <= earlier < first ==> !ends_search(#[trigger] sheets[earlier])
}

/// `res` is what the search through a workbook owes, where `sheets` is what
/// decoding each of its sheets gives, in workbook order: what the first
/// outcome that ends a search ends it with, and the error that names the
/// workbook where no outcome does.
pub open spec fn is_search_result(
    res: Result<WorkbookData, LoadError>,
    filename: Seq<char>,
    sheets: Seq<Option<Result<Range<DataType>, Error>>>,
) -> bool {
    ||| exists|first: int| is_first_end(sheets, first) && is_end_of(res, #[trigger] sheets[first])
    ||| {
        &&& forall|any: int| 0 <= any < sheets.len() ==> !ends_search(#[trigger] sheets[any])
        &&& is_no_data(res, filename)
    }
}

/// `steps` is a run of the search through the workbook `filename`: it
/// starts with the workbook's sheet names, and each step but the last waits
/// for a sheet and is resumed with what decoding that sheet gives.
pub open spec fn is_run(
    steps: Seq<SearchStep>,
    filename: Seq<char>,
    sheet_names: Seq<Seq<char>>,
    sheets: Seq<Option<Result<Range<DataType>, Error>>>,
) -> bool {
    &&& steps.len() >= 1
    &&& is_started(steps[0], filename, sheet_names)
    &&& forall|i: int|
        0 <= i < steps.len() - 1 ==> {
            &&& #[trigger] steps[i] matches SearchStep::Pending(search)
            &&& is_resumed(steps[i + 1], search, sheets[i])
        }
}

/// In a run of the search, each step that waits for a sheet waits for the
/// sheet of its own place in the workbook, and no sheet before it ended the
/// search.
pub proof fn lemma_run_waits_in_order(
    steps: Seq<SearchStep>,
    filename: Seq<char>,
    sheet_names: Seq<Seq<char>>,
    sheets: Seq<Option<Result<Range<DataType>, Error>>>,
    place: int,
)
    requires
        sheets.len() == sheet_names.len(),
        is_run(steps, filename, sheet_names, sheets),
        0 <= place < steps.len(),
        steps[place] is Pending,
    ensures
        ({
            let search = steps[place]->Pending_0;
            &&& search.wf()
            &&& search.filename() == filename
            &&& search.sheet_names() == sheet_names
            &&& search.position() == place
            &&& place < sheets.len()
            &&& forall|earlier: int| 0 <= earlier < place ==> !ends_search(#[trigger] sheets[earlier])
        }),
    decreases place,
{
    if place > 0 {
        assert(steps[place - 1] is Pending);
        lemma_run_waits_in_order(steps, filename, sheet_names, sheets, place - 1);
        let before = steps[place - 1]->Pending_0;
        assert(is_resumed(steps[place], before, sheets[place - 1]));
    }
    let search = steps[place]->Pending_0;
    assert(search.position() < search.sheet_names().len()) by {
        lemma_search_waits_for_a_sheet(search);
    }
}

/// A search waits for one of the workbook's sheets.
pub proof fn lemma_search_waits_for_a_sheet(search: SheetSearch)
    requires
        search.wf(),
    ensures
        0 <= search.position() < search.sheet_names().len(),
{
}

/// A run of the search that has ended has ended with what the search owes:
/// with what the first sheet that failed to decode or has a header gives,
/// whatever the sheets after it hold, and with the error that names the
/// workbook where there is no such sheet.
pub proof fn lemma_search_ends_at_first(
    steps: Seq<SearchStep>,
    filename: Seq<char>,
    sheet_names: Seq<Seq<char>>,
    sheets: Seq<Option<Result<Range<DataType>, Error>>>,
)
    requires
        sheets.len() == sheet_names.len(),
        is_run(steps, filename, sheet_names, sheets),
        steps.last() is Finished,
    ensures
        is_search_result(steps.last()->Finished_0, filename, sheets),
{
    let last = steps.len() - 1;
    let res = steps.last()->Finished_0;
    if last > 0 {
        assert(steps[last - 1] is Pending);
        lemma_run_waits_in_order(steps, filename, sheet_names, sheets, last - 1);
        let search = steps[last - 1]->Pending_0;
        assert(is_resumed(steps[last], search, sheets[last - 1]));
        if ends_search(sheets[last - 1]) {
            assert(is_first_end(sheets, last - 1));
        }
    }
}

/// What a search owes depends on the sheets up to the first that ends it
/// alone: the sheets after that one do not influence the result.
pub proof fn lemma_later_sheets_do_not_matter(
    res: Result<WorkbookData, LoadError>,
    filename: Seq<char>,
    sheets: Seq<Option<Result<Range<DataType>, Error>>>,
    others: Seq<Option<Result<Range<DataType>, Error>>>,
    first: int,
)
    requires
        is_first_end(sheets, first),
        first < others.len(),
        forall|i: int| 0 <= i <= first ==> #[trigger] others[i] == sheets[i],
    ensures
        is_search_result(res, filename, sheets) <==> is_end_of(res, sheets[first]),
        is_search_result(res, filename, sheets) <==> is_search_result(res, filename, others),
{
    assert(is_first_end(others, first));
    lemma_first_end_unique(sheets, first);
    lemma_first_end_unique(others, first);
}

/// Only one outcome is the first to end a search.
pub proof fn lemma_first_end_unique(sheets: Seq<Option<Result<Range<DataType>, Error>>>, first: int)
    requires
        is_first_end(sheets, first),
    ensures
        forall|other: int| is_first_end(sheets, other) ==> other == first,
{
}

} // verus!
