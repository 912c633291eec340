use calamine::{DataType, Error, Range};
use workbook_data::{LoadError, SearchStep, SheetSearch, WorkbookData};

fn table(header: &str, value: &str) -> Range<DataType> {
    let mut range: Range<DataType> = Range::new((0, 0), (1, 0));
    range.set_value((0, 0), DataType::String(header.to_string()));
    range.set_value((1, 0), DataType::String(value.to_string()));
    range
}

fn ragged() -> Range<DataType> {
    let mut range: Range<DataType> = Range::new((0, 0), (1, 1));
    range.set_value((0, 0), DataType::String("only".to_string()));
    range.set_value((1, 1), DataType::String("diagonal".to_string()));
    range
}

fn names(names: &[&str]) -> Vec<String> {
    names.iter().map(|name| name.to_string()).collect()
}

fn pending(step: SearchStep) -> SheetSearch {
    match step {
        SearchStep::Pending(search) => search,
        SearchStep::Finished(_) => panic!("the search ended early"),
    }
}

fn finished(step: SearchStep) -> Result<WorkbookData, LoadError> {
    match step {
        SearchStep::Finished(result) => result,
        SearchStep::Pending(_) => panic!("the search goes on"),
    }
}

#[test]
fn from_sheet_builds_the_view() {
    let data = WorkbookData::from_sheet(Some(Ok(table("Item", "bolt"))))
        .expect("the sheet has a header")
        .expect("decoding succeeded");
    assert_eq!(data.get(1, "Item"), Some("bolt".to_string()));
}

#[test]
fn from_sheet_of_a_missing_sheet_is_none() {
    assert!(WorkbookData::from_sheet(None).is_none());
}

#[test]
fn from_sheet_without_header_is_none() {
    assert!(WorkbookData::from_sheet(Some(Ok(Range::empty()))).is_none());
    assert!(WorkbookData::from_sheet(Some(Ok(ragged()))).is_none());
}

#[test]
fn from_sheet_hands_on_the_decoder_error() {
    match WorkbookData::from_sheet(Some(Err(Error::Msg("broken")))) {
        Some(Err(LoadError::CalamineError(Error::Msg(text)))) => assert_eq!(text, "broken"),
        _ => panic!("the decoder's error is expected"),
    }
}

#[test]
fn from_named_sheet_builds_the_view() {
    let data = WorkbookData::from_named_sheet(
        "book.xlsx".to_string(),
        "Sheet1",
        Some(Ok(table("Item", "bolt"))),
    )
    .expect("the sheet has a header");
    assert_eq!(data.first_row(), 1);
    assert_eq!(data.get(1, "Item"), Some("bolt".to_string()));
}

#[test]
fn from_named_sheet_names_workbook_and_sheet_without_data() {
    for sheet in [None, Some(Ok(Range::empty())), Some(Ok(ragged()))] {
        match WorkbookData::from_named_sheet("book.xlsx".to_string(), "Sheet1", sheet) {
            Err(LoadError::EmptySheet { filename, sheet_name }) => {
                assert_eq!(filename, "book.xlsx");
                assert_eq!(sheet_name, "Sheet1");
            },
            _ => panic!("an empty sheet is expected"),
        }
    }
}

#[test]
fn from_named_sheet_hands_on_the_decoder_error() {
    match WorkbookData::from_named_sheet(
        "book.xlsx".to_string(),
        "Sheet1",
        Some(Err(Error::Msg("broken"))),
    ) {
        Err(LoadError::CalamineError(Error::Msg(text))) => assert_eq!(text, "broken"),
        _ => panic!("the decoder's error is expected"),
    }
}

#[test]
fn search_returns_the_second_sheet_when_the_first_has_no_header() {
    let search = pending(SheetSearch::start("book.xlsx".to_string(), names(&["Sheet1", "Sheet2"])));
    assert_eq!(search.sheet_name(), "Sheet1");
    let search = pending(search.resume(Some(Ok(ragged()))));
    assert_eq!(search.sheet_name(), "Sheet2");
    let data = finished(search.resume(Some(Ok(table("Item", "second"))))).expect("Sheet2 has a header");
    assert_eq!(data.get(1, "Item"), Some("second".to_string()));
}

#[test]
fn search_stops_at_the_first_sheet_with_a_header() {
    let search = pending(SheetSearch::start("book.xlsx".to_string(), names(&["Sheet1", "Sheet2"])));
    let data = finished(search.resume(Some(Ok(table("Item", "first"))))).expect("Sheet1 has a header");
    assert_eq!(data.get(1, "Item"), Some("first".to_string()));
}

#[test]
fn search_passes_over_missing_sheets_and_sheets_without_header() {
    let search = pending(SheetSearch::start("book.xlsx".to_string(), names(&["a", "b", "c", "d"])));
    let search = pending(search.resume(None));
    assert_eq!(search.sheet_name(), "b");
    let search = pending(search.resume(Some(Ok(ragged()))));
    assert_eq!(search.sheet_name(), "c");
    let search = pending(search.resume(Some(Ok(Range::empty()))));
    assert_eq!(search.sheet_name(), "d");
    let data = finished(search.resume(Some(Ok(table("Item", "fourth"))))).expect("d has a header");
    assert_eq!(data.get(1, "Item"), Some("fourth".to_string()));
}

#[test]
fn search_without_any_header_names_the_workbook() {
    let search = pending(SheetSearch::start("book.xlsx".to_string(), names(&["Sheet1", "Sheet2"])));
    let search = pending(search.resume(Some(Ok(ragged()))));
    match finished(search.resume(None)) {
        Err(LoadError::Empty { filename }) => assert_eq!(filename, "book.xlsx"),
        _ => panic!("an empty workbook is expected"),
    }
}

#[test]
fn search_hands_on_the_decoder_error_of_the_only_sheet() {
    let search = pending(SheetSearch::start("book.xlsx".to_string(), names(&["Sheet1"])));
    match finished(search.resume(Some(Err(Error::Msg("broken"))))) {
        Err(LoadError::CalamineError(Error::Msg(text))) => assert_eq!(text, "broken"),
        _ => panic!("the decoder's error is expected"),
    }
}

#[test]
fn search_ends_with_the_decoder_error_before_later_sheets() {
    let search = pending(SheetSearch::start("book.xlsx".to_string(), names(&["a", "b", "c"])));
    let search = pending(search.resume(Some(Ok(ragged()))));
    assert_eq!(search.sheet_name(), "b");
    match finished(search.resume(Some(Err(Error::Msg("broken"))))) {
        Err(LoadError::CalamineError(Error::Msg(text))) => assert_eq!(text, "broken"),
        _ => panic!("the decoder's error is expected"),
    }
}

#[test]
fn search_ends_with_the_decoder_error_of_the_last_sheet() {
    let search = pending(SheetSearch::start("book.xlsx".to_string(), names(&["a", "b"])));
    let search = pending(search.resume(None));
    match finished(search.resume(Some(Err(Error::Msg("late"))))) {
        Err(LoadError::CalamineError(Error::Msg(text))) => assert_eq!(text, "late"),
        _ => panic!("the decoder's error is expected"),
    }
}

#[test]
fn search_in_a_workbook_without_sheets_names_the_workbook() {
    match finished(SheetSearch::start("none.ods".to_string(), Vec::new())) {
        Err(LoadError::Empty { filename }) => assert_eq!(filename, "none.ods"),
        _ => panic!("an empty workbook is expected"),
    }
}

#[test]
fn load_error_from_a_decoder_error() {
    match LoadError::from(Error::Msg("broken")) {
        LoadError::CalamineError(Error::Msg(text)) => assert_eq!(text, "broken"),
        _ => panic!("the decoder's error is expected"),
    }
}
