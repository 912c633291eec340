use calamine::{DataType, Range};
use workbook_data::columns::index_columns;
use workbook_data::grid::bounding_box;
use workbook_data::header::{locate_header, read_full_row};
use workbook_data::WorkbookData;

fn cell(value: &str) -> DataType {
    DataType::String(value.to_string())
}

fn sheet(start: (u32, u32), rows: &[&[&str]]) -> Range<DataType> {
    let height = rows.len() as u32;
    let width = rows[0].len() as u32;
    let mut range = Range::new(start, (start.0 + height - 1, start.1 + width - 1));
    for (r, row) in rows.iter().enumerate() {
        for (c, value) in row.iter().enumerate() {
            if !value.is_empty() {
                range.set_value((start.0 + r as u32, start.1 + c as u32), cell(value));
            }
        }
    }
    range
}

#[test]
fn header_in_first_row_is_selected() {
    let range = sheet((0, 0), &[&["Name", "Qty"], &["bolt", "42"], &["nut", "7"]]);
    let data = WorkbookData::from_range(range).expect("the first row is a header");
    assert_eq!(data.first_row(), 1);
    assert_eq!(data.last_row(), 2);
    assert_eq!(data.first_col(), 0);
    assert_eq!(data.last_col(), 1);
    assert_eq!(data.get(1, "Name"), Some("bolt".to_string()));
    assert_eq!(data.get(2, "Qty"), Some("7".to_string()));
}

#[test]
fn header_in_first_row_of_a_shifted_sheet() {
    let range = sheet((3, 2), &[&["Name", "Qty"], &["bolt", "42"], &["nut", "7"]]);
    let data = WorkbookData::from_range(range).expect("the first row is a header");
    assert_eq!(data.first_row(), 4);
    assert_eq!(data.last_row(), 5);
    assert_eq!(data.first_col(), 2);
    assert_eq!(data.last_col(), 3);
    assert_eq!(data.get(4, "Name"), Some("bolt".to_string()));
    assert_eq!(data.get(4, "Qty"), Some("42".to_string()));
    assert_eq!(data.get(5, "Name"), Some("nut".to_string()));
    assert_eq!(data.get(5, "Qty"), Some("7".to_string()));
}

#[test]
fn leading_title_rows_are_skipped() {
    let range = sheet(
        (0, 0),
        &[
            &["Stock list", "", ""],
            &["", "as of", "May"],
            &["Name", "Qty", "Unit"],
            &["bolt", "42", "pc"],
        ],
    );
    let data = WorkbookData::from_range(range).expect("the third row is a header");
    assert_eq!(data.first_row(), 3);
    assert_eq!(data.last_row(), 3);
    assert_eq!(data.get(3, "Unit"), Some("pc".to_string()));
    assert_eq!(data.get(3, "Stock list"), None);
}

#[test]
fn first_full_row_wins_over_later_full_rows() {
    let range = sheet((0, 0), &[&["a", ""], &["b", "c"], &["d", "e"]]);
    let data = WorkbookData::from_range(range).expect("the second row is a header");
    assert_eq!(data.first_row(), 2);
    assert_eq!(data.get(2, "b"), Some("d".to_string()));
    assert_eq!(data.get(2, "c"), Some("e".to_string()));
    assert_eq!(data.get(2, "d"), None);
}

#[test]
fn header_in_last_row_leaves_no_data_rows() {
    let range = sheet((0, 0), &[&["title", ""], &["Name", "Qty"]]);
    let data = WorkbookData::from_range(range).expect("the last row is a header");
    assert_eq!(data.first_row(), 2);
    assert_eq!(data.last_row(), 1);
    assert_eq!(data.get(1, "Name"), None);
    assert_eq!(data.get(2, "Name"), None);
    assert!(data.iter_rows().next().is_none());
}

#[test]
fn sheet_without_cells_has_no_view() {
    assert!(WorkbookData::from_range(Range::empty()).is_none());
    assert!(WorkbookData::from_range(Range::default()).is_none());
    assert!(locate_header(&Range::empty()).is_none());
    assert_eq!(bounding_box(&Range::empty()), None);
}

#[test]
fn sheet_without_full_row_has_no_view() {
    let range = sheet((0, 0), &[&["a", "", "c"], &["", "b", ""], &["x", "y", ""]]);
    assert!(locate_header(&range).is_none());
    assert!(WorkbookData::from_range(range).is_none());
}

#[test]
fn header_in_the_last_row_a_number_can_name_has_no_view() {
    let mut range: Range<DataType> = Range::new((u32::MAX, 0), (u32::MAX, 0));
    range.set_value((u32::MAX, 0), cell("Name"));
    let found = locate_header(&range).expect("the only row is full");
    assert_eq!(found.0, u32::MAX);
    assert!(WorkbookData::from_range(range).is_none());
}

#[test]
fn bounding_box_gives_both_corners() {
    let range = sheet((3, 2), &[&["a", "b", "c"], &["d", "e", "f"]]);
    assert_eq!(bounding_box(&range), Some(((3, 2), (4, 4))));
}

#[test]
fn locate_header_gives_row_and_names() {
    let range = sheet((5, 1), &[&["", "x"], &["Name", "Qty"], &["bolt", "42"]]);
    let (row, names) = locate_header(&range).expect("the second row is a header");
    assert_eq!(row, 6);
    assert_eq!(names, vec!["Name".to_string(), "Qty".to_string()]);
}

#[test]
fn read_full_row_stops_at_a_blank_cell() {
    let range = sheet((0, 0), &[&["a", "", "c"], &["d", "e", "f"]]);
    assert_eq!(read_full_row(&range, 0, 0, 2), None);
    assert_eq!(read_full_row(&range, 0, 0, 0), Some(vec!["a".to_string()]));
    assert_eq!(
        read_full_row(&range, 1, 0, 2),
        Some(vec!["d".to_string(), "e".to_string(), "f".to_string()])
    );
    assert_eq!(read_full_row(&range, 1, 1, 2), Some(vec!["e".to_string(), "f".to_string()]));
    assert_eq!(read_full_row(&range, 2, 0, 2), None);
    assert_eq!(read_full_row(&range, 1, 2, 3), None);
    assert_eq!(read_full_row(&range, 1, 2, 1), Some(Vec::new()));
}

#[test]
fn header_cells_of_every_kind_count_by_their_text() {
    let mut range: Range<DataType> = Range::new((0, 0), (1, 4));
    range.set_value((0, 0), DataType::Int(2024));
    range.set_value((0, 1), DataType::Float(1.5));
    range.set_value((0, 2), DataType::Bool(true));
    range.set_value((0, 3), cell("Name"));
    range.set_value((0, 4), DataType::DateTime(44000.0));
    range.set_value((1, 0), cell("a"));
    range.set_value((1, 1), cell("b"));
    range.set_value((1, 2), cell("c"));
    range.set_value((1, 3), cell("d"));
    range.set_value((1, 4), cell("e"));
    let data = WorkbookData::from_range(range).expect("the first row is a header");
    assert_eq!(data.first_row(), 1);
    assert_eq!(data.get(1, "2024"), Some("a".to_string()));
    assert_eq!(data.get(1, "1.5"), Some("b".to_string()));
    assert_eq!(data.get(1, "true"), Some("c".to_string()));
    assert_eq!(data.get(1, "Name"), Some("d".to_string()));
    assert_eq!(data.get(1, "44000"), Some("e".to_string()));
}

#[test]
fn empty_string_cell_is_not_populated() {
    let mut range: Range<DataType> = Range::new((0, 0), (1, 1));
    range.set_value((0, 0), cell("Name"));
    range.set_value((0, 1), cell(""));
    range.set_value((1, 0), cell("Name"));
    range.set_value((1, 1), cell("Qty"));
    let data = WorkbookData::from_range(range).expect("the second row is a header");
    assert_eq!(data.first_row(), 2);
    assert_eq!(data.last_row(), 1);
}

#[test]
fn duplicate_header_names_later_column_wins() {
    let range = sheet((0, 0), &[&["A", "B", "A"], &["first", "middle", "last"]]);
    let data = WorkbookData::from_range(range).expect("the first row is a header");
    assert_eq!(data.get(1, "A"), Some("last".to_string()));
    assert_eq!(data.get(1, "B"), Some("middle".to_string()));
}

#[test]
fn column_index_maps_a_name_to_its_last_offset() {
    let names = vec!["A".to_string(), "B".to_string(), "A".to_string()];
    let index = index_columns(&names);
    assert_eq!(index.get("A"), Some(&2));
    assert_eq!(index.get("B"), Some(&1));
    assert_eq!(index.get("C"), None);
    assert_eq!(index.len(), 2);
}

#[test]
fn column_index_of_no_names_is_empty() {
    let index = index_columns(&Vec::new());
    assert_eq!(index.len(), 0);
    assert_eq!(index.get(""), None);
}
