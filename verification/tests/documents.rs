use indexmap::IndexMap;
use rust_xlsxwriter::{Workbook, Worksheet, XlsxError};
use rustpy_xlsxwriter::sink::{finish_document, BookSink, NumberWriter, SheetSink};
use rustpy_xlsxwriter::worksheet::fill_sheet;
use rustpy_xlsxwriter::{
    write_worksheet, write_worksheet_content, write_worksheets, DateTimeParts, DynamicValue,
    FreezePaneConfig, WorksheetData, WorksheetRow, WriteError,
};
use std::io::{Cursor, Read};

struct Doubles;

impl NumberWriter for Doubles {
    fn write_number(&mut self, sheet: &mut Worksheet, row: u32, col: u16, bits: u64) -> bool {
        sheet.write_number(row, col, f64::from_bits(bits)).is_ok()
    }
}

fn part(bytes: &[u8], name: &str) -> String {
    let mut archive = zip::ZipArchive::new(Cursor::new(bytes)).unwrap();
    let mut part = archive.by_name(name).unwrap();
    let mut text = String::new();
    part.read_to_string(&mut text).unwrap();
    text
}

fn rows_of(xml: &str) -> &str {
    match (xml.find("<sheetData>"), xml.find("</sheetData>")) {
        (Some(start), Some(end)) => &xml[start + "<sheetData>".len()..end],
        _ => "",
    }
}

fn row(entries: Vec<(&str, Option<DynamicValue>)>) -> WorksheetRow {
    let mut hash = IndexMap::new();
    for (key, value) in entries {
        hash.insert(key.to_string(), value);
    }
    WorksheetRow { hash }
}

fn whole(number: i64) -> Option<DynamicValue> {
    Some(DynamicValue::from_integer(number))
}

fn words(content: &str) -> Option<DynamicValue> {
    Some(DynamicValue::from_text(content.to_string()))
}

fn truth(value: bool) -> Option<DynamicValue> {
    Some(DynamicValue::from_boolean(value))
}

fn people() -> WorksheetData {
    WorksheetData {
        records: vec![
            row(vec![("id", whole(1)), ("name", words("Ann")), ("active", truth(true))]),
            row(vec![("id", whole(2)), ("name", words("Bo")), ("active", truth(false))]),
        ],
    }
}

fn one_sheet(records: WorksheetData) -> String {
    let bytes = write_worksheet(records, None, None, None, None, &mut Doubles).unwrap().into_bytes();
    part(&bytes, "xl/worksheets/sheet1.xml")
}

fn freeze_config(sections: Vec<(&str, Vec<(&str, usize)>)>) -> FreezePaneConfig {
    let mut config = IndexMap::new();
    for (name, settings) in sections {
        let mut section = IndexMap::new();
        for (axis, value) in settings {
            section.insert(axis.to_string(), value);
        }
        config.insert(name.to_string(), section);
    }
    FreezePaneConfig { config }
}

const HEADER_ROW: &str = "<row r=\"1\"><c r=\"A1\" t=\"inlineStr\"><is><t>id</t></is></c>\
<c r=\"B1\" t=\"inlineStr\"><is><t>name</t></is></c>\
<c r=\"C1\" t=\"inlineStr\"><is><t>active</t></is></c></row>";

#[test]
fn two_records_give_a_header_row_and_two_typed_rows() {
    let xml = one_sheet(people());
    let expected = format!(
        "{}{}{}",
        HEADER_ROW,
        "<row r=\"2\"><c r=\"A2\"><v>1</v></c><c r=\"B2\" t=\"inlineStr\"><is><t>Ann</t></is></c>\
<c r=\"C2\" t=\"b\"><v>1</v></c></row>",
        "<row r=\"3\"><c r=\"A3\"><v>2</v></c><c r=\"B3\" t=\"inlineStr\"><is><t>Bo</t></is></c>\
<c r=\"C3\" t=\"b\"><v>0</v></c></row>",
    );
    assert_eq!(rows_of(&xml), expected);
}

#[test]
fn batch_with_an_invalid_name_gives_no_document() {
    let sheets = vec![
        ("First".to_string(), people()),
        ("B/ad".to_string(), people()),
        ("Third".to_string(), people()),
    ];
    let outcome = write_worksheets(sheets, None, None, &mut Doubles);
    assert_eq!(outcome.err(), Some(WriteError::Validation("B/ad".to_string())));
}

#[test]
fn batch_reports_its_first_invalid_name() {
    let sheets = vec![
        ("ok".to_string(), people()),
        ("que?".to_string(), people()),
        ("sl/ash".to_string(), people()),
    ];
    let outcome = write_worksheets(sheets, None, None, &mut Doubles);
    assert_eq!(outcome.err(), Some(WriteError::Validation("que?".to_string())));
}

#[test]
fn invalid_name_comes_before_a_freeze_off_the_grid() {
    let config = freeze_config(vec![("general", vec![("row", 2_000_000)])]);
    let sheets = vec![("fine".to_string(), people()), ("a:b".to_string(), people())];
    let outcome = write_worksheets(sheets, None, Some(config), &mut Doubles);
    assert_eq!(outcome.err(), Some(WriteError::Validation("a:b".to_string())));
}

#[test]
fn single_sheet_with_an_invalid_name_gives_no_document() {
    let outcome = write_worksheet(people(), Some("A[1]".to_string()), None, None, None, &mut Doubles);
    assert_eq!(outcome.err(), Some(WriteError::Validation("A[1]".to_string())));
    let long = "n".repeat(32);
    let outcome = write_worksheet(people(), Some(long.clone()), None, Some(3_000_000), None, &mut Doubles);
    assert_eq!(outcome.err(), Some(WriteError::Validation(long)));
}

#[test]
fn value_without_conversions_leaves_only_its_cell_empty() {
    let records = WorksheetData {
        records: vec![
            row(vec![("id", whole(1)), ("name", Some(DynamicValue::unconvertible())), ("active", truth(true))]),
            row(vec![("id", whole(2)), ("name", words("Bo")), ("active", truth(false))]),
        ],
    };
    let xml = one_sheet(records);
    let expected = format!(
        "{}{}{}",
        HEADER_ROW,
        "<row r=\"2\"><c r=\"A2\"><v>1</v></c><c r=\"C2\" t=\"b\"><v>1</v></c></row>",
        "<row r=\"3\"><c r=\"A3\"><v>2</v></c><c r=\"B3\" t=\"inlineStr\"><is><t>Bo</t></is></c>\
<c r=\"C3\" t=\"b\"><v>0</v></c></row>",
    );
    assert_eq!(rows_of(&xml), expected);
}

#[test]
fn missing_key_and_missing_value_give_the_same_sheet() {
    let lacking = WorksheetData {
        records: vec![
            row(vec![("id", whole(1)), ("name", words("Ann"))]),
            row(vec![("id", whole(2))]),
        ],
    };
    let holding_none = WorksheetData {
        records: vec![
            row(vec![("id", whole(1)), ("name", words("Ann"))]),
            row(vec![("id", whole(2)), ("name", None)]),
        ],
    };
    let first = one_sheet(lacking);
    let second = one_sheet(holding_none);
    assert_eq!(first, second);
    assert!(rows_of(&first).ends_with("<row r=\"3\"><c r=\"A3\"><v>2</v></c></row>"));
}

#[test]
fn first_record_without_value_still_names_its_column() {
    let records = WorksheetData {
        records: vec![row(vec![("a", None), ("b", whole(5))]), row(vec![("a", whole(6)), ("b", None)])],
    };
    let xml = one_sheet(records);
    assert_eq!(
        rows_of(&xml),
        "<row r=\"1\"><c r=\"A1\" t=\"inlineStr\"><is><t>a</t></is></c>\
<c r=\"B1\" t=\"inlineStr\"><is><t>b</t></is></c></row>\
<row r=\"2\"><c r=\"B2\"><v>5</v></c></row>\
<row r=\"3\"><c r=\"A3\"><v>6</v></c></row>"
    );
}

#[test]
fn later_records_are_read_under_the_first_headers_only() {
    let records = WorksheetData {
        records: vec![
            row(vec![("x", whole(1)), ("y", whole(2))]),
            row(vec![("z", whole(9)), ("y", whole(4)), ("x", whole(3))]),
        ],
    };
    let xml = one_sheet(records);
    assert_eq!(
        rows_of(&xml),
        "<row r=\"1\"><c r=\"A1\" t=\"inlineStr\"><is><t>x</t></is></c>\
<c r=\"B1\" t=\"inlineStr\"><is><t>y</t></is></c></row>\
<row r=\"2\"><c r=\"A2\"><v>1</v></c><c r=\"B2\"><v>2</v></c></row>\
<row r=\"3\"><c r=\"A3\"><v>3</v></c><c r=\"B3\"><v>4</v></c></row>"
    );
}

#[test]
fn empty_record_set_has_no_rows_but_freeze_and_password() {
    let records = WorksheetData { records: vec![] };
    let bytes =
        write_worksheet(records, None, Some("secret".to_string()), Some(1), Some(2), &mut Doubles)
            .unwrap().into_bytes();
    let xml = part(&bytes, "xl/worksheets/sheet1.xml");
    assert!(!xml.contains("<row"));
    assert!(xml.contains("<pane xSplit=\"2\" ySplit=\"1\""));
    assert!(xml.contains("state=\"frozen\""));
    assert!(xml.contains("<sheetProtection password=\"DAA7\""));
}

#[test]
fn row_alone_freezes_rows_only() {
    let bytes = write_worksheet(people(), None, None, Some(1), None, &mut Doubles).unwrap().into_bytes();
    let xml = part(&bytes, "xl/worksheets/sheet1.xml");
    assert!(xml.contains("<pane ySplit=\"1\" topLeftCell=\"A2\""));
    assert!(!xml.contains("xSplit"));
}

#[test]
fn column_alone_freezes_columns_only() {
    let bytes = write_worksheet(people(), None, None, None, Some(2), &mut Doubles).unwrap().into_bytes();
    let xml = part(&bytes, "xl/worksheets/sheet1.xml");
    assert!(xml.contains("<pane xSplit=\"2\" topLeftCell=\"C1\""));
    assert!(!xml.contains("ySplit"));
}

#[test]
fn row_and_column_freeze_at_their_crossing() {
    let bytes = write_worksheet(people(), None, None, Some(2), Some(3), &mut Doubles).unwrap().into_bytes();
    let xml = part(&bytes, "xl/worksheets/sheet1.xml");
    assert!(xml.contains("<pane xSplit=\"3\" ySplit=\"2\" topLeftCell=\"D3\""));
}

#[test]
fn no_freeze_and_no_password_leave_the_sheet_open() {
    let xml = one_sheet(people());
    assert!(!xml.contains("<pane"));
    assert!(!xml.contains("sheetProtection"));
}

#[test]
fn freeze_off_the_grid_ends_the_writing() {
    let outcome = write_worksheet(people(), None, None, Some(1_048_576), None, &mut Doubles);
    assert_eq!(
        outcome.err(),
        Some(WriteError::FreezePane(
            "Row or column exceeds Excel's allowed limits (1,048,576 x 16,384).".to_string()
        ))
    );
    let outcome = write_worksheet(people(), None, None, None, Some(16_384), &mut Doubles);
    assert!(matches!(outcome, Err(WriteError::FreezePane(_))));
    let outcome = write_worksheet(people(), None, None, Some(1_048_575), Some(16_383), &mut Doubles);
    assert!(outcome.is_ok());
}

#[test]
fn configured_freeze_off_the_grid_ends_the_batch() {
    let config = freeze_config(vec![("general", vec![("row", 1)]), ("Second", vec![("col", 16_384)])]);
    let sheets = vec![("First".to_string(), people()), ("Second".to_string(), people())];
    let outcome = write_worksheets(sheets, None, Some(config), &mut Doubles);
    assert!(matches!(outcome, Err(WriteError::FreezePane(_))));
}

#[test]
fn configured_freeze_past_the_index_types_ends_the_batch() {
    let config = freeze_config(vec![("general", vec![("row", usize::MAX)])]);
    let sheets = vec![("First".to_string(), people())];
    let outcome = write_worksheets(sheets, None, Some(config), &mut Doubles);
    assert!(matches!(outcome, Err(WriteError::FreezePane(_))));
    let config = freeze_config(vec![("general", vec![("col", 65_536 + 1)])]);
    let sheets = vec![("First".to_string(), people())];
    let outcome = write_worksheets(sheets, None, Some(config), &mut Doubles);
    assert!(matches!(outcome, Err(WriteError::FreezePane(_))));
}

#[test]
fn sheet_without_a_name_keeps_the_name_of_the_workbook() {
    let bytes = write_worksheet(people(), None, None, None, None, &mut Doubles).unwrap().into_bytes();
    let book = part(&bytes, "xl/workbook.xml");
    assert!(book.contains("<sheets><sheet name=\"Sheet1\" sheetId=\"1\" r:id=\"rId1\"/></sheets>"));
}

#[test]
fn sheet_gets_the_name_that_is_given() {
    let bytes =
        write_worksheet(people(), Some("Sales2024".to_string()), None, None, None, &mut Doubles)
            .unwrap().into_bytes();
    let book = part(&bytes, "xl/workbook.xml");
    assert!(book.contains("<sheets><sheet name=\"Sales2024\" sheetId=\"1\" r:id=\"rId1\"/></sheets>"));
}

#[test]
fn valid_name_that_the_sheet_does_not_take_is_dropped() {
    let bytes =
        write_worksheet(people(), Some("'quoted'".to_string()), None, None, None, &mut Doubles)
            .unwrap().into_bytes();
    let book = part(&bytes, "xl/workbook.xml");
    assert!(book.contains("<sheet name=\"Sheet1\""));
    let bytes =
        write_worksheet(people(), Some(String::new()), None, None, None, &mut Doubles).unwrap().into_bytes();
    let book = part(&bytes, "xl/workbook.xml");
    assert!(book.contains("<sheet name=\"Sheet1\""));
}

#[test]
fn batch_writes_its_sheets_in_order_each_with_its_freeze() {
    let config = freeze_config(vec![("general", vec![("row", 2)]), ("S", vec![("col", 3)])]);
    let sheets = vec![
        ("T".to_string(), people()),
        ("S".to_string(), WorksheetData { records: vec![row(vec![("only", whole(7))])] }),
    ];
    let bytes =
        write_worksheets(sheets, Some("secret".to_string()), Some(config), &mut Doubles).unwrap().into_bytes();
    let book = part(&bytes, "xl/workbook.xml");
    assert!(book.contains(
        "<sheets><sheet name=\"T\" sheetId=\"1\" r:id=\"rId1\"/>\
<sheet name=\"S\" sheetId=\"2\" r:id=\"rId2\"/></sheets>"
    ));
    let first = part(&bytes, "xl/worksheets/sheet1.xml");
    assert!(first.contains("<pane ySplit=\"2\" topLeftCell=\"A3\""));
    assert!(!first.contains("xSplit"));
    assert!(first.contains("<t>Ann</t>"));
    assert!(first.contains("<sheetProtection password=\"DAA7\""));
    let second = part(&bytes, "xl/worksheets/sheet2.xml");
    assert!(second.contains("<pane xSplit=\"3\" ySplit=\"2\" topLeftCell=\"D3\""));
    assert_eq!(
        rows_of(&second),
        "<row r=\"1\"><c r=\"A1\" t=\"inlineStr\"><is><t>only</t></is></c></row>\
<row r=\"2\"><c r=\"A2\"><v>7</v></c></row>"
    );
    assert!(second.contains("<sheetProtection password=\"DAA7\""));
}

#[test]
fn batch_without_configuration_freezes_nothing() {
    let sheets = vec![("One".to_string(), people())];
    let bytes = write_worksheets(sheets, None, None, &mut Doubles).unwrap().into_bytes();
    let xml = part(&bytes, "xl/worksheets/sheet1.xml");
    assert!(!xml.contains("<pane"));
    assert!(!xml.contains("sheetProtection"));
}

#[test]
fn batch_of_no_sheets_is_a_document_still() {
    let bytes = write_worksheets(vec![], None, None, &mut Doubles).unwrap().into_bytes();
    let book = part(&bytes, "xl/workbook.xml");
    assert!(book.contains("<sheet name=\"Sheet1\""));
}

#[test]
fn batch_with_a_name_twice_fails_when_the_document_is_made() {
    let sheets = vec![("Same".to_string(), people()), ("same".to_string(), people())];
    let outcome = write_worksheets(sheets, None, None, &mut Doubles);
    assert!(matches!(outcome, Err(WriteError::Io(_))));
}

#[test]
fn date_with_time_is_written_with_its_column_format() {
    let moment = DateTimeParts { year: 2024, month: 3, day: 9, hour: 7, minute: 5, second: 3 };
    let records = WorksheetData {
        records: vec![row(vec![("id", whole(1)), ("when", Some(DynamicValue::from_date_time(moment)))])],
    };
    let bytes = write_worksheet(records, None, None, None, None, &mut Doubles).unwrap().into_bytes();
    let xml = part(&bytes, "xl/worksheets/sheet1.xml");
    assert!(rows_of(&xml).ends_with(
        "<row r=\"2\"><c r=\"A2\"><v>1</v></c><c r=\"B2\" s=\"1\"><v>45360.29517361111</v></c></row>"
    ));
    let styles = part(&bytes, "xl/styles.xml");
    assert!(styles.contains("formatCode=\"yyyy-mm-ddThh:mm:ss\""));
}

#[test]
fn date_that_a_spreadsheet_cannot_hold_is_left_out() {
    let early = DateTimeParts { year: 1800, month: 1, day: 1, hour: 0, minute: 0, second: 0 };
    let records = WorksheetData {
        records: vec![
            row(vec![("when", Some(DynamicValue::from_date_time(early))), ("id", whole(1))]),
            row(vec![("when", None), ("id", whole(2))]),
        ],
    };
    let xml = one_sheet(records);
    assert!(rows_of(&xml).ends_with(
        "<row r=\"2\"><c r=\"B2\"><v>1</v></c></row><row r=\"3\"><c r=\"B3\"><v>2</v></c></row>"
    ));
}

#[test]
fn text_longer_than_a_cell_is_left_out() {
    let records = WorksheetData {
        records: vec![row(vec![("long", words(&"x".repeat(32_768))), ("id", whole(1))])],
    };
    let xml = one_sheet(records);
    assert!(rows_of(&xml).ends_with("<row r=\"2\"><c r=\"B2\"><v>1</v></c></row>"));
}

#[test]
fn header_longer_than_a_cell_is_left_out() {
    let long = "h".repeat(32_768);
    let records = WorksheetData { records: vec![row(vec![(long.as_str(), whole(1)), ("id", whole(2))])] };
    let xml = one_sheet(records);
    assert_eq!(
        rows_of(&xml),
        "<row r=\"1\"><c r=\"B1\" t=\"inlineStr\"><is><t>id</t></is></c></row>\
<row r=\"2\"><c r=\"A2\"><v>1</v></c><c r=\"B2\"><v>2</v></c></row>"
    );
}

#[test]
fn doubles_are_written_as_numbers() {
    let records = WorksheetData {
        records: vec![row(vec![
            ("half", Some(DynamicValue::from_float_bits(0.5f64.to_bits()))),
            ("whole", Some(DynamicValue::from_float_bits(3.0f64.to_bits()))),
            ("negative", Some(DynamicValue::from_float_bits((-2.25f64).to_bits()))),
        ])],
    };
    let xml = one_sheet(records);
    assert!(rows_of(&xml).ends_with(
        "<row r=\"2\"><c r=\"A2\"><v>0.5</v></c><c r=\"B2\"><v>3</v></c><c r=\"C2\"><v>-2.25</v></c></row>"
    ));
}

#[test]
fn value_with_several_conversions_is_written_once_as_the_first() {
    let both = DynamicValue {
        date_time: None,
        integer: Some(1),
        float: Some(1.0f64.to_bits()),
        boolean: Some(true),
        text: Some("True".to_string()),
    };
    let records = WorksheetData { records: vec![row(vec![("v", Some(both))])] };
    let xml = one_sheet(records);
    assert!(rows_of(&xml).ends_with("<row r=\"2\"><c r=\"A2\"><v>1</v></c></row>"));
}

#[test]
fn content_written_through_a_sink_reaches_the_workbook() {
    let mut workbook = Workbook::new();
    let sheet = workbook.add_worksheet_with_constant_memory().unwrap();
    let mut sink = SheetSink::new(sheet);
    let password = "secret".to_string();
    let outcome =
        write_worksheet_content(&mut sink, &people(), Some(&password), None, Some(1), &mut Doubles);
    assert_eq!(outcome, Ok(()));
    let bytes = workbook.save_to_buffer().unwrap();
    let xml = part(&bytes, "xl/worksheets/sheet1.xml");
    assert!(rows_of(&xml).starts_with(HEADER_ROW));
    assert!(xml.contains("<pane xSplit=\"1\" topLeftCell=\"B1\""));
    assert!(xml.contains("<sheetProtection password=\"DAA7\""));
}

#[test]
fn refused_freeze_leaves_the_sheet_unprotected() {
    let mut sheet = Worksheet::new();
    let mut sink = SheetSink::new(&mut sheet);
    let password = "secret".to_string();
    let outcome =
        write_worksheet_content(&mut sink, &people(), Some(&password), Some(u32::MAX), None, &mut Doubles);
    assert!(matches!(outcome, Err(WriteError::FreezePane(_))));
    let mut workbook = Workbook::new();
    workbook.push_worksheet(sheet);
    let bytes = workbook.save_to_buffer().unwrap();
    let xml = part(&bytes, "xl/worksheets/sheet1.xml");
    assert!(!xml.contains("sheetProtection"));
    assert!(!xml.contains("<pane"));
    assert!(xml.contains("<row r=\"3\""));
}

#[test]
fn sheet_that_was_not_made_is_an_io_error() {
    let outcome = fill_sheet(
        Err(XlsxError::ParameterError("no place for the sheet".to_string())),
        None,
        &people(),
        None,
        None,
        None,
        &mut Doubles,
    );
    assert_eq!(
        outcome.err(),
        Some(WriteError::Io("Parameter error: 'no place for the sheet'.".to_string()))
    );
}

#[test]
fn sheet_that_was_made_is_filled() {
    let mut workbook = Workbook::new();
    let name = "Filled".to_string();
    let outcome = fill_sheet(
        workbook.add_worksheet_with_constant_memory(),
        Some(&name),
        &people(),
        None,
        Some(1),
        None,
        &mut Doubles,
    );
    assert!(outcome.is_ok());
    let bytes = workbook.save_to_buffer().unwrap();
    assert!(part(&bytes, "xl/workbook.xml").contains("<sheet name=\"Filled\""));
    assert!(part(&bytes, "xl/worksheets/sheet1.xml").contains("<t>Bo</t>"));
}

#[test]
fn bytes_that_were_made_are_the_document() {
    assert_eq!(finish_document(Ok(vec![1, 2, 3])), Ok(vec![1, 2, 3]));
    assert_eq!(finish_document(Ok(vec![])), Ok(vec![]));
}

#[test]
fn bytes_that_were_not_made_are_an_io_error() {
    let outcome = finish_document(Err(XlsxError::SheetnameReused("same".to_string())));
    assert!(matches!(outcome, Err(WriteError::Io(words)) if words.contains("same")));
}

#[test]
fn document_is_a_zip_archive_with_the_parts_of_a_workbook() {
    let bytes = write_worksheet(people(), None, None, None, None, &mut Doubles).unwrap().into_bytes();
    assert_eq!(&bytes[..2], b"PK");
    let mut archive = zip::ZipArchive::new(Cursor::new(bytes)).unwrap();
    assert!(archive.by_name("xl/workbook.xml").is_ok());
    assert!(archive.by_name("xl/worksheets/sheet1.xml").is_ok());
    assert!(archive.by_name("xl/worksheets/sheet2.xml").is_err());
}

#[test]
fn columns_past_the_grid_are_left_out() {
    let mut hash = IndexMap::new();
    for position in 0..16_386usize {
        hash.insert(format!("c{}", position), whole(position as i64));
    }
    let records = WorksheetData { records: vec![WorksheetRow { hash }] };
    let xml = one_sheet(records);
    assert!(xml.contains("<c r=\"XFD1\" t=\"inlineStr\"><is><t>c16383</t></is></c></row>"));
    assert!(xml.contains("<c r=\"XFD2\"><v>16383</v></c></row>"));
    assert!(!xml.contains("c16384"));
    assert!(!xml.contains("<v>16384</v>"));
}

#[test]
fn first_record_without_keys_gives_a_sheet_without_rows() {
    let records = WorksheetData {
        records: vec![row(vec![]), row(vec![("late", whole(1))])],
    };
    let xml = one_sheet(records);
    assert!(!xml.contains("<row"));
}

struct Refusing {
    asked: usize,
}

impl NumberWriter for Refusing {
    fn write_number(&mut self, _sheet: &mut Worksheet, _row: u32, _col: u16, _bits: u64) -> bool {
        self.asked += 1;
        false
    }
}

#[test]
fn double_that_is_not_written_stops_nothing() {
    let records = WorksheetData {
        records: vec![row(vec![
            ("a", whole(1)),
            ("b", Some(DynamicValue::from_float_bits(1.5f64.to_bits()))),
            ("c", whole(3)),
        ])],
    };
    let mut refusing = Refusing { asked: 0 };
    let bytes = write_worksheet(records, None, None, None, None, &mut refusing).unwrap().into_bytes();
    assert_eq!(refusing.asked, 1);
    let xml = part(&bytes, "xl/worksheets/sheet1.xml");
    assert!(rows_of(&xml)
        .ends_with("<row r=\"2\"><c r=\"A2\"><v>1</v></c><c r=\"C2\"><v>3</v></c></row>"));
}

#[test]
fn workbook_without_sheets_finishes_as_a_document() {
    let bytes = BookSink::new().finish().unwrap().into_bytes();
    assert_eq!(&bytes[..2], b"PK");
    assert!(part(&bytes, "xl/workbook.xml").contains("<sheet name=\"Sheet1\""));
}

#[test]
fn sheets_of_a_workbook_come_in_the_order_they_were_made() {
    let mut book = BookSink::new();
    for name in ["b", "a"] {
        let mut sink = SheetSink::new(book.new_sheet().unwrap());
        assert!(sink.rename(name));
        assert!(sink.write_integer(0, 0, 5));
        let log = sink.close();
        book.record(log);
    }
    let bytes = book.finish().unwrap().into_bytes();
    assert!(part(&bytes, "xl/workbook.xml").contains(
        "<sheets><sheet name=\"b\" sheetId=\"1\" r:id=\"rId1\"/>\
<sheet name=\"a\" sheetId=\"2\" r:id=\"rId2\"/></sheets>"
    ));
    assert!(part(&bytes, "xl/worksheets/sheet2.xml").contains("<c r=\"A1\"><v>5</v></c>"));
}

#[test]
fn workbook_with_a_name_twice_does_not_finish() {
    let mut book = BookSink::new();
    for name in ["Same", "SAME"] {
        let mut sink = SheetSink::new(book.new_sheet().unwrap());
        assert!(sink.rename(name));
        let log = sink.close();
        book.record(log);
    }
    assert!(matches!(book.finish(), Err(WriteError::Io(_))));
}
