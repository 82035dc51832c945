//! The worksheet of `rust_xlsxwriter` as a sink for cells.
//!
//! Nothing here looks into a worksheet. A `SheetSink` makes the calls and
//! keeps, as ghost state, the list of the calls it has made; the contracts of
//! the functions that write through it say what that list is. A `BookSink`
//! does the same for a workbook: it gathers the lists of its sheets, and only
//! it makes a `Document`.
//!
//! The fields of these types are private to this file. A list of calls can
//! therefore only grow where a call is made, and a document can only come
//! from the workbook that was asked for its bytes.

use crate::error::WriteError;
use crate::value::{CellContent, CellValue, DateTimeParts};
use rust_xlsxwriter::{ExcelDateTime, Format, Workbook, Worksheet, XlsxError};
use vstd::prelude::*;

verus! {

/// `rust_xlsxwriter::Worksheet`, of which nothing is known here.
#[verifier::external_type_specification]
#[verifier::external_body]
pub struct ExWorksheet(Worksheet);

/// `rust_xlsxwriter::Workbook`, of which nothing is known here.
#[verifier::external_type_specification]
#[verifier::external_body]
pub struct ExWorkbook(Workbook);

/// `rust_xlsxwriter::XlsxError`, of which nothing is known here.
#[verifier::external_type_specification]
#[verifier::external_body]
pub struct ExXlsxError(XlsxError);

/// `rust_xlsxwriter::ExcelDateTime`, of which nothing is known here.
#[verifier::external_type_specification]
#[verifier::external_body]
pub struct ExExcelDateTime(ExcelDateTime);

/// `rust_xlsxwriter::Format`, of which nothing is known here.
#[verifier::external_type_specification]
#[verifier::external_body]
pub struct ExFormat(Format);

/// The number of rows of a sheet.
pub const GRID_ROWS: u32 = 1_048_576;

/// The number of columns of a sheet.
pub const GRID_COLS: u16 = 16_384;

/// The longest text of a cell, in characters.
pub const MAX_CELL_CHARS: usize = 32_767;

/// The display format of the columns that hold dates with times.
pub const DATE_TIME_FORMAT: &'static str = "yyyy-mm-ddThh:mm:ss";

/// Whether the cell lies on the grid of a sheet.
pub open spec fn on_grid(row: u32, col: u16) -> bool {
    row < GRID_ROWS && col < GRID_COLS
}

/// Whether a sheet takes the text for the cell. An empty text is taken
/// anywhere: it leaves no trace in the sheet.
pub open spec fn text_accepted(row: u32, col: u16, text: Seq<char>) -> bool {
    text.len() == 0 || (on_grid(row, col) && text.len() <= MAX_CELL_CHARS)
}

/// Whether the year has a 29th of February in the calendar.
pub open spec fn leap_year(year: int) -> bool {
    year % 4 == 0 && (year % 100 != 0 || year % 400 == 0)
}

/// The days of a month as the spreadsheet counts them: like the calendar,
/// but with a 29th of February in 1900.
pub open spec fn days_in_month(year: int, month: int) -> int {
    if month == 2 {
        if leap_year(year) || year == 1900 {
            29
        } else {
            28
        }
    } else if month == 4 || month == 6 || month == 9 || month == 11 {
        30
    } else {
        31
    }
}

/// The dates that a spreadsheet can hold: those of the years 1900 to 9999,
/// and the day before them.
pub open spec fn date_in_range(year: u16, month: u8, day: u8) -> bool {
    &&& 1900 <= year <= 9999 || (year == 1899 && month == 12 && day == 31)
    &&& 1 <= month <= 12
    &&& 1 <= day <= days_in_month(year as int, month as int)
}

/// The times that a spreadsheet can hold. The hour is free: it may pass 24.
pub open spec fn time_in_range(minute: u8, second: u8) -> bool {
    minute <= 60 && second <= 59
}

/// Whether a spreadsheet can hold the date with its time.
pub open spec fn encodable(parts: DateTimeParts) -> bool {
    date_in_range(parts.year, parts.month, parts.day) && time_in_range(parts.minute, parts.second)
}

/// Whether a sheet takes `name` as its name: a valid sheet name that is not
/// empty and neither starts nor ends with an apostrophe.
pub open spec fn name_accepted(name: Seq<char>) -> bool {
    &&& crate::utils::valid_sheet_name(name)
    &&& name.len() > 0
    &&& name.first() != '\''
    &&& name.last() != '\''
}

/// `Worksheet::write_string`. It fails for a text that is not empty where the
/// cell lies off the grid or the text has more than 32,767 characters. An
/// empty text is passed over without a look at the cell.
#[verifier::external_body]
fn put_text(sheet: &mut Worksheet, row: u32, col: u16, text: &str) -> (outcome: Result<
    (),
    XlsxError,
>)
    ensures
        outcome.is_ok() == text_accepted(row, col, text@),
{
    sheet.write_string(row, col, text).map(|_| ())
}

/// `Worksheet::write` with an `i64`, which stores the integer as a number.
/// It fails where the cell lies off the grid.
#[verifier::external_body]
fn put_integer(sheet: &mut Worksheet, row: u32, col: u16, value: i64) -> (outcome: Result<
    (),
    XlsxError,
>)
    ensures
        outcome.is_ok() == on_grid(row, col),
{
    sheet.write(row, col, value).map(|_| ())
}

/// `Worksheet::write_boolean`. It fails where the cell lies off the grid.
#[verifier::external_body]
fn put_boolean(sheet: &mut Worksheet, row: u32, col: u16, value: bool) -> (outcome: Result<
    (),
    XlsxError,
>)
    ensures
        outcome.is_ok() == on_grid(row, col),
{
    sheet.write_boolean(row, col, value).map(|_| ())
}

/// `Worksheet::write_datetime`. It fails where the cell lies off the grid.
#[verifier::external_body]
fn put_date_time(sheet: &mut Worksheet, row: u32, col: u16, moment: &ExcelDateTime) -> (outcome:
    Result<(), XlsxError>)
    ensures
        outcome.is_ok() == on_grid(row, col),
{
    sheet.write_datetime(row, col, moment).map(|_| ())
}

/// `Worksheet::set_column_format`. It fails where the column lies off the
/// grid.
#[verifier::external_body]
fn put_column_format(sheet: &mut Worksheet, col: u16, format: &Format) -> (outcome: Result<
    (),
    XlsxError,
>)
    ensures
        outcome.is_ok() == (col < GRID_COLS),
{
    sheet.set_column_format(col, format).map(|_| ())
}

/// `Worksheet::set_freeze_panes`. It fails where the cell lies off the grid.
#[verifier::external_body]
fn put_freeze_panes(sheet: &mut Worksheet, row: u32, col: u16) -> (outcome: Result<(), XlsxError>)
    ensures
        outcome.is_ok() == on_grid(row, col),
{
    sheet.set_freeze_panes(row, col).map(|_| ())
}

/// `Worksheet::autofit`.
#[verifier::external_body]
fn put_autofit(sheet: &mut Worksheet) {
    sheet.autofit();
}

/// `Worksheet::protect_with_password`.
#[verifier::external_body]
fn put_password(sheet: &mut Worksheet, password: &str) {
    sheet.protect_with_password(password);
}

/// `Worksheet::set_name`. It fails for a name that the sheet does not take,
/// and the sheet then keeps the name it had.
#[verifier::external_body]
fn put_name(sheet: &mut Worksheet, name: &str) -> (outcome: Result<(), XlsxError>)
    ensures
        outcome.is_ok() == name_accepted(name@),
{
    sheet.set_name(name).map(|_| ())
}

/// `ExcelDateTime::from_ymd`. It fails for a date out of range.
#[verifier::external_body]
fn new_date(year: u16, month: u8, day: u8) -> (outcome: Result<ExcelDateTime, XlsxError>)
    ensures
        outcome.is_ok() == date_in_range(year, month, day),
{
    ExcelDateTime::from_ymd(year, month, day)
}

/// `ExcelDateTime::and_hms`. It fails for a time out of range.
#[verifier::external_body]
fn with_time(date: ExcelDateTime, hour: u16, minute: u8, second: u8) -> (outcome: Result<
    ExcelDateTime,
    XlsxError,
>)
    ensures
        outcome.is_ok() == time_in_range(minute, second),
{
    date.and_hms(hour, minute, second)
}

/// `Format::new`: a format that sets nothing.
#[verifier::external_body]
fn new_format() -> Format {
    Format::new()
}

/// `Format::set_num_format`: the format, now showing numbers after the
/// pattern.
#[verifier::external_body]
fn with_number_pattern(format: Format, pattern: &str) -> Format {
    format.set_num_format(pattern)
}

/// The words of an `XlsxError`, as its `Display` gives them.
#[verifier::external_body]
pub(crate) fn error_text(error: &XlsxError) -> String {
    error.to_string()
}

/// `Workbook::new`: a workbook without sheets. It reads the clock for the
/// time of creation that the document will state, so two workbooks are not
/// alike, and nothing is claimed of the one that comes back.
#[verifier::external_body]
fn new_workbook() -> Workbook {
    Workbook::new()
}

/// `Workbook::add_worksheet_with_constant_memory`: a new sheet at the end of
/// the workbook, which keeps only its current row in memory. It fails where
/// the sheet cannot have its temporary file.
#[verifier::external_body]
fn add_sheet(workbook: &mut Workbook) -> Result<&mut Worksheet, XlsxError> {
    workbook.add_worksheet_with_constant_memory()
}

/// `Workbook::save_to_buffer`: the bytes of the finished document. It fails
/// where two sheets have the same name, letter case aside, and where a part
/// of the archive cannot be written. The bytes hold the time of creation, so
/// nothing is claimed of them.
#[verifier::external_body]
fn document_bytes(workbook: &mut Workbook) -> Result<Vec<u8>, XlsxError> {
    workbook.save_to_buffer()
}

/// Writes doubles into a sheet.
///
/// This crate carries a double as its bit pattern and never computes with
/// it. The one call that takes the double itself is left to the caller, who
/// hands it in as an implementation of this trait.
pub trait NumberWriter {
    /// Writes the double with the IEEE 754 bit pattern `bits` into the cell
    /// and tells whether the sheet took it.
    fn write_number(&mut self, sheet: &mut Worksheet, row: u32, col: u16, bits: u64) -> bool;
}

/// One call into a sheet.
pub enum SinkCall {
    Text { row: u32, col: u16, text: Seq<char> },
    Integer { row: u32, col: u16, value: i64 },
    Float { row: u32, col: u16, bits: u64 },
    Boolean { row: u32, col: u16, flag: bool },
    DateTime { row: u32, col: u16, parts: DateTimeParts },
    ColumnFormat { col: u16, pattern: Seq<char> },
    Autofit,
    FreezePanes { row: u32, col: u16 },
    Protect { password: Seq<char> },
    Rename { name: Seq<char> },
}

/// The calls that write one cell. An empty cell is written as an empty text.
/// A date with a time first gives its column the date-time format, and is
/// then written if a spreadsheet can hold it.
pub open spec fn cell_calls(row: u32, col: u16, cell: CellContent) -> Seq<SinkCall> {
    match cell {
        CellContent::Empty => seq![SinkCall::Text { row, col, text: Seq::empty() }],
        CellContent::Text(text) => seq![SinkCall::Text { row, col, text }],
        CellContent::Integer(value) => seq![SinkCall::Integer { row, col, value }],
        CellContent::Float(bits) => seq![SinkCall::Float { row, col, bits }],
        CellContent::Boolean(flag) => seq![SinkCall::Boolean { row, col, flag }],
        CellContent::DateTime(parts) => {
            let format = SinkCall::ColumnFormat { col, pattern: DATE_TIME_FORMAT@ };
            if encodable(parts) {
                seq![format, SinkCall::DateTime { row, col, parts }]
            } else {
                seq![format]
            }
        },
    }
}

/// A sheet, and the calls made into it through this value.
pub struct SheetSink<'a> {
    sheet: &'a mut Worksheet,
    calls: Ghost<Seq<SinkCall>>,
}

impl<'a> SheetSink<'a> {
    /// The calls made so far, oldest first.
    pub closed spec fn calls(&self) -> Seq<SinkCall> {
        self.calls@
    }

    /// A sink for `sheet`, with no call made.
    pub fn new(sheet: &'a mut Worksheet) -> (sink: Self)
        ensures
            sink.calls() == Seq::<SinkCall>::empty(),
    {
        SheetSink { sheet, calls: Ghost(Seq::empty()) }
    }

    /// Writes a text and tells whether the sheet took it.
    pub fn write_text(&mut self, row: u32, col: u16, text: &str) -> (accepted: bool)
        ensures
            final(self).calls() == old(self).calls().push(SinkCall::Text { row, col, text: text@ }),
            accepted == text_accepted(row, col, text@),
    {
        let outcome = put_text(self.sheet, row, col, text);
        proof {
            self.calls@ = self.calls@.push(SinkCall::Text { row, col, text: text@ });
        }
        outcome.is_ok()
    }

    /// Writes an integer as a number and tells whether the sheet took it.
    pub fn write_integer(&mut self, row: u32, col: u16, value: i64) -> (accepted: bool)
        ensures
            final(self).calls() == old(self).calls().push(SinkCall::Integer { row, col, value }),
            accepted == on_grid(row, col),
    {
        let outcome = put_integer(self.sheet, row, col, value);
        proof {
            self.calls@ = self.calls@.push(SinkCall::Integer { row, col, value });
        }
        outcome.is_ok()
    }

    /// Has `numbers` write a double and tells what it told.
    pub fn write_float<N: NumberWriter>(
        &mut self,
        numbers: &mut N,
        row: u32,
        col: u16,
        bits: u64,
    ) -> (accepted: bool)
        ensures
            final(self).calls() == old(self).calls().push(SinkCall::Float { row, col, bits }),
    {
        let accepted = numbers.write_number(self.sheet, row, col, bits);
        proof {
            self.calls@ = self.calls@.push(SinkCall::Float { row, col, bits });
        }
        accepted
    }

    /// Writes a boolean and tells whether the sheet took it.
    pub fn write_boolean(&mut self, row: u32, col: u16, flag: bool) -> (accepted: bool)
        ensures
            final(self).calls() == old(self).calls().push(SinkCall::Boolean { row, col, flag }),
            accepted == on_grid(row, col),
    {
        let outcome = put_boolean(self.sheet, row, col, flag);
        proof {
            self.calls@ = self.calls@.push(SinkCall::Boolean { row, col, flag });
        }
        outcome.is_ok()
    }

    /// Writes a date with its time, if a spreadsheet can hold it, and tells
    /// whether the sheet took it. For one that it cannot hold no call is
    /// made.
    pub fn write_date_time(&mut self, row: u32, col: u16, parts: DateTimeParts) -> (accepted: bool)
        ensures
            final(self).calls() == (if encodable(parts) {
                old(self).calls().push(SinkCall::DateTime { row, col, parts })
            } else {
                old(self).calls()
            }),
            accepted == (encodable(parts) && on_grid(row, col)),
    {
        let date = match new_date(parts.year, parts.month, parts.day) {
            Ok(date) => date,
            Err(_) => {
                return false;
            },
        };
        let moment = match with_time(date, parts.hour, parts.minute, parts.second) {
            Ok(moment) => moment,
            Err(_) => {
                return false;
            },
        };
        let outcome = put_date_time(self.sheet, row, col, &moment);
        proof {
            self.calls@ = self.calls@.push(SinkCall::DateTime { row, col, parts });
        }
        outcome.is_ok()
    }

    /// Gives a column a format that shows numbers after `pattern`, and tells
    /// whether the sheet took it.
    pub fn set_column_format(&mut self, col: u16, pattern: &str) -> (accepted: bool)
        ensures
            final(self).calls() == old(self).calls().push(
                SinkCall::ColumnFormat { col, pattern: pattern@ },
            ),
            accepted == (col < GRID_COLS),
    {
        let format = with_number_pattern(new_format(), pattern);
        let outcome = put_column_format(self.sheet, col, &format);
        proof {
            self.calls@ = self.calls@.push(SinkCall::ColumnFormat { col, pattern: pattern@ });
        }
        outcome.is_ok()
    }

    /// Writes the content of one cell. What the sheet does not take is left
    /// out of it, and the next cell can be written.
    pub fn write_cell<N: NumberWriter>(
        &mut self,
        numbers: &mut N,
        row: u32,
        col: u16,
        cell: &CellValue,
    )
        ensures
            final(self).calls() == old(self).calls() + cell_calls(row, col, cell@),
    {
        match cell {
            CellValue::Empty => {
                proof {
                    reveal_strlit("");
                    assert(""@ =~= Seq::<char>::empty());
                }
                let _ = self.write_text(row, col, "");
            },
            CellValue::Text(text) => {
                let _ = self.write_text(row, col, text.as_str());
            },
            CellValue::Integer(value) => {
                let _ = self.write_integer(row, col, *value);
            },
            CellValue::Float(bits) => {
                let _ = self.write_float(numbers, row, col, *bits);
            },
            CellValue::Boolean(value) => {
                let _ = self.write_boolean(row, col, *value);
            },
            CellValue::DateTime(parts) => {
                let _ = self.set_column_format(col, DATE_TIME_FORMAT);
                let _ = self.write_date_time(row, col, *parts);
            },
        }
        assert(final(self).calls() =~= old(self).calls() + cell_calls(row, col, cell@));
    }

    /// Fits the widths of the columns to what they hold.
    pub fn autofit(&mut self)
        ensures
            final(self).calls() == old(self).calls().push(SinkCall::Autofit),
    {
        put_autofit(self.sheet);
        proof {
            self.calls@ = self.calls@.push(SinkCall::Autofit);
        }
    }

    /// Freezes the rows above `row` and the columns left of `col`. The sheet
    /// refuses a cell off its grid; the error holds its words.
    pub fn freeze_panes(&mut self, row: u32, col: u16) -> (outcome: Result<(), String>)
        ensures
            final(self).calls() == old(self).calls().push(SinkCall::FreezePanes { row, col }),
            outcome.is_ok() == on_grid(row, col),
    {
        let outcome = put_freeze_panes(self.sheet, row, col);
        proof {
            self.calls@ = self.calls@.push(SinkCall::FreezePanes { row, col });
        }
        match outcome {
            Ok(()) => Ok(()),
            Err(error) => Err(error_text(&error)),
        }
    }

    /// Protects the sheet with a password.
    pub fn protect(&mut self, password: &str)
        ensures
            final(self).calls() == old(self).calls().push(
                SinkCall::Protect { password: password@ },
            ),
    {
        put_password(self.sheet, password);
        proof {
            self.calls@ = self.calls@.push(SinkCall::Protect { password: password@ });
        }
    }

    /// Names the sheet and tells whether the sheet took the name. Where it
    /// did not, it keeps the name it had.
    pub fn rename(&mut self, name: &str) -> (accepted: bool)
        ensures
            final(self).calls() == old(self).calls().push(SinkCall::Rename { name: name@ }),
            accepted == name_accepted(name@),
    {
        let outcome = put_name(self.sheet, name);
        proof {
            self.calls@ = self.calls@.push(SinkCall::Rename { name: name@ });
        }
        outcome.is_ok()
    }

    /// Ends the writing into the sheet and hands out the list of the calls
    /// that were made.
    pub fn close(self) -> (log: SheetLog)
        ensures
            log.calls() == self.calls(),
    {
        SheetLog { calls: Ghost(self.calls@) }
    }
}

/// The calls that were made into one sheet. Only a `SheetSink` that is closed
/// gives one.
pub struct SheetLog {
    calls: Ghost<Seq<SinkCall>>,
}

impl SheetLog {
    /// The calls, oldest first.
    pub closed spec fn calls(&self) -> Seq<SinkCall> {
        self.calls@
    }
}

/// A finished document. Only a `BookSink` that is finished gives one.
pub struct Document {
    bytes: Vec<u8>,
    sheets: Ghost<Seq<Seq<SinkCall>>>,
}

impl Document {
    /// The document as the bytes of a spreadsheet file.
    pub closed spec fn bytes(&self) -> Seq<u8> {
        self.bytes@
    }

    /// What was written into the sheets of the document: for each sheet, in
    /// the order of the sheets, the calls made into it.
    pub closed spec fn sheets(&self) -> Seq<Seq<SinkCall>> {
        self.sheets@
    }

    /// The bytes of the document, to be written to a file as they are.
    pub fn into_bytes(self) -> (bytes: Vec<u8>)
        ensures
            bytes@ == self.bytes(),
    {
        self.bytes
    }
}

/// Turns what the workbook answered when asked for the bytes of the document
/// into the outcome of the writing: its bytes, or an error with its words.
pub fn finish_document(saved: Result<Vec<u8>, XlsxError>) -> (outcome: Result<
    Vec<u8>,
    WriteError,
>)
    ensures
        saved matches Ok(bytes) ==> outcome == Ok::<Vec<u8>, WriteError>(bytes),
        saved is Err ==> outcome matches Err(WriteError::Io(_)),
{
    match saved {
        Ok(bytes) => Ok(bytes),
        Err(error) => Err(WriteError::Io(error_text(&error))),
    }
}

/// A workbook, and what was written into the sheets that were put on record
/// in it.
pub struct BookSink {
    book: Workbook,
    sheets: Ghost<Seq<Seq<SinkCall>>>,
}

impl BookSink {
    /// The lists of calls that are on record, one for each sheet, in the
    /// order in which they were put there.
    pub closed spec fn sheets(&self) -> Seq<Seq<SinkCall>> {
        self.sheets@
    }

    /// A workbook without sheets.
    pub fn new() -> (book: Self)
        ensures
            book.sheets() == Seq::<Seq<SinkCall>>::empty(),
    {
        BookSink { book: new_workbook(), sheets: Ghost(Seq::empty()) }
    }

    /// Asks the workbook for a new sheet at its end. The workbook may fail
    /// to make one. Nothing is put on record.
    pub fn new_sheet(&mut self) -> (created: Result<&mut Worksheet, XlsxError>)
        ensures
            final(self).sheets() == old(self).sheets(),
    {
        add_sheet(&mut self.book)
    }

    /// Puts on record what was written into the sheet that was made last.
    pub fn record(&mut self, log: SheetLog)
        ensures
            final(self).sheets() == old(self).sheets().push(log.calls()),
    {
        proof {
            self.sheets@ = self.sheets@.push(log.calls());
        }
    }

    /// Asks the workbook for the bytes of the document. The workbook may
    /// fail to make them; the error then holds its words.
    pub fn finish(self) -> (outcome: Result<Document, WriteError>)
        ensures
            outcome matches Ok(document) ==> document.sheets() == self.sheets(),
            outcome matches Err(error) ==> error is Io,
    {
        let sheets = Ghost(self.sheets@);
        let mut book = self.book;
        match finish_document(document_bytes(&mut book)) {
            Ok(bytes) => Ok(Document { bytes, sheets }),
            Err(error) => Err(error),
        }
    }
}

} // verus!
