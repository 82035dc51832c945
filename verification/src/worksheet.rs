//! Writing the records of a sheet, and putting sheets together into a
//! document.

use crate::data_types::{header_keys, FreezePaneConfig, WorksheetData, WorksheetRow};
use crate::error::WriteError;
use crate::layout::{
    body_calls, configured_col, configured_freeze_accepted, configured_row, freeze_accepted,
    header_calls, named_sheet_calls, narrowed_col, narrowed_row, row_calls, rows_calls,
    sheet_calls, sheet_col, sheet_row,
};
use crate::sink::{
    error_text, BookSink, Document, NumberWriter, SheetLog, SheetSink, SinkCall,
};
use crate::utils::{valid_sheet_name, validate_sheet_name};
use crate::value::classify;
use rust_xlsxwriter::{Worksheet, XlsxError};
use vstd::prelude::*;

verus! {

/// The text of an optional string that is borrowed.
pub open spec fn borrowed_text(value: Option<&String>) -> Option<Seq<char>> {
    match value {
        Some(text) => Some(text@),
        None => None,
    }
}

/// The text of an optional string.
pub open spec fn optional_text(value: Option<String>) -> Option<Seq<char>> {
    match value {
        Some(text) => Some(text@),
        None => None,
    }
}

/// The texts of the headers.
pub open spec fn header_texts(headers: Seq<String>) -> Seq<Seq<char>> {
    Seq::new(headers.len(), |i: int| headers[i]@)
}

fn row_index(position: usize) -> (row: u32)
    ensures
        row == sheet_row(position as int),
{
    if position < u32::MAX as usize {
        (position + 1) as u32
    } else {
        u32::MAX
    }
}

fn col_index(position: usize) -> (col: u16)
    ensures
        col == sheet_col(position as int),
{
    if position <= u16::MAX as usize {
        position as u16
    } else {
        u16::MAX
    }
}

/// Writes the headers into row 0, in their order.
fn write_headers(sink: &mut SheetSink<'_>, headers: &Vec<String>)
    ensures
        final(sink).calls() == old(sink).calls() + header_calls(
            header_texts(headers@),
            headers@.len() as int,
        ),
{
    let ghost before = sink.calls();
    let ghost keys = header_texts(headers@);
    let mut col: usize = 0;
    while col < headers.len()
        invariant
            col <= headers@.len(),
            keys == header_texts(headers@),
            sink.calls() == before + header_calls(keys, col as int),
        decreases headers@.len() - col,
    {
        let _ = sink.write_text(0, col_index(col), headers[col].as_str());
        col += 1;
        assert(sink.calls() =~= before + header_calls(keys, col as int));
    }
}

/// Writes one record into `row`: under each header, in order, the classified
/// value that the record offers under it.
fn write_row<N: NumberWriter>(
    sink: &mut SheetSink<'_>,
    headers: &Vec<String>,
    record: &WorksheetRow,
    row: u32,
    numbers: &mut N,
)
    ensures
        final(sink).calls() == old(sink).calls() + row_calls(
            header_texts(headers@),
            record@,
            row,
            headers@.len() as int,
        ),
{
    let ghost before = sink.calls();
    let ghost keys = header_texts(headers@);
    let mut col: usize = 0;
    while col < headers.len()
        invariant
            col <= headers@.len(),
            keys == header_texts(headers@),
            sink.calls() == before + row_calls(keys, record@, row, col as int),
        decreases headers@.len() - col,
    {
        let cell = classify(record.get(headers[col].as_str()));
        sink.write_cell(numbers, row, col_index(col), &cell);
        col += 1;
        assert(sink.calls() =~= before + row_calls(keys, record@, row, col as int));
    }
}

/// Writes the header row and the rows of a record set.
fn write_body<N: NumberWriter>(sink: &mut SheetSink<'_>, records: &WorksheetData, numbers: &mut N)
    ensures
        final(sink).calls() == old(sink).calls() + body_calls(records@),
{
    let ghost before = sink.calls();
    if records.records.len() == 0 {
        assert(sink.calls() =~= before + body_calls(records@));
        return ;
    }
    let headers = records.headers();
    let ghost keys = header_texts(headers@);
    assert(keys =~= header_keys(records@));
    write_headers(sink, &headers);
    let ghost after_headers = sink.calls();
    let mut position: usize = 0;
    while position < records.records.len()
        invariant
            position <= records.records@.len(),
            keys == header_texts(headers@),
            sink.calls() == after_headers + rows_calls(keys, records@, position as int),
        decreases records.records@.len() - position,
    {
        write_row(sink, &headers, &records.records[position], row_index(position), numbers);
        position += 1;
        assert(sink.calls() =~= after_headers + rows_calls(keys, records@, position as int));
    }
    assert(sink.calls() =~= before + body_calls(records@));
}

/// Writes one sheet: the header row and the records, then the fitting of the
/// columns, the freeze and the protection.
///
/// The headers are the keys of the first record, in its order, and every
/// record is looked up under them. A cell that the sheet does not take is
/// left out and the writing goes on. A freeze that the sheet does not take
/// ends it, before the sheet is protected.
pub fn write_worksheet_content<N: NumberWriter>(
    sink: &mut SheetSink<'_>,
    records: &WorksheetData,
    password: Option<&String>,
    freeze_row: Option<u32>,
    freeze_col: Option<u16>,
    numbers: &mut N,
) -> (outcome: Result<(), WriteError>)
    ensures
        final(sink).calls() == old(sink).calls() + sheet_calls(
            records@,
            borrowed_text(password),
            freeze_row,
            freeze_col,
        ),
        (outcome is Ok) == freeze_accepted(freeze_row, freeze_col),
        outcome matches Err(error) ==> error is FreezePane,
{
    let ghost before = sink.calls();
    write_body(sink, records, numbers);
    sink.autofit();
    let target = match (freeze_row, freeze_col) {
        (Some(row), Some(col)) => Some((row, col)),
        (Some(row), None) => Some((row, 0u16)),
        (None, Some(col)) => Some((0u32, col)),
        (None, None) => None,
    };
    if let Some((row, col)) = target {
        if let Err(words) = sink.freeze_panes(row, col) {
            assert(sink.calls() =~= before + sheet_calls(
                records@,
                borrowed_text(password),
                freeze_row,
                freeze_col,
            ));
            return Err(WriteError::FreezePane(words));
        }
    }
    if let Some(password) = password {
        sink.protect(password.as_str());
    }
    assert(sink.calls() =~= before + sheet_calls(
        records@,
        borrowed_text(password),
        freeze_row,
        freeze_col,
    ));
    Ok(())
}

/// Puts a sheet into the place that a workbook made for it, and returns the
/// list of the calls made into it. `created` is what the workbook answered
/// when asked for a new sheet.
///
/// Where the workbook made none, nothing is written and the error holds its
/// words. Else the sheet is given the name, if there is one, which it keeps
/// only if it takes it, and the records are written into it.
pub fn fill_sheet<N: NumberWriter>(
    created: Result<&mut Worksheet, XlsxError>,
    sheet_name: Option<&String>,
    records: &WorksheetData,
    password: Option<&String>,
    freeze_row: Option<u32>,
    freeze_col: Option<u16>,
    numbers: &mut N,
) -> (outcome: Result<SheetLog, WriteError>)
    ensures
        created is Err ==> outcome matches Err(WriteError::Io(_)),
        created is Ok ==> (outcome is Ok) == freeze_accepted(freeze_row, freeze_col),
        created is Ok ==> (outcome matches Err(error) ==> error is FreezePane),
        outcome matches Ok(log) ==> log.calls() == named_sheet_calls(
            borrowed_text(sheet_name),
            records@,
            borrowed_text(password),
            freeze_row,
            freeze_col,
        ),
{
    match created {
        Err(error) => Err(WriteError::Io(error_text(&error))),
        Ok(sheet) => {
            let mut sink = SheetSink::new(sheet);
            if let Some(name) = sheet_name {
                let _ = sink.rename(name.as_str());
            }
            let written = write_worksheet_content(
                &mut sink,
                records,
                password,
                freeze_row,
                freeze_col,
                numbers,
            );
            match written {
                Ok(()) => {
                    assert(sink.calls() =~= named_sheet_calls(
                        borrowed_text(sheet_name),
                        records@,
                        borrowed_text(password),
                        freeze_row,
                        freeze_col,
                    ));
                    Ok(sink.close())
                },
                Err(error) => Err(error),
            }
        },
    }
}

/// Writes one sheet and returns the document that holds it.
///
/// A name that is given has to be valid: an invalid one ends the writing
/// before anything is made. Without a name the sheet keeps the one that the
/// workbook gave it. A freeze that the sheet does not take ends the writing
/// too. What else can end it lies with the workbook, which may fail to make
/// the sheet or the bytes.
pub fn write_worksheet<N: NumberWriter>(
    records: WorksheetData,
    sheet_name: Option<String>,
    password: Option<String>,
    freeze_row: Option<u32>,
    freeze_col: Option<u16>,
    numbers: &mut N,
) -> (outcome: Result<Document, WriteError>)
    ensures
        sheet_name matches Some(name) ==> (!valid_sheet_name(name@) ==> (outcome matches Err(
            WriteError::Validation(refused),
        ) && refused@ == name@)),
        outcome matches Err(WriteError::Validation(_)) ==> (sheet_name matches Some(name)
            && !valid_sheet_name(name@)),
        outcome is Ok ==> freeze_accepted(freeze_row, freeze_col),
        outcome matches Err(WriteError::FreezePane(_)) ==> !freeze_accepted(freeze_row, freeze_col),
        outcome matches Ok(document) ==> document.sheets() == seq![
            named_sheet_calls(
                optional_text(sheet_name),
                records@,
                optional_text(password),
                freeze_row,
                freeze_col,
            ),
        ],
{
    if let Some(name) = &sheet_name {
        if !validate_sheet_name(name.as_str()) {
            return Err(WriteError::Validation(name.clone()));
        }
    }
    let mut book = BookSink::new();
    let filled = fill_sheet(
        book.new_sheet(),
        sheet_name.as_ref(),
        &records,
        password.as_ref(),
        freeze_row,
        freeze_col,
        numbers,
    );
    match filled {
        Ok(log) => {
            book.record(log);
        },
        Err(error) => {
            return Err(error);
        },
    }
    assert(book.sheets() =~= seq![
        named_sheet_calls(
            optional_text(sheet_name),
            records@,
            optional_text(password),
            freeze_row,
            freeze_col,
        ),
    ]);
    book.finish()
}

fn narrow_row(setting: Option<usize>) -> (row: Option<u32>)
    ensures
        row == narrowed_row(setting),
{
    match setting {
        Some(row) => Some(
            if row <= u32::MAX as usize {
                row as u32
            } else {
                u32::MAX
            },
        ),
        None => None,
    }
}

fn narrow_col(setting: Option<usize>) -> (col: Option<u16>)
    ensures
        col == narrowed_col(setting),
{
    match setting {
        Some(col) => Some(
            if col <= u16::MAX as usize {
                col as u16
            } else {
                u16::MAX
            },
        ),
        None => None,
    }
}

/// The first of the sheets whose name is not valid, if there is one.
fn first_invalid_name(sheets: &Vec<(String, WorksheetData)>) -> (found: Option<usize>)
    ensures
        match found {
            Some(at) => {
                &&& at < sheets@.len()
                &&& !valid_sheet_name(sheets@[at as int].0@)
                &&& forall|k: int| 0 <= k < at ==> valid_sheet_name((#[trigger] sheets@[k]).0@)
            },
            None => forall|k: int|
                0 <= k < sheets@.len() ==> valid_sheet_name((#[trigger] sheets@[k]).0@),
        },
{
    let mut at: usize = 0;
    while at < sheets.len()
        invariant
            at <= sheets@.len(),
            forall|k: int| 0 <= k < at ==> valid_sheet_name((#[trigger] sheets@[k]).0@),
        decreases sheets@.len() - at,
    {
        if !validate_sheet_name(sheets[at].0.as_str()) {
            return Some(at);
        }
        at += 1;
    }
    None
}

/// What is written into the sheet at `position` of a batch: its name, its
/// records, the password of the batch, and the freeze that the configuration
/// resolves for its name.
pub open spec fn batch_sheet_calls(
    sheets: Seq<(String, WorksheetData)>,
    password: Option<Seq<char>>,
    freeze_panes: Option<FreezePaneConfig>,
    position: int,
) -> Seq<SinkCall> {
    let name = sheets[position].0@;
    named_sheet_calls(
        Some(name),
        sheets[position].1@,
        password,
        configured_row(freeze_panes, name),
        configured_col(freeze_panes, name),
    )
}

/// Writes the sheets, in their order, and returns the document that holds
/// them.
///
/// All the names have to be valid: the first one that is not ends the
/// writing before anything is made. Each sheet is frozen as the
/// configuration resolves for its name, and each gets the password. The
/// first sheet that does not take its freeze ends the writing. What else can
/// end it lies with the workbook, which may fail to make a sheet or the
/// bytes.
pub fn write_worksheets<N: NumberWriter>(
    records_with_sheet_name: Vec<(String, WorksheetData)>,
    password: Option<String>,
    freeze_panes: Option<FreezePaneConfig>,
    numbers: &mut N,
) -> (outcome: Result<Document, WriteError>)
    ensures
        (exists|k: int|
            0 <= k < records_with_sheet_name@.len() && !valid_sheet_name(
                (#[trigger] records_with_sheet_name@[k]).0@,
            )) == (outcome matches Err(WriteError::Validation(_))),
        outcome matches Err(WriteError::Validation(refused)) ==> exists|at: int|
            {
                &&& 0 <= at < records_with_sheet_name@.len()
                &&& refused@ == (#[trigger] records_with_sheet_name@[at]).0@
                &&& !valid_sheet_name(refused@)
                &&& forall|k: int|
                    0 <= k < at ==> valid_sheet_name((#[trigger] records_with_sheet_name@[k]).0@)
            },
        outcome is Ok ==> forall|k: int|
            0 <= k < records_with_sheet_name@.len() ==> configured_freeze_accepted(
                freeze_panes,
                (#[trigger] records_with_sheet_name@[k]).0@,
            ),
        outcome matches Err(WriteError::FreezePane(_)) ==> exists|at: int|
            {
                &&& 0 <= at < records_with_sheet_name@.len()
                &&& !configured_freeze_accepted(
                    freeze_panes,
                    (#[trigger] records_with_sheet_name@[at]).0@,
                )
                &&& forall|k: int|
                    0 <= k < at ==> configured_freeze_accepted(
                        freeze_panes,
                        (#[trigger] records_with_sheet_name@[k]).0@,
                    )
            },
        outcome matches Ok(document) ==> {
            &&& document.sheets().len() == records_with_sheet_name@.len()
            &&& forall|k: int|
                0 <= k < records_with_sheet_name@.len() ==> (#[trigger] document.sheets()[k])
                    == batch_sheet_calls(
                    records_with_sheet_name@,
                    optional_text(password),
                    freeze_panes,
                    k,
                )
        },
{
    if let Some(at) = first_invalid_name(&records_with_sheet_name) {
        return Err(WriteError::Validation(records_with_sheet_name[at].0.clone()));
    }
    let mut book = BookSink::new();
    let mut position: usize = 0;
    while position < records_with_sheet_name.len()
        invariant
            position <= records_with_sheet_name@.len(),
            forall|k: int|
                0 <= k < records_with_sheet_name@.len() ==> valid_sheet_name(
                    (#[trigger] records_with_sheet_name@[k]).0@,
                ),
            forall|k: int|
                0 <= k < position ==> configured_freeze_accepted(
                    freeze_panes,
                    (#[trigger] records_with_sheet_name@[k]).0@,
                ),
            book.sheets().len() == position,
            forall|k: int|
                0 <= k < position ==> (#[trigger] book.sheets()[k]) == batch_sheet_calls(
                    records_with_sheet_name@,
                    optional_text(password),
                    freeze_panes,
                    k,
                ),
        decreases records_with_sheet_name@.len() - position,
    {
        let sheet = &records_with_sheet_name[position];
        let (freeze_row, freeze_col) = match &freeze_panes {
            Some(config) => {
                let (row, col) = config.resolve_axes(sheet.0.as_str());
                (narrow_row(row), narrow_col(col))
            },
            None => (None, None),
        };
        let filled = fill_sheet(
            book.new_sheet(),
            Some(&sheet.0),
            &sheet.1,
            password.as_ref(),
            freeze_row,
            freeze_col,
            numbers,
        );
        match filled {
            Ok(log) => {
                book.record(log);
            },
            Err(error) => {
                return Err(error);
            },
        }
        position += 1;
    }
    book.finish()
}

} // verus!
