//! What is written into a sheet, call by call.
//!
//! The functions here only describe: for a record set, a password and the
//! freeze of a sheet, they give the calls that writing the sheet makes, in
//! their order.

use crate::data_types::{
    cell_source, col_axis, entry_value, header_keys, resolved_axis, row_axis, FreezePaneConfig,
    RowEntries,
};
use crate::sink::{cell_calls, on_grid, SinkCall};
use crate::value::{classified, CellContent, DynamicValue};
use vstd::prelude::*;

verus! {

/// The sheet row of the record at `position`: the row below the header row
/// and the records before it. Past the last row that a `u32` can number, it
/// is that last row, which lies off the grid of a sheet like every row after
/// it.
pub open spec fn sheet_row(position: int) -> u32 {
    if position + 1 <= u32::MAX {
        (position + 1) as u32
    } else {
        u32::MAX
    }
}

/// The sheet column of the header at `position`. Past the last column that a
/// `u16` can number, it is that last column, which lies off the grid of a
/// sheet like every column after it.
pub open spec fn sheet_col(position: int) -> u16 {
    if position <= u16::MAX {
        position as u16
    } else {
        u16::MAX
    }
}

/// The calls that write the first `count` headers into row 0.
pub open spec fn header_calls(keys: Seq<Seq<char>>, count: int) -> Seq<SinkCall>
    decreases count,
{
    if count <= 0 {
        Seq::empty()
    } else {
        header_calls(keys, count - 1).push(
            SinkCall::Text { row: 0, col: sheet_col(count - 1), text: keys[count - 1] },
        )
    }
}

/// The calls that write the cells of one record under the first `count`
/// headers: for each header, in order, the classified value that the record
/// offers under it.
pub open spec fn row_calls(keys: Seq<Seq<char>>, entries: RowEntries, row: u32, count: int) -> Seq<
    SinkCall,
>
    decreases count,
{
    if count <= 0 {
        Seq::empty()
    } else {
        row_calls(keys, entries, row, count - 1) + cell_calls(
            row,
            sheet_col(count - 1),
            classified(cell_source(entries, keys[count - 1])),
        )
    }
}

/// The calls that write the first `count` records, one row each.
pub open spec fn rows_calls(keys: Seq<Seq<char>>, records: Seq<RowEntries>, count: int) -> Seq<
    SinkCall,
>
    decreases count,
{
    if count <= 0 {
        Seq::empty()
    } else {
        rows_calls(keys, records, count - 1) + row_calls(
            keys,
            records[count - 1],
            sheet_row(count - 1),
            keys.len() as int,
        )
    }
}

/// The calls that write a record set: none for an empty one; else the keys of
/// the first record as the header row, then every record, the first one too,
/// as a row of its own.
pub open spec fn body_calls(records: Seq<RowEntries>) -> Seq<SinkCall> {
    if records.len() == 0 {
        Seq::empty()
    } else {
        let keys = header_keys(records);
        header_calls(keys, keys.len() as int) + rows_calls(keys, records, records.len() as int)
    }
}

/// The cell at which a sheet is frozen: none where neither axis is set, and
/// 0 on an axis that is not set while the other is.
pub open spec fn freeze_cell(freeze_row: Option<u32>, freeze_col: Option<u16>) -> Option<
    (u32, u16),
> {
    match (freeze_row, freeze_col) {
        (Some(row), Some(col)) => Some((row, col)),
        (Some(row), None) => Some((row, 0u16)),
        (None, Some(col)) => Some((0u32, col)),
        (None, None) => None,
    }
}

/// Whether the sheet takes the freeze: there is none to take, or its cell
/// lies on the grid.
pub open spec fn freeze_accepted(freeze_row: Option<u32>, freeze_col: Option<u16>) -> bool {
    match freeze_cell(freeze_row, freeze_col) {
        Some((row, col)) => on_grid(row, col),
        None => true,
    }
}

/// The calls that follow the cells of a sheet: the fitting of the columns,
/// the freeze if there is one, and the protection if there is a password and
/// the sheet took the freeze.
pub open spec fn closing_calls(
    password: Option<Seq<char>>,
    freeze_row: Option<u32>,
    freeze_col: Option<u16>,
) -> Seq<SinkCall> {
    let freeze = match freeze_cell(freeze_row, freeze_col) {
        Some((row, col)) => seq![SinkCall::FreezePanes { row, col }],
        None => Seq::empty(),
    };
    let protect = match password {
        Some(password) if freeze_accepted(freeze_row, freeze_col) => seq![
            SinkCall::Protect { password },
        ],
        _ => Seq::empty(),
    };
    seq![SinkCall::Autofit] + freeze + protect
}

/// All the calls that write one sheet.
pub open spec fn sheet_calls(
    records: Seq<RowEntries>,
    password: Option<Seq<char>>,
    freeze_row: Option<u32>,
    freeze_col: Option<u16>,
) -> Seq<SinkCall> {
    body_calls(records) + closing_calls(password, freeze_row, freeze_col)
}

/// All the calls that write one sheet of a document: first its name, where
/// one is given, then its content.
pub open spec fn named_sheet_calls(
    name: Option<Seq<char>>,
    records: Seq<RowEntries>,
    password: Option<Seq<char>>,
    freeze_row: Option<u32>,
    freeze_col: Option<u16>,
) -> Seq<SinkCall> {
    let rename = match name {
        Some(name) => seq![SinkCall::Rename { name }],
        None => Seq::empty(),
    };
    rename + sheet_calls(records, password, freeze_row, freeze_col)
}

/// A row setting as a row of a sheet. One past the last row that a `u32` can
/// number becomes that last row, which lies off the grid like the setting.
pub open spec fn narrowed_row(setting: Option<usize>) -> Option<u32> {
    match setting {
        Some(row) => Some(
            if row <= u32::MAX {
                row as u32
            } else {
                u32::MAX
            },
        ),
        None => None,
    }
}

/// A column setting as a column of a sheet. One past the last column that a
/// `u16` can number becomes that last column, which lies off the grid like
/// the setting.
pub open spec fn narrowed_col(setting: Option<usize>) -> Option<u16> {
    match setting {
        Some(col) => Some(
            if col <= u16::MAX {
                col as u16
            } else {
                u16::MAX
            },
        ),
        None => None,
    }
}

/// The row at which the configuration freezes the sheet, if it sets one.
pub open spec fn configured_row(config: Option<FreezePaneConfig>, sheet_name: Seq<char>) -> Option<
    u32,
> {
    match config {
        Some(config) => narrowed_row(resolved_axis(config@, sheet_name, row_axis())),
        None => None,
    }
}

/// The column at which the configuration freezes the sheet, if it sets one.
pub open spec fn configured_col(config: Option<FreezePaneConfig>, sheet_name: Seq<char>) -> Option<
    u16,
> {
    match config {
        Some(config) => narrowed_col(resolved_axis(config@, sheet_name, col_axis())),
        None => None,
    }
}

/// Whether the sheet of that name takes the freeze that the configuration
/// holds for it.
pub open spec fn configured_freeze_accepted(
    config: Option<FreezePaneConfig>,
    sheet_name: Seq<char>,
) -> bool {
    freeze_accepted(configured_row(config, sheet_name), configured_col(config, sheet_name))
}

/// The header calls are as many as the headers, and the call at each place
/// writes the header of that place into row 0.
pub proof fn header_calls_write_the_keys(keys: Seq<Seq<char>>, count: int)
    requires
        0 <= count <= keys.len(),
    ensures
        header_calls(keys, count).len() == count,
        forall|c: int|
            0 <= c < count ==> (#[trigger] header_calls(keys, count)[c]) == (SinkCall::Text {
                row: 0,
                col: sheet_col(c),
                text: keys[c],
            }),
    decreases count,
{
    if count > 0 {
        header_calls_write_the_keys(keys, count - 1);
    }
}

/// The header row of a sheet is the key order of its first record: for a
/// record set of one record or more, the first calls into the sheet write
/// the keys of the first record into row 0, one after the other, whatever
/// the later records hold.
pub proof fn header_row_is_first_record_keys(
    records: Seq<RowEntries>,
    password: Option<Seq<char>>,
    freeze_row: Option<u32>,
    freeze_col: Option<u16>,
)
    requires
        records.len() >= 1,
    ensures
        sheet_calls(records, password, freeze_row, freeze_col).len() >= records[0].len(),
        forall|c: int|
            0 <= c < records[0].len() ==> (#[trigger] sheet_calls(
                records,
                password,
                freeze_row,
                freeze_col,
            )[c]) == (SinkCall::Text { row: 0, col: sheet_col(c), text: records[0][c].0 }),
{
    let keys = header_keys(records);
    header_calls_write_the_keys(keys, keys.len() as int);
}

/// A record that lacks a column and a record that holds no value under it
/// are written alike: both give an empty cell, written as an empty text.
pub proof fn missing_and_null_are_written_alike(
    lacking: RowEntries,
    holding_none: RowEntries,
    key: Seq<char>,
    row: u32,
    col: u16,
)
    requires
        entry_value(lacking, key) is None,
        entry_value(holding_none, key) == Some(None::<DynamicValue>),
    ensures
        classified(cell_source(lacking, key)) == CellContent::Empty,
        classified(cell_source(holding_none, key)) == CellContent::Empty,
        cell_calls(row, col, classified(cell_source(lacking, key))) == cell_calls(
            row,
            col,
            classified(cell_source(holding_none, key)),
        ),
        cell_calls(row, col, classified(cell_source(lacking, key))) == seq![
            SinkCall::Text { row, col, text: Seq::<char>::empty() },
        ],
{
}

/// Two records that offer the same value under every header are written
/// alike, whatever else sets them apart: the order of their entries, or
/// entries under other names.
pub proof fn rows_with_equal_sources_are_written_alike(
    keys: Seq<Seq<char>>,
    one: RowEntries,
    other: RowEntries,
    row: u32,
    count: int,
)
    requires
        0 <= count <= keys.len(),
        forall|c: int|
            0 <= c < count ==> cell_source(one, #[trigger] keys[c]) == cell_source(other, keys[c]),
    ensures
        row_calls(keys, one, row, count) == row_calls(keys, other, row, count),
    decreases count,
{
    if count > 0 {
        rows_with_equal_sources_are_written_alike(keys, one, other, row, count - 1);
    }
}

} // verus!
