//! Turns tabular records into a spreadsheet document.
//!
//! A record is an ordered mapping from column names to optional, dynamically
//! typed values. The keys of the first record of a sheet are its header row;
//! every record becomes one row below it, each cell classified into exactly
//! one kind of spreadsheet cell. Sheets can freeze leading rows and columns
//! and can be protected with a password.
//!
//! The spreadsheet format itself is the business of `rust_xlsxwriter`; this
//! crate decides what is handed to it, in which order, and which failures end
//! the work.
//!
//! - [`value`]: dynamically typed values and their classification into cells.
//! - [`data_types`]: records, record sets and the freeze-pane configuration.
//! - [`utils`]: the rule for sheet names.
//! - [`sink`]: the calls into a sheet and into a workbook, and the record of
//!   the calls made.
//! - [`layout`]: the calls that writing a sheet consists of.
//! - [`worksheet`]: writing sheets and whole documents.
//! - [`error`]: the failures that end the writing.

pub mod data_types;
pub mod error;
pub mod layout;
pub mod sink;
pub mod utils;
pub mod value;
pub mod worksheet;

pub use data_types::{resolve, FreezePaneConfig, WorksheetData, WorksheetRow};
pub use error::WriteError;
pub use sink::{BookSink, Document, NumberWriter, SheetLog, SheetSink};
pub use utils::validate_sheet_name;
pub use value::{classify, CellContent, CellValue, DateTimeParts, DynamicValue};
pub use worksheet::{write_worksheet, write_worksheet_content, write_worksheets};
