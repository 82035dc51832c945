//! Records, record sets and the freeze-pane configuration.
//!
//! The ordered maps are `indexmap::IndexMap`. What such a map holds is known
//! to the verifier only by name, and through the contracts of the few calls
//! into it that are wrapped here.

use crate::value::DynamicValue;
use indexmap::IndexMap;
use vstd::prelude::*;

verus! {

/// `indexmap::IndexMap`. What a map holds is known by name only.
#[verifier::external_type_specification]
#[verifier::external_body]
#[verifier::reject_recursive_types(K)]
#[verifier::reject_recursive_types(V)]
#[verifier::reject_recursive_types(S)]
pub struct ExIndexMap<K, V, S>(IndexMap<K, V, S>);

/// What a record holds: its column names with their optional values, in
/// order.
pub type RowEntries = Seq<(Seq<char>, Option<DynamicValue>)>;

/// The entries of a record's map, in the order of the map.
pub uninterp spec fn row_entries(map: IndexMap<String, Option<DynamicValue>>) -> Seq<
    (Seq<char>, Option<DynamicValue>),
>;

/// The settings of one section of a freeze-pane configuration, by axis name.
pub uninterp spec fn axis_settings(map: IndexMap<String, usize>) -> Map<Seq<char>, usize>;

/// The sections of a freeze-pane configuration, by section name.
pub uninterp spec fn section_settings(map: IndexMap<String, IndexMap<String, usize>>) -> Map<
    Seq<char>,
    Map<Seq<char>, usize>,
>;

/// The value of the first entry under `key`, if there is one.
pub open spec fn entry_value(entries: RowEntries, key: Seq<char>) -> Option<Option<DynamicValue>>
    decreases entries.len(),
{
    if entries.len() == 0 {
        None
    } else if entries[0].0 == key {
        Some(entries[0].1)
    } else {
        entry_value(entries.drop_first(), key)
    }
}

/// The keys of the entries, in order.
pub open spec fn entry_keys(entries: RowEntries) -> Seq<Seq<char>> {
    Seq::new(entries.len(), |i: int| entries[i].0)
}

/// `IndexMap::keys`, each key cloned: the keys of the map in its order.
#[verifier::external_body]
fn map_keys(map: &IndexMap<String, Option<DynamicValue>>) -> (keys: Vec<String>)
    ensures
        keys@.len() == row_entries(*map).len(),
        forall|i: int| 0 <= i < keys@.len() ==> (#[trigger] keys@[i])@ == row_entries(*map)[i].0,
{
    map.keys().cloned().collect()
}

/// `IndexMap::get` on a record's map: the value stored under the key. A map
/// holds a key once, so this is the value of the first entry under it.
#[verifier::external_body]
fn map_get<'a>(map: &'a IndexMap<String, Option<DynamicValue>>, key: &str) -> (value: Option<
    &'a Option<DynamicValue>,
>)
    ensures
        (match value {
            Some(stored) => Some(*stored),
            None => None,
        }) == entry_value(row_entries(*map), key@),
{
    map.get(key)
}

/// `IndexMap::get` on one section: the setting stored under the axis name.
#[verifier::external_body]
fn axis_get(map: &IndexMap<String, usize>, key: &str) -> (value: Option<usize>)
    ensures
        value == (if axis_settings(*map).contains_key(key@) {
            Some(axis_settings(*map)[key@])
        } else {
            None
        }),
{
    map.get(key).copied()
}

/// `IndexMap::get` on the sections: the section stored under the name.
#[verifier::external_body]
fn section_get<'a>(map: &'a IndexMap<String, IndexMap<String, usize>>, key: &str) -> (value:
    Option<&'a IndexMap<String, usize>>)
    ensures
        (value is Some) == section_settings(*map).contains_key(key@),
        value matches Some(section) ==> axis_settings(*section) == section_settings(*map)[key@],
{
    map.get(key)
}

/// One record: an ordered mapping from column names to optional values.
#[derive(Debug)]
pub struct WorksheetRow {
    pub hash: IndexMap<String, Option<DynamicValue>>,
}

impl View for WorksheetRow {
    type V = RowEntries;

    open spec fn view(&self) -> Self::V {
        row_entries(self.hash)
    }
}

impl WorksheetRow {
    /// The column names of the record, in its order.
    pub fn keys(&self) -> (keys: Vec<String>)
        ensures
            keys@.len() == self@.len(),
            forall|i: int| 0 <= i < keys@.len() ==> (#[trigger] keys@[i])@ == self@[i].0,
    {
        map_keys(&self.hash)
    }

    /// The value under a column name; `None` where the record lacks the
    /// column and where it holds no value there.
    pub fn get(&self, key: &str) -> (value: Option<&DynamicValue>)
        ensures
            (match value {
                Some(v) => Some(*v),
                None => None,
            }) == cell_source(self@, key@),
    {
        match map_get(&self.hash, key) {
            Some(Some(v)) => Some(v),
            _ => None,
        }
    }
}

/// The value that a record offers for a column: none where the column is
/// missing, and none where the record holds no value under it.
pub open spec fn cell_source(entries: RowEntries, key: Seq<char>) -> Option<DynamicValue> {
    match entry_value(entries, key) {
        Some(Some(v)) => Some(v),
        _ => None,
    }
}

/// A record set: the rows of one sheet, in order.
#[derive(Debug)]
pub struct WorksheetData {
    pub records: Vec<WorksheetRow>,
}

impl View for WorksheetData {
    type V = Seq<RowEntries>;

    open spec fn view(&self) -> Self::V {
        Seq::new(self.records@.len(), |i: int| self.records@[i]@)
    }
}

/// The headers of a record set: the keys of its first record, in their
/// order, and none for an empty set. The later records have no say in them.
pub open spec fn header_keys(records: Seq<RowEntries>) -> Seq<Seq<char>> {
    if records.len() == 0 {
        Seq::empty()
    } else {
        entry_keys(records[0])
    }
}

impl WorksheetData {
    /// The headers of the record set.
    pub fn headers(&self) -> (headers: Vec<String>)
        ensures
            headers@.len() == header_keys(self@).len(),
            forall|i: int|
                0 <= i < headers@.len() ==> (#[trigger] headers@[i])@ == header_keys(self@)[i],
    {
        if self.records.len() == 0 {
            Vec::new()
        } else {
            self.records[0].keys()
        }
    }
}

/// The name of the section whose settings hold for every sheet.
pub open spec fn general_section() -> Seq<char> {
    "general"@
}

/// The axis name of the rows.
pub open spec fn row_axis() -> Seq<char> {
    "row"@
}

/// The axis name of the columns.
pub open spec fn col_axis() -> Seq<char> {
    "col"@
}

/// A two-level freeze-pane configuration: the section `general` holds the
/// defaults, a section named like a sheet holds what that sheet overrides.
/// A section sets the axis `row`, the axis `col`, both or neither.
#[derive(Debug)]
pub struct FreezePaneConfig {
    pub config: IndexMap<String, IndexMap<String, usize>>,
}

impl View for FreezePaneConfig {
    type V = Map<Seq<char>, Map<Seq<char>, usize>>;

    open spec fn view(&self) -> Self::V {
        section_settings(self.config)
    }
}

/// What one section sets for one axis.
pub open spec fn section_axis(
    sections: Map<Seq<char>, Map<Seq<char>, usize>>,
    section: Seq<char>,
    axis: Seq<char>,
) -> Option<usize> {
    if sections.contains_key(section) && sections[section].contains_key(axis) {
        Some(sections[section][axis])
    } else {
        None
    }
}

/// What holds for one axis of a sheet: the sheet's own setting where it has
/// one, else the general one, else nothing.
pub open spec fn resolved_axis(
    sections: Map<Seq<char>, Map<Seq<char>, usize>>,
    sheet_name: Seq<char>,
    axis: Seq<char>,
) -> Option<usize> {
    match section_axis(sections, sheet_name, axis) {
        Some(own) => Some(own),
        None => section_axis(sections, general_section(), axis),
    }
}

/// The cell at which a configuration freezes a sheet: on each axis what is
/// resolved for it, and 0 where nothing is. Without a configuration it is
/// the cell (0, 0), which freezes nothing.
pub open spec fn resolved_cell(config: Option<FreezePaneConfig>, sheet_name: Seq<char>) -> (
    usize,
    usize,
) {
    match config {
        Some(config) => (
            match resolved_axis(config@, sheet_name, row_axis()) {
                Some(row) => row,
                None => 0,
            },
            match resolved_axis(config@, sheet_name, col_axis()) {
                Some(col) => col,
                None => 0,
            },
        ),
        None => (0, 0),
    }
}

/// The row and the column at which the configuration freezes the sheet.
pub fn resolve(config: Option<&FreezePaneConfig>, sheet_name: &str) -> (cell: (usize, usize))
    ensures
        cell == resolved_cell(
            match config {
                Some(config) => Some(*config),
                None => None,
            },
            sheet_name@,
        ),
{
    match config {
        Some(config) => {
            let (row, col) = config.resolve_axes(sheet_name);
            (
                match row {
                    Some(row) => row,
                    None => 0,
                },
                match col {
                    Some(col) => col,
                    None => 0,
                },
            )
        },
        None => (0, 0),
    }
}

/// A setting of the sheet's own section wins over the general one, on each
/// axis by itself.
pub proof fn own_setting_wins(
    sections: Map<Seq<char>, Map<Seq<char>, usize>>,
    sheet_name: Seq<char>,
    axis: Seq<char>,
)
    requires
        section_axis(sections, sheet_name, axis) is Some,
    ensures
        resolved_axis(sections, sheet_name, axis) == section_axis(sections, sheet_name, axis),
{
}

/// An axis that the sheet's own section leaves open takes the general
/// setting, whatever the section sets for the other axis.
pub proof fn general_setting_fills_in(
    sections: Map<Seq<char>, Map<Seq<char>, usize>>,
    sheet_name: Seq<char>,
    axis: Seq<char>,
)
    requires
        section_axis(sections, sheet_name, axis) is None,
    ensures
        resolved_axis(sections, sheet_name, axis) == section_axis(
            sections,
            general_section(),
            axis,
        ),
{
}

/// An axis that neither level sets stays unfrozen: the resolved cell has 0
/// on it.
pub proof fn unset_axes_stay_unfrozen(config: FreezePaneConfig, sheet_name: Seq<char>)
    ensures
        section_axis(config@, sheet_name, row_axis()) is None && section_axis(
            config@,
            general_section(),
            row_axis(),
        ) is None ==> resolved_cell(Some(config), sheet_name).0 == 0,
        section_axis(config@, sheet_name, col_axis()) is None && section_axis(
            config@,
            general_section(),
            col_axis(),
        ) is None ==> resolved_cell(Some(config), sheet_name).1 == 0,
{
}

impl FreezePaneConfig {
    /// What the section `section` sets for the axis `axis`.
    fn setting(&self, section: &str, axis: &str) -> (value: Option<usize>)
        ensures
            value == section_axis(self@, section@, axis@),
    {
        match section_get(&self.config, section) {
            Some(settings) => axis_get(settings, axis),
            None => None,
        }
    }

    /// The row and the column setting that hold for the sheet, each axis
    /// resolved by itself.
    pub fn resolve_axes(&self, sheet_name: &str) -> (axes: (Option<usize>, Option<usize>))
        ensures
            axes.0 == resolved_axis(self@, sheet_name@, row_axis()),
            axes.1 == resolved_axis(self@, sheet_name@, col_axis()),
    {
        let row = match self.setting(sheet_name, "row") {
            Some(own) => Some(own),
            None => self.setting("general", "row"),
        };
        let col = match self.setting(sheet_name, "col") {
            Some(own) => Some(own),
            None => self.setting("general", "col"),
        };
        (row, col)
    }
}

} // verus!
