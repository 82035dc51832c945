//! The rule that sheet names have to meet.

use vstd::prelude::*;

verus! {

/// The longest sheet name, in characters.
pub const MAX_SHEET_NAME_CHARS: usize = 31;

/// Whether the character may not stand in a sheet name.
pub open spec fn forbidden_in_sheet_name(c: char) -> bool {
    c == '[' || c == ']' || c == ':' || c == '*' || c == '?' || c == '/' || c == '\\'
}

/// A sheet name is valid where it has at most 31 characters and none of them
/// is one of `[ ] : * ? / \`.
pub open spec fn valid_sheet_name(name: Seq<char>) -> bool {
    &&& name.len() <= MAX_SHEET_NAME_CHARS
    &&& forall|i: int| 0 <= i < name.len() ==> !forbidden_in_sheet_name(#[trigger] name[i])
}

fn is_forbidden(c: char) -> (forbidden: bool)
    ensures
        forbidden == forbidden_in_sheet_name(c),
{
    c == '[' || c == ']' || c == ':' || c == '*' || c == '?' || c == '/' || c == '\\'
}

/// Tells whether `name` can name a sheet.
pub fn validate_sheet_name(name: &str) -> (valid: bool)
    ensures
        valid == valid_sheet_name(name@),
{
    let length = name.unicode_len();
    if length > MAX_SHEET_NAME_CHARS {
        return false;
    }
    let mut i: usize = 0;
    while i < length
        invariant
            i <= length,
            length == name@.len(),
            forall|k: int| 0 <= k < i ==> !forbidden_in_sheet_name(#[trigger] name@[k]),
        decreases length - i,
    {
        if is_forbidden(name.get_char(i)) {
            return false;
        }
        i += 1;
    }
    true
}

} // verus!
