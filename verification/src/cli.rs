use vstd::prelude::*;

use crate::password::{RowView, StoredPassword};
use vstd::string::StringExecFns;

verus! {

/// What the line-mode menu can be asked to do.
#[derive(Clone, Copy, Debug, PartialEq, Eq, Structural)]
pub enum OperationMode {
    Entry,
    Delete,
    Search,
    List,
    Copy,
    Exit,
}

/// The menu mapping: options 0 through 5, in menu order; everything else
/// is no choice.
pub open spec fn spec_menu_choice(value: usize) -> Option<OperationMode> {
    if value == 0 {
        Some(OperationMode::Entry)
    } else if value == 1 {
        Some(OperationMode::Delete)
    } else if value == 2 {
        Some(OperationMode::Search)
    } else if value == 3 {
        Some(OperationMode::List)
    } else if value == 4 {
        Some(OperationMode::Copy)
    } else if value == 5 {
        Some(OperationMode::Exit)
    } else {
        None
    }
}

/// Resolves a parsed menu number to the operation it names, exactly as
/// the menu shows them.
pub fn menu_choice(value: usize) -> (r: Option<OperationMode>)
    ensures
        r == spec_menu_choice(value),
{
    match value {
        0 => Some(OperationMode::Entry),
        1 => Some(OperationMode::Delete),
        2 => Some(OperationMode::Search),
        3 => Some(OperationMode::List),
        4 => Some(OperationMode::Copy),
        5 => Some(OperationMode::Exit),
        _ => None,
    }
}

/// The character of one decimal digit.
pub open spec fn dec_digit(d: int) -> char {
    if d == 0 {
        '0'
    } else if d == 1 {
        '1'
    } else if d == 2 {
        '2'
    } else if d == 3 {
        '3'
    } else if d == 4 {
        '4'
    } else if d == 5 {
        '5'
    } else if d == 6 {
        '6'
    } else if d == 7 {
        '7'
    } else if d == 8 {
        '8'
    } else {
        '9'
    }
}

/// The decimal digits of a natural number, most significant first.
pub open spec fn dec_digits(n: nat) -> Seq<char>
    decreases n,
{
    if n < 10 {
        seq![dec_digit(n as int)]
    } else {
        dec_digits(n / 10).push(dec_digit((n % 10) as int))
    }
}

/// The decimal notation of an id: its digits, behind a minus sign when it
/// is negative.
pub open spec fn dec_str(id: i64) -> Seq<char> {
    if id < 0 {
        seq!['-'] + dec_digits((-id) as nat)
    } else {
        dec_digits(id as nat)
    }
}

/// Relies on `i64`'s decimal formatting through `format!`: the digits of
/// the id, most significant first, behind a minus sign when negative.
#[verifier::external_body]
fn fmt_id(id: i64) -> (s: String)
    ensures
        s@ == dec_str(id),
{
    format!("{}", id)
}

/// The header of the record table, one caption per column.
pub open spec fn header_row() -> Seq<Seq<char>> {
    seq![
        "Id"@,
        "Title"@,
        "Username"@,
        "Password"@,
        "Email"@,
        "Recovery Codes"@,
        "Access Tokens"@,
        "Notes"@,
    ]
}

/// One table row: the record's id in decimal, then its fields in column
/// order.
pub open spec fn spec_table_row(rv: RowView) -> Seq<Seq<char>> {
    seq![
        dec_str(rv.id),
        rv.entry.title,
        rv.entry.username,
        rv.entry.password,
        rv.entry.email,
        rv.entry.recovery_codes,
        rv.entry.access_tokens,
        rv.entry.notes,
    ]
}

/// The values of a row of cells.
pub open spec fn strings_of(s: Seq<String>) -> Seq<Seq<char>> {
    s.map_values(|x: String| x@)
}

/// The record list as rows of text cells, ready for any table renderer:
/// the header row, then one row per record in the given order.
pub fn table_rows(passwords: &Vec<StoredPassword>) -> (rows: Vec<Vec<String>>)
    ensures
        rows@.len() == passwords@.len() + 1,
        strings_of(rows@[0]@) == header_row(),
        forall|i: int| 0 <= i < passwords@.len()
            ==> strings_of(#[trigger] rows@[i + 1]@) == spec_table_row(passwords@[i]@),
{
    let header: Vec<String> = vec![
        String::from_str("Id"),
        String::from_str("Title"),
        String::from_str("Username"),
        String::from_str("Password"),
        String::from_str("Email"),
        String::from_str("Recovery Codes"),
        String::from_str("Access Tokens"),
        String::from_str("Notes"),
    ];
    proof {
        assert(strings_of(header@) =~= header_row());
    }
    let mut rows: Vec<Vec<String>> = Vec::new();
    rows.push(header);
    let mut i: usize = 0;
    while i < passwords.len()
        invariant
            i <= passwords@.len(),
            rows@.len() == i + 1,
            strings_of(rows@[0]@) == header_row(),
            forall|j: int| 0 <= j < i
                ==> strings_of(#[trigger] rows@[j + 1]@) == spec_table_row(passwords@[j]@),
        decreases passwords@.len() - i,
    {
        let p = &passwords[i];
        let row: Vec<String> = vec![
            fmt_id(p.id),
            p.entry.title.clone(),
            p.entry.username.clone(),
            p.entry.password.clone(),
            p.entry.email.clone(),
            p.entry.recovery_codes.clone(),
            p.entry.access_tokens.clone(),
            p.entry.notes.clone(),
        ];
        proof {
            assert(strings_of(row@) =~= spec_table_row(p@));
        }
        rows.push(row);
        i += 1;
    }
    rows
}

} // verus!
