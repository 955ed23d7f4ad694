//! The text of one value in a table cell or in a CSV field, and the
//! projection of a row onto a fixed list of columns.

use crate::encode::compact_json;
use crate::json::compact_text;
use crate::text::strings_model;
use crate::value::{lookup, CanonicalValue, JsonValue, Object};
use vstd::prelude::*;

verus! {

/// The two renderings of a cell.
#[derive(Debug, Clone, Copy, PartialEq, Eq, Structural)]
pub enum CellStyle {
    /// A table cell: null shows as the text `null`.
    Table,
    /// A CSV field: null shows as nothing.
    Csv,
}

/// The text of a value in a table cell: a string as it is, null as `null`,
/// anything else as its compact JSON text.
pub open spec fn table_cell(v: JsonValue) -> Seq<char> {
    match v {
        JsonValue::String(s) => s,
        JsonValue::Null => "null"@,
        _ => compact_text(v),
    }
}

/// The text of a value in a CSV field: a string as it is, null as nothing,
/// a boolean as `true` or `false`, anything else as its compact JSON text.
pub open spec fn csv_field(v: JsonValue) -> Seq<char> {
    match v {
        JsonValue::Null => Seq::empty(),
        JsonValue::Bool(b) => if b {
            "true"@
        } else {
            "false"@
        },
        JsonValue::String(s) => s,
        _ => compact_text(v),
    }
}

/// The text of a value in a cell of the given style.
pub open spec fn cell_text(style: CellStyle, v: JsonValue) -> Seq<char> {
    match style {
        CellStyle::Table => table_cell(v),
        CellStyle::Csv => csv_field(v),
    }
}

/// The cells of a row under the given columns: for each column the text of
/// the value that the row binds to it, and nothing where it binds none.
pub open spec fn projected(
    row: Seq<(Seq<char>, JsonValue)>,
    columns: Seq<Seq<char>>,
    style: CellStyle,
) -> Seq<Seq<char>> {
    Seq::new(
        columns.len(),
        |i: int|
            match lookup(row, columns[i]) {
                Some(v) => cell_text(style, v),
                None => Seq::empty(),
            },
    )
}

/// A column that the row binds to nothing gives an empty cell, in a table
/// and in CSV alike: never the text `null`.
pub proof fn lemma_missing_key_is_empty(
    row: Seq<(Seq<char>, JsonValue)>,
    columns: Seq<Seq<char>>,
    style: CellStyle,
    i: int,
)
    requires
        0 <= i < columns.len(),
        lookup(row, columns[i]) is None,
    ensures
        projected(row, columns, style)[i] == Seq::<char>::empty(),
        projected(row, columns, style)[i] != "null"@,
{
    reveal_strlit("null");
    assert("null"@.len() == 4);
}

/// A column that the row binds to null shows the text `null` in a table and
/// nothing in CSV.
pub proof fn lemma_null_cell(row: Seq<(Seq<char>, JsonValue)>, columns: Seq<Seq<char>>, i: int)
    requires
        0 <= i < columns.len(),
        lookup(row, columns[i]) == Some(JsonValue::Null),
    ensures
        projected(row, columns, CellStyle::Table)[i] == "null"@,
        projected(row, columns, CellStyle::Csv)[i] == Seq::<char>::empty(),
{
}

/// The text of a value in a table cell.
pub fn value_to_table_cell(value: &CanonicalValue) -> (r: String)
    ensures
        r@ == table_cell(value@),
{
    match value {
        CanonicalValue::String(s) => s.clone(),
        CanonicalValue::Null => String::from_str("null"),
        _ => compact_json(value),
    }
}

/// The text of a value in a CSV field.
pub fn value_to_csv_field(value: &CanonicalValue) -> (r: String)
    ensures
        r@ == csv_field(value@),
{
    match value {
        CanonicalValue::Null => String::new(),
        CanonicalValue::Bool(b) => {
            if *b {
                String::from_str("true")
            } else {
                String::from_str("false")
            }
        },
        CanonicalValue::String(s) => s.clone(),
        _ => compact_json(value),
    }
}

/// The keys of an object, in key order.
pub fn object_keys(row: &Object) -> (keys: Vec<String>)
    ensures
        strings_model(keys@) == crate::value::keys_of(row@),
{
    let n = row.len();
    let mut keys: Vec<String> = Vec::new();
    let mut i: usize = 0;
    while i < n
        invariant
            n == row@.len(),
            i <= n,
            keys.len() == i,
            forall|j: int| 0 <= j < i ==> (#[trigger] keys[j])@ == row@[j].0,
        decreases n - i,
    {
        keys.push(row.key(i).clone());
        i += 1;
    }
    proof {
        assert(strings_model(keys@) =~= crate::value::keys_of(row@));
    }
    keys
}

/// The cells of a row under the given columns.
pub fn project_row(row: &Object, columns: &Vec<String>, style: CellStyle) -> (cells: Vec<String>)
    ensures
        strings_model(cells@) == projected(row@, strings_model(columns@), style),
        cells.len() == columns.len(),
{
    let mut cells: Vec<String> = Vec::new();
    let mut i: usize = 0;
    while i < columns.len()
        invariant
            i <= columns.len(),
            cells.len() == i,
            forall|j: int|
                0 <= j < i ==> (#[trigger] cells[j])@ == projected(
                    row@,
                    strings_model(columns@),
                    style,
                )[j],
        decreases columns.len() - i,
    {
        let cell = match row.get(columns[i].as_str()) {
            Some(v) => match style {
                CellStyle::Table => value_to_table_cell(v),
                CellStyle::Csv => value_to_csv_field(v),
            },
            None => String::new(),
        };
        cells.push(cell);
        i += 1;
    }
    proof {
        assert(strings_model(cells@) =~= projected(row@, strings_model(columns@), style));
    }
    cells
}

} // verus!
