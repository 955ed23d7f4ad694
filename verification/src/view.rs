//! The table that shows the rows of a result.

use crate::cells::{object_keys, project_row, projected, CellStyle};
use crate::result::{NonEmptyResults, QueryResults};
use crate::table::{builder_rows, builder_width, new_builder, psql_text, push_record, render_psql};
use crate::text::strings_model;
use crate::value::{keys_of, CanonicalValue, JsonValue};
use vstd::prelude::*;

verus! {

/// The records below the header for the first `n` rows: one for each row that
/// is an object, projected onto the columns; a row that is no object is
/// passed over.
pub open spec fn table_body(rows: Seq<JsonValue>, columns: Seq<Seq<char>>, n: nat) -> Seq<
    Seq<Seq<char>>,
>
    decreases n,
{
    if n == 0 || n > rows.len() {
        Seq::empty()
    } else {
        let rest = table_body(rows, columns, (n - 1) as nat);
        match rows[n - 1] {
            JsonValue::Object(row) => rest.push(projected(row, columns, CellStyle::Table)),
            _ => rest,
        }
    }
}

/// The records of the table for the rows: the keys of the first row as the
/// header, then the body under these columns. No record at all where the
/// first row is no object.
pub open spec fn table_records(rows: Seq<JsonValue>) -> Seq<Seq<Seq<char>>> {
    if rows.len() > 0 && rows[0] is Object {
        let columns = keys_of(rows[0]->Object_0);
        seq![columns] + table_body(rows, columns, rows.len())
    } else {
        Seq::empty()
    }
}

/// The text of the table that shows the rows.
pub fn get_results(results: &NonEmptyResults) -> (r: String)
    ensures
        r@ == psql_text(table_records(results@)),
{
    let rows = results.list();
    let mut builder = new_builder();
    if let CanonicalValue::Object(first) = &rows[0] {
        let headers = object_keys(first);
        let ghost columns = strings_model(headers@);
        push_record(&mut builder, object_keys(first));
        let mut i: usize = 0;
        while i < rows.len()
            invariant
                i <= rows.len(),
                rows@ == results.rows(),
                columns == strings_model(headers@),
                builder_width(builder) == columns.len(),
                builder_rows(builder) == seq![columns] + table_body(results@, columns, i as nat),
            decreases rows.len() - i,
        {
            if let CanonicalValue::Object(row) = &rows[i] {
                let cells = project_row(row, &headers, CellStyle::Table);
                push_record(&mut builder, cells);
                proof {
                    let rest = table_body(results@, columns, i as nat);
                    assert((seq![columns] + rest).push(strings_model(cells@)) =~= seq![columns]
                        + rest.push(strings_model(cells@)));
                }
            }
            i += 1;
        }
    }
    render_psql(builder)
}

/// The text that the console shows for the outcome of a query: the table
/// between empty lines, or a notice that there are no results.
pub open spec fn shown(results: QueryResults) -> Seq<char> {
    match results {
        QueryResults::NonEmpty(rows) => "\n"@ + psql_text(table_records(rows@)) + "\n"@,
        QueryResults::Empty => "\n no results\n"@,
    }
}

/// The text that the console shows for the outcome of a query.
pub fn show_results(results: &QueryResults) -> (r: String)
    ensures
        r@ == shown(*results),
{
    match results {
        QueryResults::NonEmpty(rows) => {
            let table = get_results(rows);
            String::from_str("\n").concat(table.as_str()).concat("\n")
        },
        QueryResults::Empty => String::from_str("\n no results\n"),
    }
}

} // verus!
