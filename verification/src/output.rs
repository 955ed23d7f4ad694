//! The export of the rows of a result: as CSV, as pretty JSON, and the name
//! of the file that holds them.

use crate::cells::{object_keys, project_row, projected, CellStyle};
use crate::clock::{format_utc, utc_text, SECOND_PATTERN};
use crate::csvio::{
    csv_ready, csv_record, csv_width, csv_written, finish_writer, new_writer, write_record,
};
use crate::encode::pretty_json;
use crate::json::pretty_text;
use crate::result::{NonEmptyResults, OutputFormat};
use crate::text::strings_model;
use crate::value::{keys_of, CanonicalValue, JsonValue};
use vstd::prelude::*;
use vstd::utf8::encode_utf8;

verus! {

/// Why an export failed.
#[derive(Debug, Clone, Copy, PartialEq, Eq, Structural)]
pub enum ExportError {
    /// The first row is no object, so there are no columns.
    NotObjects,
    /// A later row is no object.
    RowNotObject,
    /// The CSV writer refused a record. It refuses none of the records of
    /// rows that are all objects, which are all as long as the header.
    Write,
    /// The rows could not be serialized to JSON. Canonical values always
    /// can.
    Serialize,
    /// The reference time lies outside the range of times that have a text.
    Timestamp,
}

impl ExportError {
    /// The message of the error.
    pub open spec fn spec_message(self) -> Seq<char> {
        match self {
            ExportError::NotObjects => "expected results to be an array of objects"@,
            ExportError::RowNotObject => "expected each result to be an object"@,
            ExportError::Write => "couldn't write results as CSV"@,
            ExportError::Serialize => "couldn't serialize results to JSON"@,
            ExportError::Timestamp => "couldn't format the reference time"@,
        }
    }

    /// The message of the error.
    pub fn message(&self) -> (r: &'static str)
        ensures
            r@ == self.spec_message(),
    {
        match self {
            ExportError::NotObjects => "expected results to be an array of objects",
            ExportError::RowNotObject => "expected each result to be an object",
            ExportError::Write => "couldn't write results as CSV",
            ExportError::Serialize => "couldn't serialize results to JSON",
            ExportError::Timestamp => "couldn't format the reference time",
        }
    }
}

/// Whether each of the first `n` rows is an object.
pub open spec fn all_objects(rows: Seq<JsonValue>, n: int) -> bool {
    forall|i: int| 0 <= i < n && i < rows.len() ==> #[trigger] rows[i] is Object
}

/// The CSV records for rows that are all objects: the keys of the first row
/// as the header, then each row projected onto these columns.
pub open spec fn csv_records(rows: Seq<JsonValue>) -> Seq<Seq<Seq<char>>> {
    let columns = keys_of(rows[0]->Object_0);
    seq![columns] + Seq::new(
        rows.len(),
        |i: int| projected(rows[i]->Object_0, columns, CellStyle::Csv),
    )
}

/// The bytes of the first `n` records, one after the other.
pub open spec fn csv_bytes(records: Seq<Seq<Seq<char>>>, n: nat) -> Seq<u8>
    decreases n,
{
    if n == 0 || n > records.len() {
        Seq::empty()
    } else {
        csv_bytes(records, (n - 1) as nat) + csv_record(records[n - 1])
    }
}

/// What a list of records is.
pub open spec fn records_model(records: Seq<Vec<String>>) -> Seq<Seq<Seq<char>>> {
    Seq::new(records.len(), |i: int| strings_model(records[i]@))
}

/// The CSV records of the rows: the header, then one record for each row. An
/// error where the first row, or a later one, is no object.
pub fn csv_table(results: &NonEmptyResults) -> (r: Result<Vec<Vec<String>>, ExportError>)
    ensures
        results@.len() >= 1,
        !(results@[0] is Object) ==> r == Err::<Vec<Vec<String>>, ExportError>(
            ExportError::NotObjects,
        ),
        results@[0] is Object && !all_objects(results@, results@.len() as int) ==> r == Err::<
            Vec<Vec<String>>,
            ExportError,
        >(ExportError::RowNotObject),
        all_objects(results@, results@.len() as int) ==> (r matches Ok(records) && records_model(
            records@,
        ) == csv_records(results@)),
{
    let rows = results.list();
    let first = match &rows[0] {
        CanonicalValue::Object(first) => first,
        _ => {
            return Err(ExportError::NotObjects);
        },
    };
    let headers = object_keys(first);
    let ghost columns = strings_model(headers@);
    let mut records: Vec<Vec<String>> = Vec::new();
    records.push(object_keys(first));
    let mut i: usize = 0;
    while i < rows.len()
        invariant
            i <= rows.len(),
            rows@ == results.rows(),
            results@[0] is Object,
            columns == strings_model(headers@),
            columns == keys_of(results@[0]->Object_0),
            all_objects(results@, i as int),
            records.len() == i + 1,
            strings_model(records[0]@) == columns,
            forall|j: int|
                0 <= j < i ==> strings_model((#[trigger] records[j + 1])@) == projected(
                    results@[j]->Object_0,
                    columns,
                    CellStyle::Csv,
                ),
        decreases rows.len() - i,
    {
        match &rows[i] {
            CanonicalValue::Object(row) => {
                let cells = project_row(row, &headers, CellStyle::Csv);
                records.push(cells);
            },
            _ => {
                proof {
                    assert(!(results@[i as int] is Object));
                }
                return Err(ExportError::RowNotObject);
            },
        }
        i += 1;
    }
    proof {
        let want = csv_records(results@);
        let have = records_model(records@);
        assert(have.len() == want.len());
        assert forall|j: int| 0 <= j < have.len() implies have[j] == want[j] by {
            if j > 0 {
                assert(strings_model(records[(j - 1) + 1]@) == projected(
                    results@[j - 1]->Object_0,
                    columns,
                    CellStyle::Csv,
                ));
            }
        }
        assert(have =~= want);
    }
    Ok(records)
}

/// The rows as CSV. The columns are the keys of the first row; a key that a
/// row lacks gives an empty field, and so does null. Rows that are all
/// objects are always written.
pub fn write_csv(results: &NonEmptyResults) -> (r: Result<Vec<u8>, ExportError>)
    ensures
        !(results@[0] is Object) ==> r == Err::<Vec<u8>, ExportError>(ExportError::NotObjects),
        results@[0] is Object && !all_objects(results@, results@.len() as int) ==> r == Err::<
            Vec<u8>,
            ExportError,
        >(ExportError::RowNotObject),
        all_objects(results@, results@.len() as int) ==> (r matches Ok(bytes) && bytes@
            == csv_bytes(csv_records(results@), csv_records(results@).len())),
{
    let records = match csv_table(results) {
        Ok(records) => records,
        Err(e) => {
            return Err(e);
        },
    };
    let ghost want = csv_records(results@);
    let mut writer = new_writer();
    let mut i: usize = 0;
    while i < records.len()
        invariant
            i <= records.len(),
            results@.len() >= 1,
            all_objects(results@, results@.len() as int),
            records_model(records@) == want,
            want == csv_records(results@),
            csv_written(writer) == csv_bytes(want, i as nat),
            csv_ready(writer),
            i == 0 ==> csv_width(writer) is None,
            i > 0 ==> csv_width(writer) == Some(want[0].len()),
        decreases records.len() - i,
    {
        proof {
            assert(want[i as int] == strings_model(records[i as int]@));
            assert(want[i as int].len() == want[0].len());
        }
        if !write_record(&mut writer, &records[i]) {
            // not reached: every record is as long as the header
            proof {
                assert(false);
            }
            return Err(ExportError::Write);
        }
        i += 1;
    }
    match finish_writer(writer) {
        Some(bytes) => Ok(bytes),
        None => {
            // not reached: the writer always hands out its bytes
            proof {
                assert(false);
            }
            Err(ExportError::Write)
        },
    }
}

/// The rows as a pretty-printed JSON array, in UTF-8. Every list of rows is
/// written.
pub fn write_json(results: &NonEmptyResults) -> (r: Result<Vec<u8>, ExportError>)
    ensures
        r matches Ok(bytes) && bytes@ == encode_utf8(pretty_text(results@)),
{
    match pretty_json(results.list()) {
        Some(text) => Ok(text.as_str().as_bytes_vec()),
        None => {
            // not reached: canonical values always have a text
            proof {
                assert(false);
            }
            Err(ExportError::Serialize)
        },
    }
}

/// The name of the file that holds results written at the reference time in
/// the given format: the time to the second, a dot, and the extension.
pub open spec fn file_name(secs: i64, format: OutputFormat) -> Option<Seq<char>> {
    match utc_text(secs, SECOND_PATTERN@) {
        Some(stamp) => Some(stamp + "."@ + format.spec_extension()),
        None => None,
    }
}

/// The name of the file that holds results written at the reference time,
/// given in seconds since the start of 1970, in the given format.
pub fn results_file_name(reference_secs: i64, format: &OutputFormat) -> (r: Option<String>)
    ensures
        match file_name(reference_secs, *format) {
            Some(name) => r matches Some(s) && s@ == name,
            None => r is None,
        },
{
    match format_utc(reference_secs, SECOND_PATTERN) {
        Some(stamp) => Some(stamp.concat(".").concat(format.extension())),
        None => None,
    }
}

/// The bytes of the rows in the given format.
pub fn render_results(results: &NonEmptyResults, format: &OutputFormat) -> (r: Result<
    Vec<u8>,
    ExportError,
>)
    ensures
        match *format {
            OutputFormat::Csv => {
                &&& !(results@[0] is Object) ==> r == Err::<Vec<u8>, ExportError>(
                    ExportError::NotObjects,
                )
                &&& results@[0] is Object && !all_objects(results@, results@.len() as int) ==> r
                    == Err::<Vec<u8>, ExportError>(ExportError::RowNotObject)
                &&& all_objects(results@, results@.len() as int) ==> (r matches Ok(bytes)
                    && bytes@ == csv_bytes(csv_records(results@), csv_records(results@).len()))
            },
            OutputFormat::Json => r matches Ok(bytes) && bytes@ == encode_utf8(
                pretty_text(results@),
            ),
        },
{
    match format {
        OutputFormat::Csv => write_csv(results),
        OutputFormat::Json => write_json(results),
    }
}

/// The file that holds the rows: its name, after the reference time and the
/// format, and its bytes. Nothing is handed out where the rows cannot be
/// written in the format.
pub fn write_results(results: &NonEmptyResults, format: &OutputFormat, reference_secs: i64) -> (r:
    Result<(String, Vec<u8>), ExportError>)
    ensures
        file_name(reference_secs, *format) is None ==> r == Err::<
            (String, Vec<u8>),
            ExportError,
        >(ExportError::Timestamp),
        file_name(reference_secs, *format) is Some ==> match r {
            Ok((name, bytes)) => {
                &&& name@ == file_name(reference_secs, *format)->0
                &&& match *format {
                    OutputFormat::Csv => all_objects(results@, results@.len() as int) && bytes@
                        == csv_bytes(csv_records(results@), csv_records(results@).len()),
                    OutputFormat::Json => bytes@ == encode_utf8(pretty_text(results@)),
                }
            },
            Err(e) => match *format {
                OutputFormat::Csv => {
                    &&& !all_objects(results@, results@.len() as int)
                    &&& e == if results@[0] is Object {
                        ExportError::RowNotObject
                    } else {
                        ExportError::NotObjects
                    }
                },
                OutputFormat::Json => false,
            },
        },
{
    let name = match results_file_name(reference_secs, format) {
        Some(name) => name,
        None => {
            return Err(ExportError::Timestamp);
        },
    };
    match render_results(results, format) {
        Ok(bytes) => Ok((name, bytes)),
        Err(e) => Err(e),
    }
}

} // verus!
