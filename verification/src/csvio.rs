//! The `csv` calls that the library makes: writing records to a
//! `csv::Writer` over a byte buffer.
//!
//! Nothing in this file is proved. Each contract states what the named
//! `csv` item does.

use crate::text::strings_model;
use vstd::prelude::*;

verus! {

/// A `csv::Writer` over a byte buffer, opaque: only the calls below make,
/// change or read one.
#[verifier::external_body]
pub struct CsvBuffer {
    writer: csv::Writer<Vec<u8>>,
}

/// The bytes written to a writer so far.
pub uninterp spec fn csv_written(w: CsvBuffer) -> Seq<u8>;

/// The number of fields of the first record that a writer took, which it
/// asks of every later record; `None` before the first record.
pub uninterp spec fn csv_width(w: CsvBuffer) -> Option<nat>;

/// Whether a writer stands at the start of a record: no field of a record
/// that it did not finish is left in it.
pub uninterp spec fn csv_ready(w: CsvBuffer) -> bool;

/// The bytes that `csv` writes for one record: its fields, quoted where
/// needed, with `,` between them and a line end after them.
pub uninterp spec fn csv_record(fields: Seq<Seq<char>>) -> Seq<u8>;

/// `Writer::from_writer` on an empty `Vec<u8>`: nothing is written yet, no
/// record was taken, and the writer stands at the start of a record.
#[verifier::external_body]
pub(crate) fn new_writer() -> (w: CsvBuffer)
    ensures
        csv_written(w) == Seq::<u8>::empty(),
        csv_width(w) is None,
        csv_ready(w),
{
    CsvBuffer { writer: csv::Writer::from_writer(Vec::new()) }
}

/// `Writer::write_record`: whether the record was written. The writer
/// refuses a record only for a number of fields other than that of the first
/// record, since every write to its `Vec<u8>` appends. At the start of a
/// record, the bytes of a record that was written follow what was written
/// before, and the writer stands at the start of the next record. After a
/// refusal the fields of the refused record stay in the writer, so nothing
/// is said of a writer that does not stand at the start of a record.
#[verifier::external_body]
pub(crate) fn write_record(w: &mut CsvBuffer, record: &Vec<String>) -> (ok: bool)
    ensures
        csv_ready(*old(w)) && (csv_width(*old(w)) matches Some(n) ==> n == record.len()) ==> ok,
        ok && csv_ready(*old(w)) ==> csv_written(*final(w)) == csv_written(*old(w)) + csv_record(
            strings_model(record@),
        ),
        ok && csv_ready(*old(w)) ==> csv_ready(*final(w)) && csv_width(*final(w)) == Some(
            match csv_width(*old(w)) {
                Some(n) => n,
                None => record.len() as nat,
            },
        ),
{
    w.writer.write_record(record).is_ok()
}

/// `Writer::into_inner`: the bytes written. Flushing appends what the writer
/// still holds to its `Vec<u8>`, which does not fail.
#[verifier::external_body]
pub(crate) fn finish_writer(w: CsvBuffer) -> (r: Option<Vec<u8>>)
    ensures
        r is Some,
        r matches Some(bytes) ==> bytes@ == csv_written(w),
{
    w.writer.into_inner().ok()
}

} // verus!
