//! The `tabled` calls that the library makes: collecting records in a
//! `Builder` and rendering them in the psql style.
//!
//! Nothing in this file is proved. Each contract states what the named
//! `tabled` item does.

use crate::text::strings_model;
use vstd::prelude::*;

verus! {

/// `tabled::builder::Builder`, opaque: only the calls below read or change it.
#[verifier::external_type_specification]
#[verifier::external_body]
pub struct ExBuilder(tabled::builder::Builder);

/// The records that a `Builder` holds, in the order in which they were pushed.
pub uninterp spec fn builder_rows(b: tabled::builder::Builder) -> Seq<Seq<Seq<char>>>;

/// The number of columns that a `Builder` counts: that of the record pushed
/// last, or the number it was made with.
pub uninterp spec fn builder_width(b: tabled::builder::Builder) -> nat;

/// The text that `tabled` renders for the records in the psql style: the
/// first record as the header, a rule below it, `|` between the columns.
pub uninterp spec fn psql_text(rows: Seq<Seq<Seq<char>>>) -> Seq<char>;

/// `Builder::default`: a builder without records, which counts no column.
#[verifier::external_body]
pub(crate) fn new_builder() -> (b: tabled::builder::Builder)
    ensures
        builder_rows(b) == Seq::<Seq<Seq<char>>>::empty(),
        builder_width(b) == 0,
{
    tabled::builder::Builder::default()
}

/// `Builder::push_record`: appends the record. A record shorter than the
/// builder's count of columns is padded, and a longer one pads the records
/// before it. A record of just that many cells, or any record pushed to a
/// builder that holds none and counts no column, is appended as it is and
/// leaves the others as they are.
#[verifier::external_body]
pub(crate) fn push_record(b: &mut tabled::builder::Builder, record: Vec<String>)
    requires
        builder_width(*old(b)) == record.len() || (builder_width(*old(b)) == 0 && builder_rows(
            *old(b),
        ).len() == 0),
    ensures
        builder_rows(*final(b)) == builder_rows(*old(b)).push(strings_model(record@)),
        builder_width(*final(b)) == record.len(),
{
    b.push_record(record);
}

/// `Builder::build`, `Table::with` on `Style::psql`, and `to_string`: the
/// text of the table of the builder's records.
#[verifier::external_body]
pub(crate) fn render_psql(b: tabled::builder::Builder) -> (s: String)
    ensures
        s@ == psql_text(builder_rows(b)),
{
    let mut table = b.build();
    table.with(tabled::settings::style::Style::psql());
    table.to_string()
}

} // verus!
