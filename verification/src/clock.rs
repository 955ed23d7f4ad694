//! The `chrono` call that the library makes: the text of a point in time.
//!
//! Nothing in this file is proved. The contract states what the named
//! `chrono` items do.

use vstd::prelude::*;

verus! {

/// The text that `chrono` writes, after `pattern`, for the UTC time that lies
/// `secs` seconds after the start of 1970; `None` for a time that `chrono`
/// cannot hold.
pub uninterp spec fn utc_text(secs: i64, pattern: Seq<char>) -> Option<Seq<char>>;

/// The pattern of year, month, day, hour, minute and second, with hyphens.
pub const SECOND_PATTERN: &'static str = "%Y-%m-%d-%H-%M-%S";

/// `DateTime::from_timestamp`, then `format` and `to_string`.
#[verifier::external_body]
pub(crate) fn format_utc(secs: i64, pattern: &str) -> (r: Option<String>)
    requires
        pattern@ == SECOND_PATTERN@,
    ensures
        match utc_text(secs, pattern@) {
            Some(text) => r matches Some(s) && s@ == text,
            None => r is None,
        },
{
    chrono::DateTime::from_timestamp(secs, 0).map(|t| t.format(pattern).to_string())
}

} // verus!
