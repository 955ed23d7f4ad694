//! The completion of file names in a line of input: which part of the line
//! names a file.

use crate::text::starts_with;
use vstd::prelude::*;
use vstd::string::StringSliceAdditionalSpecFns;

verus! {

/// The mark that a line which names a file starts with.
pub const FILE_MARK: &'static str = "@";

/// The part of a line that names a file: what follows the mark, where the
/// line starts with the mark and the cursor stands at its end.
pub open spec fn segment_of(line: Seq<char>, at_end: bool) -> Option<Seq<char>> {
    if FILE_MARK@.is_prefix_of(line) && at_end {
        Some(line.skip(1))
    } else {
        None
    }
}

/// The part of the line that names a file, for a cursor at byte `pos`: `None`
/// where the line does not start with the mark, or the cursor stands before
/// the end of the line.
pub fn completion_segment(line: &str, pos: usize) -> (r: Option<&str>)
    ensures
        match segment_of(line@, pos >= line.spec_bytes().len()) {
            Some(segment) => r matches Some(s) && s@ == segment,
            None => r is None,
        },
{
    if !starts_with(line, FILE_MARK) {
        return None;
    }
    if pos < line.as_bytes().len() {
        return None;
    }
    proof {
        reveal_strlit("@");
    }
    let n = line.unicode_len();
    let segment = line.substring_char(1, n);
    assert(segment@ =~= line@.skip(1));
    Some(segment)
}

} // verus!
