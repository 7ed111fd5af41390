//! The cheap syntactic test that decides whether a line is looked at at all.

use vstd::prelude::*;
use vstd::string::StrSliceExecFns;

verus! {

/// A line looks like a JSON object when its first character is `{`.
pub open spec fn spec_looks_like_record(line: Seq<char>) -> bool {
    line.len() > 0 && line[0] == '{'
}

/// Decides from the first character alone whether `line` is worth parsing.
pub fn looks_like_record(line: &str) -> (b: bool)
    ensures
        b == spec_looks_like_record(line@),
{
    if line.is_empty() {
        false
    } else {
        line.get_char(0) == '{'
    }
}

} // verus!
