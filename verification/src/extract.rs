//! Recovery of the three fields of a line by pattern matching.
//!
//! A WAT line is long and only three of its fields are wanted, so the line
//! is not decoded as a whole: each field has a pattern of its own, and the
//! first capture group of the pattern is the field.

use vstd::prelude::*;
use crate::pattern::{capture, captured, compile, pattern_compiles, pattern_source};
use crate::record::{ExtractedFields, FieldsView};

verus! {

/// Finds the record identifier: what stands between `<urn:uuid:` and `>` in
/// the value of the key `WARC-Record-ID`.
pub const RECORD_ID_PATTERN: &'static str = "\"WARC-Record-ID\":\"<urn:uuid:([^>]+)>\"";

/// Finds the target URL: the quoted value of the key `WARC-Target-URI`, as
/// it stands in the line.
pub const TARGET_URL_PATTERN: &'static str = "\"WARC-Target-URI\":\"([^\"]+)\"";

/// Finds the links text: what follows the key `Links`, up to the first `]`,
/// which must come directly after a `}`.  This is no balanced scan: a `]`
/// inside the array ends or defeats the match.
pub const LINKS_PATTERN: &'static str = "\"Links\":([^]]+}])";

/// The capture group that holds the field, in each of the three patterns.
pub const FIELD_GROUP: usize = 1;

/// Names the pattern that could not be compiled.
#[derive(Clone, Copy, Debug, PartialEq, Eq)]
pub enum PatternFault {
    RecordId,
    TargetUrl,
    Links,
}

/// The first of the three patterns that does not compile, if there is one.
pub open spec fn pattern_fault() -> Option<PatternFault> {
    if !pattern_compiles(RECORD_ID_PATTERN@) {
        Some(PatternFault::RecordId)
    } else if !pattern_compiles(TARGET_URL_PATTERN@) {
        Some(PatternFault::TargetUrl)
    } else if !pattern_compiles(LINKS_PATTERN@) {
        Some(PatternFault::Links)
    } else {
        None
    }
}

/// The field that `pattern` finds in `line`: what its group holds for the
/// leftmost match, if there is a match.
pub open spec fn field_found(pattern: Seq<char>, line: Seq<char>) -> Option<Seq<char>> {
    captured(pattern, FIELD_GROUP, line)
}

/// The fields of a line: for each pattern what it finds in the line.
pub open spec fn fields_of(line: Seq<char>) -> FieldsView {
    FieldsView {
        record_id: field_found(RECORD_ID_PATTERN@, line),
        target_url: field_found(TARGET_URL_PATTERN@, line),
        raw_links: field_found(LINKS_PATTERN@, line),
    }
}

/// The three compiled patterns.  Compile once, then use for every line.
pub struct Extractor {
    record_id: regex::Regex,
    target_url: regex::Regex,
    links: regex::Regex,
}

impl Extractor {
    #[verifier::type_invariant]
    spec fn well_formed(self) -> bool {
        &&& pattern_source(self.record_id) == Some(RECORD_ID_PATTERN@)
        &&& pattern_source(self.target_url) == Some(TARGET_URL_PATTERN@)
        &&& pattern_source(self.links) == Some(LINKS_PATTERN@)
    }

    /// Compiles the three patterns.  Fails with the first pattern that the
    /// matcher refuses, and only then.
    pub fn new() -> (made: Result<Extractor, PatternFault>)
        ensures
            made is Ok <==> pattern_fault() is None,
            made matches Err(fault) ==> pattern_fault() == Some(fault),
    {
        let record_id = match compile(RECORD_ID_PATTERN) {
            Ok(re) => re,
            Err(_) => {
                return Err(PatternFault::RecordId);
            },
        };
        let target_url = match compile(TARGET_URL_PATTERN) {
            Ok(re) => re,
            Err(_) => {
                return Err(PatternFault::TargetUrl);
            },
        };
        let links = match compile(LINKS_PATTERN) {
            Ok(re) => re,
            Err(_) => {
                return Err(PatternFault::Links);
            },
        };
        Ok(Extractor { record_id, target_url, links })
    }

    /// Looks for the three fields in `line`, each on its own: one that is
    /// not found is absent, and the others are not touched by that.
    pub fn extract(&self, line: &str) -> (fields: ExtractedFields)
        ensures
            fields@ == fields_of(line@),
    {
        proof {
            use_type_invariant(self);
        }
        ExtractedFields {
            record_id: capture(&self.record_id, FIELD_GROUP, line),
            target_url: capture(&self.target_url, FIELD_GROUP, line),
            raw_links: capture(&self.links, FIELD_GROUP, line),
        }
    }
}

} // verus!
