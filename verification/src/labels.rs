//! Core-type labels: the textual verdicts a probed core reports, and their
//! parsing.  Parsing is exact-match and case-sensitive; a probe capture is
//! trimmed of surrounding whitespace first.

use crate::text::{spec_trim, str_eq, str_range_eq, trimmed_bounds};
use vstd::prelude::*;

verus! {

/// The class of one logical core: performance (P) or efficiency (E).
#[derive(Debug, Clone, Copy, PartialEq, Eq, Structural)]
pub enum CoreType {
    P,
    E,
}

/// The parse of a label: exactly `"P_CORE"` is P, exactly `"E_CORE"` is E,
/// anything else is unrecognized.
pub open spec fn spec_parse_label(s: Seq<char>) -> Option<CoreType> {
    if s == "P_CORE"@ {
        Some(CoreType::P)
    } else if s == "E_CORE"@ {
        Some(CoreType::E)
    } else {
        None
    }
}

impl CoreType {
    /// Parse a verdict string; any text other than the two exact labels,
    /// whitespace included, is unrecognized.
    pub fn from_string(input: &str) -> (r: Option<CoreType>)
        ensures
            r == spec_parse_label(input@),
    {
        if str_eq(input, "P_CORE") {
            Some(CoreType::P)
        } else if str_eq(input, "E_CORE") {
            Some(CoreType::E)
        } else {
            None
        }
    }
}

/// Parse the captured output of a probe child: the text is trimmed of
/// leading and trailing whitespace, then matched exactly against the two
/// labels.
pub fn parse_captured_label(s: &str) -> (r: Option<CoreType>)
    ensures
        r == spec_parse_label(spec_trim(s@)),
{
    let (start, end) = trimmed_bounds(s);
    if str_range_eq(s, start, end, "P_CORE") {
        Some(CoreType::P)
    } else if str_range_eq(s, start, end, "E_CORE") {
        Some(CoreType::E)
    } else {
        None
    }
}

} // verus!
