//! The partition layout: two adjacent index ranges over the logical CPU
//! indices, one for the P cores and one for the E cores, and its two-line
//! textual rendering.

use crate::text::{spec_u8_decimal, u8_decimal_string};
use vstd::prelude::*;
use vstd::string::StringExecFns;

verus! {

/// A range of logical CPU indices.  `start` and `end` are both indices the
/// range covers (`end` is the last one, not one past it); a range with
/// `start > end` is empty.
#[derive(Debug, Clone, Copy, PartialEq, Eq, Structural)]
pub struct CoreRange {
    pub start: u8,
    pub end: u8,
}

impl CoreRange {
    /// Whether index `i` lies in the range.
    pub open spec fn spec_contains(self, i: int) -> bool {
        self.start as int <= i && i <= self.end as int
    }
}

/// The rendering of a range: `start..end`.
pub open spec fn spec_range_string(r: CoreRange) -> Seq<char> {
    spec_u8_decimal(r.start as nat) + ".."@ + spec_u8_decimal(r.end as nat)
}

/// The two-line rendering of a layout.
pub open spec fn spec_layout_string(l: CorePELayout) -> Seq<char> {
    "P CORES: "@ + spec_range_string(l.p_cores) + "\nE Cores: "@ + spec_range_string(l.e_cores)
}

/// The ranges of logical CPU indices that hold each core type.  The P range
/// starts at index 0, the E range ends at the last logical index, and the two
/// are adjacent: together they cover every index exactly once.
#[derive(Debug, Clone, Copy, PartialEq, Eq, Structural)]
pub struct CorePELayout {
    pub p_cores: CoreRange,
    pub e_cores: CoreRange,
}

impl CorePELayout {
    /// Create the P and E core ranges partitioned at the index of the last
    /// P core, over `n_cores` logical CPU indices in all.
    pub fn new(p_core_end_idx: u8, n_cores: u8) -> (l: CorePELayout)
        requires
            p_core_end_idx < n_cores,
        ensures
            l == (CorePELayout {
                p_cores: CoreRange { start: 0, end: p_core_end_idx },
                e_cores: CoreRange {
                    start: (p_core_end_idx + 1) as u8,
                    end: (n_cores - 1) as u8,
                },
            }),
    {
        CorePELayout {
            p_cores: CoreRange { start: 0, end: p_core_end_idx },
            e_cores: CoreRange { start: p_core_end_idx + 1, end: n_cores - 1 },
        }
    }

    /// Whether index `i` lies in one of the two ranges.
    pub open spec fn covers(self, i: int) -> bool {
        self.p_cores.spec_contains(i) || self.e_cores.spec_contains(i)
    }

    /// Render the layout on two lines, one range per core class.
    pub fn formatted_string(&self) -> (s: String)
        ensures
            s@ == spec_layout_string(*self),
    {
        let mut out = String::new();
        out.append("P CORES: ");
        let d = u8_decimal_string(self.p_cores.start);
        out.append(d.as_str());
        out.append("..");
        let d = u8_decimal_string(self.p_cores.end);
        out.append(d.as_str());
        out.append("\nE Cores: ");
        let d = u8_decimal_string(self.e_cores.start);
        out.append(d.as_str());
        out.append("..");
        let d = u8_decimal_string(self.e_cores.end);
        out.append(d.as_str());
        proof {
            assert(out@ =~= spec_layout_string(*self));
        }
        out
    }
}

} // verus!
