//! Classification of raw hardware-query register values.  The caller reads
//! the registers (a privileged query that must run on the core in question);
//! the functions here hold the classification rules themselves.

use crate::text::{spec_u32_binary, spec_u8_binary, u32_binary_string, u8_binary_string};
use vstd::prelude::*;
use vstd::string::StringExecFns;

verus! {

/// Whether the hybrid-architecture feature bit is set in the `edx` register
/// of the structured extended feature flags leaf.
pub open spec fn spec_hybrid_flag(edx: u32) -> bool {
    (edx >> 14u32) & 1u32 == 1u32
}

/// Read the hybrid-architecture feature bit out of the `edx` register of the
/// structured extended feature flags leaf.
pub fn hybrid_bit_set(edx: u32) -> (r: bool)
    ensures
        r == spec_hybrid_flag(edx),
{
    ((edx >> 14u32) & 1u32) == 1u32
}

/// The label for an `eax` register of the hybrid-topology leaf: the top byte
/// names the core type, `64` a P core and `32` an E core; anything else is
/// echoed in a diagnostic line.
pub open spec fn spec_core_label(eax: u32) -> Seq<char> {
    if eax >> 24u32 == 64u32 {
        "P_CORE"@
    } else if eax >> 24u32 == 32u32 {
        "E_CORE"@
    } else {
        "UNRECOGNISED: indicator-range="@ + spec_u8_binary((eax >> 24u32) as u8) + ", eax_reg="@
            + spec_u32_binary(eax)
    }
}

/// Classify a core from the `eax` register of the hybrid-topology leaf read
/// on that core, producing the label text the core reports.
pub fn classify_core_register(eax: u32) -> (s: String)
    ensures
        s@ == spec_core_label(eax),
{
    let indicator = eax >> 24u32;
    if indicator == 64 {
        String::from_str("P_CORE")
    } else if indicator == 32 {
        String::from_str("E_CORE")
    } else {
        proof {
            assert(eax >> 24u32 < 256) by (bit_vector);
        }
        let mut out = String::new();
        out.append("UNRECOGNISED: indicator-range=");
        let b = u8_binary_string(indicator as u8);
        out.append(b.as_str());
        out.append(", eax_reg=");
        let b = u32_binary_string(eax);
        out.append(b.as_str());
        proof {
            assert(out@ =~= spec_core_label(eax));
        }
        out
    }
}

} // verus!
