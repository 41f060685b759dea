//! Memory-management checks made before the MMU is turned on.

use vstd::prelude::*;

verus! {

/// Whether the CPU's memory model (ID_AA64MMFR0_EL1) allows the set-up:
/// it is refused when the 4 KiB granule is not supported (bits 28..32 are
/// non-zero) or when the physical address range (bits 0..4) is below 1,
/// that is, narrower than 36 bits.
pub fn granule_supported(mmfr: u64) -> (ok: bool)
    ensures
        ok == !((mmfr & 0xF000_0000) != 0 || (mmfr & 0xF) < 1),
{
    !((mmfr & 0xF000_0000 != 0) || ((mmfr & 0xF) < 1))
}

} // verus!
