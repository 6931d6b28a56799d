use vstd::prelude::*;

verus! {

/// Number of physical cores the hardware wakes.
pub const NUM_CORES: u32 = 4;

/// Pin driven high when the bring-up chain fails: the visible failure
/// indicator.
pub const FALLBACK_PIN: u32 = 17;

/// The fixed, total mapping from a core identifier to the pin that core
/// drives in its steady-state loop. Identifiers beyond the last physical
/// core map to no pin at all ("no action"), never to an error.
pub open spec fn spec_core_pin(core: u32) -> Option<u32> {
    if core == 0 {
        Some(17u32)
    } else if core == 1 {
        Some(18u32)
    } else if core == 2 {
        Some(20u32)
    } else if core == 3 {
        Some(21u32)
    } else {
        None
    }
}

/// Executable form of the core-to-pin mapping.
pub fn core_pin(core: u32) -> (r: Option<u32>)
    ensures
        r == spec_core_pin(core),
{
    match core {
        0 => Some(17),
        1 => Some(18),
        2 => Some(20),
        3 => Some(21),
        _ => None,
    }
}

/// The pin mapping is total on the physical core identifiers, assigns a
/// distinct pin to each of them, and maps every other identifier to
/// "no action".
pub proof fn lemma_core_pin_total_and_distinct()
    ensures
        forall|c: u32| c < NUM_CORES ==> (#[trigger] spec_core_pin(c)) is Some,
        forall|c1: u32, c2: u32|
            c1 < NUM_CORES && c2 < NUM_CORES && c1 != c2
                ==> #[trigger] spec_core_pin(c1) != #[trigger] spec_core_pin(c2),
        forall|c: u32| c >= NUM_CORES ==> (#[trigger] spec_core_pin(c)) is None,
{
}

} // verus!
