//! Segment selectors of the global descriptor table.

use vstd::prelude::*;

use ::x86_64::registers::segmentation::SegmentSelector;
use ::x86_64::PrivilegeLevel;

verus! {

/// Index of the descriptor of the user data segment.
pub const UDATA_INDEX: u16 = 5;

/// Index of the descriptor of the 64-bit user code segment.
pub const UCODE64_INDEX: u16 = 6;

/// The privilege level of user mode.
pub const USER_RING: u16 = 3;

/// Selector of the user data segment: descriptor 5, requested from ring 3.
pub const UDATA_SELECTOR: u16 = 0x2b;

/// Selector of the 64-bit user code segment: descriptor 6, requested from
/// ring 3.
pub const UCODE64_SELECTOR: u16 = 0x33;

/// A segment selector: the index of the descriptor in bits 3 and up, and the
/// requested privilege level in bits 0 and 1.
pub open spec fn selector_bits(index: u16, ring: u16) -> u16 {
    (index << 3) | ring
}

/// Builds a selector with `SegmentSelector::new`, after `PrivilegeLevel::from_u16`
/// has turned `ring` into a privilege level, and returns its bits: the index
/// shifted left by three, or-ed with the ring. An index fits in thirteen bits,
/// and a ring above 3 makes `from_u16` panic.
#[verifier::external_body]
fn segment_selector(index: u16, ring: u16) -> (bits: u16)
    requires
        index < 0x2000,
        ring <= 3,
    ensures
        bits == selector_bits(index, ring),
{
    SegmentSelector::new(index, PrivilegeLevel::from_u16(ring)).0
}

/// The selector of the user data segment.
pub fn udata_selector() -> (bits: u16)
    ensures
        bits == UDATA_SELECTOR,
{
    assert(selector_bits(5, 3) == 0x2b) by (bit_vector);
    segment_selector(UDATA_INDEX, USER_RING)
}

/// The selector of the 64-bit user code segment.
pub fn ucode64_selector() -> (bits: u16)
    ensures
        bits == UCODE64_SELECTOR,
{
    assert(selector_bits(6, 3) == 0x33) by (bit_vector);
    segment_selector(UCODE64_INDEX, USER_RING)
}

} // verus!
