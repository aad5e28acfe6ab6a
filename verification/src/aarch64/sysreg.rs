//! What the values of system registers mean.
//!
//! Reading a system register takes an instruction of its own. The functions
//! here start from the value that was read.

use vstd::prelude::*;

use ::aarch64_cpu::registers::DAIF;

verus! {

/// The `I` bit of `DAIF`: IRQs are masked.
pub const DAIF_I: u64 = 0x80;

/// Asks `FieldValue::matches_all` whether a value of `DAIF` matches the field
/// value `DAIF::I::Masked`: whether bit 7 of the value is set.
#[verifier::external_body]
fn irqs_masked(daif: u64) -> (masked: bool)
    ensures
        masked == (daif & DAIF_I == DAIF_I),
{
    DAIF::I::Masked.matches_all(daif)
}

/// Returns whether a CPU whose `DAIF` register holds `daif` is allowed to
/// respond to interrupts: whether the `I` bit is clear.
pub fn irqs_enabled(daif: u64) -> (enabled: bool)
    ensures
        enabled == (daif & DAIF_I == 0),
{
    assert((daif & 0x80 == 0x80) == !(daif & 0x80 == 0)) by (bit_vector);
    !irqs_masked(daif)
}

} // verus!
