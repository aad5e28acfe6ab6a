//! The state from which a CPU enters user mode.

use vstd::prelude::*;

use ::aarch64_cpu::registers::SPSR_EL1;

use super::context::{Registers, TrapFrame, GENERAL_REGISTERS};

verus! {

/// The value of `SPSR_EL1` with which a new user context starts: `eret`
/// returns to EL0 with IRQs unmasked and with debug exceptions, SErrors and
/// FIQs masked.
pub const USER_SPSR: u64 = 0x340;

/// The mode field of `SPSR_EL1`, bits 0 to 3: the exception level and stack
/// pointer that `eret` returns to. Zero is `EL0t`, user mode.
pub const SPSR_MODE_MASK: u64 = 0xf;

/// Adds up the `SPSR_EL1` fields of a new user context and reads the value of
/// the sum: mode `EL0t` (zero in bits 0 to 3), `D` masked (bit 9), `A` masked
/// (bit 8), `I` unmasked (bit 7 clear) and `F` masked (bit 6).
#[verifier::external_body]
fn user_spsr() -> (bits: u64)
    ensures
        bits == USER_SPSR,
{
    (SPSR_EL1::M::EL0t
        + SPSR_EL1::D::Masked
        + SPSR_EL1::A::Masked
        + SPSR_EL1::I::Unmasked
        + SPSR_EL1::F::Masked)
        .value
}

/// Context to enter user space: the registers that the CPU holds when it
/// starts to run in user mode.
pub struct UspaceContext(TrapFrame);

impl View for UspaceContext {
    type V = Registers;

    /// The registers that the context holds.
    closed spec fn view(&self) -> Registers {
        self.0@
    }
}

impl UspaceContext {
    /// The registers of a new context: the entry point in `elr`, the user
    /// stack in `usp`, the argument in `x0`, the user-mode status, and every
    /// other general-purpose register zero.
    pub open spec fn new_frame(entry: usize, ustack_top: usize, arg0: usize) -> Registers {
        Registers {
            r: Registers::zero().r.update(0, arg0 as u64),
            usp: ustack_top as u64,
            elr: entry as u64,
            spsr: USER_SPSR,
        }
    }

    /// The registers of a context made from a captured frame: those of the
    /// captured frame, with mode `EL0t` in `spsr`, whatever it held there, so
    /// that `eret` returns to user mode.
    pub open spec fn user_frame(tf: TrapFrame) -> Registers {
        Registers { spsr: tf.spsr & !SPSR_MODE_MASK, ..tf@ }
    }

    /// The instruction pointer of the context.
    pub open spec fn spec_get_ip(&self) -> usize {
        self@.elr as usize
    }

    /// The stack pointer of the context.
    pub open spec fn spec_get_sp(&self) -> usize {
        self@.usp as usize
    }

    /// The register that holds a system call's result.
    pub open spec fn spec_retval(&self) -> usize {
        self@.r[0] as usize
    }

    /// Creates an empty context with all registers set to zero.
    pub fn empty() -> (ctx: Self)
        ensures
            ctx@ == Registers::zero(),
    {
        UspaceContext(TrapFrame::new())
    }

    /// Creates a new context with the given entry point, user stack pointer,
    /// and the argument.
    pub fn new(entry: usize, ustack_top: usize, arg0: usize) -> (ctx: Self)
        ensures
            ctx@ == Self::new_frame(entry, ustack_top, arg0),
            ctx.spec_get_ip() == entry,
            ctx.spec_get_sp() == ustack_top,
            ctx@.r[0] == arg0,
            forall|i: int| 1 <= i < GENERAL_REGISTERS ==> ctx@.r[i] == 0,
    {
        let mut regs = [0u64; 31];
        regs[0] = arg0 as u64;
        let frame = TrapFrame {
            r: regs,
            usp: ustack_top as u64,
            elr: entry as u64,
            spsr: user_spsr(),
        };
        assert(frame@.r =~= Self::new_frame(entry, ustack_top, arg0).r);
        UspaceContext(frame)
    }

    /// Creates a new context from the given [`TrapFrame`].
    ///
    /// It copies all registers, and clears the mode field of `spsr`: the
    /// context returns to EL0 even where the frame was captured at EL1.
    pub fn from(trap_frame: &TrapFrame) -> (ctx: Self)
        ensures
            ctx@ == Self::user_frame(*trap_frame),
    {
        let mut frame = *trap_frame;
        frame.spsr = frame.spsr & !SPSR_MODE_MASK;
        UspaceContext(frame)
    }

    /// The registers that the context holds.
    pub fn trap_frame(&self) -> (frame: &TrapFrame)
        ensures
            frame@ == self@,
    {
        &self.0
    }

    /// Gets the instruction pointer.
    #[verifier::when_used_as_spec(spec_get_ip)]
    pub fn get_ip(&self) -> (ip: usize)
        ensures
            ip == self.spec_get_ip(),
    {
        self.0.elr as usize
    }

    /// Gets the stack pointer.
    #[verifier::when_used_as_spec(spec_get_sp)]
    pub fn get_sp(&self) -> (sp: usize)
        ensures
            sp == self.spec_get_sp(),
    {
        self.0.usp as usize
    }

    /// Sets the instruction pointer.
    pub fn set_ip(&mut self, pc: usize)
        ensures
            final(self)@ == (Registers { elr: pc as u64, ..old(self)@ }),
            final(self).spec_get_ip() == pc,
    {
        self.0.elr = pc as u64;
    }

    /// Sets the stack pointer.
    pub fn set_sp(&mut self, sp: usize)
        ensures
            final(self)@ == (Registers { usp: sp as u64, ..old(self)@ }),
            final(self).spec_get_sp() == sp,
    {
        self.0.usp = sp as u64;
    }

    /// Sets the return value register.
    pub fn set_retval(&mut self, r0: usize)
        ensures
            final(self)@ == (Registers { r: old(self)@.r.update(0, r0 as u64), ..old(self)@ }),
            final(self).spec_retval() == r0,
    {
        self.0.r[0] = r0 as u64;
    }

    /// A context made from a captured frame gives back the instruction
    /// pointer, the stack pointer and the return value that the frame held,
    /// as far as they fit a machine word, and every other register with
    /// them. Its `spsr` has mode `EL0t`, whatever the frame held there, and
    /// the other bits as the frame held them; a frame that was captured in
    /// user mode is kept whole.
    pub proof fn lemma_from_keeps_frame(tf: TrapFrame, ctx: UspaceContext)
        requires
            ctx@ == Self::user_frame(tf),
            tf.elr <= usize::MAX,
            tf.usp <= usize::MAX,
            tf.r[0] <= usize::MAX,
        ensures
            ctx.spec_get_ip() == tf.elr,
            ctx.spec_get_sp() == tf.usp,
            ctx.spec_retval() == tf.r[0],
            ctx@.r == tf@.r,
            ctx@.spsr & SPSR_MODE_MASK == 0,
            ctx@.spsr & !SPSR_MODE_MASK == tf.spsr & !SPSR_MODE_MASK,
            tf.spsr & SPSR_MODE_MASK == 0 ==> ctx@ == tf@,
    {
        let status = tf.spsr;
        assert((status & !SPSR_MODE_MASK) & SPSR_MODE_MASK == 0) by (bit_vector);
        assert((status & !SPSR_MODE_MASK) & !SPSR_MODE_MASK == status & !SPSR_MODE_MASK)
            by (bit_vector);
        assert(status & SPSR_MODE_MASK == 0 ==> status & !SPSR_MODE_MASK == status)
            by (bit_vector);
    }

    /// A new context holds the entry point, the stack pointer and the
    /// argument that it was made with, starts in user mode with interrupts
    /// enabled, and has every other general-purpose register zero.
    pub proof fn lemma_new_isolates_fields(
        entry: usize,
        ustack_top: usize,
        arg0: usize,
        ctx: UspaceContext,
    )
        requires
            ctx@ == Self::new_frame(entry, ustack_top, arg0),
        ensures
            ctx.spec_get_ip() == entry,
            ctx.spec_get_sp() == ustack_top,
            ctx@.r.len() == GENERAL_REGISTERS,
            ctx@.r[0] == arg0,
            forall|i: int| 1 <= i < GENERAL_REGISTERS ==> ctx@.r[i] == 0,
            ctx@.spsr == USER_SPSR,
    {
    }
}

} // verus!
