//! The state from which a hart enters user mode.

use vstd::prelude::*;

use super::context::{GeneralRegisters, TrapFrame};

verus! {

/// `sstatus.SPIE`: interrupts are enabled once `sret` has run.
pub const SSTATUS_SPIE: usize = 1 << 5;

/// `sstatus.SPP`: the privilege level that `sret` returns to; clear for user
/// mode, set for supervisor mode.
pub const SSTATUS_SPP: usize = 1 << 8;

/// `sstatus.SUM`: supervisor mode may access user memory.
pub const SSTATUS_SUM: usize = 1 << 18;

/// The value of `sstatus` with which a new user context starts: `SPIE` and
/// `SUM` set, and `SPP` clear, so that `sret` returns to user mode.
pub const USER_SSTATUS: usize = 0x4_0020;

/// Context to enter user space: the registers that the hart holds when it
/// starts to run in user mode.
pub struct UspaceContext(TrapFrame);

impl View for UspaceContext {
    type V = TrapFrame;

    /// The registers that the context holds.
    closed spec fn view(&self) -> TrapFrame {
        self.0
    }
}

impl UspaceContext {
    /// The frame of a new context: the entry point in `sepc`, the user stack
    /// in `sp`, the argument in `a0`, the user-mode status, and every other
    /// register zero.
    pub open spec fn new_frame(entry: usize, ustack_top: usize, arg0: usize) -> TrapFrame {
        TrapFrame {
            regs: GeneralRegisters { a0: arg0, sp: ustack_top, ..GeneralRegisters::zero() },
            sepc: entry,
            sstatus: USER_SSTATUS,
        }
    }

    /// The frame of a context made from a captured frame: the captured frame
    /// with `SPP` clear in `sstatus`, whatever it held there, so that `sret`
    /// returns to user mode.
    pub open spec fn user_frame(tf: TrapFrame) -> TrapFrame {
        TrapFrame { sstatus: tf.sstatus & !SSTATUS_SPP, ..tf }
    }

    /// The instruction pointer of the context.
    pub open spec fn spec_get_ip(&self) -> usize {
        self@.sepc
    }

    /// The stack pointer of the context.
    pub open spec fn spec_get_sp(&self) -> usize {
        self@.regs.sp
    }

    /// The register that holds a system call's result.
    pub open spec fn spec_retval(&self) -> usize {
        self@.regs.a0
    }

    /// Creates an empty context with all registers set to zero.
    pub fn empty() -> (ctx: Self)
        ensures
            ctx@ == TrapFrame::zero(),
    {
        UspaceContext(TrapFrame::new())
    }

    /// Creates a new context with the given entry point, user stack pointer,
    /// and the argument.
    pub fn new(entry: usize, ustack_top: usize, arg0: usize) -> (ctx: Self)
        ensures
            ctx@ == Self::new_frame(entry, ustack_top, arg0),
            ctx.spec_get_ip() == entry,
            ctx.spec_get_sp() == ustack_top,
            ctx@.regs.a0 == arg0,
            ctx@.sstatus == SSTATUS_SPIE | SSTATUS_SUM,
    {
        let mut regs = GeneralRegisters::new();
        regs.a0 = arg0;
        regs.sp = ustack_top;
        assert(SSTATUS_SPIE | SSTATUS_SUM == USER_SSTATUS) by (bit_vector);
        UspaceContext(TrapFrame { regs, sepc: entry, sstatus: SSTATUS_SPIE | SSTATUS_SUM })
    }

    /// Creates a new context from the given [`TrapFrame`].
    ///
    /// It copies all registers, and clears `SPP` in `sstatus`: the context
    /// returns to user mode even where the frame was captured in supervisor
    /// mode.
    pub fn from(trap_frame: &TrapFrame) -> (ctx: Self)
        ensures
            ctx@ == Self::user_frame(*trap_frame),
    {
        let mut frame = *trap_frame;
        frame.sstatus = frame.sstatus & !SSTATUS_SPP;
        UspaceContext(frame)
    }

    /// The registers that the context holds.
    pub fn trap_frame(&self) -> (frame: &TrapFrame)
        ensures
            *frame == self@,
    {
        &self.0
    }

    /// Gets the instruction pointer.
    #[verifier::when_used_as_spec(spec_get_ip)]
    pub fn get_ip(&self) -> (ip: usize)
        ensures
            ip == self.spec_get_ip(),
    {
        self.0.sepc
    }

    /// Gets the stack pointer.
    #[verifier::when_used_as_spec(spec_get_sp)]
    pub fn get_sp(&self) -> (sp: usize)
        ensures
            sp == self.spec_get_sp(),
    {
        self.0.regs.sp
    }

    /// Sets the instruction pointer.
    pub fn set_ip(&mut self, pc: usize)
        ensures
            final(self)@ == (TrapFrame { sepc: pc, ..old(self)@ }),
    {
        self.0.sepc = pc;
    }

    /// Sets the stack pointer.
    pub fn set_sp(&mut self, sp: usize)
        ensures
            final(self)@ == (TrapFrame {
                regs: GeneralRegisters { sp, ..old(self)@.regs },
                ..old(self)@
            }),
    {
        self.0.regs.sp = sp;
    }

    /// Sets the return value register.
    pub fn set_retval(&mut self, a0: usize)
        ensures
            final(self)@ == (TrapFrame {
                regs: GeneralRegisters { a0, ..old(self)@.regs },
                ..old(self)@
            }),
    {
        self.0.regs.a0 = a0;
    }

    /// A context made from a captured frame gives back the instruction
    /// pointer, the stack pointer and the return value that the frame held,
    /// and every other register with them. Its `sstatus` has `SPP` clear,
    /// whatever the frame held there, and the other bits as the frame held
    /// them; a frame that was captured in user mode is kept whole.
    pub proof fn lemma_from_keeps_frame(tf: TrapFrame, ctx: UspaceContext)
        requires
            ctx@ == Self::user_frame(tf),
        ensures
            ctx.spec_get_ip() == tf.sepc,
            ctx.spec_get_sp() == tf.regs.sp,
            ctx.spec_retval() == tf.regs.a0,
            ctx@.regs == tf.regs,
            ctx@.sstatus & SSTATUS_SPP == 0,
            ctx@.sstatus & !SSTATUS_SPP == tf.sstatus & !SSTATUS_SPP,
            tf.sstatus & SSTATUS_SPP == 0 ==> ctx@ == tf,
    {
        let status = tf.sstatus;
        assert((status & !SSTATUS_SPP) & SSTATUS_SPP == 0) by (bit_vector);
        assert((status & !SSTATUS_SPP) & !SSTATUS_SPP == status & !SSTATUS_SPP) by (bit_vector);
        assert(status & SSTATUS_SPP == 0 ==> status & !SSTATUS_SPP == status) by (bit_vector);
    }

    /// A new context holds the entry point, the stack pointer and the
    /// argument that it was made with, starts in user mode with interrupts
    /// enabled, and has every other general-purpose register zero.
    pub proof fn lemma_new_isolates_fields(
        entry: usize,
        ustack_top: usize,
        arg0: usize,
        ctx: UspaceContext,
    )
        requires
            ctx@ == Self::new_frame(entry, ustack_top, arg0),
        ensures
            ctx.spec_get_ip() == entry,
            ctx.spec_get_sp() == ustack_top,
            ctx@.regs.a0 == arg0,
            ctx@.sstatus == USER_SSTATUS,
            (GeneralRegisters { a0: 0, sp: 0, ..ctx@.regs }) == GeneralRegisters::zero(),
    {
    }
}

} // verus!
