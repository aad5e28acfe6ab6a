//! The state from which a CPU enters user mode.

use vstd::prelude::*;

use super::context::{GeneralRegisters, TrapFrame};

verus! {

/// `PRMD.PPLV` for user mode: privilege level 3.
pub const PPLV_UMODE: usize = 0b11;

/// `PRMD.PIE`: interrupts are enabled once `ertn` has run.
pub const PIE: usize = 1 << 2;

/// The value of `prmd` with which a new user context starts: `ertn` returns
/// to privilege level 3 with interrupts enabled.
pub const USER_PRMD: usize = 0b111;

/// Context to enter user space: the registers that the CPU holds when it
/// starts to run in user mode.
pub struct UspaceContext(TrapFrame);

impl View for UspaceContext {
    type V = TrapFrame;

    /// The registers that the context holds.
    closed spec fn view(&self) -> TrapFrame {
        self.0
    }
}

impl UspaceContext {
    /// The frame of a new context: the entry point in `era`, the user stack
    /// in `sp`, the argument in `a0`, the user-mode `prmd`, and every other
    /// register zero.
    pub open spec fn new_frame(entry: usize, ustack_top: usize, arg0: usize) -> TrapFrame {
        TrapFrame {
            regs: GeneralRegisters { a0: arg0, sp: ustack_top, ..GeneralRegisters::zero() },
            prmd: USER_PRMD,
            era: entry,
        }
    }

    /// The frame of a context made from a captured frame: the captured frame
    /// with privilege level 3 in `PRMD.PPLV`, whatever it held there, so that
    /// `ertn` returns to user mode.
    pub open spec fn user_frame(tf: TrapFrame) -> TrapFrame {
        TrapFrame { prmd: tf.prmd | PPLV_UMODE, ..tf }
    }

    /// The instruction pointer of the context.
    pub open spec fn spec_get_ip(&self) -> usize {
        self@.era
    }

    /// The stack pointer of the context.
    pub open spec fn spec_get_sp(&self) -> usize {
        self@.regs.sp
    }

    /// The register that holds a system call's result.
    pub open spec fn spec_retval(&self) -> usize {
        self@.regs.a0
    }

    /// Creates an empty context with all registers set to zero.
    pub fn empty() -> (ctx: Self)
        ensures
            ctx@ == TrapFrame::zero(),
    {
        UspaceContext(TrapFrame::new())
    }

    /// Creates a new context with the given entry point, user stack pointer,
    /// and the argument.
    pub fn new(entry: usize, ustack_top: usize, arg0: usize) -> (ctx: Self)
        ensures
            ctx@ == Self::new_frame(entry, ustack_top, arg0),
            ctx.spec_get_ip() == entry,
            ctx.spec_get_sp() == ustack_top,
            ctx@.regs.a0 == arg0,
            ctx@.prmd == PPLV_UMODE | PIE,
    {
        let mut trap_frame = TrapFrame::new();
        assert(PPLV_UMODE | PIE == USER_PRMD) by (bit_vector);
        trap_frame.regs.sp = ustack_top;
        trap_frame.era = entry;
        trap_frame.prmd = PPLV_UMODE | PIE;
        trap_frame.regs.a0 = arg0;
        UspaceContext(trap_frame)
    }

    /// Creates a new context from the given [`TrapFrame`].
    ///
    /// It copies all registers, and sets `PRMD.PPLV` to privilege level 3:
    /// the context returns to user mode even where the frame was captured in
    /// kernel mode.
    pub fn from(trap_frame: &TrapFrame) -> (ctx: Self)
        ensures
            ctx@ == Self::user_frame(*trap_frame),
    {
        let mut frame = *trap_frame;
        frame.prmd = frame.prmd | PPLV_UMODE;
        UspaceContext(frame)
    }

    /// The registers that the context holds.
    pub fn trap_frame(&self) -> (frame: &TrapFrame)
        ensures
            *frame == self@,
    {
        &self.0
    }

    /// Gets the instruction pointer.
    #[verifier::when_used_as_spec(spec_get_ip)]
    pub fn get_ip(&self) -> (ip: usize)
        ensures
            ip == self.spec_get_ip(),
    {
        self.0.era
    }

    /// Gets the stack pointer.
    #[verifier::when_used_as_spec(spec_get_sp)]
    pub fn get_sp(&self) -> (sp: usize)
        ensures
            sp == self.spec_get_sp(),
    {
        self.0.regs.sp
    }

    /// Sets the instruction pointer.
    pub fn set_ip(&mut self, pc: usize)
        ensures
            final(self)@ == (TrapFrame { era: pc, ..old(self)@ }),
    {
        self.0.era = pc;
    }

    /// Sets the stack pointer.
    pub fn set_sp(&mut self, sp: usize)
        ensures
            final(self)@ == (TrapFrame {
                regs: GeneralRegisters { sp, ..old(self)@.regs },
                ..old(self)@
            }),
    {
        self.0.regs.sp = sp;
    }

    /// Sets the return value register.
    pub fn set_retval(&mut self, a0: usize)
        ensures
            final(self)@ == (TrapFrame {
                regs: GeneralRegisters { a0, ..old(self)@.regs },
                ..old(self)@
            }),
    {
        self.0.regs.a0 = a0;
    }

    /// A context made from a captured frame gives back the instruction
    /// pointer, the stack pointer and the return value that the frame held,
    /// and every other register with them. Its `prmd` has privilege level 3
    /// in `PPLV`, whatever the frame held there, and the other bits as the
    /// frame held them; a frame that was captured in user mode is kept whole.
    pub proof fn lemma_from_keeps_frame(tf: TrapFrame, ctx: UspaceContext)
        requires
            ctx@ == Self::user_frame(tf),
        ensures
            ctx.spec_get_ip() == tf.era,
            ctx.spec_get_sp() == tf.regs.sp,
            ctx.spec_retval() == tf.regs.a0,
            ctx@.regs == tf.regs,
            ctx@.prmd & PPLV_UMODE == PPLV_UMODE,
            ctx@.prmd & !PPLV_UMODE == tf.prmd & !PPLV_UMODE,
            tf.prmd & PPLV_UMODE == PPLV_UMODE ==> ctx@ == tf,
    {
        let mode = tf.prmd;
        assert((mode | PPLV_UMODE) & PPLV_UMODE == PPLV_UMODE) by (bit_vector);
        assert((mode | PPLV_UMODE) & !PPLV_UMODE == mode & !PPLV_UMODE) by (bit_vector);
        assert(mode & PPLV_UMODE == PPLV_UMODE ==> mode | PPLV_UMODE == mode) by (bit_vector);
    }

    /// A new context holds the entry point, the stack pointer and the
    /// argument that it was made with, starts in user mode with interrupts
    /// enabled, and has every other general-purpose register zero.
    pub proof fn lemma_new_isolates_fields(
        entry: usize,
        ustack_top: usize,
        arg0: usize,
        ctx: UspaceContext,
    )
        requires
            ctx@ == Self::new_frame(entry, ustack_top, arg0),
        ensures
            ctx.spec_get_ip() == entry,
            ctx.spec_get_sp() == ustack_top,
            ctx@.regs.a0 == arg0,
            ctx@.prmd == USER_PRMD,
            (GeneralRegisters { a0: 0, sp: 0, ..ctx@.regs }) == GeneralRegisters::zero(),
    {
    }
}

} // verus!
