//! The state from which a CPU enters user mode.

use vstd::prelude::*;

use ::x86_64::registers::rflags::RFlags;

use super::context::TrapFrame;
use super::gdt::{ucode64_selector, udata_selector, UCODE64_SELECTOR, UDATA_SELECTOR};

verus! {

/// `RFLAGS.IF`: the CPU takes maskable interrupts. A new user context starts
/// with this flag alone, so its I/O privilege level is zero.
pub const USER_RFLAGS: u64 = 0x200;

/// Reads the bits of `RFlags::INTERRUPT_FLAG`, which is bit 9.
#[verifier::external_body]
fn interrupt_flag() -> (bits: u64)
    ensures
        bits == USER_RFLAGS,
{
    RFlags::INTERRUPT_FLAG.bits()
}

/// Context to enter user space: the registers that the CPU holds when it
/// starts to run in user mode.
pub struct UspaceContext(TrapFrame);

impl View for UspaceContext {
    type V = TrapFrame;

    /// The registers that the context holds.
    closed spec fn view(&self) -> TrapFrame {
        self.0
    }
}

impl UspaceContext {
    /// The frame of a new context: the entry point in `rip`, the user stack
    /// in `rsp`, the argument in `rdi`, the user segments, interrupts
    /// enabled, and every other field zero.
    pub open spec fn new_frame(entry: usize, ustack_top: usize, arg0: usize) -> TrapFrame {
        TrapFrame {
            rdi: arg0 as u64,
            rip: entry as u64,
            cs: UCODE64_SELECTOR as u64,
            rflags: USER_RFLAGS,
            rsp: ustack_top as u64,
            ss: UDATA_SELECTOR as u64,
            ..TrapFrame::zero()
        }
    }

    /// The frame of a context made from a captured frame: the captured frame
    /// with the user segments in `cs` and `ss`, whatever it held there.
    pub open spec fn user_frame(tf: TrapFrame) -> TrapFrame {
        TrapFrame { cs: UCODE64_SELECTOR as u64, ss: UDATA_SELECTOR as u64, ..tf }
    }

    /// The instruction pointer of the context.
    pub open spec fn spec_get_ip(&self) -> usize {
        self@.rip as usize
    }

    /// The stack pointer of the context.
    pub open spec fn spec_get_sp(&self) -> usize {
        self@.rsp as usize
    }

    /// The register that holds a system call's result.
    pub open spec fn spec_retval(&self) -> usize {
        self@.rax as usize
    }

    /// Creates an empty context with all registers set to zero.
    pub fn empty() -> (ctx: Self)
        ensures
            ctx@ == TrapFrame::zero(),
    {
        UspaceContext(TrapFrame::new())
    }

    /// Creates a new context with the given entry point, user stack pointer,
    /// and the argument.
    pub fn new(entry: usize, ustack_top: usize, arg0: usize) -> (ctx: Self)
        ensures
            ctx@ == Self::new_frame(entry, ustack_top, arg0),
            ctx.spec_get_ip() == entry,
            ctx.spec_get_sp() == ustack_top,
            ctx@.rdi == arg0,
    {
        let mut frame = TrapFrame::new();
        frame.rdi = arg0 as u64;
        frame.rip = entry as u64;
        frame.cs = ucode64_selector() as u64;
        frame.rflags = interrupt_flag();
        frame.rsp = ustack_top as u64;
        frame.ss = udata_selector() as u64;
        UspaceContext(frame)
    }

    /// Creates a new context from the given [`TrapFrame`].
    ///
    /// It copies almost all registers except `CS` and `SS` which need to be
    /// set to the user segment selectors.
    pub fn from(tf: &TrapFrame) -> (ctx: Self)
        ensures
            ctx@ == Self::user_frame(*tf),
    {
        let mut tf = *tf;
        tf.cs = ucode64_selector() as u64;
        tf.ss = udata_selector() as u64;
        UspaceContext(tf)
    }

    /// The registers that the context holds.
    pub fn trap_frame(&self) -> (frame: &TrapFrame)
        ensures
            *frame == self@,
    {
        &self.0
    }

    /// Gets the instruction pointer.
    #[verifier::when_used_as_spec(spec_get_ip)]
    pub fn get_ip(&self) -> (ip: usize)
        ensures
            ip == self.spec_get_ip(),
    {
        self.0.rip as usize
    }

    /// Gets the stack pointer.
    #[verifier::when_used_as_spec(spec_get_sp)]
    pub fn get_sp(&self) -> (sp: usize)
        ensures
            sp == self.spec_get_sp(),
    {
        self.0.rsp as usize
    }

    /// Sets the instruction pointer.
    pub fn set_ip(&mut self, rip: usize)
        ensures
            final(self)@ == (TrapFrame { rip: rip as u64, ..old(self)@ }),
            final(self).spec_get_ip() == rip,
    {
        self.0.rip = rip as u64;
    }

    /// Sets the stack pointer.
    pub fn set_sp(&mut self, rsp: usize)
        ensures
            final(self)@ == (TrapFrame { rsp: rsp as u64, ..old(self)@ }),
            final(self).spec_get_sp() == rsp,
    {
        self.0.rsp = rsp as u64;
    }

    /// Sets the return value register.
    pub fn set_retval(&mut self, rax: usize)
        ensures
            final(self)@ == (TrapFrame { rax: rax as u64, ..old(self)@ }),
            final(self).spec_retval() == rax,
    {
        self.0.rax = rax as u64;
    }

    /// A context made from a captured frame gives back the instruction
    /// pointer, the stack pointer and the return value that the frame held,
    /// as far as they fit a machine word, and it holds the user segments
    /// whatever the frame held in `cs` and `ss`.
    pub proof fn lemma_from_keeps_frame(tf: TrapFrame, ctx: UspaceContext)
        requires
            ctx@ == Self::user_frame(tf),
            tf.rip <= usize::MAX,
            tf.rsp <= usize::MAX,
            tf.rax <= usize::MAX,
        ensures
            ctx.spec_get_ip() == tf.rip,
            ctx.spec_get_sp() == tf.rsp,
            ctx.spec_retval() == tf.rax,
            ctx@.cs == UCODE64_SELECTOR,
            ctx@.ss == UDATA_SELECTOR,
            ctx@ == (TrapFrame { cs: ctx@.cs, ss: ctx@.ss, ..tf }),
    {
    }

    /// A new context holds the entry point, the stack pointer and the
    /// argument that it was made with, starts in user mode with interrupts
    /// enabled, and has every other field zero.
    pub proof fn lemma_new_isolates_fields(
        entry: usize,
        ustack_top: usize,
        arg0: usize,
        ctx: UspaceContext,
    )
        requires
            ctx@ == Self::new_frame(entry, ustack_top, arg0),
        ensures
            ctx.spec_get_ip() == entry,
            ctx.spec_get_sp() == ustack_top,
            ctx@.rdi == arg0,
            ctx@.cs == UCODE64_SELECTOR,
            ctx@.ss == UDATA_SELECTOR,
            ctx@.rflags == USER_RFLAGS,
            (TrapFrame { rdi: 0, rip: 0, cs: 0, rflags: 0, rsp: 0, ss: 0, ..ctx@ })
                == TrapFrame::zero(),
    {
    }
}

} // verus!
