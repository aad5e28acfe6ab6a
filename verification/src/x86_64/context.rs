//! Register state that is saved and restored around traps.

use vstd::prelude::*;

verus! {

/// The registers that the trap entry saves: the general-purpose registers,
/// then what identifies the trap, then what the CPU pushed before it entered
/// the handler.
#[derive(Clone, Copy, Debug, PartialEq, Eq)]
pub struct TrapFrame {
    /// Register `rax`.
    pub rax: u64,
    /// Register `rcx`.
    pub rcx: u64,
    /// Register `rdx`.
    pub rdx: u64,
    /// Register `rbx`.
    pub rbx: u64,
    /// Register `rbp`.
    pub rbp: u64,
    /// Register `rsi`.
    pub rsi: u64,
    /// Register `rdi`.
    pub rdi: u64,
    /// Register `r8`.
    pub r8: u64,
    /// Register `r9`.
    pub r9: u64,
    /// Register `r10`.
    pub r10: u64,
    /// Register `r11`.
    pub r11: u64,
    /// Register `r12`.
    pub r12: u64,
    /// Register `r13`.
    pub r13: u64,
    /// Register `r14`.
    pub r14: u64,
    /// Register `r15`.
    pub r15: u64,
    /// The number of the interrupt or exception; pushed by the trap entry.
    pub vector: u64,
    /// The error code of the exception, or zero; pushed by the CPU or the trap entry.
    pub error_code: u64,
    /// Instruction pointer: where the stream resumes; pushed by the CPU.
    pub rip: u64,
    /// Code segment selector; pushed by the CPU.
    pub cs: u64,
    /// Flags register; pushed by the CPU.
    pub rflags: u64,
    /// Stack pointer of the interrupted stream; pushed by the CPU.
    pub rsp: u64,
    /// Stack segment selector; pushed by the CPU.
    pub ss: u64,
}

impl TrapFrame {
    /// The frame with every field zero.
    pub open spec fn zero() -> Self {
        TrapFrame {
            rax: 0,
            rcx: 0,
            rdx: 0,
            rbx: 0,
            rbp: 0,
            rsi: 0,
            rdi: 0,
            r8: 0,
            r9: 0,
            r10: 0,
            r11: 0,
            r12: 0,
            r13: 0,
            r14: 0,
            r15: 0,
            vector: 0,
            error_code: 0,
            rip: 0,
            cs: 0,
            rflags: 0,
            rsp: 0,
            ss: 0,
        }
    }

    /// Creates a frame with every field zero.
    pub fn new() -> (frame: Self)
        ensures
            frame == Self::zero(),
    {
        TrapFrame {
            rax: 0,
            rcx: 0,
            rdx: 0,
            rbx: 0,
            rbp: 0,
            rsi: 0,
            rdi: 0,
            r8: 0,
            r9: 0,
            r10: 0,
            r11: 0,
            r12: 0,
            r13: 0,
            r14: 0,
            r15: 0,
            vector: 0,
            error_code: 0,
            rip: 0,
            cs: 0,
            rflags: 0,
            rsp: 0,
            ss: 0,
        }
    }
}

impl Default for TrapFrame {
    fn default() -> (frame: Self)
        ensures
            frame == Self::zero(),
    {
        Self::new()
    }
}

/// The number of bytes that a [`ContextSwitchFrame`] takes on the stack: seven
/// registers of eight bytes.
pub const SWITCH_FRAME_SIZE: usize = 56;

/// The distance from the top of a new stack to its first switch frame: the
/// frame, and one more word above it, so that the stream starts on a stack
/// pointer that the calling convention accepts at the entry of a function.
pub const INITIAL_FRAME_OFFSET: usize = 64;

/// The callee-saved registers as a switch pushes them on the stack of the
/// outgoing stream, with the return address above them.
#[derive(Clone, Copy, Debug, PartialEq, Eq)]
pub struct ContextSwitchFrame {
    /// Register `r15`.
    pub r15: u64,
    /// Register `r14`.
    pub r14: u64,
    /// Register `r13`.
    pub r13: u64,
    /// Register `r12`.
    pub r12: u64,
    /// Register `rbx`.
    pub rbx: u64,
    /// Register `rbp`.
    pub rbp: u64,
    /// Return address: where the stream goes on.
    pub rip: u64,
}

impl ContextSwitchFrame {
    /// The frame from which a new stream starts at `entry`: every register
    /// zero, and `entry` as the return address.
    pub open spec fn initial(entry: usize) -> Self {
        ContextSwitchFrame { r15: 0, r14: 0, r13: 0, r12: 0, rbx: 0, rbp: 0, rip: entry as u64 }
    }
}

/// What a switch between kernel streams has to keep outside the stack: the
/// stack pointer, below which the callee-saved registers lie in a
/// [`ContextSwitchFrame`], the top of the kernel stack, and the base of the
/// thread-local storage.
///
/// A stream that is suspended keeps its state here. While a stream runs, the
/// same state lives in the CPU, and a value of this type can stand for what
/// the CPU holds.
#[derive(Clone, Copy, Debug, PartialEq, Eq)]
pub struct TaskContext {
    /// The top of the kernel stack.
    pub kstack_top: usize,
    /// Stack pointer: the address of the switch frame of a suspended stream.
    pub rsp: u64,
    /// Base of the thread-local storage (`FS.base`).
    pub fs_base: usize,
}

impl TaskContext {
    /// The context with every field zero.
    pub open spec fn zero() -> Self {
        TaskContext { kstack_top: 0, rsp: 0, fs_base: 0 }
    }

    /// The context of a new stream on the stack that ends at `kstack_top`,
    /// with its thread-local storage at `tls_area`: the stack pointer is at
    /// the first switch frame.
    pub open spec fn initialized(kstack_top: usize, tls_area: usize) -> Self {
        TaskContext {
            kstack_top,
            rsp: (kstack_top - INITIAL_FRAME_OFFSET) as u64,
            fs_base: tls_area,
        }
    }

    /// The outcome of a switch while the CPU holds `cpu`: first what the
    /// outgoing stream has saved, then what the CPU holds afterwards.
    pub open spec fn switched(cpu: TaskContext, next: TaskContext) -> (TaskContext, TaskContext) {
        (cpu, next)
    }

    /// Creates a context with every field zero.
    pub fn new() -> (ctx: Self)
        ensures
            ctx == Self::zero(),
    {
        TaskContext { kstack_top: 0, rsp: 0, fs_base: 0 }
    }

    /// Initializes the context for a new stream, with the given entry point
    /// and kernel stack: the first switch to it starts to run at `entry`, on
    /// the stack that ends at `kstack_top`, with the thread-local storage at
    /// `tls_area`.
    ///
    /// Returns the first switch frame of the stream. The caller has to store
    /// it on the stack, at the address that the context holds in `rsp`, before
    /// the first switch to the stream.
    pub fn init(
        &mut self,
        entry: usize,
        kstack_top: usize,
        tls_area: usize,
    ) -> (frame: ContextSwitchFrame)
        requires
            kstack_top >= INITIAL_FRAME_OFFSET,
        ensures
            *final(self) == Self::initialized(kstack_top, tls_area),
            frame == ContextSwitchFrame::initial(entry),
    {
        self.rsp = (kstack_top - INITIAL_FRAME_OFFSET) as u64;
        self.kstack_top = kstack_top;
        self.fs_base = tls_area;
        ContextSwitchFrame { r15: 0, r14: 0, r13: 0, r12: 0, rbx: 0, rbp: 0, rip: entry as u64 }
    }

    /// What a switch does to this state: the stream that runs saves what the
    /// CPU holds in its own context, `self`, and the CPU takes the state of
    /// `next`. Since the stack pointer leads to the return address, the CPU
    /// goes on where `next` was suspended.
    ///
    /// `cpu` stands for the state in the CPU. This function is the contract
    /// of the switch on plain values; on a real CPU the exchange takes
    /// machine instructions, which have to run with interrupts disabled.
    pub fn switch_to(&mut self, next: &TaskContext, cpu: &mut TaskContext)
        ensures
            (*final(self), *final(cpu)) == Self::switched(*old(cpu), *next),
    {
        *self = *cpu;
        *cpu = *next;
    }

    /// Switch symmetry. A stream runs with the state `live` and switches to
    /// the suspended stream `b`; that stream runs, which leaves any state
    /// `other` in the CPU, and switches back. Then the CPU holds `live`
    /// again, so the first stream resumes where it called the switch, and the
    /// second stream is suspended with `other`.
    pub proof fn lemma_switch_symmetry(live: TaskContext, b: TaskContext, other: TaskContext)
        ensures
            ({
                let (a_saved, cpu_in_b) = Self::switched(live, b);
                let (b_saved, cpu_back) = Self::switched(other, a_saved);
                cpu_in_b == b && cpu_back == live && b_saved == other
            }),
    {
    }
}

impl Default for TaskContext {
    fn default() -> (ctx: Self)
        ensures
            ctx == Self::zero(),
    {
        Self::new()
    }
}

} // verus!
