//! Register state that is saved and restored around traps.

use vstd::prelude::*;

verus! {

/// The number of general-purpose registers, `x0` to `x30`.
pub const GENERAL_REGISTERS: usize = 31;

/// The registers that the exception entry saves: the state of the interrupted
/// stream at the moment control passed to EL1.
#[derive(Clone, Copy, Debug, PartialEq, Eq)]
pub struct TrapFrame {
    /// General-purpose registers `x0` to `x30`.
    pub r: [u64; 31],
    /// User stack pointer (`SP_EL0`).
    pub usp: u64,
    /// Exception link register (`ELR_EL1`): where the stream resumes.
    pub elr: u64,
    /// Saved program status register (`SPSR_EL1`).
    pub spsr: u64,
}

/// What a [`TrapFrame`] holds, with the general-purpose registers as a
/// sequence of length 31.
pub struct Registers {
    /// General-purpose registers `x0` to `x30`.
    pub r: Seq<u64>,
    /// User stack pointer.
    pub usp: u64,
    /// Exception link register.
    pub elr: u64,
    /// Saved program status register.
    pub spsr: u64,
}

impl Registers {
    /// The registers with every one of them zero.
    pub open spec fn zero() -> Self {
        Registers { r: Seq::new(GENERAL_REGISTERS as nat, |i: int| 0u64), usp: 0, elr: 0, spsr: 0 }
    }
}

impl View for TrapFrame {
    type V = Registers;

    open spec fn view(&self) -> Registers {
        Registers { r: self.r@, usp: self.usp, elr: self.elr, spsr: self.spsr }
    }
}

impl TrapFrame {
    /// Creates a frame with every field zero.
    pub fn new() -> (frame: Self)
        ensures
            frame@ == Registers::zero(),
    {
        let frame = TrapFrame { r: [0u64; 31], usp: 0, elr: 0, spsr: 0 };
        assert(frame@.r =~= Registers::zero().r);
        frame
    }
}

impl Default for TrapFrame {
    fn default() -> (frame: Self)
        ensures
            frame@ == Registers::zero(),
    {
        Self::new()
    }
}

/// The registers that a switch between kernel streams has to keep: the
/// stack pointer, the callee-saved registers, the link register and the
/// thread pointer.
///
/// A stream that is suspended keeps its state here. While a stream runs, the
/// same registers live in the CPU, and a value of this type can stand for
/// what the CPU holds.
#[derive(Clone, Copy, Debug, PartialEq, Eq)]
pub struct TaskContext {
    /// Stack pointer.
    pub sp: u64,
    /// Callee-saved register `x19`.
    pub r19: u64,
    /// Callee-saved register `x20`.
    pub r20: u64,
    /// Callee-saved register `x21`.
    pub r21: u64,
    /// Callee-saved register `x22`.
    pub r22: u64,
    /// Callee-saved register `x23`.
    pub r23: u64,
    /// Callee-saved register `x24`.
    pub r24: u64,
    /// Callee-saved register `x25`.
    pub r25: u64,
    /// Callee-saved register `x26`.
    pub r26: u64,
    /// Callee-saved register `x27`.
    pub r27: u64,
    /// Callee-saved register `x28`.
    pub r28: u64,
    /// Frame pointer (`x29`), which is callee-saved too.
    pub r29: u64,
    /// Link register (`x30`): where the stream goes on.
    pub lr: u64,
    /// Thread pointer (`TPIDR_EL0`).
    pub tpidr_el0: u64,
}

impl TaskContext {
    /// The context with every register zero.
    pub open spec fn zero() -> Self {
        TaskContext {
            sp: 0,
            r19: 0,
            r20: 0,
            r21: 0,
            r22: 0,
            r23: 0,
            r24: 0,
            r25: 0,
            r26: 0,
            r27: 0,
            r28: 0,
            r29: 0,
            lr: 0,
            tpidr_el0: 0,
        }
    }

    /// This context, set up to start a stream at `entry` on the stack that
    /// ends at `kstack_top`, with its thread-local storage at `tls_area`.
    pub open spec fn initialized(self, entry: usize, kstack_top: usize, tls_area: usize) -> Self {
        TaskContext { sp: kstack_top as u64, lr: entry as u64, tpidr_el0: tls_area as u64, ..self }
    }

    /// The outcome of a switch while the CPU holds `cpu`: first what the
    /// outgoing stream has saved, then what the CPU holds afterwards.
    pub open spec fn switched(cpu: TaskContext, next: TaskContext) -> (TaskContext, TaskContext) {
        (cpu, next)
    }

    /// Creates a context with every register zero.
    pub fn new() -> (ctx: Self)
        ensures
            ctx == Self::zero(),
    {
        TaskContext {
            sp: 0,
            r19: 0,
            r20: 0,
            r21: 0,
            r22: 0,
            r23: 0,
            r24: 0,
            r25: 0,
            r26: 0,
            r27: 0,
            r28: 0,
            r29: 0,
            lr: 0,
            tpidr_el0: 0,
        }
    }

    /// Initializes the context for a new stream, with the given entry point
    /// and kernel stack: the first switch to it starts to run at `entry`, on
    /// the stack that ends at `kstack_top`, with the thread pointer at
    /// `tls_area`.
    pub fn init(&mut self, entry: usize, kstack_top: usize, tls_area: usize)
        ensures
            *final(self) == old(self).initialized(entry, kstack_top, tls_area),
    {
        self.sp = kstack_top as u64;
        self.lr = entry as u64;
        self.tpidr_el0 = tls_area as u64;
    }

    /// What a switch does to the registers: the stream that runs saves what
    /// the CPU holds in its own context, `self`, and the CPU takes the
    /// registers of `next`. Since the link register is among them, the CPU goes on
    /// where `next` was suspended.
    ///
    /// `cpu` stands for the registers in the CPU. This function is the
    /// contract of the switch on plain values; on a real CPU the exchange
    /// takes machine instructions, which have to run with interrupts
    /// disabled.
    pub fn switch_to(&mut self, next: &TaskContext, cpu: &mut TaskContext)
        ensures
            (*final(self), *final(cpu)) == Self::switched(*old(cpu), *next),
    {
        *self = *cpu;
        *cpu = *next;
    }

    /// Switch symmetry. A stream runs with the registers `live` and switches
    /// to the suspended stream `b`; that stream runs, which leaves any
    /// registers `other` in the CPU, and switches back. Then the CPU holds
    /// `live` again, so the first stream resumes where it called the switch
    /// with its callee-saved registers unchanged, and the second stream is
    /// suspended with `other`.
    pub proof fn lemma_switch_symmetry(live: TaskContext, b: TaskContext, other: TaskContext)
        ensures
            ({
                let (a_saved, cpu_in_b) = Self::switched(live, b);
                let (b_saved, cpu_back) = Self::switched(other, a_saved);
                cpu_in_b == b && cpu_back == live && b_saved == other
            }),
    {
    }
}

impl Default for TaskContext {
    fn default() -> (ctx: Self)
        ensures
            ctx == Self::zero(),
    {
        Self::new()
    }
}

} // verus!
