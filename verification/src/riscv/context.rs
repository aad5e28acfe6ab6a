//! Register state that is saved and restored around traps.

use vstd::prelude::*;

verus! {

/// The general-purpose registers `x1` to `x31`, in the order of their numbers.
#[derive(Clone, Copy, Debug, PartialEq, Eq)]
pub struct GeneralRegisters {
    /// Return address.
    pub ra: usize,
    /// Stack pointer.
    pub sp: usize,
    /// Global pointer; only meaningful for traps from user mode.
    pub gp: usize,
    /// Thread pointer; only meaningful for traps from user mode.
    pub tp: usize,
    /// Register `t0`.
    pub t0: usize,
    /// Register `t1`.
    pub t1: usize,
    /// Register `t2`.
    pub t2: usize,
    /// Register `s0`.
    pub s0: usize,
    /// Register `s1`.
    pub s1: usize,
    /// Register `a0`.
    pub a0: usize,
    /// Register `a1`.
    pub a1: usize,
    /// Register `a2`.
    pub a2: usize,
    /// Register `a3`.
    pub a3: usize,
    /// Register `a4`.
    pub a4: usize,
    /// Register `a5`.
    pub a5: usize,
    /// Register `a6`.
    pub a6: usize,
    /// Register `a7`.
    pub a7: usize,
    /// Register `s2`.
    pub s2: usize,
    /// Register `s3`.
    pub s3: usize,
    /// Register `s4`.
    pub s4: usize,
    /// Register `s5`.
    pub s5: usize,
    /// Register `s6`.
    pub s6: usize,
    /// Register `s7`.
    pub s7: usize,
    /// Register `s8`.
    pub s8: usize,
    /// Register `s9`.
    pub s9: usize,
    /// Register `s10`.
    pub s10: usize,
    /// Register `s11`.
    pub s11: usize,
    /// Register `t3`.
    pub t3: usize,
    /// Register `t4`.
    pub t4: usize,
    /// Register `t5`.
    pub t5: usize,
    /// Register `t6`.
    pub t6: usize,
}

impl GeneralRegisters {
    /// The register file with every register zero.
    pub open spec fn zero() -> Self {
        GeneralRegisters {
            ra: 0,
            sp: 0,
            gp: 0,
            tp: 0,
            t0: 0,
            t1: 0,
            t2: 0,
            s0: 0,
            s1: 0,
            a0: 0,
            a1: 0,
            a2: 0,
            a3: 0,
            a4: 0,
            a5: 0,
            a6: 0,
            a7: 0,
            s2: 0,
            s3: 0,
            s4: 0,
            s5: 0,
            s6: 0,
            s7: 0,
            s8: 0,
            s9: 0,
            s10: 0,
            s11: 0,
            t3: 0,
            t4: 0,
            t5: 0,
            t6: 0,
        }
    }

    /// Creates a register file with every register zero.
    pub fn new() -> (regs: Self)
        ensures
            regs == Self::zero(),
    {
        GeneralRegisters {
            ra: 0,
            sp: 0,
            gp: 0,
            tp: 0,
            t0: 0,
            t1: 0,
            t2: 0,
            s0: 0,
            s1: 0,
            a0: 0,
            a1: 0,
            a2: 0,
            a3: 0,
            a4: 0,
            a5: 0,
            a6: 0,
            a7: 0,
            s2: 0,
            s3: 0,
            s4: 0,
            s5: 0,
            s6: 0,
            s7: 0,
            s8: 0,
            s9: 0,
            s10: 0,
            s11: 0,
            t3: 0,
            t4: 0,
            t5: 0,
            t6: 0,
        }
    }
}

impl Default for GeneralRegisters {
    fn default() -> (regs: Self)
        ensures
            regs == Self::zero(),
    {
        Self::new()
    }
}

/// The registers that the trap entry saves: the state of the interrupted
/// stream at the moment control passed to supervisor mode.
#[derive(Clone, Copy, Debug, PartialEq, Eq)]
pub struct TrapFrame {
    /// All general-purpose registers.
    pub regs: GeneralRegisters,
    /// Supervisor exception program counter: where the stream resumes.
    pub sepc: usize,
    /// Supervisor status register.
    pub sstatus: usize,
}

impl TrapFrame {
    /// The frame with every field zero.
    pub open spec fn zero() -> Self {
        TrapFrame { regs: GeneralRegisters::zero(), sepc: 0, sstatus: 0 }
    }

    /// Creates a frame with every field zero.
    pub fn new() -> (frame: Self)
        ensures
            frame == Self::zero(),
    {
        TrapFrame { regs: GeneralRegisters::new(), sepc: 0, sstatus: 0 }
    }
}

impl Default for TrapFrame {
    fn default() -> (frame: Self)
        ensures
            frame == Self::zero(),
    {
        Self::new()
    }
}

/// The registers that a switch between kernel streams has to keep: the
/// return address, the stack pointer, the callee-saved registers and the
/// thread pointer.
///
/// A stream that is suspended keeps its state here. While a stream runs, the
/// same registers live in the CPU, and a value of this type can stand for
/// what the CPU holds.
#[derive(Clone, Copy, Debug, PartialEq, Eq)]
pub struct TaskContext {
    /// Return address: where the stream goes on.
    pub ra: usize,
    /// Stack pointer.
    pub sp: usize,
    /// Callee-saved register `s0`.
    pub s0: usize,
    /// Callee-saved register `s1`.
    pub s1: usize,
    /// Callee-saved register `s2`.
    pub s2: usize,
    /// Callee-saved register `s3`.
    pub s3: usize,
    /// Callee-saved register `s4`.
    pub s4: usize,
    /// Callee-saved register `s5`.
    pub s5: usize,
    /// Callee-saved register `s6`.
    pub s6: usize,
    /// Callee-saved register `s7`.
    pub s7: usize,
    /// Callee-saved register `s8`.
    pub s8: usize,
    /// Callee-saved register `s9`.
    pub s9: usize,
    /// Callee-saved register `s10`.
    pub s10: usize,
    /// Callee-saved register `s11`.
    pub s11: usize,
    /// Thread pointer.
    pub tp: usize,
}

impl TaskContext {
    /// The context with every register zero.
    pub open spec fn zero() -> Self {
        TaskContext {
            ra: 0,
            sp: 0,
            s0: 0,
            s1: 0,
            s2: 0,
            s3: 0,
            s4: 0,
            s5: 0,
            s6: 0,
            s7: 0,
            s8: 0,
            s9: 0,
            s10: 0,
            s11: 0,
            tp: 0,
        }
    }

    /// This context, set up to start a stream at `entry` on the stack that
    /// ends at `kstack_top`, with its thread-local storage at `tls_area`.
    pub open spec fn initialized(self, entry: usize, kstack_top: usize, tls_area: usize) -> Self {
        TaskContext { sp: kstack_top, ra: entry, tp: tls_area, ..self }
    }

    /// The outcome of a switch while the CPU holds `cpu`: first what the
    /// outgoing stream has saved, then what the CPU holds afterwards.
    pub open spec fn switched(cpu: TaskContext, next: TaskContext) -> (TaskContext, TaskContext) {
        (cpu, next)
    }

    /// Creates a context with every register zero.
    pub fn new() -> (ctx: Self)
        ensures
            ctx == Self::zero(),
    {
        TaskContext {
            ra: 0,
            sp: 0,
            s0: 0,
            s1: 0,
            s2: 0,
            s3: 0,
            s4: 0,
            s5: 0,
            s6: 0,
            s7: 0,
            s8: 0,
            s9: 0,
            s10: 0,
            s11: 0,
            tp: 0,
        }
    }

    /// Initializes the context for a new stream, with the given entry point
    /// and kernel stack: the first switch to it starts to run at `entry`, on
    /// the stack that ends at `kstack_top`, with the thread pointer at
    /// `tls_area`.
    pub fn init(&mut self, entry: usize, kstack_top: usize, tls_area: usize)
        ensures
            *final(self) == old(self).initialized(entry, kstack_top, tls_area),
    {
        self.sp = kstack_top;
        self.ra = entry;
        self.tp = tls_area;
    }

    /// What a switch does to the registers: the stream that runs saves what
    /// the CPU holds in its own context, `self`, and the CPU takes the
    /// registers of `next`. Since the return address is among them, the CPU goes on
    /// where `next` was suspended.
    ///
    /// `cpu` stands for the registers in the CPU. This function is the
    /// contract of the switch on plain values; on a real CPU the exchange
    /// takes machine instructions, which have to run with interrupts
    /// disabled.
    pub fn switch_to(&mut self, next: &TaskContext, cpu: &mut TaskContext)
        ensures
            (*final(self), *final(cpu)) == Self::switched(*old(cpu), *next),
    {
        *self = *cpu;
        *cpu = *next;
    }

    /// Switch symmetry. A stream runs with the registers `live` and switches
    /// to the suspended stream `b`; that stream runs, which leaves any
    /// registers `other` in the CPU, and switches back. Then the CPU holds
    /// `live` again, so the first stream resumes where it called the switch
    /// with its callee-saved registers unchanged, and the second stream is
    /// suspended with `other`.
    pub proof fn lemma_switch_symmetry(live: TaskContext, b: TaskContext, other: TaskContext)
        ensures
            ({
                let (a_saved, cpu_in_b) = Self::switched(live, b);
                let (b_saved, cpu_back) = Self::switched(other, a_saved);
                cpu_in_b == b && cpu_back == live && b_saved == other
            }),
    {
    }
}

impl Default for TaskContext {
    fn default() -> (ctx: Self)
        ensures
            ctx == Self::zero(),
    {
        Self::new()
    }
}

} // verus!
