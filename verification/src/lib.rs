//! CPU execution contexts for operating-system and hypervisor kernels.
//!
//! Each architecture module models the register state that is captured on a
//! trap ([`riscv::TrapFrame`] and its siblings), the state from which a CPU
//! enters user mode (`UspaceContext`), and the callee-saved state of a
//! suspended kernel stream (`TaskContext`). The RISC-V module also holds the
//! trap dispatcher. Everything here is plain data and pure decisions: the
//! machine instructions that load such state into a CPU are left to the
//! kernel that builds on this crate.

pub mod trap;

pub mod aarch64;
pub mod loongarch64;
pub mod riscv;
pub mod x86_64;
