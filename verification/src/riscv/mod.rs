//! RISC-V (supervisor mode).

pub mod context;
pub mod trap;
pub mod uspace;

pub use self::context::{GeneralRegisters, TaskContext, TrapFrame};
