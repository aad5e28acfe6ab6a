//! LoongArch64.

pub mod context;
pub mod uspace;

pub use self::context::{GeneralRegisters, TaskContext, TrapFrame};
