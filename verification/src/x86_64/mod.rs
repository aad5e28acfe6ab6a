//! x86-64 (long mode).

pub mod context;
pub mod gdt;
pub mod uspace;

pub use self::context::{ContextSwitchFrame, TaskContext, TrapFrame};
