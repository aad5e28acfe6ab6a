//! AArch64 (EL1).

pub mod sysreg;
pub mod context;
pub mod uspace;

pub use self::context::{TaskContext, TrapFrame};
