//! Numeric instruction core of a bytecode virtual machine: checked native
//! arithmetic, bitwise and shift dispatch with exact failure semantics, and
//! the integer method surface registered for scripts.

pub mod number;
pub mod ops;
pub mod value;
pub mod dispatch;
pub mod laws;
pub mod module;
pub mod signed;
pub mod unsigned;
