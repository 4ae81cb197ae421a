//! A tick-driven stack virtual machine whose programs are trees of frames.
//!
//! The machine keeps one flat memory shared by a bump-allocated heap (growing
//! up from address 0) and an operand stack (growing down from the top), walks
//! a program's frame tree with an explicit state stack, and advances one
//! observable step per `tick`.
//!
//! `semantics` states what every part of the machine does as mathematical
//! functions; the executable machine (`tvm`, `stack`, `heap`, `evaluator`,
//! `dispatch`, `machine`) is proved to follow them, and `laws` proves
//! properties of the semantics itself.

pub mod callable;
pub mod dispatch;
pub mod error;
pub mod evaluator;
pub mod frame;
pub mod function;
pub mod heap;
pub mod instruction;
pub mod laws;
pub mod machine;
pub mod native;
pub mod program;
pub mod semantics;
pub mod stack;
pub mod state;
pub mod tape;
pub mod text;
pub mod tvm;
