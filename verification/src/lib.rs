//! A batch execution engine with checkpoints.
//!
//! One [`vm::Vm`] processes the transactions of one batch. The instruction
//! interpreter is not part of this crate: the caller runs it and hands each
//! run's record to the engine, which keeps the accumulated state, the
//! checkpoint stack and the execution phase, and which folds the raw event
//! stream into the end-of-batch artifacts.

pub mod primitives;
pub mod logs;
pub mod env;
pub mod events;
pub mod bytes;
pub mod bootloader;
pub mod state;
pub mod interface;
pub mod vm;
pub mod laws;
