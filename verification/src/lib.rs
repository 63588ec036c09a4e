//! The callable-invocation engine of a dynamic-language virtual machine.
//!
//! Given a compiled function's parameter shape and the arguments of one call,
//! the engine fills the local-variable slots of the frame to be run, or says
//! why the call cannot be made; it picks the storage for the frame's locals
//! and the way the frame is to be executed; and it keeps the function object,
//! the bound method and the closure cell that the object layer exposes.
//!
//! Every function here is verified against the contract written on it. Frames
//! are built and run by the embedding machine, which also owns the heap: this
//! crate speaks of objects by reference only.

pub mod object;
pub mod cell;
pub mod context;
pub mod code;
pub mod text;
pub mod args;
pub mod error;
pub mod binder;
pub mod dispatch;
pub mod function;
pub mod method;
pub mod laws;
