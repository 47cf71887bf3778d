//! Planning core of `santool`, a front-end that drives an external compiler,
//! a virtual machine and a USB flashing project.
//!
//! The library decides; it performs no I/O. Each command is turned into a
//! plan: the steps to carry out in order and, where the command cannot
//! complete, the error to fail with once those steps are done.

pub mod compile;
pub mod config;
pub mod document;
pub mod error;
pub mod fetch;
pub mod flash;
pub mod plan;
pub mod runner;
