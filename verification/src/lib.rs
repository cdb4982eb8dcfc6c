//! Decision logic of a live-process inspector.
//!
//! The inspector attaches to a running process, waits for an exception or for
//! the process to exit, and has a minidump written of what it finds. Every
//! kernel call is made by the program around this library; the library holds
//! the rules: which step comes next, which descriptor the dump is written
//! from, how a loaded image is laid out, how a stack is walked, and which
//! kernel handles are owned at any moment.

pub mod bytes;
pub mod context;
pub mod cstr;
pub mod debugger;
pub mod dyld;
pub mod event;
pub mod hex;
pub mod image;
pub mod mach;
pub mod macho;
pub mod outcome;
pub mod policy;
pub mod probe;
pub mod snapshot;
pub mod unwind;
