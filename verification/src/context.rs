//! The dump assembler: the descriptor that tells the minidump writer which
//! process and thread to dump and which exception, if any, to record.
//!
//! Raw kernel identifiers leave the engine only inside these descriptors.

use vstd::prelude::*;
use crate::bytes::{sign_extend, spec_sign_extend};

verus! {

/// The name that stands for no port.
pub const PORT_NULL: u32 = 0;

/// The exception as the minidump writer records it on the Mach platform.
#[derive(Clone, Copy, Debug, PartialEq, Eq, Structural)]
pub struct ExceptionInfo {
    /// The kind of exception, such as a bad access.
    pub kind: i32,
    /// The first code of the exception message.
    pub code: i32,
    /// The second code, where the message carries more than one.
    pub subcode: Option<u64>,
}

/// What the engine reads out of the exception message that the kernel
/// delivers on the exception port.
#[derive(Clone, Copy, Debug, PartialEq, Eq)]
pub struct ExceptionMessage {
    /// A send right to the task that raised the exception.
    pub task: u32,
    /// A send right to the thread that raised the exception.
    pub thread: u32,
    /// The kind of exception.
    pub exception: i32,
    /// How many entries of `code` are meaningful.
    pub code_count: u32,
    pub code: [i32; 2],
}

/// The crash context of the Mach platform.
#[derive(Clone, Copy, Debug, PartialEq, Eq, Structural)]
pub struct MachCrashContext {
    pub task: u32,
    pub thread: u32,
    pub handler_thread: u32,
    pub exception: Option<ExceptionInfo>,
}

/// The crash context of the Windows platform.
#[derive(Clone, Copy, Debug, PartialEq, Eq, Structural)]
pub struct WindowsCrashContext {
    pub process_id: u32,
    pub thread_id: u32,
    pub exception_code: u32,
    /// Address, in the target's address space, of the exception pointers;
    /// zero where there is no exception.
    pub exception_pointers: u64,
}

impl ExceptionMessage {
    /// The exception of this message: its kind, its first code, and its
    /// second code, sign-extended, where the message has more than one.
    pub open spec fn spec_info(&self) -> ExceptionInfo {
        ExceptionInfo {
            kind: self.exception,
            code: self.code[0],
            subcode: if self.code_count > 1 {
                Some(spec_sign_extend(self.code[1]))
            } else {
                None
            },
        }
    }

    /// The exception of this message, in the shape the minidump writer expects.
    pub fn info(&self) -> (info: ExceptionInfo)
        ensures
            info == self.spec_info(),
    {
        ExceptionInfo {
            kind: self.exception,
            code: self.code[0],
            subcode: if self.code_count > 1 {
                Some(sign_extend(self.code[1]))
            } else {
                None
            },
        }
    }
}

impl MachCrashContext {
    /// The descriptor of a dump without exception: the task alone.
    pub open spec fn spec_plain(task: u32) -> MachCrashContext {
        MachCrashContext {
            task,
            thread: PORT_NULL,
            handler_thread: PORT_NULL,
            exception: None,
        }
    }

    /// The descriptor of a dump for an exception message: the task and thread
    /// that the message names, and the message's exception.
    pub open spec fn spec_with_exception(message: ExceptionMessage) -> MachCrashContext {
        MachCrashContext {
            task: message.task,
            thread: message.thread,
            handler_thread: PORT_NULL,
            exception: Some(message.spec_info()),
        }
    }

    /// The descriptor of a dump without exception.
    pub fn plain(task: u32) -> (context: MachCrashContext)
        ensures
            context == Self::spec_plain(task),
    {
        MachCrashContext {
            task,
            thread: PORT_NULL,
            handler_thread: PORT_NULL,
            exception: None,
        }
    }

    /// The descriptor of a dump for the exception that `message` reports.
    pub fn with_exception(message: &ExceptionMessage) -> (context: MachCrashContext)
        ensures
            context == Self::spec_with_exception(*message),
    {
        MachCrashContext {
            task: message.task,
            thread: message.thread,
            handler_thread: PORT_NULL,
            exception: Some(message.info()),
        }
    }
}

impl WindowsCrashContext {
    /// The descriptor of a dump without exception: no exception code and no
    /// exception pointers.
    pub open spec fn spec_plain(process_id: u32, thread_id: u32) -> WindowsCrashContext {
        WindowsCrashContext { process_id, thread_id, exception_code: 0, exception_pointers: 0 }
    }

    /// The descriptor of a dump without exception.
    pub fn plain(process_id: u32, thread_id: u32) -> (context: WindowsCrashContext)
        ensures
            context == Self::spec_plain(process_id, thread_id),
    {
        WindowsCrashContext { process_id, thread_id, exception_code: 0, exception_pointers: 0 }
    }

    /// The descriptor of a dump for an exception: the process and thread of
    /// the debug event, the code of its exception record, and the address in
    /// the target where the exception pointers were placed.
    pub fn with_exception(
        process_id: u32,
        thread_id: u32,
        exception_code: u32,
        exception_pointers: u64,
    ) -> (context: WindowsCrashContext)
        ensures
            context == (WindowsCrashContext {
                process_id,
                thread_id,
                exception_code,
                exception_pointers,
            }),
    {
        WindowsCrashContext { process_id, thread_id, exception_code, exception_pointers }
    }
}

} // verus!
