//! The event source on the Mach platform: three kernel event filters on one
//! event queue, and the event that each of them stands for.

use vstd::prelude::*;
use crate::bytes::{sign_extend, spec_sign_extend};
use crate::policy::Event;

verus! {

/// Filter that fires when a watched process changes state.
pub const FILTER_PROCESS: i16 = -5;

/// Filter that fires when a message arrives on a watched port.
pub const FILTER_MACH_PORT: i16 = -8;

/// Filter that user code triggers by itself.
pub const FILTER_USER: i16 = -10;

/// Add the filter to the queue.
pub const FLAG_ADD: u16 = 0x1;

/// Enable delivery of the filter's events.
pub const FLAG_ENABLE: u16 = 0x4;

/// Reset the filter's state once its event has been delivered.
pub const FLAG_CLEAR: u16 = 0x20;

/// Have the kernel report on the registration itself.
pub const FLAG_RECEIPT: u16 = 0x40;

/// Process filter: report the exit of the process.
pub const NOTE_EXIT: u32 = 0x8000_0000;

/// User filter: fire the event now.
pub const NOTE_TRIGGER: u32 = 0x0100_0000;

/// One change handed to the event queue: a filter to add, or to trigger.
#[derive(Clone, Copy, Debug, PartialEq, Eq, Structural)]
pub struct Registration {
    /// What the filter watches: a process identifier, a port name, or zero.
    pub ident: u64,
    pub filter: i16,
    pub flags: u16,
    pub fflags: u32,
}

/// One event as the kernel returns it from a wait on the queue.
#[derive(Clone, Copy, Debug, PartialEq, Eq, Structural)]
pub struct KernelEvent {
    /// How many events the wait returned; nothing was delivered unless positive.
    pub count: i32,
    /// The filter that fired.
    pub filter: i16,
    /// Filter-specific data; for a process exit, the exit status.
    pub data: i64,
}

/// The filter that wakes the waiter from another thread.
pub open spec fn spec_user_filter() -> Registration {
    Registration { ident: 0, filter: FILTER_USER, flags: FLAG_ADD | FLAG_CLEAR, fflags: 0 }
}

/// The filter that reports the exit of process `pid`.
pub open spec fn spec_exit_filter(pid: i32) -> Registration {
    Registration {
        ident: spec_sign_extend(pid),
        filter: FILTER_PROCESS,
        flags: FLAG_ADD | FLAG_ENABLE,
        fflags: NOTE_EXIT,
    }
}

/// The filter that reports a message arriving on the port named `port`.
pub open spec fn spec_port_filter(port: u32) -> Registration {
    Registration {
        ident: port as u64,
        filter: FILTER_MACH_PORT,
        flags: FLAG_ADD | FLAG_RECEIPT,
        fflags: 0,
    }
}

/// The change that fires the user filter.
pub open spec fn spec_wake_trigger() -> Registration {
    Registration { ident: 0, filter: FILTER_USER, flags: 0, fflags: NOTE_TRIGGER }
}

/// The filter that wakes the waiter from another thread: added to the queue,
/// and cleared after each delivery.
pub fn user_filter() -> (registration: Registration)
    ensures
        registration == spec_user_filter(),
{
    Registration { ident: 0, filter: FILTER_USER, flags: FLAG_ADD | FLAG_CLEAR, fflags: 0 }
}

/// The filter that reports the exit of process `pid`: added and enabled.
pub fn exit_filter(pid: i32) -> (registration: Registration)
    ensures
        registration == spec_exit_filter(pid),
{
    Registration {
        ident: sign_extend(pid),
        filter: FILTER_PROCESS,
        flags: FLAG_ADD | FLAG_ENABLE,
        fflags: NOTE_EXIT,
    }
}

/// The filter that reports a message arriving on `port`: added, with a receipt.
pub fn port_filter(port: u32) -> (registration: Registration)
    ensures
        registration == spec_port_filter(port),
{
    Registration {
        ident: port as u64,
        filter: FILTER_MACH_PORT,
        flags: FLAG_ADD | FLAG_RECEIPT,
        fflags: 0,
    }
}

/// The change that fires the user filter and so wakes the waiter.
pub fn wake_trigger() -> (registration: Registration)
    ensures
        registration == spec_wake_trigger(),
{
    Registration { ident: 0, filter: FILTER_USER, flags: 0, fflags: NOTE_TRIGGER }
}

/// The event that a return from the queue stands for, if any.
///
/// Nothing unless the wait returned an event. The process filter stands for
/// the target's exit, with the low 32 bits of the filter data as exit code;
/// the port filter for an exception; the user filter for a stop. Any other
/// filter stands for nothing, and the waiter waits again.
pub open spec fn spec_classify(raw: KernelEvent) -> Option<Event> {
    if raw.count <= 0 {
        None
    } else if raw.filter == FILTER_PROCESS {
        Some(Event::Exit(raw.data as i32))
    } else if raw.filter == FILTER_MACH_PORT {
        Some(Event::Exception)
    } else if raw.filter == FILTER_USER {
        Some(Event::Stop)
    } else {
        None
    }
}

/// The event that a return from the queue stands for, if any.
pub fn classify(raw: KernelEvent) -> (event: Option<Event>)
    ensures
        event == spec_classify(raw),
{
    if raw.count <= 0 {
        None
    } else if raw.filter == FILTER_PROCESS {
        Some(Event::Exit(#[verifier::truncate] (raw.data as i32)))
    } else if raw.filter == FILTER_MACH_PORT {
        Some(Event::Exception)
    } else if raw.filter == FILTER_USER {
        Some(Event::Stop)
    } else {
        None
    }
}

} // verus!
