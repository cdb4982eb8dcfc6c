//! The capture policy: what the inspector does with the event it waited for.

use vstd::prelude::*;

verus! {

/// What the user asked the inspector to wait for.
#[derive(Clone, Copy, Debug, PartialEq, Eq, Structural)]
pub struct CaptureConfig {
    /// Wait for an unhandled exception and dump when it arrives.
    pub catch_exception: bool,
    /// Dump when the target exits.
    pub catch_exit: bool,
}

/// What one wait on the event source delivers.
#[derive(Clone, Copy, Debug, PartialEq, Eq, Structural)]
pub enum Event {
    /// The target has exited with this code.
    Exit(i32),
    /// An exception message is waiting on the exception port.
    Exception,
    /// The exit probe has fired and stopped the target at its exit entry point.
    Stop,
}

/// How the inspector goes about a capture.
#[derive(Clone, Copy, Debug, PartialEq, Eq, Structural)]
pub enum Plan {
    /// Suspend the target, dump it at once, resume it. No exception handler
    /// is installed and no event is waited for.
    Immediate,
    /// Install the handlers, wait for one event, and act on it.
    AwaitEvent,
}

/// What is done about a delivered event.
#[derive(Clone, Copy, Debug, PartialEq, Eq, Structural)]
pub enum Capture {
    /// No dump is written.
    Skip,
    /// A dump without exception information.
    Plain,
    /// A dump that carries the exception message.
    WithException,
    /// A dump without exception information, after which the stopped target
    /// is sent the continue signal.
    PlainThenContinue,
}

impl CaptureConfig {
    /// With neither flag set the inspector snapshots the live process;
    /// with any flag set it waits for an event.
    pub open spec fn spec_plan(&self) -> Plan {
        if !self.catch_exception && !self.catch_exit {
            Plan::Immediate
        } else {
            Plan::AwaitEvent
        }
    }

    /// The decision table, total over configurations and events.
    ///
    /// An exception is always dumped with its message, and a stop is always
    /// dumped and then continued: they are only delivered when something
    /// asked for them to be watched. An exit is dumped exactly when exits are
    /// to be caught, and otherwise passes without a dump.
    pub open spec fn spec_decide(&self, event: Event) -> Capture {
        match event {
            Event::Exception => Capture::WithException,
            Event::Exit(_) => if self.catch_exit {
                Capture::Plain
            } else {
                Capture::Skip
            },
            Event::Stop => Capture::PlainThenContinue,
        }
    }

    /// How the capture proceeds under this configuration.
    pub fn plan(&self) -> (plan: Plan)
        ensures
            plan == self.spec_plan(),
    {
        if !self.catch_exception && !self.catch_exit {
            Plan::Immediate
        } else {
            Plan::AwaitEvent
        }
    }

    /// What is done about `event` under this configuration.
    pub fn decide(&self, event: Event) -> (capture: Capture)
        ensures
            capture == self.spec_decide(event),
    {
        match event {
            Event::Exception => Capture::WithException,
            Event::Exit(_) => if self.catch_exit {
                Capture::Plain
            } else {
                Capture::Skip
            },
            Event::Stop => Capture::PlainThenContinue,
        }
    }
}

} // verus!
