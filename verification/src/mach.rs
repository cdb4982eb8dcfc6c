//! The capture on the Mach platform, as a sequence of steps.
//!
//! The engine makes no kernel call itself. It names the next step; the
//! caller performs it and hands back what the kernel answered; the engine
//! then names the step after that. A session begins with [`MachSession::start`]
//! and is over when the step is [`Step::Finish`].
//!
//! Every kernel handle that a step acquires is entered in the session, in a
//! slot of its own, and leaves the session only through a [`Step::Release`]
//! that names it. A session cannot finish while a slot is occupied.

use vstd::prelude::*;
use crate::context::{ExceptionMessage, MachCrashContext, PORT_NULL};
use crate::event::{
    classify, exit_filter, port_filter, spec_classify, spec_exit_filter, spec_port_filter,
    spec_user_filter, user_filter, KernelEvent, Registration,
};
use crate::outcome::{Failure, Outcome};
use crate::policy::{Capture, CaptureConfig, Event, Plan};

verus! {

/// A kernel resource that the session owns.
#[derive(Clone, Copy, Debug, PartialEq, Eq, Structural)]
pub enum Handle {
    /// A right to the port of this name.
    Port(u32),
    /// The event queue.
    Monitor,
}

/// What the caller is to do next.
#[derive(Clone, Copy, Debug, PartialEq, Eq, Structural)]
pub enum Step {
    /// Obtain a send right to the task port of process `pid`.
    /// Answer: `Port` with its name.
    TaskForPid { pid: i32 },
    /// Suspend the task. Answer: `Done`.
    Suspend { task: u32 },
    /// Resume the task. Answer: `Done`.
    Resume { task: u32 },
    /// Have the minidump writer dump from this descriptor. Answer: `Done`.
    Dump { context: MachCrashContext },
    /// Allocate a port with a receive right. Answer: `Port` with its name.
    AllocateReceivePort,
    /// Insert a send right, made from the receive right, into the port.
    /// Answer: `Done`.
    InsertSendRight { port: u32 },
    /// Create the event queue. Answer: `Done`.
    OpenMonitor,
    /// Hand this change to the event queue. Answer: `Done`.
    Register { registration: Registration },
    /// Start the tracing program that stops process `pid` at its exit entry
    /// point and then wakes the event queue. Answer: `Done`.
    StartExitProbe { pid: i32 },
    /// Make `port` the task's handler for the whole exception mask.
    /// Answer: `Port` with the name of the handler it replaces, or the null name.
    SwapExceptionPorts { task: u32, port: u32 },
    /// Wait on the event queue, without timeout. Answer: `Kernel`, with what
    /// the wait returned; a count below zero says that the wait failed.
    Wait,
    /// Receive the exception message queued on `port`. Answer: `Message`.
    ReceiveException { port: u32 },
    /// Send process `pid` the continue signal. Answer: `Done`.
    Continue { pid: i32 },
    /// Give the handle back to the kernel. Answer: `Done`.
    Release { handle: Handle },
    /// The session is over; nothing is left to do.
    Finish { outcome: Outcome },
}

/// What the kernel answered to the step before.
#[derive(Clone, Copy, Debug, PartialEq, Eq)]
pub enum Reply {
    /// The step succeeded and has nothing to report.
    Done,
    /// The step failed.
    Failed,
    /// The step succeeded and yields this port name.
    Port(u32),
    /// What the wait on the event queue returned.
    Kernel(KernelEvent),
    /// The exception message that was received.
    Message(ExceptionMessage),
}

/// Where a session stands: the step it has asked for and waits to hear of.
#[derive(Clone, Copy, Debug, PartialEq, Eq, Structural)]
pub enum Phase {
    Attaching,
    Suspending,
    DumpingLive,
    Resuming { dumped: bool },
    AllocatingPort,
    InsertingRight,
    OpeningMonitor,
    RegisteringUser,
    StartingProbe,
    SwappingPorts,
    RegisteringExit,
    RegisteringPort,
    Waiting,
    Receiving,
    Dumping { then_continue: bool },
    Continuing,
    Releasing,
    Finished,
}

/// One capture on the Mach platform.
#[derive(Clone, Copy, Debug, PartialEq, Eq)]
pub struct MachSession {
    pub pid: i32,
    pub config: CaptureConfig,
    pub phase: Phase,
    /// The send right to the target's task port.
    pub task: Option<u32>,
    /// The port on which exception messages arrive.
    pub exception_port: Option<u32>,
    /// Whether the event queue is open.
    pub monitor: bool,
    /// The exception handler that the target had before.
    pub previous_handler: Option<u32>,
    /// The right to the faulting task that came with the exception message.
    pub faulting_task: Option<u32>,
    /// The right to the faulting thread that came with the exception message.
    pub faulting_thread: Option<u32>,
    /// How the capture ended, once that is known.
    pub outcome: Option<Outcome>,
}

/// The name in a slot, or the null name for an empty slot.
pub open spec fn spec_name(slot: Option<u32>) -> u32 {
    match slot {
        Some(name) => name,
        None => PORT_NULL,
    }
}

/// How many handles a step gives back to the kernel.
pub open spec fn spec_releases(step: Step) -> nat {
    if step is Release {
        1
    } else {
        0
    }
}

fn name(slot: Option<u32>) -> (n: u32)
    ensures
        n == spec_name(slot),
{
    match slot {
        Some(name) => name,
        None => PORT_NULL,
    }
}

impl MachSession {
    /// The handles that the session owns, the one acquired first at the front.
    pub open spec fn handles(&self) -> Seq<Handle> {
        let task = match self.task {
            Some(name) => seq![Handle::Port(name)],
            None => seq![],
        };
        let exception_port = match self.exception_port {
            Some(name) => seq![Handle::Port(name)],
            None => seq![],
        };
        let monitor = if self.monitor {
            seq![Handle::Monitor]
        } else {
            seq![]
        };
        let previous_handler = match self.previous_handler {
            Some(name) => seq![Handle::Port(name)],
            None => seq![],
        };
        let faulting_task = match self.faulting_task {
            Some(name) => seq![Handle::Port(name)],
            None => seq![],
        };
        let faulting_thread = match self.faulting_thread {
            Some(name) => seq![Handle::Port(name)],
            None => seq![],
        };
        task + exception_port + monitor + previous_handler + faulting_task + faulting_thread
    }

    /// Whether every slot is empty.
    pub open spec fn owns_nothing(&self) -> bool {
        &&& self.task is None
        &&& self.exception_port is None
        &&& !self.monitor
        &&& self.previous_handler is None
        &&& self.faulting_task is None
        &&& self.faulting_thread is None
    }

    /// How many slots are occupied.
    pub open spec fn owned_count(&self) -> nat {
        let task: nat = if self.task is Some { 1 } else { 0 };
        let exception_port: nat = if self.exception_port is Some { 1 } else { 0 };
        let monitor: nat = if self.monitor { 1 } else { 0 };
        let previous_handler: nat = if self.previous_handler is Some { 1 } else { 0 };
        let faulting_task: nat = if self.faulting_task is Some { 1 } else { 0 };
        let faulting_thread: nat = if self.faulting_thread is Some { 1 } else { 0 };
        task + exception_port + monitor + previous_handler + faulting_task + faulting_thread
    }

    /// Whether the session is over.
    pub open spec fn finished(&self) -> bool {
        self.phase == Phase::Finished
    }

    /// What holds of every session that `start` and `advance` produce: which
    /// slots are occupied in which phase. A session that has yet to attach
    /// owns nothing, and so does a finished one, which also knows how it ended.
    pub open spec fn inv(&self) -> bool {
        let none_faulting = self.faulting_task is None && self.faulting_thread is None;
        let attached = self.task is Some && self.exception_port is None && !self.monitor
            && self.previous_handler is None && none_faulting;
        let listening = self.task is Some && self.exception_port is Some && self.monitor;
        match self.phase {
            Phase::Attaching => self.owns_nothing(),
            Phase::Suspending | Phase::DumpingLive | Phase::Resuming { .. } => attached,
            Phase::AllocatingPort => attached,
            Phase::InsertingRight | Phase::OpeningMonitor => {
                &&& self.task is Some
                &&& self.exception_port is Some
                &&& !self.monitor
                &&& self.previous_handler is None
                &&& none_faulting
            },
            Phase::RegisteringUser | Phase::StartingProbe | Phase::SwappingPorts => {
                &&& listening
                &&& self.previous_handler is None
                &&& none_faulting
            },
            Phase::RegisteringExit | Phase::RegisteringPort | Phase::Waiting
            | Phase::Receiving => listening && none_faulting,
            Phase::Dumping { .. } | Phase::Continuing => listening,
            Phase::Releasing => self.outcome is Some,
            Phase::Finished => self.owns_nothing() && self.outcome is Some,
        }
    }

    /// How many handles the answer `reply` hands over to the session.
    pub open spec fn acquires(&self, reply: Reply) -> nat {
        match (self.phase, reply) {
            (Phase::Attaching, Reply::Port(_)) => 1,
            (Phase::AllocatingPort, Reply::Port(_)) => 1,
            (Phase::OpeningMonitor, Reply::Done) => 1,
            (Phase::SwappingPorts, Reply::Port(previous)) => if previous != PORT_NULL {
                1
            } else {
                0
            },
            (Phase::Receiving, Reply::Message(_)) => 2,
            _ => 0,
        }
    }

    /// Whether the answer `reply` says that the target has been suspended.
    pub open spec fn suspends(&self, reply: Reply) -> bool {
        self.phase == Phase::Suspending && reply is Done
    }

    /// Whether the session has suspended the target and not yet asked for
    /// it to be resumed.
    pub open spec fn holds_suspended(&self) -> bool {
        self.phase == Phase::DumpingLive
    }

    /// How often a run of answers says that the target has been suspended.
    pub open spec fn suspended_along(self, replies: Seq<Reply>) -> nat
        decreases replies.len(),
    {
        if replies.len() == 0 {
            0
        } else {
            let once: nat = if self.suspends(replies[0]) { 1 } else { 0 };
            once + self.spec_advance(replies[0]).0.suspended_along(replies.drop_first())
        }
    }

    /// How often the steps of a run ask for the target to be resumed.
    pub open spec fn resumed_along(self, replies: Seq<Reply>) -> nat
        decreases replies.len(),
    {
        if replies.len() == 0 {
            0
        } else {
            let (next, step) = self.spec_advance(replies[0]);
            let once: nat = if step is Resume { 1 } else { 0 };
            once + next.resumed_along(replies.drop_first())
        }
    }

    /// The session after a run of answers, each given to the step before it.
    pub open spec fn spec_run(self, replies: Seq<Reply>) -> MachSession
        decreases replies.len(),
    {
        if replies.len() == 0 {
            self
        } else {
            self.spec_advance(replies[0]).0.spec_run(replies.drop_first())
        }
    }

    /// How many handles a run of answers hands over to the session.
    pub open spec fn acquired_along(self, replies: Seq<Reply>) -> nat
        decreases replies.len(),
    {
        if replies.len() == 0 {
            0
        } else {
            self.acquires(replies[0]) + self.spec_advance(replies[0]).0.acquired_along(
                replies.drop_first(),
            )
        }
    }

    /// How many handles the steps of a run give back to the kernel.
    pub open spec fn released_along(self, replies: Seq<Reply>) -> nat
        decreases replies.len(),
    {
        if replies.len() == 0 {
            0
        } else {
            let (next, step) = self.spec_advance(replies[0]);
            spec_releases(step) + next.released_along(replies.drop_first())
        }
    }

    /// Whether `reply` is a return from the event queue that delivers no
    /// event, so that the session waits again.
    pub open spec fn idles(&self, reply: Reply) -> bool {
        &&& self.phase == Phase::Waiting
        &&& reply matches Reply::Kernel(raw)
        &&& raw.count >= 0
        &&& spec_classify(raw) is None
    }

    /// How many answers of a run deliver no event to a waiting session.
    pub open spec fn idle_along(self, replies: Seq<Reply>) -> nat
        decreases replies.len(),
    {
        if replies.len() == 0 {
            0
        } else {
            let idle: nat = if self.idles(replies[0]) { 1 } else { 0 };
            idle + self.spec_advance(replies[0]).0.idle_along(replies.drop_first())
        }
    }

    /// An upper bound on the steps that are left, the waits for a kernel
    /// event that turns out to be none apart.
    pub open spec fn steps_left(&self) -> nat {
        let phase: nat = match self.phase {
            Phase::Attaching => 15,
            Phase::Suspending => 14,
            Phase::DumpingLive => 13,
            Phase::Resuming { .. } => 12,
            Phase::AllocatingPort => 14,
            Phase::InsertingRight => 13,
            Phase::OpeningMonitor => 12,
            Phase::RegisteringUser => 11,
            Phase::StartingProbe => 10,
            Phase::SwappingPorts => 9,
            Phase::RegisteringExit => 8,
            Phase::RegisteringPort => 7,
            Phase::Waiting => 6,
            Phase::Receiving => 5,
            Phase::Dumping { .. } => 4,
            Phase::Continuing => 3,
            Phase::Releasing => 2,
            Phase::Finished => 0,
        };
        phase * 8 + self.owned_count()
    }

    /// The session before its first step.
    pub open spec fn spec_start(pid: i32, config: CaptureConfig) -> (MachSession, Step) {
        (
            MachSession {
                pid,
                config,
                phase: Phase::Attaching,
                task: None,
                exception_port: None,
                monitor: false,
                previous_handler: None,
                faulting_task: None,
                faulting_thread: None,
                outcome: None,
            },
            Step::TaskForPid { pid },
        )
    }

    /// Releases the handle acquired last, or finishes where none is left.
    pub open spec fn spec_release_next(self) -> (MachSession, Step) {
        if let Some(name) = self.faulting_thread {
            (
                MachSession { phase: Phase::Releasing, faulting_thread: None, ..self },
                Step::Release { handle: Handle::Port(name) },
            )
        } else if let Some(name) = self.faulting_task {
            (
                MachSession { phase: Phase::Releasing, faulting_task: None, ..self },
                Step::Release { handle: Handle::Port(name) },
            )
        } else if let Some(name) = self.previous_handler {
            (
                MachSession { phase: Phase::Releasing, previous_handler: None, ..self },
                Step::Release { handle: Handle::Port(name) },
            )
        } else if self.monitor {
            (
                MachSession { phase: Phase::Releasing, monitor: false, ..self },
                Step::Release { handle: Handle::Monitor },
            )
        } else if let Some(name) = self.exception_port {
            (
                MachSession { phase: Phase::Releasing, exception_port: None, ..self },
                Step::Release { handle: Handle::Port(name) },
            )
        } else if let Some(name) = self.task {
            (
                MachSession { phase: Phase::Releasing, task: None, ..self },
                Step::Release { handle: Handle::Port(name) },
            )
        } else {
            let outcome = match self.outcome {
                Some(outcome) => outcome,
                None => Outcome::Failed(Failure::Protocol),
            };
            (
                MachSession { phase: Phase::Finished, outcome: Some(outcome), ..self },
                Step::Finish { outcome },
            )
        }
    }

    /// Settles how the capture ended, unless a failure is already on record,
    /// and begins to release what the session owns.
    pub open spec fn spec_conclude(self, outcome: Outcome) -> (MachSession, Step) {
        let settled = match self.outcome {
            Some(Outcome::Failed(failure)) => Outcome::Failed(failure),
            _ => outcome,
        };
        (MachSession { outcome: Some(settled), ..self }).spec_release_next()
    }

    /// The failure that an answer other than the awaited one stands for:
    /// `otherwise` where the step failed, a breach of protocol for anything else.
    pub open spec fn spec_refusal(reply: Reply, otherwise: Failure) -> Failure {
        if reply is Failed {
            otherwise
        } else {
            Failure::Protocol
        }
    }

    /// The step that an event calls for under the session's configuration.
    pub open spec fn spec_on_event(self, event: Event) -> (MachSession, Step) {
        match self.config.spec_decide(event) {
            Capture::Skip => {
                let code = match event {
                    Event::Exit(code) => code,
                    _ => 0,
                };
                self.spec_conclude(Outcome::Exited(code))
            },
            Capture::Plain => (
                MachSession { phase: Phase::Dumping { then_continue: false }, ..self },
                Step::Dump { context: MachCrashContext::spec_plain(spec_name(self.task)) },
            ),
            Capture::WithException => (
                MachSession { phase: Phase::Receiving, ..self },
                Step::ReceiveException { port: spec_name(self.exception_port) },
            ),
            Capture::PlainThenContinue => (
                MachSession { phase: Phase::Dumping { then_continue: true }, ..self },
                Step::Dump { context: MachCrashContext::spec_plain(spec_name(self.task)) },
            ),
        }
    }

    /// The session after `reply`, and the step it asks for next.
    pub open spec fn spec_advance(self, reply: Reply) -> (MachSession, Step) {
        match self.phase {
            Phase::Attaching => match reply {
                Reply::Port(task) => match self.config.spec_plan() {
                    Plan::Immediate => (
                        MachSession { phase: Phase::Suspending, task: Some(task), ..self },
                        Step::Suspend { task },
                    ),
                    Plan::AwaitEvent => (
                        MachSession { phase: Phase::AllocatingPort, task: Some(task), ..self },
                        Step::AllocateReceivePort,
                    ),
                },
                _ => self.spec_conclude(
                    Outcome::Failed(Self::spec_refusal(reply, Failure::Attach)),
                ),
            },
            Phase::Suspending => match reply {
                Reply::Done => (
                    MachSession { phase: Phase::DumpingLive, ..self },
                    Step::Dump { context: MachCrashContext::spec_plain(spec_name(self.task)) },
                ),
                _ => self.spec_conclude(
                    Outcome::Failed(Self::spec_refusal(reply, Failure::Kernel)),
                ),
            },
            Phase::DumpingLive => (
                MachSession { phase: Phase::Resuming { dumped: reply is Done }, ..self },
                Step::Resume { task: spec_name(self.task) },
            ),
            Phase::Resuming { dumped } => match reply {
                Reply::Done => if dumped {
                    self.spec_conclude(Outcome::Captured)
                } else {
                    self.spec_conclude(Outcome::Failed(Failure::Writer))
                },
                _ => self.spec_conclude(
                    Outcome::Failed(Self::spec_refusal(reply, Failure::Kernel)),
                ),
            },
            Phase::AllocatingPort => match reply {
                Reply::Port(port) => (
                    MachSession {
                        phase: Phase::InsertingRight,
                        exception_port: Some(port),
                        ..self
                    },
                    Step::InsertSendRight { port },
                ),
                _ => self.spec_conclude(
                    Outcome::Failed(Self::spec_refusal(reply, Failure::Kernel)),
                ),
            },
            Phase::InsertingRight => match reply {
                Reply::Done => (
                    MachSession { phase: Phase::OpeningMonitor, ..self },
                    Step::OpenMonitor,
                ),
                _ => self.spec_conclude(
                    Outcome::Failed(Self::spec_refusal(reply, Failure::Kernel)),
                ),
            },
            Phase::OpeningMonitor => match reply {
                Reply::Done => (
                    MachSession { phase: Phase::RegisteringUser, monitor: true, ..self },
                    Step::Register { registration: spec_user_filter() },
                ),
                _ => self.spec_conclude(
                    Outcome::Failed(Self::spec_refusal(reply, Failure::Kernel)),
                ),
            },
            Phase::RegisteringUser => match reply {
                Reply::Done => if self.config.catch_exit {
                    (
                        MachSession { phase: Phase::StartingProbe, ..self },
                        Step::StartExitProbe { pid: self.pid },
                    )
                } else {
                    (
                        MachSession { phase: Phase::SwappingPorts, ..self },
                        Step::SwapExceptionPorts {
                            task: spec_name(self.task),
                            port: spec_name(self.exception_port),
                        },
                    )
                },
                _ => self.spec_conclude(
                    Outcome::Failed(Self::spec_refusal(reply, Failure::Kernel)),
                ),
            },
            Phase::StartingProbe => match reply {
                Reply::Done => (
                    MachSession { phase: Phase::SwappingPorts, ..self },
                    Step::SwapExceptionPorts {
                        task: spec_name(self.task),
                        port: spec_name(self.exception_port),
                    },
                ),
                _ => self.spec_conclude(
                    Outcome::Failed(Self::spec_refusal(reply, Failure::Unavailable)),
                ),
            },
            Phase::SwappingPorts => match reply {
                Reply::Port(previous) => (
                    MachSession {
                        phase: Phase::RegisteringExit,
                        previous_handler: if previous != PORT_NULL {
                            Some(previous)
                        } else {
                            None
                        },
                        ..self
                    },
                    Step::Register { registration: spec_exit_filter(self.pid) },
                ),
                _ => self.spec_conclude(
                    Outcome::Failed(Self::spec_refusal(reply, Failure::Kernel)),
                ),
            },
            Phase::RegisteringExit => match reply {
                Reply::Done => (
                    MachSession { phase: Phase::RegisteringPort, ..self },
                    Step::Register {
                        registration: spec_port_filter(spec_name(self.exception_port)),
                    },
                ),
                _ => self.spec_conclude(
                    Outcome::Failed(Self::spec_refusal(reply, Failure::Kernel)),
                ),
            },
            Phase::RegisteringPort => match reply {
                Reply::Done => (MachSession { phase: Phase::Waiting, ..self }, Step::Wait),
                _ => self.spec_conclude(
                    Outcome::Failed(Self::spec_refusal(reply, Failure::Kernel)),
                ),
            },
            Phase::Waiting => match reply {
                Reply::Kernel(raw) => if raw.count < 0 {
                    self.spec_conclude(Outcome::Failed(Failure::Kernel))
                } else {
                    match spec_classify(raw) {
                        Some(event) => self.spec_on_event(event),
                        None => (self, Step::Wait),
                    }
                },
                _ => self.spec_conclude(
                    Outcome::Failed(Self::spec_refusal(reply, Failure::Kernel)),
                ),
            },
            Phase::Receiving => match reply {
                Reply::Message(message) => (
                    MachSession {
                        phase: Phase::Dumping { then_continue: false },
                        faulting_task: Some(message.task),
                        faulting_thread: Some(message.thread),
                        ..self
                    },
                    Step::Dump { context: MachCrashContext::spec_with_exception(message) },
                ),
                _ => self.spec_conclude(
                    Outcome::Failed(Self::spec_refusal(reply, Failure::Kernel)),
                ),
            },
            Phase::Dumping { then_continue } => match reply {
                Reply::Done => if then_continue {
                    (
                        MachSession { phase: Phase::Continuing, ..self },
                        Step::Continue { pid: self.pid },
                    )
                } else {
                    self.spec_conclude(Outcome::Captured)
                },
                _ => self.spec_conclude(
                    Outcome::Failed(Self::spec_refusal(reply, Failure::Writer)),
                ),
            },
            Phase::Continuing => match reply {
                Reply::Done => self.spec_conclude(Outcome::Captured),
                _ => self.spec_conclude(
                    Outcome::Failed(Self::spec_refusal(reply, Failure::Kernel)),
                ),
            },
            Phase::Releasing => match reply {
                Reply::Done => self.spec_release_next(),
                _ => self.spec_conclude(
                    Outcome::Failed(Self::spec_refusal(reply, Failure::Kernel)),
                ),
            },
            Phase::Finished => self.spec_release_next(),
        }
    }
}

impl MachSession {
    /// Begins the capture of process `pid`: the first step is to attach.
    pub fn start(pid: i32, config: CaptureConfig) -> (begun: (MachSession, Step))
        ensures
            begun == Self::spec_start(pid, config),
            begun.0.inv(),
            begun.0.owns_nothing(),
    {
        (
            MachSession {
                pid,
                config,
                phase: Phase::Attaching,
                task: None,
                exception_port: None,
                monitor: false,
                previous_handler: None,
                faulting_task: None,
                faulting_thread: None,
                outcome: None,
            },
            Step::TaskForPid { pid },
        )
    }

    /// Whether the session is over.
    pub fn is_finished(&self) -> (over: bool)
        ensures
            over == self.finished(),
    {
        matches!(self.phase, Phase::Finished)
    }

    /// How many handles the session owns.
    pub fn owned(&self) -> (count: usize)
        ensures
            count == self.owned_count(),
            count == self.handles().len(),
            count == 0 <==> self.owns_nothing(),
    {
        proof {
            lemma_handles_len(*self);
        }
        let mut count: usize = 0;
        if self.task.is_some() {
            count += 1;
        }
        if self.exception_port.is_some() {
            count += 1;
        }
        if self.monitor {
            count += 1;
        }
        if self.previous_handler.is_some() {
            count += 1;
        }
        if self.faulting_task.is_some() {
            count += 1;
        }
        if self.faulting_thread.is_some() {
            count += 1;
        }
        count
    }

    fn release_next(&mut self) -> (step: Step)
        ensures
            (*final(self), step) == old(self).spec_release_next(),
    {
        self.phase = Phase::Releasing;
        if let Some(name) = self.faulting_thread {
            self.faulting_thread = None;
            Step::Release { handle: Handle::Port(name) }
        } else if let Some(name) = self.faulting_task {
            self.faulting_task = None;
            Step::Release { handle: Handle::Port(name) }
        } else if let Some(name) = self.previous_handler {
            self.previous_handler = None;
            Step::Release { handle: Handle::Port(name) }
        } else if self.monitor {
            self.monitor = false;
            Step::Release { handle: Handle::Monitor }
        } else if let Some(name) = self.exception_port {
            self.exception_port = None;
            Step::Release { handle: Handle::Port(name) }
        } else if let Some(name) = self.task {
            self.task = None;
            Step::Release { handle: Handle::Port(name) }
        } else {
            let outcome = match self.outcome {
                Some(outcome) => outcome,
                None => Outcome::Failed(Failure::Protocol),
            };
            self.phase = Phase::Finished;
            self.outcome = Some(outcome);
            Step::Finish { outcome }
        }
    }

    fn conclude(&mut self, outcome: Outcome) -> (step: Step)
        ensures
            (*final(self), step) == old(self).spec_conclude(outcome),
    {
        let settled = match self.outcome {
            Some(Outcome::Failed(failure)) => Outcome::Failed(failure),
            _ => outcome,
        };
        self.outcome = Some(settled);
        self.release_next()
    }

    fn refuse(&mut self, reply: &Reply, otherwise: Failure) -> (step: Step)
        ensures
            (*final(self), step) == old(self).spec_conclude(
                Outcome::Failed(Self::spec_refusal(*reply, otherwise)),
            ),
    {
        let failure = match reply {
            Reply::Failed => otherwise,
            _ => Failure::Protocol,
        };
        self.conclude(Outcome::Failed(failure))
    }

    fn on_event(&mut self, event: Event) -> (step: Step)
        ensures
            (*final(self), step) == old(self).spec_on_event(event),
    {
        match self.config.decide(event) {
            Capture::Skip => {
                let code = match event {
                    Event::Exit(code) => code,
                    _ => 0,
                };
                self.conclude(Outcome::Exited(code))
            },
            Capture::Plain => {
                self.phase = Phase::Dumping { then_continue: false };
                Step::Dump { context: MachCrashContext::plain(name(self.task)) }
            },
            Capture::WithException => {
                self.phase = Phase::Receiving;
                Step::ReceiveException { port: name(self.exception_port) }
            },
            Capture::PlainThenContinue => {
                self.phase = Phase::Dumping { then_continue: true };
                Step::Dump { context: MachCrashContext::plain(name(self.task)) }
            },
        }
    }

    fn swap_ports(&mut self) -> (step: Step)
        ensures
            *final(self) == (MachSession { phase: Phase::SwappingPorts, ..*old(self) }),
            step == (Step::SwapExceptionPorts {
                task: spec_name(old(self).task),
                port: spec_name(old(self).exception_port),
            }),
    {
        self.phase = Phase::SwappingPorts;
        Step::SwapExceptionPorts { task: name(self.task), port: name(self.exception_port) }
    }

    /// Takes the answer to the step asked for last and names the next step.
    ///
    /// The session and the step are exactly those of `spec_advance`. An
    /// answer that fails, or that does not fit the step, ends the capture:
    /// from then on the steps release what the session owns, one handle at a
    /// time, and the last step is `Finish`.
    pub fn advance(&mut self, reply: Reply) -> (step: Step)
        ensures
            (*final(self), step) == old(self).spec_advance(reply),
            old(self).inv() ==> final(self).inv(),
    {
        proof {
            if self.inv() {
                lemma_advance_keeps_inv(*self, reply);
            }
        }
        match self.phase {
            Phase::Attaching => match reply {
                Reply::Port(task) => {
                    self.task = Some(task);
                    match self.config.plan() {
                        Plan::Immediate => {
                            self.phase = Phase::Suspending;
                            Step::Suspend { task }
                        },
                        Plan::AwaitEvent => {
                            self.phase = Phase::AllocatingPort;
                            Step::AllocateReceivePort
                        },
                    }
                },
                _ => self.refuse(&reply, Failure::Attach),
            },
            Phase::Suspending => match reply {
                Reply::Done => {
                    self.phase = Phase::DumpingLive;
                    Step::Dump { context: MachCrashContext::plain(name(self.task)) }
                },
                _ => self.refuse(&reply, Failure::Kernel),
            },
            Phase::DumpingLive => {
                self.phase = Phase::Resuming { dumped: matches!(reply, Reply::Done) };
                Step::Resume { task: name(self.task) }
            },
            Phase::Resuming { dumped } => match reply {
                Reply::Done => if dumped {
                    self.conclude(Outcome::Captured)
                } else {
                    self.conclude(Outcome::Failed(Failure::Writer))
                },
                _ => self.refuse(&reply, Failure::Kernel),
            },
            Phase::AllocatingPort => match reply {
                Reply::Port(port) => {
                    self.phase = Phase::InsertingRight;
                    self.exception_port = Some(port);
                    Step::InsertSendRight { port }
                },
                _ => self.refuse(&reply, Failure::Kernel),
            },
            Phase::InsertingRight => match reply {
                Reply::Done => {
                    self.phase = Phase::OpeningMonitor;
                    Step::OpenMonitor
                },
                _ => self.refuse(&reply, Failure::Kernel),
            },
            Phase::OpeningMonitor => match reply {
                Reply::Done => {
                    self.phase = Phase::RegisteringUser;
                    self.monitor = true;
                    Step::Register { registration: user_filter() }
                },
                _ => self.refuse(&reply, Failure::Kernel),
            },
            Phase::RegisteringUser => match reply {
                Reply::Done => if self.config.catch_exit {
                    self.phase = Phase::StartingProbe;
                    Step::StartExitProbe { pid: self.pid }
                } else {
                    self.swap_ports()
                },
                _ => self.refuse(&reply, Failure::Kernel),
            },
            Phase::StartingProbe => match reply {
                Reply::Done => self.swap_ports(),
                _ => self.refuse(&reply, Failure::Unavailable),
            },
            Phase::SwappingPorts => match reply {
                Reply::Port(previous) => {
                    self.phase = Phase::RegisteringExit;
                    self.previous_handler = if previous != PORT_NULL {
                        Some(previous)
                    } else {
                        None
                    };
                    Step::Register { registration: exit_filter(self.pid) }
                },
                _ => self.refuse(&reply, Failure::Kernel),
            },
            Phase::RegisteringExit => match reply {
                Reply::Done => {
                    self.phase = Phase::RegisteringPort;
                    Step::Register { registration: port_filter(name(self.exception_port)) }
                },
                _ => self.refuse(&reply, Failure::Kernel),
            },
            Phase::RegisteringPort => match reply {
                Reply::Done => {
                    self.phase = Phase::Waiting;
                    Step::Wait
                },
                _ => self.refuse(&reply, Failure::Kernel),
            },
            Phase::Waiting => match reply {
                Reply::Kernel(raw) => if raw.count < 0 {
                    self.conclude(Outcome::Failed(Failure::Kernel))
                } else {
                    match classify(raw) {
                        Some(event) => self.on_event(event),
                        None => Step::Wait,
                    }
                },
                _ => self.refuse(&reply, Failure::Kernel),
            },
            Phase::Receiving => match reply {
                Reply::Message(message) => {
                    self.phase = Phase::Dumping { then_continue: false };
                    self.faulting_task = Some(message.task);
                    self.faulting_thread = Some(message.thread);
                    Step::Dump { context: MachCrashContext::with_exception(&message) }
                },
                _ => self.refuse(&reply, Failure::Kernel),
            },
            Phase::Dumping { then_continue } => match reply {
                Reply::Done => if then_continue {
                    self.phase = Phase::Continuing;
                    Step::Continue { pid: self.pid }
                } else {
                    self.conclude(Outcome::Captured)
                },
                _ => self.refuse(&reply, Failure::Writer),
            },
            Phase::Continuing => match reply {
                Reply::Done => self.conclude(Outcome::Captured),
                _ => self.refuse(&reply, Failure::Kernel),
            },
            Phase::Releasing => match reply {
                Reply::Done => self.release_next(),
                _ => self.refuse(&reply, Failure::Kernel),
            },
            Phase::Finished => self.release_next(),
        }
    }
}

/// Begins the inspection of process `pid` on the Mach platform: with
/// neither flag set the process is dumped as it runs, otherwise the
/// inspector waits for an exception, for the exit, or for either. The
/// caller performs the step that comes back, and every step after it, and
/// hands each answer to [`MachSession::advance`].
pub fn inspect(pid: i32, catch_exc: bool, catch_exit: bool) -> (begun: (MachSession, Step))
    ensures
        begun == MachSession::spec_start(
            pid,
            CaptureConfig { catch_exception: catch_exc, catch_exit },
        ),
        begun.0.inv(),
        begun.0.owns_nothing(),
{
    MachSession::start(pid, CaptureConfig { catch_exception: catch_exc, catch_exit })
}

/// The sequence of handles has one entry for each occupied slot.
pub proof fn lemma_handles_len(session: MachSession)
    ensures
        session.handles().len() == session.owned_count(),
        session.owned_count() == 0 <==> session.owns_nothing(),
{
}

/// Releasing gives back the handle acquired last and empties its slot; where
/// no slot is occupied it finishes the session.
pub proof fn lemma_release_next(session: MachSession)
    ensures
        ({
            let (next, step) = session.spec_release_next();
            &&& step matches Step::Release { handle } ==> {
                &&& session.handles().len() > 0
                &&& handle == session.handles().last()
                &&& next.handles() == session.handles().drop_last()
                &&& next.phase == Phase::Releasing
            }
            &&& step matches Step::Finish { outcome } ==> {
                &&& session.owns_nothing()
                &&& next.owns_nothing()
                &&& next.outcome == Some(outcome)
                &&& next.finished()
            }
            &&& step is Release || step is Finish
        }),
{
    let (next, step) = session.spec_release_next();
    if step is Release {
        assert(next.handles() =~= session.handles().drop_last());
    }
}

proof fn lemma_release_counts(session: MachSession)
    ensures
        ({
            let (next, step) = session.spec_release_next();
            &&& next.outcome is Some || session.outcome is None
            &&& session.outcome is Some ==> next.inv() && next.outcome == session.outcome
            &&& next.owned_count() + spec_releases(step) == session.owned_count()
            &&& next.phase == Phase::Releasing || next.phase == Phase::Finished
            &&& next.phase == Phase::Finished ==> next.owns_nothing()
            &&& step is Release ==> next.phase == Phase::Releasing
        }),
{
}

proof fn lemma_conclude_counts(session: MachSession, outcome: Outcome)
    ensures
        ({
            let (next, step) = session.spec_conclude(outcome);
            &&& next.inv()
            &&& next.owned_count() + spec_releases(step) == session.owned_count()
            &&& next.phase == Phase::Releasing || next.phase == Phase::Finished
        }),
{
    let settled = MachSession {
        outcome: Some(
            match session.outcome {
                Some(Outcome::Failed(failure)) => Outcome::Failed(failure),
                _ => outcome,
            },
        ),
        ..session
    };
    lemma_release_counts(settled);
}

/// A step keeps what holds of every session, and the ledger balances: what
/// the session owns after the step, and what the step releases, is what the
/// session owned before and what the answer handed over.
pub proof fn lemma_advance_keeps_inv(session: MachSession, reply: Reply)
    requires
        session.inv(),
    ensures
        ({
            let (next, step) = session.spec_advance(reply);
            &&& next.inv()
            &&& next.owned_count() + spec_releases(step) == session.owned_count()
                + session.acquires(reply)
        }),
{
    assert forall|outcome: Outcome|
        #![trigger session.spec_conclude(outcome)]
        ({
            let (next, step) = session.spec_conclude(outcome);
            &&& next.inv()
            &&& next.owned_count() + spec_releases(step) == session.owned_count()
        }) by {
        lemma_conclude_counts(session, outcome);
    }
    lemma_release_counts(session);
}

/// Every step but an idle wait brings the session nearer to its end, and an
/// idle wait leaves it as it is.
pub proof fn lemma_advance_makes_progress(session: MachSession, reply: Reply)
    requires
        session.inv(),
        !session.finished(),
    ensures
        session.idles(reply) ==> session.spec_advance(reply) == (session, Step::Wait),
        !session.idles(reply) ==> session.spec_advance(reply).0.steps_left()
            < session.steps_left(),
{
    assert forall|outcome: Outcome|
        #![trigger session.spec_conclude(outcome)]
        ({
            let (next, step) = session.spec_conclude(outcome);
            &&& next.owned_count() <= session.owned_count()
            &&& next.phase == Phase::Releasing || next.phase == Phase::Finished
            &&& next.phase == Phase::Releasing ==> next.owned_count() < session.owned_count()
        }) by {
        lemma_conclude_counts(session, outcome);
    }
    lemma_release_counts(session);
}

/// Along any run of answers the ledger balances: what the session owns at
/// the end, and what the steps released, is what it owned at the start and
/// what the answers handed over.
pub proof fn lemma_run_balances(session: MachSession, replies: Seq<Reply>)
    requires
        session.inv(),
    ensures
        session.spec_run(replies).inv(),
        session.spec_run(replies).owned_count() + session.released_along(replies)
            == session.owned_count() + session.acquired_along(replies),
    decreases replies.len(),
{
    if replies.len() > 0 {
        lemma_advance_keeps_inv(session, replies[0]);
        lemma_run_balances(session.spec_advance(replies[0]).0, replies.drop_first());
    }
}

/// No capture leaks a kernel handle, whether it succeeds or fails: a session
/// owns nothing when it starts and nothing when it has finished, whatever
/// the kernel answered in between, and what was handed to it in between was
/// released in between.
pub proof fn lemma_session_leaks_nothing(pid: i32, config: CaptureConfig, replies: Seq<Reply>)
    requires
        MachSession::spec_start(pid, config).0.spec_run(replies).finished(),
    ensures
        ({
            let begun = MachSession::spec_start(pid, config).0;
            let ended = begun.spec_run(replies);
            &&& begun.handles().len() == 0
            &&& ended.handles().len() == 0
            &&& begun.acquired_along(replies) == begun.released_along(replies)
        }),
{
    let begun = MachSession::spec_start(pid, config).0;
    lemma_run_balances(begun, replies);
    lemma_handles_len(begun);
    lemma_handles_len(begun.spec_run(replies));
}

/// A session comes to its end: once it has been given as many answers as it
/// had steps left, the idle waits not counted, it has finished.
pub proof fn lemma_session_finishes(session: MachSession, replies: Seq<Reply>)
    requires
        session.inv(),
        replies.len() >= session.steps_left() + session.idle_along(replies),
    ensures
        session.spec_run(replies).finished(),
    decreases replies.len(),
{
    if session.finished() {
        lemma_finished_stays(session, replies);
    } else {
        lemma_advance_keeps_inv(session, replies[0]);
        lemma_advance_makes_progress(session, replies[0]);
        lemma_session_finishes(session.spec_advance(replies[0]).0, replies.drop_first());
    }
}

/// A finished session stays finished.
pub proof fn lemma_finished_stays(session: MachSession, replies: Seq<Reply>)
    requires
        session.inv(),
        session.finished(),
    ensures
        session.spec_run(replies) == session,
    decreases replies.len(),
{
    if replies.len() > 0 {
        assert(session.spec_advance(replies[0]).0 == session);
        lemma_finished_stays(session, replies.drop_first());
    }
}

/// The target is resumed on every path: along any run of answers the steps
/// ask for the target to be resumed as often as it was suspended, but for a
/// suspension that the session still holds at the end of the run; and a
/// finished session holds none.
pub proof fn lemma_suspension_balances(session: MachSession, replies: Seq<Reply>)
    ensures
        ({
            let held: nat = if session.holds_suspended() { 1 } else { 0 };
            let holds: nat = if session.spec_run(replies).holds_suspended() { 1 } else { 0 };
            session.resumed_along(replies) + holds == session.suspended_along(replies) + held
        }),
        session.spec_run(replies).finished() ==> !session.spec_run(replies).holds_suspended(),
    decreases replies.len(),
{
    if replies.len() > 0 {
        let (next, step) = session.spec_advance(replies[0]);
        lemma_release_counts(session);
        assert forall|outcome: Outcome|
            #![trigger session.spec_conclude(outcome)]
            ({
                let (next, step) = session.spec_conclude(outcome);
                !(step is Resume) && !next.holds_suspended()
            }) by {
            lemma_conclude_counts(session, outcome);
        }
        lemma_suspension_balances(next, replies.drop_first());
    }
}

} // verus!
