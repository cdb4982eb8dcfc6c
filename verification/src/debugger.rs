//! The capture on the Windows platform, as a sequence of steps.
//!
//! The engine makes no system call itself. It names the next step; the
//! caller performs it and hands back what the system answered; the engine
//! then names the step after that. A session begins with
//! [`DebugSession::start`] and is over when the step is [`DebugStep::Finish`].
//!
//! Whatever the flags, the inspector opens the target, refuses a target of
//! another instruction-set width, enables its debug privilege and attaches
//! as a debugger, which suspends the target; the detach lets the target run
//! again. With neither flag set the target is dumped between the two. With a
//! flag set the inspector loops on the target's debug events until one is an
//! exception or the target's exit. Handles that a step opens are entered in
//! the session and leave it only through a [`DebugStep::Release`]; an
//! attached session detaches before it finishes.

use vstd::prelude::*;
use crate::bytes::{signed, spec_signed, spec_unsigned, unsigned};
use crate::context::WindowsCrashContext;
use crate::outcome::{Failure, Outcome};
use crate::policy::{CaptureConfig, Plan};

verus! {

/// Debug event: the target raised an exception.
pub const EXCEPTION_DEBUG_EVENT: u32 = 1;

/// Debug event: the target has exited.
pub const EXIT_PROCESS_DEBUG_EVENT: u32 = 5;

/// The exception that the attach itself raises in the target.
pub const EXCEPTION_BREAKPOINT: u32 = 0x8000_0003;

/// Continue status: the event is dealt with.
pub const DBG_CONTINUE: u32 = 0x0001_0002;

/// Continue status: the exception is left to the target's own handlers.
pub const DBG_EXCEPTION_NOT_HANDLED: u32 = 0x8001_0001;

/// What the engine reads of one debug event.
#[derive(Clone, Copy, Debug, PartialEq, Eq, Structural)]
pub struct DebugEvent {
    /// The kind of debug event.
    pub code: u32,
    pub process_id: u32,
    pub thread_id: u32,
    /// The code of the exception record, for an exception event.
    pub exception_code: u32,
    /// The exit code of the process, for an exit event.
    pub exit_code: u32,
}

/// What a debug event is to the capture.
#[derive(Clone, Copy, Debug, PartialEq, Eq, Structural)]
pub enum DebugKind {
    /// An exception other than the breakpoint of the attach.
    Exception,
    /// The exit of the target.
    Exit,
    /// Anything else: the target is continued and the loop goes on.
    Pass,
}

/// A handle that the session owns.
#[derive(Clone, Copy, Debug, PartialEq, Eq, Structural)]
pub enum DebugHandle {
    /// The handle to the target process.
    Process,
    /// The handle to the thread that raised the exception.
    Thread,
}

/// A region of memory that the engine has allocated in the target.
#[derive(Clone, Copy, Debug, PartialEq, Eq, Structural)]
pub enum Region {
    /// Holds the exception record.
    Record,
    /// Holds the thread context.
    Context,
    /// Holds the pair of pointers to the other two.
    Pointers,
}

/// What the caller is to do next.
#[derive(Clone, Copy, Debug, PartialEq, Eq, Structural)]
pub enum DebugStep {
    /// Have the minidump writer dump from this descriptor. Answer: `Done`.
    Dump { context: WindowsCrashContext },
    /// Open the target process for operations on and writes to its memory.
    /// Answer: `Done`.
    OpenProcess { process_id: u32 },
    /// Ask whether a process runs under the 32-bit emulation: the target
    /// where `target` is set, the inspector itself otherwise. Answer: `Flag`.
    QueryWow64 { target: bool },
    /// Enable the debug privilege on the inspector's token. Answer: `Done`.
    EnablePrivilege,
    /// Attach to the process as its debugger, which suspends the process.
    /// Answer: `Done`.
    Attach { process_id: u32 },
    /// Wait for the next debug event, without timeout. Answer: `Event`.
    Wait,
    /// Open the thread to read its context. Answer: `Done`.
    OpenThread { thread_id: u32 },
    /// Read the full context of the opened thread. Answer: `Done`.
    GetThreadContext,
    /// Allocate memory, readable and writable, in the target for `region`.
    /// Answer: `Address`.
    Allocate { region: Region },
    /// Write the exception record of the event to `address` in the target.
    /// Answer: `Done`.
    WriteRecord { address: u64 },
    /// Write the thread context to `address` in the target. Answer: `Done`.
    WriteContext { address: u64 },
    /// Write the pair of the addresses `record_at` and `context_at` to
    /// `address` in the target. Answer: `Done`.
    WritePointers { address: u64, record_at: u64, context_at: u64 },
    /// Continue the thread that reported the debug event. Answer: `Done`.
    Continue { process_id: u32, thread_id: u32, status: u32 },
    /// Stop debugging the process, which lets the process run again.
    /// Answer: `Done`.
    Detach { process_id: u32 },
    /// Close the handle. Answer: `Done`.
    Release { handle: DebugHandle },
    /// The session is over; nothing is left to do.
    Finish { outcome: Outcome },
}

/// What the system answered to the step before.
#[derive(Clone, Copy, Debug, PartialEq, Eq, Structural)]
pub enum DebugReply {
    /// The step succeeded and has nothing to report.
    Done,
    /// The step failed.
    Failed,
    /// The answer to a question.
    Flag(bool),
    /// The address of what was allocated; zero where nothing was.
    Address(u64),
    /// The debug event that was waited for.
    Event(DebugEvent),
}

/// Where a session stands: the step it has asked for and waits to hear of.
#[derive(Clone, Copy, Debug, PartialEq, Eq, Structural)]
pub enum DebugPhase {
    DumpingLive,
    Opening,
    QueryingTarget,
    QueryingSelf,
    EnablingPrivilege,
    Attaching,
    Waiting,
    Passing,
    OpeningThread,
    GettingContext,
    AllocatingRecord,
    WritingRecord,
    AllocatingContext,
    WritingContext,
    AllocatingPointers,
    WritingPointers,
    Dumping,
    Continuing,
    Detaching,
    Releasing,
    Finished,
}

/// One capture on the Windows platform.
#[derive(Clone, Copy, Debug, PartialEq, Eq, Structural)]
pub struct DebugSession {
    pub process_id: u32,
    pub config: CaptureConfig,
    pub phase: DebugPhase,
    /// Whether the handle to the target process is open.
    pub process: bool,
    /// Whether the handle to the faulting thread is open.
    pub thread: bool,
    /// Whether the inspector is attached to the target as its debugger.
    pub attached: bool,
    /// Whether the target runs under the 32-bit emulation.
    pub target_wow64: bool,
    /// The debug event that is being dealt with.
    pub event: DebugEvent,
    /// Where the exception record was placed in the target.
    pub record: u64,
    /// Where the thread context was placed in the target.
    pub context: u64,
    /// Where the pair of pointers was placed in the target.
    pub pointers: u64,
    /// How the capture ended, once that is known.
    pub outcome: Option<Outcome>,
}

/// What a debug event is to the capture: an exception event is an exception
/// unless it is the breakpoint of the attach, an exit event is the exit, and
/// everything else is passed over.
pub open spec fn spec_classify(event: DebugEvent) -> DebugKind {
    if event.code == EXCEPTION_DEBUG_EVENT && event.exception_code != EXCEPTION_BREAKPOINT {
        DebugKind::Exception
    } else if event.code == EXIT_PROCESS_DEBUG_EVENT {
        DebugKind::Exit
    } else {
        DebugKind::Pass
    }
}

/// What a debug event is to the capture.
pub fn classify(event: &DebugEvent) -> (kind: DebugKind)
    ensures
        kind == spec_classify(*event),
{
    if event.code == EXCEPTION_DEBUG_EVENT && event.exception_code != EXCEPTION_BREAKPOINT {
        DebugKind::Exception
    } else if event.code == EXIT_PROCESS_DEBUG_EVENT {
        DebugKind::Exit
    } else {
        DebugKind::Pass
    }
}

/// Whether the inspector can capture the target: both run under the 32-bit
/// emulation, or neither does.
pub open spec fn spec_compatible(target_wow64: bool, inspector_wow64: bool) -> bool {
    target_wow64 == inspector_wow64
}

/// How many handles a step closes.
pub open spec fn spec_releases(step: DebugStep) -> nat {
    if step is Release {
        1
    } else {
        0
    }
}

impl DebugSession {
    /// The handles that the session owns, the one opened first at the front.
    pub open spec fn handles(&self) -> Seq<DebugHandle> {
        let process = if self.process {
            seq![DebugHandle::Process]
        } else {
            seq![]
        };
        let thread = if self.thread {
            seq![DebugHandle::Thread]
        } else {
            seq![]
        };
        process + thread
    }

    /// How many handles the session owns.
    pub open spec fn owned_count(&self) -> nat {
        let process: nat = if self.process { 1 } else { 0 };
        let thread: nat = if self.thread { 1 } else { 0 };
        process + thread
    }

    /// Whether the session is over.
    pub open spec fn finished(&self) -> bool {
        self.phase == DebugPhase::Finished
    }

    /// What holds of every session that `start` and `advance` produce: which
    /// handles are open, and whether the inspector is attached, in which
    /// phase. How the capture ended is not on record before the capture has
    /// ended. A finished session owns nothing, is detached, and knows how it
    /// ended.
    pub open spec fn inv(&self) -> bool {
        let debugging = self.process && self.attached;
        let undecided = self.outcome is None;
        match self.phase {
            DebugPhase::Opening => !self.process && !self.thread && !self.attached && undecided,
            DebugPhase::QueryingTarget | DebugPhase::QueryingSelf | DebugPhase::EnablingPrivilege
            | DebugPhase::Attaching => self.process && !self.thread && !self.attached && undecided,
            DebugPhase::DumpingLive | DebugPhase::Waiting | DebugPhase::Passing
            | DebugPhase::OpeningThread => debugging && !self.thread && undecided,
            DebugPhase::GettingContext | DebugPhase::AllocatingRecord | DebugPhase::WritingRecord
            | DebugPhase::AllocatingContext | DebugPhase::WritingContext
            | DebugPhase::AllocatingPointers | DebugPhase::WritingPointers => debugging
                && self.thread && undecided,
            DebugPhase::Dumping => debugging && undecided,
            DebugPhase::Continuing => debugging && self.outcome is Some,
            DebugPhase::Detaching => !self.attached && self.outcome is Some,
            DebugPhase::Releasing => !self.attached && self.outcome is Some,
            DebugPhase::Finished => !self.process && !self.thread && !self.attached
                && self.outcome is Some,
        }
    }

    /// How many handles the answer `reply` hands over to the session.
    pub open spec fn acquires(&self, reply: DebugReply) -> nat {
        match (self.phase, reply) {
            (DebugPhase::Opening, DebugReply::Done) => 1,
            (DebugPhase::OpeningThread, DebugReply::Done) => 1,
            _ => 0,
        }
    }

    /// Whether `reply` is a debug event that is passed over, so that the
    /// session goes on to wait for another.
    pub open spec fn passes(&self, reply: DebugReply) -> bool {
        &&& self.phase == DebugPhase::Waiting
        &&& reply matches DebugReply::Event(event)
        &&& spec_classify(event) == DebugKind::Pass
    }

    /// An upper bound on the steps that are left before the session either
    /// has finished or waits for the next debug event.
    pub open spec fn steps_left(&self) -> nat {
        let phase: nat = match self.phase {
            DebugPhase::DumpingLive => 5,
            DebugPhase::Opening => 22,
            DebugPhase::QueryingTarget => 21,
            DebugPhase::QueryingSelf => 20,
            DebugPhase::EnablingPrivilege => 19,
            DebugPhase::Attaching => 18,
            DebugPhase::Passing => 17,
            DebugPhase::Waiting => 16,
            DebugPhase::OpeningThread => 15,
            DebugPhase::GettingContext => 14,
            DebugPhase::AllocatingRecord => 13,
            DebugPhase::WritingRecord => 12,
            DebugPhase::AllocatingContext => 11,
            DebugPhase::WritingContext => 10,
            DebugPhase::AllocatingPointers => 9,
            DebugPhase::WritingPointers => 8,
            DebugPhase::Dumping => 7,
            DebugPhase::Continuing => 6,
            DebugPhase::Detaching => 4,
            DebugPhase::Releasing => 3,
            DebugPhase::Finished => 0,
        };
        let attached: nat = if self.attached { 1 } else { 0 };
        phase * 4 + self.owned_count() + attached
    }

    /// The session of process `pid` before its first step, which is to open
    /// the target, whatever the flags.
    pub open spec fn spec_start(pid: i32, config: CaptureConfig) -> (DebugSession, DebugStep) {
        let process_id = spec_unsigned(pid);
        let session = DebugSession {
            process_id,
            config,
            phase: DebugPhase::Opening,
            process: false,
            thread: false,
            attached: false,
            target_wow64: false,
            event: DebugEvent {
                code: 0,
                process_id: 0,
                thread_id: 0,
                exception_code: 0,
                exit_code: 0,
            },
            record: 0,
            context: 0,
            pointers: 0,
            outcome: None,
        };
        (session, DebugStep::OpenProcess { process_id })
    }

    /// The step after the attach. With neither flag set the target, now
    /// suspended, is dumped at once, with no thread and no exception;
    /// otherwise the inspector waits for a debug event.
    pub open spec fn spec_after_attach(self) -> (DebugPhase, DebugStep) {
        match self.config.spec_plan() {
            Plan::Immediate => (
                DebugPhase::DumpingLive,
                DebugStep::Dump {
                    context: WindowsCrashContext::spec_plain(self.process_id, 0),
                },
            ),
            Plan::AwaitEvent => (DebugPhase::Waiting, DebugStep::Wait),
        }
    }

    /// Detaches if attached, else closes the handle opened last, else
    /// finishes.
    pub open spec fn spec_release_next(self) -> (DebugSession, DebugStep) {
        if self.attached {
            (
                DebugSession { phase: DebugPhase::Detaching, attached: false, ..self },
                DebugStep::Detach { process_id: self.process_id },
            )
        } else if self.thread {
            (
                DebugSession { phase: DebugPhase::Releasing, thread: false, ..self },
                DebugStep::Release { handle: DebugHandle::Thread },
            )
        } else if self.process {
            (
                DebugSession { phase: DebugPhase::Releasing, process: false, ..self },
                DebugStep::Release { handle: DebugHandle::Process },
            )
        } else {
            let outcome = match self.outcome {
                Some(outcome) => outcome,
                None => Outcome::Failed(Failure::Protocol),
            };
            (
                DebugSession { phase: DebugPhase::Finished, outcome: Some(outcome), ..self },
                DebugStep::Finish { outcome },
            )
        }
    }

    /// Settles how the capture ended, unless a failure is already on record,
    /// and begins to give back what the session holds.
    pub open spec fn spec_conclude(self, outcome: Outcome) -> (DebugSession, DebugStep) {
        let settled = match self.outcome {
            Some(Outcome::Failed(failure)) => Outcome::Failed(failure),
            _ => outcome,
        };
        (DebugSession { outcome: Some(settled), ..self }).spec_release_next()
    }

    /// The failure that an answer other than the awaited one stands for:
    /// `otherwise` where the step failed, a breach of protocol for anything else.
    pub open spec fn spec_refusal(reply: DebugReply, otherwise: Failure) -> Failure {
        if reply is Failed {
            otherwise
        } else {
            Failure::Protocol
        }
    }

    /// Continues the thread of the current event for the last time, with the
    /// exception left unhandled; the capture then ends with `outcome`.
    pub open spec fn spec_continue_last(self, outcome: Outcome) -> (DebugSession, DebugStep) {
        (
            DebugSession { phase: DebugPhase::Continuing, outcome: Some(outcome), ..self },
            DebugStep::Continue {
                process_id: self.event.process_id,
                thread_id: self.event.thread_id,
                status: DBG_EXCEPTION_NOT_HANDLED,
            },
        )
    }

    /// The step that a debug event calls for.
    pub open spec fn spec_on_event(self, event: DebugEvent) -> (DebugSession, DebugStep) {
        let taken = DebugSession { event, ..self };
        match spec_classify(event) {
            DebugKind::Exception => (
                DebugSession { phase: DebugPhase::OpeningThread, ..taken },
                DebugStep::OpenThread { thread_id: event.thread_id },
            ),
            DebugKind::Exit => if self.config.catch_exit {
                (
                    DebugSession { phase: DebugPhase::Dumping, ..taken },
                    DebugStep::Dump {
                        context: WindowsCrashContext::spec_plain(
                            event.process_id,
                            event.thread_id,
                        ),
                    },
                )
            } else {
                taken.spec_continue_last(Outcome::Exited(spec_signed(event.exit_code)))
            },
            DebugKind::Pass => (
                DebugSession { phase: DebugPhase::Passing, ..taken },
                DebugStep::Continue {
                    process_id: event.process_id,
                    thread_id: event.thread_id,
                    status: DBG_CONTINUE,
                },
            ),
        }
    }

    /// The step after a step that has nothing to report: `next` where it
    /// succeeded, the end of the capture otherwise.
    pub open spec fn spec_follow(
        self,
        reply: DebugReply,
        phase: DebugPhase,
        step: DebugStep,
        otherwise: Failure,
    ) -> (DebugSession, DebugStep) {
        match reply {
            DebugReply::Done => (DebugSession { phase, ..self }, step),
            _ => self.spec_conclude(Outcome::Failed(Self::spec_refusal(reply, otherwise))),
        }
    }

    /// The session after `reply`, and the step it asks for next.
    pub open spec fn spec_advance(self, reply: DebugReply) -> (DebugSession, DebugStep) {
        match self.phase {
            DebugPhase::DumpingLive => match reply {
                DebugReply::Done => self.spec_conclude(Outcome::Captured),
                _ => self.spec_conclude(
                    Outcome::Failed(Self::spec_refusal(reply, Failure::Writer)),
                ),
            },
            DebugPhase::Opening => (DebugSession {
                process: reply is Done,
                ..self
            }).spec_follow(
                reply,
                DebugPhase::QueryingTarget,
                DebugStep::QueryWow64 { target: true },
                Failure::Attach,
            ),
            DebugPhase::QueryingTarget => match reply {
                DebugReply::Flag(wow64) => (
                    DebugSession {
                        phase: DebugPhase::QueryingSelf,
                        target_wow64: wow64,
                        ..self
                    },
                    DebugStep::QueryWow64 { target: false },
                ),
                _ => self.spec_conclude(
                    Outcome::Failed(Self::spec_refusal(reply, Failure::Kernel)),
                ),
            },
            DebugPhase::QueryingSelf => match reply {
                DebugReply::Flag(wow64) => if spec_compatible(self.target_wow64, wow64) {
                    (
                        DebugSession { phase: DebugPhase::EnablingPrivilege, ..self },
                        DebugStep::EnablePrivilege,
                    )
                } else {
                    self.spec_conclude(Outcome::Failed(Failure::ArchitectureMismatch))
                },
                _ => self.spec_conclude(
                    Outcome::Failed(Self::spec_refusal(reply, Failure::Kernel)),
                ),
            },
            DebugPhase::EnablingPrivilege => self.spec_follow(
                reply,
                DebugPhase::Attaching,
                DebugStep::Attach { process_id: self.process_id },
                Failure::Kernel,
            ),
            DebugPhase::Attaching => (DebugSession {
                attached: reply is Done,
                ..self
            }).spec_follow(
                reply,
                self.spec_after_attach().0,
                self.spec_after_attach().1,
                Failure::Attach,
            ),
            DebugPhase::Waiting => match reply {
                DebugReply::Event(event) => self.spec_on_event(event),
                _ => self.spec_conclude(
                    Outcome::Failed(Self::spec_refusal(reply, Failure::Kernel)),
                ),
            },
            DebugPhase::Passing => self.spec_follow(
                reply,
                DebugPhase::Waiting,
                DebugStep::Wait,
                Failure::Kernel,
            ),
            DebugPhase::OpeningThread => (DebugSession {
                thread: reply is Done,
                ..self
            }).spec_follow(
                reply,
                DebugPhase::GettingContext,
                DebugStep::GetThreadContext,
                Failure::Kernel,
            ),
            DebugPhase::GettingContext => self.spec_follow(
                reply,
                DebugPhase::AllocatingRecord,
                DebugStep::Allocate { region: Region::Record },
                Failure::Kernel,
            ),
            DebugPhase::AllocatingRecord => match reply {
                DebugReply::Address(address) if address != 0 => (
                    DebugSession { phase: DebugPhase::WritingRecord, record: address, ..self },
                    DebugStep::WriteRecord { address },
                ),
                DebugReply::Address(_) => self.spec_conclude(Outcome::Failed(Failure::Kernel)),
                _ => self.spec_conclude(
                    Outcome::Failed(Self::spec_refusal(reply, Failure::Kernel)),
                ),
            },
            DebugPhase::WritingRecord => self.spec_follow(
                reply,
                DebugPhase::AllocatingContext,
                DebugStep::Allocate { region: Region::Context },
                Failure::Kernel,
            ),
            DebugPhase::AllocatingContext => match reply {
                DebugReply::Address(address) if address != 0 => (
                    DebugSession { phase: DebugPhase::WritingContext, context: address, ..self },
                    DebugStep::WriteContext { address },
                ),
                DebugReply::Address(_) => self.spec_conclude(Outcome::Failed(Failure::Kernel)),
                _ => self.spec_conclude(
                    Outcome::Failed(Self::spec_refusal(reply, Failure::Kernel)),
                ),
            },
            DebugPhase::WritingContext => self.spec_follow(
                reply,
                DebugPhase::AllocatingPointers,
                DebugStep::Allocate { region: Region::Pointers },
                Failure::Kernel,
            ),
            DebugPhase::AllocatingPointers => match reply {
                DebugReply::Address(address) if address != 0 => (
                    DebugSession {
                        phase: DebugPhase::WritingPointers,
                        pointers: address,
                        ..self
                    },
                    DebugStep::WritePointers {
                        address,
                        record_at: self.record,
                        context_at: self.context,
                    },
                ),
                DebugReply::Address(_) => self.spec_conclude(Outcome::Failed(Failure::Kernel)),
                _ => self.spec_conclude(
                    Outcome::Failed(Self::spec_refusal(reply, Failure::Kernel)),
                ),
            },
            DebugPhase::WritingPointers => self.spec_follow(
                reply,
                DebugPhase::Dumping,
                DebugStep::Dump {
                    context: WindowsCrashContext {
                        process_id: self.event.process_id,
                        thread_id: self.event.thread_id,
                        exception_code: self.event.exception_code,
                        exception_pointers: self.pointers,
                    },
                },
                Failure::Kernel,
            ),
            DebugPhase::Dumping => match reply {
                DebugReply::Done => self.spec_continue_last(Outcome::Captured),
                _ => self.spec_conclude(
                    Outcome::Failed(Self::spec_refusal(reply, Failure::Writer)),
                ),
            },
            DebugPhase::Continuing | DebugPhase::Detaching | DebugPhase::Releasing => match reply {
                DebugReply::Done => self.spec_release_next(),
                _ => self.spec_conclude(
                    Outcome::Failed(Self::spec_refusal(reply, Failure::Kernel)),
                ),
            },
            DebugPhase::Finished => self.spec_release_next(),
        }
    }

    /// How many answers of a run are debug events that are passed over.
    pub open spec fn passed_along(self, replies: Seq<DebugReply>) -> nat
        decreases replies.len(),
    {
        if replies.len() == 0 {
            0
        } else {
            let once: nat = if self.passes(replies[0]) { 1 } else { 0 };
            once + self.spec_advance(replies[0]).0.passed_along(replies.drop_first())
        }
    }

    /// Whether the answer `reply` says that the inspector has attached.
    pub open spec fn attaches(&self, reply: DebugReply) -> bool {
        self.phase == DebugPhase::Attaching && reply is Done
    }

    /// How often a run of answers says that the inspector has attached.
    pub open spec fn attached_along(self, replies: Seq<DebugReply>) -> nat
        decreases replies.len(),
    {
        if replies.len() == 0 {
            0
        } else {
            let once: nat = if self.attaches(replies[0]) { 1 } else { 0 };
            once + self.spec_advance(replies[0]).0.attached_along(replies.drop_first())
        }
    }

    /// How often the steps of a run ask for the inspector to detach.
    pub open spec fn detached_along(self, replies: Seq<DebugReply>) -> nat
        decreases replies.len(),
    {
        if replies.len() == 0 {
            0
        } else {
            let (next, step) = self.spec_advance(replies[0]);
            let once: nat = if step is Detach { 1 } else { 0 };
            once + next.detached_along(replies.drop_first())
        }
    }

    /// The session after a run of answers, each given to the step before it.
    pub open spec fn spec_run(self, replies: Seq<DebugReply>) -> DebugSession
        decreases replies.len(),
    {
        if replies.len() == 0 {
            self
        } else {
            self.spec_advance(replies[0]).0.spec_run(replies.drop_first())
        }
    }

    /// How many handles a run of answers hands over to the session.
    pub open spec fn acquired_along(self, replies: Seq<DebugReply>) -> nat
        decreases replies.len(),
    {
        if replies.len() == 0 {
            0
        } else {
            self.acquires(replies[0]) + self.spec_advance(replies[0]).0.acquired_along(
                replies.drop_first(),
            )
        }
    }

    /// How many handles the steps of a run close.
    pub open spec fn released_along(self, replies: Seq<DebugReply>) -> nat
        decreases replies.len(),
    {
        if replies.len() == 0 {
            0
        } else {
            let (next, step) = self.spec_advance(replies[0]);
            spec_releases(step) + next.released_along(replies.drop_first())
        }
    }
}

impl DebugSession {
    /// Begins the capture of process `pid`.
    pub fn start(pid: i32, config: CaptureConfig) -> (begun: (DebugSession, DebugStep))
        ensures
            begun == Self::spec_start(pid, config),
            begun.0.inv(),
            begun.0.owned_count() == 0,
    {
        let process_id = unsigned(pid);
        let session = DebugSession {
            process_id,
            config,
            phase: DebugPhase::Opening,
            process: false,
            thread: false,
            attached: false,
            target_wow64: false,
            event: DebugEvent {
                code: 0,
                process_id: 0,
                thread_id: 0,
                exception_code: 0,
                exit_code: 0,
            },
            record: 0,
            context: 0,
            pointers: 0,
            outcome: None,
        };
        (session, DebugStep::OpenProcess { process_id })
    }

    fn after_attach(&self) -> (next: (DebugPhase, DebugStep))
        ensures
            next == self.spec_after_attach(),
    {
        match self.config.plan() {
            Plan::Immediate => (
                DebugPhase::DumpingLive,
                DebugStep::Dump { context: WindowsCrashContext::plain(self.process_id, 0) },
            ),
            Plan::AwaitEvent => (DebugPhase::Waiting, DebugStep::Wait),
        }
    }

    /// Whether the session is over.
    pub fn is_finished(&self) -> (over: bool)
        ensures
            over == self.finished(),
    {
        matches!(self.phase, DebugPhase::Finished)
    }

    /// How many handles the session owns.
    pub fn owned(&self) -> (count: usize)
        ensures
            count == self.owned_count(),
            count == self.handles().len(),
    {
        let mut count: usize = 0;
        if self.process {
            count += 1;
        }
        if self.thread {
            count += 1;
        }
        count
    }

    fn release_next(&mut self) -> (step: DebugStep)
        ensures
            (*final(self), step) == old(self).spec_release_next(),
    {
        if self.attached {
            self.phase = DebugPhase::Detaching;
            self.attached = false;
            DebugStep::Detach { process_id: self.process_id }
        } else if self.thread {
            self.phase = DebugPhase::Releasing;
            self.thread = false;
            DebugStep::Release { handle: DebugHandle::Thread }
        } else if self.process {
            self.phase = DebugPhase::Releasing;
            self.process = false;
            DebugStep::Release { handle: DebugHandle::Process }
        } else {
            let outcome = match self.outcome {
                Some(outcome) => outcome,
                None => Outcome::Failed(Failure::Protocol),
            };
            self.phase = DebugPhase::Finished;
            self.outcome = Some(outcome);
            DebugStep::Finish { outcome }
        }
    }

    fn conclude(&mut self, outcome: Outcome) -> (step: DebugStep)
        ensures
            (*final(self), step) == old(self).spec_conclude(outcome),
    {
        let settled = match self.outcome {
            Some(Outcome::Failed(failure)) => Outcome::Failed(failure),
            _ => outcome,
        };
        self.outcome = Some(settled);
        self.release_next()
    }

    fn refuse(&mut self, reply: &DebugReply, otherwise: Failure) -> (step: DebugStep)
        ensures
            (*final(self), step) == old(self).spec_conclude(
                Outcome::Failed(Self::spec_refusal(*reply, otherwise)),
            ),
    {
        let failure = match reply {
            DebugReply::Failed => otherwise,
            _ => Failure::Protocol,
        };
        self.conclude(Outcome::Failed(failure))
    }

    fn continue_last(&mut self, outcome: Outcome) -> (step: DebugStep)
        ensures
            (*final(self), step) == old(self).spec_continue_last(outcome),
    {
        self.phase = DebugPhase::Continuing;
        self.outcome = Some(outcome);
        DebugStep::Continue {
            process_id: self.event.process_id,
            thread_id: self.event.thread_id,
            status: DBG_EXCEPTION_NOT_HANDLED,
        }
    }

    fn on_event(&mut self, event: DebugEvent) -> (step: DebugStep)
        ensures
            (*final(self), step) == old(self).spec_on_event(event),
    {
        self.event = event;
        match classify(&event) {
            DebugKind::Exception => {
                self.phase = DebugPhase::OpeningThread;
                DebugStep::OpenThread { thread_id: event.thread_id }
            },
            DebugKind::Exit => if self.config.catch_exit {
                self.phase = DebugPhase::Dumping;
                DebugStep::Dump {
                    context: WindowsCrashContext::plain(event.process_id, event.thread_id),
                }
            } else {
                self.continue_last(Outcome::Exited(signed(event.exit_code)))
            },
            DebugKind::Pass => {
                self.phase = DebugPhase::Passing;
                DebugStep::Continue {
                    process_id: event.process_id,
                    thread_id: event.thread_id,
                    status: DBG_CONTINUE,
                }
            },
        }
    }

    fn follow(
        &mut self,
        reply: &DebugReply,
        phase: DebugPhase,
        step: DebugStep,
        otherwise: Failure,
    ) -> (next: DebugStep)
        ensures
            (*final(self), next) == old(self).spec_follow(*reply, phase, step, otherwise),
    {
        match reply {
            DebugReply::Done => {
                self.phase = phase;
                step
            },
            _ => self.refuse(reply, otherwise),
        }
    }

    /// Takes the answer to the step asked for last and names the next step.
    ///
    /// The session and the step are exactly those of `spec_advance`. An
    /// answer that fails, or that does not fit the step, ends the capture:
    /// from then on the steps detach from the target and close what the
    /// session owns, and the last step is `Finish`.
    pub fn advance(&mut self, reply: DebugReply) -> (step: DebugStep)
        ensures
            (*final(self), step) == old(self).spec_advance(reply),
            old(self).inv() ==> final(self).inv(),
    {
        proof {
            if self.inv() {
                lemma_advance_keeps_inv(*self, reply);
            }
        }
        match self.phase {
            DebugPhase::DumpingLive => match reply {
                DebugReply::Done => self.conclude(Outcome::Captured),
                _ => self.refuse(&reply, Failure::Writer),
            },
            DebugPhase::Opening => {
                self.process = matches!(reply, DebugReply::Done);
                self.follow(
                    &reply,
                    DebugPhase::QueryingTarget,
                    DebugStep::QueryWow64 { target: true },
                    Failure::Attach,
                )
            },
            DebugPhase::QueryingTarget => match reply {
                DebugReply::Flag(wow64) => {
                    self.phase = DebugPhase::QueryingSelf;
                    self.target_wow64 = wow64;
                    DebugStep::QueryWow64 { target: false }
                },
                _ => self.refuse(&reply, Failure::Kernel),
            },
            DebugPhase::QueryingSelf => match reply {
                DebugReply::Flag(wow64) => if self.target_wow64 == wow64 {
                    self.phase = DebugPhase::EnablingPrivilege;
                    DebugStep::EnablePrivilege
                } else {
                    self.conclude(Outcome::Failed(Failure::ArchitectureMismatch))
                },
                _ => self.refuse(&reply, Failure::Kernel),
            },
            DebugPhase::EnablingPrivilege => {
                let step = DebugStep::Attach { process_id: self.process_id };
                self.follow(&reply, DebugPhase::Attaching, step, Failure::Kernel)
            },
            DebugPhase::Attaching => {
                let (phase, step) = self.after_attach();
                self.attached = matches!(reply, DebugReply::Done);
                self.follow(&reply, phase, step, Failure::Attach)
            },
            DebugPhase::Waiting => match reply {
                DebugReply::Event(event) => self.on_event(event),
                _ => self.refuse(&reply, Failure::Kernel),
            },
            DebugPhase::Passing => self.follow(
                &reply,
                DebugPhase::Waiting,
                DebugStep::Wait,
                Failure::Kernel,
            ),
            DebugPhase::OpeningThread => {
                self.thread = matches!(reply, DebugReply::Done);
                self.follow(
                    &reply,
                    DebugPhase::GettingContext,
                    DebugStep::GetThreadContext,
                    Failure::Kernel,
                )
            },
            DebugPhase::GettingContext => self.follow(
                &reply,
                DebugPhase::AllocatingRecord,
                DebugStep::Allocate { region: Region::Record },
                Failure::Kernel,
            ),
            DebugPhase::AllocatingRecord => match reply {
                DebugReply::Address(address) => if address != 0 {
                    self.phase = DebugPhase::WritingRecord;
                    self.record = address;
                    DebugStep::WriteRecord { address }
                } else {
                    self.conclude(Outcome::Failed(Failure::Kernel))
                },
                _ => self.refuse(&reply, Failure::Kernel),
            },
            DebugPhase::WritingRecord => self.follow(
                &reply,
                DebugPhase::AllocatingContext,
                DebugStep::Allocate { region: Region::Context },
                Failure::Kernel,
            ),
            DebugPhase::AllocatingContext => match reply {
                DebugReply::Address(address) => if address != 0 {
                    self.phase = DebugPhase::WritingContext;
                    self.context = address;
                    DebugStep::WriteContext { address }
                } else {
                    self.conclude(Outcome::Failed(Failure::Kernel))
                },
                _ => self.refuse(&reply, Failure::Kernel),
            },
            DebugPhase::WritingContext => self.follow(
                &reply,
                DebugPhase::AllocatingPointers,
                DebugStep::Allocate { region: Region::Pointers },
                Failure::Kernel,
            ),
            DebugPhase::AllocatingPointers => match reply {
                DebugReply::Address(address) => if address != 0 {
                    self.phase = DebugPhase::WritingPointers;
                    self.pointers = address;
                    DebugStep::WritePointers {
                        address,
                        record_at: self.record,
                        context_at: self.context,
                    }
                } else {
                    self.conclude(Outcome::Failed(Failure::Kernel))
                },
                _ => self.refuse(&reply, Failure::Kernel),
            },
            DebugPhase::WritingPointers => {
                let context = WindowsCrashContext::with_exception(
                    self.event.process_id,
                    self.event.thread_id,
                    self.event.exception_code,
                    self.pointers,
                );
                self.follow(
                    &reply,
                    DebugPhase::Dumping,
                    DebugStep::Dump { context },
                    Failure::Kernel,
                )
            },
            DebugPhase::Dumping => match reply {
                DebugReply::Done => self.continue_last(Outcome::Captured),
                _ => self.refuse(&reply, Failure::Writer),
            },
            DebugPhase::Continuing | DebugPhase::Detaching | DebugPhase::Releasing => match reply {
                DebugReply::Done => self.release_next(),
                _ => self.refuse(&reply, Failure::Kernel),
            },
            DebugPhase::Finished => self.release_next(),
        }
    }
}

/// Begins the inspection of process `pid` on the Windows platform: the
/// inspector attaches as a debugger, which suspends the process, and then,
/// with neither flag set, has it dumped at once, and otherwise waits for an
/// exception, for the exit, or for either. The caller performs the step that
/// comes back, and every step after it, and hands each answer to
/// [`DebugSession::advance`].
pub fn inspect(pid: i32, catch_exc: bool, catch_exit: bool) -> (begun: (DebugSession, DebugStep))
    ensures
        begun == DebugSession::spec_start(
            pid,
            CaptureConfig { catch_exception: catch_exc, catch_exit },
        ),
        begun.0.inv(),
        begun.0.owned_count() == 0,
{
    DebugSession::start(pid, CaptureConfig { catch_exception: catch_exc, catch_exit })
}

/// The sequence of handles has one entry for each handle that is open.
pub proof fn lemma_handles_len(session: DebugSession)
    ensures
        session.handles().len() == session.owned_count(),
{
}

proof fn lemma_release_counts(session: DebugSession)
    ensures
        ({
            let (next, step) = session.spec_release_next();
            &&& session.outcome is Some ==> next.inv() && next.outcome == session.outcome
            &&& next.owned_count() + spec_releases(step) == session.owned_count()
            &&& !next.attached
            &&& next.phase == DebugPhase::Detaching || next.phase == DebugPhase::Releasing
                || next.phase == DebugPhase::Finished
            &&& next.phase == DebugPhase::Detaching ==> session.attached
            &&& next.phase == DebugPhase::Releasing ==> next.owned_count() < session.owned_count()
            &&& step is Detach <==> session.attached
        }),
{
}

proof fn lemma_conclude_counts(session: DebugSession, outcome: Outcome)
    ensures
        ({
            let (next, step) = session.spec_conclude(outcome);
            &&& next.inv()
            &&& next.owned_count() + spec_releases(step) == session.owned_count()
            &&& !next.attached
            &&& next.phase == DebugPhase::Detaching || next.phase == DebugPhase::Releasing
                || next.phase == DebugPhase::Finished
            &&& next.phase == DebugPhase::Detaching ==> session.attached
            &&& next.phase == DebugPhase::Releasing ==> next.owned_count() < session.owned_count()
            &&& step is Detach <==> session.attached
        }),
{
    let settled = DebugSession {
        outcome: Some(
            match session.outcome {
                Some(Outcome::Failed(failure)) => Outcome::Failed(failure),
                _ => outcome,
            },
        ),
        ..session
    };
    lemma_release_counts(settled);
}

/// A step keeps what holds of every session, and the ledger balances: what
/// the session owns after the step, and what the step closes, is what the
/// session owned before and what the answer handed over.
pub proof fn lemma_advance_keeps_inv(session: DebugSession, reply: DebugReply)
    requires
        session.inv(),
    ensures
        ({
            let (next, step) = session.spec_advance(reply);
            &&& next.inv()
            &&& next.owned_count() + spec_releases(step) == session.owned_count()
                + session.acquires(reply)
        }),
{
    assert forall|outcome: Outcome|
        #![trigger session.spec_conclude(outcome)]
        ({
            let (next, step) = session.spec_conclude(outcome);
            &&& next.inv()
            &&& next.owned_count() + spec_releases(step) == session.owned_count()
        }) by {
        lemma_conclude_counts(session, outcome);
    }
    lemma_release_counts(session);
}

/// Every step but the passing over of a debug event brings the session
/// nearer to its end.
pub proof fn lemma_advance_makes_progress(session: DebugSession, reply: DebugReply)
    requires
        session.inv(),
        !session.finished(),
        !session.passes(reply),
    ensures
        session.spec_advance(reply).0.steps_left() < session.steps_left(),
{
    assert forall|outcome: Outcome|
        #![trigger session.spec_conclude(outcome)]
        ({
            let (next, step) = session.spec_conclude(outcome);
            &&& next.owned_count() <= session.owned_count()
            &&& !next.attached
            &&& next.phase == DebugPhase::Detaching || next.phase == DebugPhase::Releasing
                || next.phase == DebugPhase::Finished
            &&& next.phase == DebugPhase::Detaching ==> session.attached
            &&& next.phase == DebugPhase::Releasing ==> next.owned_count() < session.owned_count()
        }) by {
        lemma_conclude_counts(session, outcome);
    }
    lemma_release_counts(session);
}

/// Along any run of answers the ledger balances: what the session owns at
/// the end, and what the steps closed, is what it owned at the start and
/// what the answers handed over.
pub proof fn lemma_run_balances(session: DebugSession, replies: Seq<DebugReply>)
    requires
        session.inv(),
    ensures
        session.spec_run(replies).inv(),
        session.spec_run(replies).owned_count() + session.released_along(replies)
            == session.owned_count() + session.acquired_along(replies),
    decreases replies.len(),
{
    if replies.len() > 0 {
        lemma_advance_keeps_inv(session, replies[0]);
        lemma_run_balances(session.spec_advance(replies[0]).0, replies.drop_first());
    }
}

/// No capture leaks a handle or stays attached, whether it succeeds or
/// fails: a session owns nothing when it starts and nothing when it has
/// finished, whatever the system answered in between, and by then it has
/// detached from the target and closed every handle that it was handed.
pub proof fn lemma_session_leaks_nothing(pid: i32, config: CaptureConfig, replies: Seq<DebugReply>)
    requires
        DebugSession::spec_start(pid, config).0.spec_run(replies).finished(),
    ensures
        ({
            let begun = DebugSession::spec_start(pid, config).0;
            let ended = begun.spec_run(replies);
            &&& begun.handles().len() == 0
            &&& ended.handles().len() == 0
            &&& !ended.attached
            &&& begun.acquired_along(replies) == begun.released_along(replies)
        }),
{
    let begun = DebugSession::spec_start(pid, config).0;
    lemma_run_balances(begun, replies);
    lemma_handles_len(begun);
    lemma_handles_len(begun.spec_run(replies));
}

/// The target is let run again on every path. The attach suspends the
/// target and the detach lets it run again: along any run of answers the
/// steps ask for the inspector to detach as often as it attached, but for an
/// attachment that still stands at the end of the run; and none stands in a
/// finished session, whether a dump was written, the writer failed, or
/// anything else did.
pub proof fn lemma_suspension_balances(session: DebugSession, replies: Seq<DebugReply>)
    requires
        session.inv(),
    ensures
        ({
            let stood: nat = if session.attached { 1 } else { 0 };
            let stands: nat = if session.spec_run(replies).attached { 1 } else { 0 };
            session.detached_along(replies) + stands == session.attached_along(replies) + stood
        }),
        session.spec_run(replies).finished() ==> !session.spec_run(replies).attached,
    decreases replies.len(),
{
    lemma_run_balances(session, replies);
    if replies.len() > 0 {
        let (next, step) = session.spec_advance(replies[0]);
        lemma_advance_keeps_inv(session, replies[0]);
        lemma_release_counts(session);
        assert forall|outcome: Outcome|
            #![trigger session.spec_conclude(outcome)]
            ({
                let (next, step) = session.spec_conclude(outcome);
                &&& !next.attached
                &&& step is Detach <==> session.attached
            }) by {
            lemma_conclude_counts(session, outcome);
        }
        lemma_suspension_balances(next, replies.drop_first());
    }
}

/// A finished session stays finished.
pub proof fn lemma_finished_stays(session: DebugSession, replies: Seq<DebugReply>)
    requires
        session.inv(),
        session.finished(),
    ensures
        session.spec_run(replies) == session,
    decreases replies.len(),
{
    if replies.len() > 0 {
        assert(session.spec_advance(replies[0]).0 == session);
        lemma_finished_stays(session, replies.drop_first());
    }
}

/// A session comes to its end: once it has been given as many answers as it
/// had steps left, and five more for each debug event that it passed over,
/// it has finished.
pub proof fn lemma_session_finishes(session: DebugSession, replies: Seq<DebugReply>)
    requires
        session.inv(),
        replies.len() >= session.steps_left() + 5 * session.passed_along(replies),
    ensures
        session.spec_run(replies).finished(),
    decreases replies.len(),
{
    if session.finished() {
        lemma_finished_stays(session, replies);
    } else {
        lemma_advance_keeps_inv(session, replies[0]);
        if !session.passes(replies[0]) {
            lemma_advance_makes_progress(session, replies[0]);
        }
        lemma_session_finishes(session.spec_advance(replies[0]).0, replies.drop_first());
    }
}

/// A dump is only asked for while the inspector is attached, and so while
/// the target is suspended: at once after the attach where neither flag is
/// set, and for a debug event otherwise.
pub proof fn lemma_dump_while_suspended(session: DebugSession, reply: DebugReply)
    requires
        session.inv(),
    ensures
        ({
            let (next, step) = session.spec_advance(reply);
            &&& step is Dump ==> next.attached && next.process
            &&& step is Dump ==> session.phase == DebugPhase::Attaching || session.phase
                == DebugPhase::Waiting || session.phase == DebugPhase::WritingPointers
            &&& step is Dump && session.phase == DebugPhase::Attaching
                ==> session.config.spec_plan() == Plan::Immediate
        }),
{
    assert forall|outcome: Outcome|
        #![trigger session.spec_conclude(outcome)]
        !(session.spec_conclude(outcome).1 is Dump) by {
        lemma_conclude_counts(session, outcome);
    }
    lemma_release_counts(session);
}

/// A target of another instruction-set width is never attached to and never
/// dumped, whatever the flags: once the two widths are found to differ the
/// capture has failed for that reason, and what is left is to close the
/// handle to the target.
pub proof fn lemma_mismatch_is_fatal(session: DebugSession, inspector_wow64: bool)
    requires
        session.inv(),
        session.phase == DebugPhase::QueryingSelf,
        !spec_compatible(session.target_wow64, inspector_wow64),
    ensures
        ({
            let (next, step) = session.spec_advance(DebugReply::Flag(inspector_wow64));
            let (last, end) = next.spec_advance(DebugReply::Done);
            &&& step == (DebugStep::Release { handle: DebugHandle::Process })
            &&& next.outcome == Some(Outcome::Failed(Failure::ArchitectureMismatch))
            &&& end == (DebugStep::Finish {
                outcome: Outcome::Failed(Failure::ArchitectureMismatch),
            })
            &&& last.finished()
        }),
{
}

} // verus!
