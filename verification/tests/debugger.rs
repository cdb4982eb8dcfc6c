use inspector::context::WindowsCrashContext;
use inspector::debugger::{
    classify, DebugEvent, DebugHandle, DebugKind, DebugPhase, DebugReply, DebugSession, DebugStep,
    Region, DBG_CONTINUE, DBG_EXCEPTION_NOT_HANDLED,
};
use inspector::outcome::{Failure, Outcome};
use inspector::policy::CaptureConfig;

const PID: u32 = 4242;
const TID: u32 = 77;

fn config(catch_exception: bool, catch_exit: bool) -> CaptureConfig {
    CaptureConfig { catch_exception, catch_exit }
}

fn event(code: u32, exception_code: u32, exit_code: u32) -> DebugEvent {
    DebugEvent { code, process_id: PID, thread_id: TID, exception_code, exit_code }
}

fn wind_down(session: &mut DebugSession, first: DebugStep) -> Vec<DebugStep> {
    let mut steps = vec![first];
    let mut left = 16;
    while !session.is_finished() {
        assert!(left > 0);
        left -= 1;
        steps.push(session.advance(DebugReply::Done));
    }
    steps
}

/// A session that is attached and waits for a debug event.
fn waiting(catch_exception: bool, catch_exit: bool) -> DebugSession {
    let (mut session, step) = DebugSession::start(PID as i32, config(catch_exception, catch_exit));
    assert_eq!(step, DebugStep::OpenProcess { process_id: PID });
    assert_eq!(session.advance(DebugReply::Done), DebugStep::QueryWow64 { target: true });
    assert_eq!(session.advance(DebugReply::Flag(false)), DebugStep::QueryWow64 { target: false });
    assert_eq!(session.advance(DebugReply::Flag(false)), DebugStep::EnablePrivilege);
    assert_eq!(session.advance(DebugReply::Done), DebugStep::Attach { process_id: PID });
    assert_eq!(session.advance(DebugReply::Done), DebugStep::Wait);
    assert_eq!(session.phase, DebugPhase::Waiting);
    assert!(session.attached);
    session
}

#[test]
fn classify_tells_exception_exit_and_the_rest() {
    assert_eq!(classify(&event(1, 0xC000_0005, 0)), DebugKind::Exception);
    assert_eq!(classify(&event(1, 0x8000_0003, 0)), DebugKind::Pass);
    assert_eq!(classify(&event(5, 0, 42)), DebugKind::Exit);
    assert_eq!(classify(&event(5, 0x8000_0003, 0)), DebugKind::Exit);
    for code in [0u32, 2, 3, 4, 6, 7, 8, 9] {
        assert_eq!(classify(&event(code, 0xC000_0005, 0)), DebugKind::Pass);
    }
}

/// A session with neither flag set that is attached and has asked for the dump.
fn dumping_live() -> DebugSession {
    let (mut session, step) = DebugSession::start(PID as i32, config(false, false));
    assert_eq!(step, DebugStep::OpenProcess { process_id: PID });
    assert_eq!(session.advance(DebugReply::Done), DebugStep::QueryWow64 { target: true });
    assert_eq!(session.advance(DebugReply::Flag(true)), DebugStep::QueryWow64 { target: false });
    assert_eq!(session.advance(DebugReply::Flag(true)), DebugStep::EnablePrivilege);
    assert_eq!(session.advance(DebugReply::Done), DebugStep::Attach { process_id: PID });
    assert!(!session.attached);
    assert_eq!(
        session.advance(DebugReply::Done),
        DebugStep::Dump {
            context: WindowsCrashContext {
                process_id: PID,
                thread_id: 0,
                exception_code: 0,
                exception_pointers: 0
            }
        }
    );
    assert_eq!(session.phase, DebugPhase::DumpingLive);
    assert!(session.attached);
    session
}

#[test]
fn live_snapshot_dumps_without_thread_or_exception() {
    let mut session = dumping_live();
    let first = session.advance(DebugReply::Done);
    let steps = wind_down(&mut session, first);
    assert_eq!(
        steps,
        vec![
            DebugStep::Detach { process_id: PID },
            DebugStep::Release { handle: DebugHandle::Process },
            DebugStep::Finish { outcome: Outcome::Captured },
        ]
    );
    assert!(session.is_finished());
    assert!(!session.attached);
    assert_eq!(session.owned(), 0);
}

#[test]
fn windows_live_snapshot_reports_a_failed_dump() {
    let mut session = dumping_live();
    let first = session.advance(DebugReply::Failed);
    let steps = wind_down(&mut session, first);
    assert_eq!(
        steps,
        vec![
            DebugStep::Detach { process_id: PID },
            DebugStep::Release { handle: DebugHandle::Process },
            DebugStep::Finish { outcome: Outcome::Failed(Failure::Writer) },
        ]
    );
    assert!(!session.attached);
}

#[test]
fn live_snapshot_suspends_once_and_resumes_once() {
    for dumped in [DebugReply::Done, DebugReply::Failed, DebugReply::Flag(true)] {
        let (mut session, mut step) = DebugSession::start(PID as i32, config(false, false));
        let mut steps = vec![];
        let mut left = 32;
        while !session.is_finished() {
            assert!(left > 0);
            left -= 1;
            steps.push(step);
            let reply = match step {
                DebugStep::QueryWow64 { .. } => DebugReply::Flag(false),
                DebugStep::Dump { .. } => dumped,
                _ => DebugReply::Done,
            };
            step = session.advance(reply);
        }
        let at = |wanted: fn(&DebugStep) -> bool| -> Vec<usize> {
            (0..steps.len()).filter(|i| wanted(&steps[*i])).collect()
        };
        let attach = at(|step| matches!(step, DebugStep::Attach { .. }));
        let dump = at(|step| matches!(step, DebugStep::Dump { .. }));
        let detach = at(|step| matches!(step, DebugStep::Detach { .. }));
        assert_eq!((attach.len(), dump.len(), detach.len()), (1, 1, 1));
        assert!(attach[0] < dump[0] && dump[0] < detach[0]);
        assert!(steps.iter().all(|step| !matches!(step, DebugStep::Wait)));
        assert!(steps.iter().all(|step| !matches!(step, DebugStep::Continue { .. })));
    }
}

#[test]
fn live_snapshot_of_another_architecture_is_refused() {
    for (target, inspector) in [(true, false), (false, true)] {
        let (mut session, _) = DebugSession::start(PID as i32, config(false, false));
        session.advance(DebugReply::Done);
        session.advance(DebugReply::Flag(target));
        let first = session.advance(DebugReply::Flag(inspector));
        let steps = wind_down(&mut session, first);
        assert_eq!(
            steps,
            vec![
                DebugStep::Release { handle: DebugHandle::Process },
                DebugStep::Finish { outcome: Outcome::Failed(Failure::ArchitectureMismatch) },
            ]
        );
    }
}

#[test]
fn live_snapshot_of_a_process_that_cannot_be_opened_fails() {
    let (mut session, _) = DebugSession::start(PID as i32, config(false, false));
    assert_eq!(
        session.advance(DebugReply::Failed),
        DebugStep::Finish { outcome: Outcome::Failed(Failure::Attach) }
    );
}

#[test]
fn failed_privilege_is_fatal() {
    for flags in [(false, false), (true, false), (false, true), (true, true)] {
        let (mut session, _) = DebugSession::start(PID as i32, config(flags.0, flags.1));
        session.advance(DebugReply::Done);
        session.advance(DebugReply::Flag(false));
        assert_eq!(session.advance(DebugReply::Flag(false)), DebugStep::EnablePrivilege);
        let first = session.advance(DebugReply::Failed);
        let steps = wind_down(&mut session, first);
        assert_eq!(
            steps,
            vec![
                DebugStep::Release { handle: DebugHandle::Process },
                DebugStep::Finish { outcome: Outcome::Failed(Failure::Kernel) },
            ]
        );
    }
}

#[test]
fn failed_last_continue_is_reported() {
    let mut session = waiting(false, true);
    session.advance(DebugReply::Event(event(5, 0, 0)));
    assert!(matches!(session.advance(DebugReply::Done), DebugStep::Continue { .. }));
    let first = session.advance(DebugReply::Failed);
    let steps = wind_down(&mut session, first);
    assert_eq!(
        steps,
        vec![
            DebugStep::Detach { process_id: PID },
            DebugStep::Release { handle: DebugHandle::Process },
            DebugStep::Finish { outcome: Outcome::Failed(Failure::Kernel) },
        ]
    );
}

#[test]
fn failed_detach_is_reported() {
    let mut session = dumping_live();
    assert_eq!(session.advance(DebugReply::Done), DebugStep::Detach { process_id: PID });
    assert_eq!(
        session.advance(DebugReply::Failed),
        DebugStep::Release { handle: DebugHandle::Process }
    );
    assert_eq!(
        session.advance(DebugReply::Done),
        DebugStep::Finish { outcome: Outcome::Failed(Failure::Kernel) }
    );
    assert!(!session.attached);
}

#[test]
fn negative_pid_keeps_its_bits() {
    let (_, step) = DebugSession::start(-1, config(true, false));
    assert_eq!(step, DebugStep::OpenProcess { process_id: u32::MAX });
    let (_, step) = DebugSession::start(i32::MIN, config(true, false));
    assert_eq!(step, DebugStep::OpenProcess { process_id: 0x8000_0000 });
}

#[test]
fn windows_exception_capture() {
    let mut session = waiting(true, false);
    let fault = event(1, 0xC000_0005, 0);
    assert_eq!(
        session.advance(DebugReply::Event(fault)),
        DebugStep::OpenThread { thread_id: TID }
    );
    assert_eq!(session.advance(DebugReply::Done), DebugStep::GetThreadContext);
    assert_eq!(session.owned(), 2);
    assert_eq!(session.advance(DebugReply::Done), DebugStep::Allocate { region: Region::Record });
    assert_eq!(
        session.advance(DebugReply::Address(0x1000)),
        DebugStep::WriteRecord { address: 0x1000 }
    );
    assert_eq!(session.advance(DebugReply::Done), DebugStep::Allocate { region: Region::Context });
    assert_eq!(
        session.advance(DebugReply::Address(0x2000)),
        DebugStep::WriteContext { address: 0x2000 }
    );
    assert_eq!(
        session.advance(DebugReply::Done),
        DebugStep::Allocate { region: Region::Pointers }
    );
    assert_eq!(
        session.advance(DebugReply::Address(0x3000)),
        DebugStep::WritePointers { address: 0x3000, record_at: 0x1000, context_at: 0x2000 }
    );
    assert_eq!(
        session.advance(DebugReply::Done),
        DebugStep::Dump {
            context: WindowsCrashContext {
                process_id: PID,
                thread_id: TID,
                exception_code: 0xC000_0005,
                exception_pointers: 0x3000,
            }
        }
    );
    let first = session.advance(DebugReply::Done);
    let steps = wind_down(&mut session, first);
    assert_eq!(
        steps,
        vec![
            DebugStep::Continue {
                process_id: PID,
                thread_id: TID,
                status: DBG_EXCEPTION_NOT_HANDLED
            },
            DebugStep::Detach { process_id: PID },
            DebugStep::Release { handle: DebugHandle::Thread },
            DebugStep::Release { handle: DebugHandle::Process },
            DebugStep::Finish { outcome: Outcome::Captured },
        ]
    );
    assert_eq!(session.owned(), 0);
    assert!(!session.attached);
}

#[test]
fn windows_architecture_mismatch() {
    for flags in [(false, false), (true, false), (false, true), (true, true)] {
        for (target, inspector) in [(true, false), (false, true)] {
            let (mut session, _) = DebugSession::start(PID as i32, config(flags.0, flags.1));
            session.advance(DebugReply::Done);
            session.advance(DebugReply::Flag(target));
            let first = session.advance(DebugReply::Flag(inspector));
            let steps = wind_down(&mut session, first);
            assert_eq!(
                steps,
                vec![
                    DebugStep::Release { handle: DebugHandle::Process },
                    DebugStep::Finish { outcome: Outcome::Failed(Failure::ArchitectureMismatch) },
                ]
            );
            assert!(steps.iter().all(|step| !matches!(step, DebugStep::Dump { .. })));
            assert!(steps.iter().all(|step| !matches!(step, DebugStep::Attach { .. })));
        }
    }
}

#[test]
fn same_architecture_attaches() {
    for both in [true, false] {
        let (mut session, _) = DebugSession::start(PID as i32, config(true, false));
        session.advance(DebugReply::Done);
        session.advance(DebugReply::Flag(both));
        assert_eq!(session.advance(DebugReply::Flag(both)), DebugStep::EnablePrivilege);
    }
}

#[test]
fn breakpoint_of_the_attach_is_continued() {
    let mut session = waiting(true, false);
    assert_eq!(
        session.advance(DebugReply::Event(event(1, 0x8000_0003, 0))),
        DebugStep::Continue { process_id: PID, thread_id: TID, status: DBG_CONTINUE }
    );
    assert_eq!(session.advance(DebugReply::Done), DebugStep::Wait);
    assert_eq!(session.phase, DebugPhase::Waiting);
}

#[test]
fn other_events_are_continued() {
    let mut session = waiting(true, true);
    for code in [2u32, 3, 4, 6, 7, 8] {
        assert_eq!(
            session.advance(DebugReply::Event(event(code, 0, 0))),
            DebugStep::Continue { process_id: PID, thread_id: TID, status: DBG_CONTINUE }
        );
        assert_eq!(session.advance(DebugReply::Done), DebugStep::Wait);
    }
}

#[test]
fn failed_continue_is_fatal() {
    let mut session = waiting(true, false);
    session.advance(DebugReply::Event(event(3, 0, 0)));
    let first = session.advance(DebugReply::Failed);
    let steps = wind_down(&mut session, first);
    assert_eq!(
        steps,
        vec![
            DebugStep::Detach { process_id: PID },
            DebugStep::Release { handle: DebugHandle::Process },
            DebugStep::Finish { outcome: Outcome::Failed(Failure::Kernel) },
        ]
    );
}

#[test]
fn windows_exit_is_dumped_when_exits_are_caught() {
    let mut session = waiting(false, true);
    assert_eq!(
        session.advance(DebugReply::Event(event(5, 0, 42))),
        DebugStep::Dump { context: WindowsCrashContext::plain(PID, TID) }
    );
    let first = session.advance(DebugReply::Done);
    let steps = wind_down(&mut session, first);
    assert_eq!(
        steps,
        vec![
            DebugStep::Continue {
                process_id: PID,
                thread_id: TID,
                status: DBG_EXCEPTION_NOT_HANDLED
            },
            DebugStep::Detach { process_id: PID },
            DebugStep::Release { handle: DebugHandle::Process },
            DebugStep::Finish { outcome: Outcome::Captured },
        ]
    );
}

#[test]
fn windows_exit_passes_when_only_exceptions_are_caught() {
    let mut session = waiting(true, false);
    let first = session.advance(DebugReply::Event(event(5, 0, 42)));
    let steps = wind_down(&mut session, first);
    assert!(steps.iter().all(|step| !matches!(step, DebugStep::Dump { .. })));
    assert_eq!(
        steps[0],
        DebugStep::Continue { process_id: PID, thread_id: TID, status: DBG_EXCEPTION_NOT_HANDLED }
    );
    assert_eq!(steps.last(), Some(&DebugStep::Finish { outcome: Outcome::Exited(42) }));
}

#[test]
fn exit_code_keeps_its_bits() {
    let mut session = waiting(true, false);
    let first = session.advance(DebugReply::Event(event(5, 0, 0xC000_0005)));
    let steps = wind_down(&mut session, first);
    assert_eq!(
        steps.last(),
        Some(&DebugStep::Finish { outcome: Outcome::Exited(0xC000_0005u32 as i32) })
    );
}

#[test]
fn open_failure_is_an_attach_failure() {
    let (mut session, _) = DebugSession::start(PID as i32, config(true, false));
    assert_eq!(
        session.advance(DebugReply::Failed),
        DebugStep::Finish { outcome: Outcome::Failed(Failure::Attach) }
    );
    assert_eq!(session.owned(), 0);
}

#[test]
fn attach_failure_closes_the_process() {
    let (mut session, _) = DebugSession::start(PID as i32, config(true, false));
    session.advance(DebugReply::Done);
    session.advance(DebugReply::Flag(true));
    session.advance(DebugReply::Flag(true));
    session.advance(DebugReply::Done);
    let first = session.advance(DebugReply::Failed);
    let steps = wind_down(&mut session, first);
    assert_eq!(
        steps,
        vec![
            DebugStep::Release { handle: DebugHandle::Process },
            DebugStep::Finish { outcome: Outcome::Failed(Failure::Attach) },
        ]
    );
}

#[test]
fn failed_wait_detaches_and_closes() {
    let mut session = waiting(true, true);
    let first = session.advance(DebugReply::Failed);
    let steps = wind_down(&mut session, first);
    assert_eq!(
        steps,
        vec![
            DebugStep::Detach { process_id: PID },
            DebugStep::Release { handle: DebugHandle::Process },
            DebugStep::Finish { outcome: Outcome::Failed(Failure::Kernel) },
        ]
    );
    assert!(!session.attached);
}

#[test]
fn allocation_that_yields_nothing_is_fatal() {
    let mut session = waiting(true, false);
    session.advance(DebugReply::Event(event(1, 0xC000_0005, 0)));
    session.advance(DebugReply::Done);
    session.advance(DebugReply::Done);
    let first = session.advance(DebugReply::Address(0));
    let steps = wind_down(&mut session, first);
    assert_eq!(
        steps,
        vec![
            DebugStep::Detach { process_id: PID },
            DebugStep::Release { handle: DebugHandle::Thread },
            DebugStep::Release { handle: DebugHandle::Process },
            DebugStep::Finish { outcome: Outcome::Failed(Failure::Kernel) },
        ]
    );
}

#[test]
fn failed_dump_is_not_continued() {
    let mut session = waiting(false, true);
    session.advance(DebugReply::Event(event(5, 0, 0)));
    let first = session.advance(DebugReply::Failed);
    let steps = wind_down(&mut session, first);
    assert!(steps.iter().all(|step| !matches!(step, DebugStep::Continue { .. })));
    assert_eq!(
        steps.last(),
        Some(&DebugStep::Finish { outcome: Outcome::Failed(Failure::Writer) })
    );
}

#[test]
fn windows_no_handle_is_leaked_wherever_the_capture_fails() {
    let script = [
        DebugReply::Done,
        DebugReply::Flag(false),
        DebugReply::Flag(false),
        DebugReply::Done,
        DebugReply::Done,
        DebugReply::Event(event(1, 0xC000_0005, 0)),
        DebugReply::Done,
        DebugReply::Done,
        DebugReply::Address(0x1000),
        DebugReply::Done,
        DebugReply::Address(0x2000),
        DebugReply::Done,
        DebugReply::Address(0x3000),
        DebugReply::Done,
        DebugReply::Done,
    ];
    for fail_at in 0..=script.len() {
        let (mut session, _) = DebugSession::start(PID as i32, config(true, true));
        let mut opened = 0;
        let mut closed = 0;
        for (i, reply) in script.iter().enumerate() {
            let before = session.owned();
            let reply = if i == fail_at { DebugReply::Failed } else { *reply };
            let step = session.advance(reply);
            if matches!(step, DebugStep::Release { .. }) {
                closed += 1;
            } else {
                opened += session.owned() - before;
            }
            if i == fail_at {
                break;
            }
        }
        let mut left = 16;
        while !session.is_finished() {
            assert!(left > 0);
            left -= 1;
            if matches!(session.advance(DebugReply::Done), DebugStep::Release { .. }) {
                closed += 1;
            }
        }
        assert_eq!(session.owned(), 0);
        assert!(!session.attached);
        assert_eq!(opened, closed);
    }
}

#[test]
fn inspect_begins_with_opening_the_target() {
    for (catch_exc, catch_exit) in [(false, false), (true, false), (false, true), (true, true)] {
        let (session, step) = inspector::debugger::inspect(PID as i32, catch_exc, catch_exit);
        assert_eq!(step, DebugStep::OpenProcess { process_id: PID });
        assert_eq!(session.config, config(catch_exc, catch_exit));
        assert_eq!(session.phase, DebugPhase::Opening);
        assert_eq!(session.owned(), 0);
    }
}
