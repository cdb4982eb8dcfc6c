use inspector::context::ExceptionInfo;
use inspector::snapshot::{Backtrace, Fault, Module, Range, Snapshot, Thread};
use inspector::unwind::{UnwindStep, Unwinder};

fn module(path: &str, load_address: u64, text: Option<(u64, u64)>) -> Module {
    Module {
        path: path.to_string(),
        load_address,
        text_segment: text.map(|(start, end)| Range { start, end }),
        exit_address: None,
    }
}

fn modules() -> Vec<Module> {
    vec![
        module("/usr/lib/dyld", 0x1000, Some((0x1000, 0x1fff))),
        module("/bin/no-text", 0x2000, None),
        module("/bin/target", 0x4000, Some((0x4000, 0x4fff))),
        module("/bin/overlap", 0x4800, Some((0x4800, 0x5fff))),
    ]
}

fn walked(id: u64, pc: u64) -> Thread {
    let (walk, step) = Unwinder::start(pc, 0);
    assert_eq!(step, UnwindStep::Finished);
    Thread::new(id, &walk, &modules()).unwrap()
}

#[test]
fn range_contains_both_ends() {
    let range = Range { start: 10, end: 20 };
    assert!(range.contains(10));
    assert!(range.contains(15));
    assert!(range.contains(20));
    assert!(!range.contains(9));
    assert!(!range.contains(21));
}

#[test]
fn range_of_one_address() {
    let range = Range { start: 7, end: 7 };
    assert!(range.contains(7));
    assert!(!range.contains(6));
    assert!(!range.contains(8));
}

#[test]
fn range_with_ends_crossed_holds_nothing() {
    let range = Range { start: 20, end: 10 };
    assert!(!range.contains(10));
    assert!(!range.contains(15));
    assert!(!range.contains(20));
}

#[test]
fn range_at_the_top_of_the_address_space() {
    let range = Range { start: u64::MAX - 1, end: u64::MAX };
    assert!(range.contains(u64::MAX));
    assert!(!range.contains(0));
}

#[test]
fn module_covers_only_with_text() {
    let all = modules();
    assert!(all[0].covers(0x1000));
    assert!(!all[0].covers(0x2000));
    assert!(!all[1].covers(0x2000));
}

#[test]
fn module_clone_is_equal() {
    let all = modules();
    assert_eq!(all[2].clone(), all[2]);
}

#[test]
fn frame_names_the_module_that_holds_its_address() {
    let all = modules();
    let frame = Backtrace::new(3, 0x4010, &all);
    assert_eq!(frame.depth(), 3);
    assert_eq!(frame.address(), 0x4010);
    assert_eq!(frame.module(), Some(&all[2]));
    assert_eq!(frame.symbol(), None);
}

#[test]
fn frame_names_the_first_of_two_modules_that_hold_its_address() {
    let all = modules();
    let frame = Backtrace::new(0, 0x4900, &all);
    assert_eq!(frame.module().map(|m| m.path.as_str()), Some("/bin/target"));
    let frame = Backtrace::new(0, 0x5000, &all);
    assert_eq!(frame.module().map(|m| m.path.as_str()), Some("/bin/overlap"));
}

#[test]
fn frame_outside_every_module_names_none() {
    let all = modules();
    let frame = Backtrace::new(1, 0x3000, &all);
    assert_eq!(frame.module(), None);
    assert_eq!(frame.address(), 0x3000);
    let frame = Backtrace::new(1, 0x2000, &all);
    assert_eq!(frame.module(), None);
}

#[test]
fn frame_without_modules_names_none() {
    let frame = Backtrace::new(0, 0x1000, &[]);
    assert_eq!(frame.module(), None);
    assert_eq!(frame.symbol(), None);
}

#[test]
fn every_frame_lies_in_the_text_of_its_module() {
    let all = modules();
    for address in [0u64, 0xfff, 0x1000, 0x1fff, 0x2000, 0x4000, 0x4800, 0x4fff, 0x5fff, 0x6000] {
        let frame = Backtrace::new(0, address, &all);
        if let Some(found) = frame.module() {
            let text = found.text_segment.unwrap();
            assert!(text.start <= frame.address() && frame.address() <= text.end);
        }
    }
}

#[test]
fn thread_of_a_walk_has_a_frame_for_each_address() {
    let (walk, step) = Unwinder::start(0x4010, 0x7000);
    assert_eq!(step, UnwindStep::Read { address: 0x7008 });
    let (walk, step) = walk.advance(Some(0x1020));
    assert_eq!(step, UnwindStep::Read { address: 0x7000 });
    let (walk, step) = walk.advance(Some(0));
    assert_eq!(step, UnwindStep::Finished);
    let thread = Thread::new(77, &walk, &modules()).unwrap();
    assert_eq!(thread.id(), 77);
    assert_eq!(thread.exception(), None);
    let frames = thread.backtrace();
    assert_eq!(frames.len(), 2);
    assert_eq!((frames[0].depth(), frames[0].address()), (0, 0x4010));
    assert_eq!((frames[1].depth(), frames[1].address()), (1, 0x1020));
    assert_eq!(frames[0].module().map(|m| m.path.as_str()), Some("/bin/target"));
    assert_eq!(frames[1].module().map(|m| m.path.as_str()), Some("/usr/lib/dyld"));
}

#[test]
fn thread_of_an_unfinished_walk_is_none() {
    let (walk, step) = Unwinder::start(0x4010, 0x7000);
    assert_eq!(step, UnwindStep::Read { address: 0x7008 });
    assert_eq!(Thread::new(1, &walk, &modules()), None);
}

#[test]
fn thread_of_a_failed_walk_is_none() {
    let (walk, _) = Unwinder::start(0x4010, 0x7000);
    let (walk, _) = walk.advance(None);
    assert_eq!(Thread::new(1, &walk, &modules()), None);
}

#[test]
fn snapshot_without_fault_keeps_the_order() {
    let threads = vec![walked(1, 0x1000), walked(2, 0x4000), walked(3, 0x9000)];
    let snapshot = Snapshot::new(threads, modules(), None).unwrap();
    let ids: Vec<u64> = snapshot.threads().iter().map(|t| t.id()).collect();
    assert_eq!(ids, vec![1, 2, 3]);
    assert!(snapshot.threads().iter().all(|t| t.exception().is_none()));
    assert_eq!(snapshot.modules(), &modules());
}

#[test]
fn snapshot_puts_the_faulting_thread_first() {
    let exception = ExceptionInfo { kind: 1, code: 2, subcode: Some(0x10) };
    let threads = vec![walked(1, 0x1000), walked(2, 0x4000), walked(3, 0x9000)];
    let fault = Fault { thread_id: 3, exception };
    let snapshot = Snapshot::new(threads, modules(), Some(fault)).unwrap();
    let ids: Vec<u64> = snapshot.threads().iter().map(|t| t.id()).collect();
    assert_eq!(ids, vec![3, 1, 2]);
    assert_eq!(snapshot.threads()[0].exception(), Some(exception));
    assert_eq!(snapshot.threads()[1].exception(), None);
    assert_eq!(snapshot.threads()[2].exception(), None);
    assert_eq!(snapshot.threads()[0].backtrace()[0].address(), 0x9000);
}

#[test]
fn snapshot_with_the_faulting_thread_already_first() {
    let exception = ExceptionInfo { kind: 6, code: 0, subcode: None };
    let threads = vec![walked(5, 0x1000), walked(6, 0x4000)];
    let fault = Fault { thread_id: 5, exception };
    let snapshot = Snapshot::new(threads, vec![], Some(fault)).unwrap();
    let ids: Vec<u64> = snapshot.threads().iter().map(|t| t.id()).collect();
    assert_eq!(ids, vec![5, 6]);
    assert_eq!(snapshot.threads()[0].exception(), Some(exception));
}

#[test]
fn snapshot_takes_the_first_thread_of_two_with_the_identifier() {
    let exception = ExceptionInfo { kind: 1, code: 1, subcode: None };
    let threads = vec![walked(1, 0x1000), walked(9, 0x4000), walked(9, 0x9000)];
    let fault = Fault { thread_id: 9, exception };
    let snapshot = Snapshot::new(threads, vec![], Some(fault)).unwrap();
    let firsts: Vec<(u64, u64)> =
        snapshot.threads().iter().map(|t| (t.id(), t.backtrace()[0].address())).collect();
    assert_eq!(firsts, vec![(9, 0x4000), (1, 0x1000), (9, 0x9000)]);
    assert_eq!(snapshot.threads()[2].exception(), None);
}

#[test]
fn snapshot_for_a_thread_that_was_not_enumerated_is_none() {
    let exception = ExceptionInfo { kind: 1, code: 1, subcode: None };
    let threads = vec![walked(1, 0x1000)];
    let fault = Fault { thread_id: 2, exception };
    assert_eq!(Snapshot::new(threads, modules(), Some(fault)), None);
    assert_eq!(Snapshot::new(vec![], modules(), Some(fault)), None);
}

#[test]
fn snapshot_of_nothing() {
    let snapshot = Snapshot::new(vec![], vec![], None).unwrap();
    assert!(snapshot.threads().is_empty());
    assert!(snapshot.modules().is_empty());
}
