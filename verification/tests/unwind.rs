use inspector::unwind::{UnwindError, UnwindStep, Unwinder, FRAME_LIMIT};
use std::collections::HashMap;

/// Walks the stack of a thread out of `memory`, and gives back the walker,
/// its last step and every address it read.
fn walk(pc: u64, fp: u64, memory: &HashMap<u64, u64>, limit: usize) -> (Unwinder, UnwindStep, Vec<u64>) {
    let (mut walker, mut step) = Unwinder::start(pc, fp);
    let mut reads = vec![];
    while let UnwindStep::Read { address } = step {
        assert!(reads.len() < limit);
        reads.push(address);
        let next = walker.advance(memory.get(&address).copied());
        walker = next.0;
        step = next.1;
    }
    (walker, step, reads)
}

fn stack(frames: &[(u64, u64, u64)]) -> HashMap<u64, u64> {
    let mut memory = HashMap::new();
    for (fp, saved, ret) in frames {
        memory.insert(*fp, *saved);
        memory.insert(*fp + 8, *ret);
    }
    memory
}

#[test]
fn thread_without_frame_pointer_has_one_frame() {
    let (walker, step) = Unwinder::start(0x4010, 0);
    assert_eq!(step, UnwindStep::Finished);
    assert!(walker.is_ended());
    assert_eq!(walker.failure(), None);
    assert_eq!(walker.addresses(), &vec![0x4010]);
}

#[test]
fn walk_follows_the_saved_frame_pointers() {
    let memory = stack(&[(0x7000, 0x7100, 0xa1), (0x7100, 0x7200, 0xa2), (0x7200, 0, 0xa3)]);
    let (walker, step, reads) = walk(0xa0, 0x7000, &memory, 16);
    assert_eq!(step, UnwindStep::Finished);
    assert_eq!(walker.addresses(), &vec![0xa0, 0xa1, 0xa2, 0xa3]);
    assert_eq!(reads, vec![0x7008, 0x7000, 0x7108, 0x7100, 0x7208, 0x7200]);
}

#[test]
fn walk_ends_at_a_return_address_of_zero() {
    let memory = stack(&[(0x7000, 0x7100, 0xa1), (0x7100, 0x7200, 0)]);
    let (walker, step, reads) = walk(0xa0, 0x7000, &memory, 16);
    assert_eq!(step, UnwindStep::Finished);
    assert_eq!(walker.addresses(), &vec![0xa0, 0xa1]);
    assert_eq!(reads, vec![0x7008, 0x7000, 0x7108]);
}

#[test]
fn walk_of_a_finite_stack_takes_two_reads_a_frame_and_one_more() {
    let frames: Vec<(u64, u64, u64)> =
        (0..100u64).map(|i| (0x7000 + 16 * i, 0x7000 + 16 * (i + 1), 0xa000 + i)).collect();
    let mut memory = stack(&frames);
    memory.insert(0x7000 + 1600, 0);
    memory.insert(0x7000 + 1608, 0);
    let (walker, step, reads) = walk(0x1, 0x7000, &memory, 1000);
    assert_eq!(step, UnwindStep::Finished);
    assert_eq!(reads.len(), 2 * 100 + 1);
    assert_eq!(walker.addresses().len(), 101);
    assert_eq!(walker.addresses()[100], 0xa000 + 99);
}

#[test]
fn walk_never_reads_at_zero() {
    let memory = stack(&[(0x7000, 0x20, 0xa1), (0x20, 0x8, 0xa2), (0x8, 0, 0xa3)]);
    let (_, step, reads) = walk(0xa0, 0x7000, &memory, 16);
    assert_eq!(step, UnwindStep::Finished);
    assert_eq!(reads, vec![0x7008, 0x7000, 0x28, 0x20, 0x10, 0x8]);
    assert!(reads.iter().all(|address| *address != 0));
    let (_, step) = Unwinder::start(0, 0);
    assert_eq!(step, UnwindStep::Finished);
}

#[test]
fn failed_read_of_a_return_address_gives_the_walk_up() {
    let memory = stack(&[(0x7000, 0x7100, 0xa1)]);
    let (walker, step, reads) = walk(0xa0, 0x7000, &memory, 16);
    assert_eq!(step, UnwindStep::Failed(UnwindError::Read));
    assert_eq!(walker.failure(), Some(UnwindError::Read));
    assert!(walker.is_ended());
    assert_eq!(reads, vec![0x7008, 0x7000, 0x7108]);
}

#[test]
fn failed_read_of_a_frame_pointer_gives_the_walk_up() {
    let mut memory = HashMap::new();
    memory.insert(0x7008u64, 0xa1u64);
    let (walker, step, reads) = walk(0xa0, 0x7000, &memory, 16);
    assert_eq!(step, UnwindStep::Failed(UnwindError::Read));
    assert_eq!(walker.failure(), Some(UnwindError::Read));
    assert_eq!(reads, vec![0x7008, 0x7000]);
}

#[test]
fn frame_record_at_the_end_of_the_address_space_gives_the_walk_up() {
    let (walker, step) = Unwinder::start(0xa0, u64::MAX - 7);
    assert_eq!(step, UnwindStep::Failed(UnwindError::Read));
    assert_eq!(walker.failure(), Some(UnwindError::Read));
    let (_, step) = Unwinder::start(0xa0, u64::MAX - 8);
    assert_eq!(step, UnwindStep::Read { address: u64::MAX });
}

#[test]
fn ended_walk_stays_ended() {
    let (walker, _) = Unwinder::start(0xa0, 0);
    let (walker, step) = walker.advance(Some(5));
    assert_eq!(step, UnwindStep::Finished);
    assert_eq!(walker.addresses(), &vec![0xa0]);
    let (walker, _) = Unwinder::start(0xa0, 0x7000);
    let (walker, _) = walker.advance(None);
    let (walker, step) = walker.advance(Some(5));
    assert_eq!(step, UnwindStep::Failed(UnwindError::Read));
    assert_eq!(walker.addresses(), &vec![0xa0]);
}

#[test]
fn walk_of_a_stack_that_loops_goes_on_frame_by_frame() {
    let memory = stack(&[(0x7000, 0x7100, 0xa1), (0x7100, 0x7000, 0xa2)]);
    let (mut walker, mut step) = Unwinder::start(0xa0, 0x7000);
    for _ in 0..2000 {
        match step {
            UnwindStep::Read { address } => {
                let next = walker.advance(memory.get(&address).copied());
                walker = next.0;
                step = next.1;
            }
            _ => panic!("the walk ended"),
        }
    }
    assert_eq!(walker.addresses().len(), 1001);
    assert!((walker.addresses().len() as u64) < FRAME_LIMIT);
}
