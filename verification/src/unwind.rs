//! The frame-pointer walk over a thread's stack.
//!
//! A frame record is two words in the target: the saved frame pointer, and
//! eight bytes above it the return address. The walk starts from a thread's
//! program counter and frame pointer and follows the saved frame pointers
//! until one is zero or a return address is zero. The walker reads nothing
//! itself: it names the address of the next word and is handed what was read
//! there.

use vstd::prelude::*;

verus! {

/// A stack holds no more frames than a depth can count.
pub const FRAME_LIMIT: u64 = 0x1_0000_0000;

/// Why a walk was given up.
#[derive(Clone, Copy, Debug, PartialEq, Eq, Structural)]
pub enum UnwindError {
    /// A word of the target could not be read, or a frame record does not
    /// lie in the address space.
    Read,
    /// The chain of frame records is longer than a depth can count.
    Depth,
}

/// What the caller is to do next.
#[derive(Clone, Copy, Debug, PartialEq, Eq, Structural)]
pub enum UnwindStep {
    /// Read the 64-bit word at `address` in the target.
    Read { address: u64 },
    /// The walk is complete.
    Finished,
    /// The walk was given up.
    Failed(UnwindError),
}

/// The word that the walker has asked for.
#[derive(Clone, Copy, Debug, PartialEq, Eq, Structural)]
pub enum Awaiting {
    /// The return address of the frame record at the frame pointer.
    ReturnAddress,
    /// The saved frame pointer of that record.
    FramePointer,
    /// None: the walk has ended.
    Nothing,
}

/// A walk as a plain value.
pub struct UnwindState {
    /// The instruction pointers found so far, the thread's own first.
    pub addresses: Seq<u64>,
    /// The frame record that is being read.
    pub frame_pointer: u64,
    pub awaiting: Awaiting,
    /// Why the walk was given up, if it was.
    pub failure: Option<UnwindError>,
}

/// The words of the target's memory that can be read, by address.
pub type Memory = Map<u64, u64>;

impl UnwindState {
    /// What holds of every walk that `start` and `advance` produce: it has
    /// the thread's own instruction pointer and no more frames than a depth
    /// can count, and while it reads a frame record, that record lies at a
    /// frame pointer other than zero, both of its words within the address
    /// space, and nothing has failed.
    pub open spec fn inv(&self) -> bool {
        &&& 1 <= self.addresses.len() <= FRAME_LIMIT
        &&& self.awaiting != Awaiting::Nothing ==> {
            &&& self.frame_pointer != 0
            &&& self.frame_pointer + 8 <= u64::MAX
            &&& self.failure is None
        }
    }

    /// The step that the walk has asked for and waits to hear of.
    pub open spec fn spec_pending(&self) -> UnwindStep {
        match self.awaiting {
            Awaiting::ReturnAddress => UnwindStep::Read {
                address: (self.frame_pointer + 8) as u64,
            },
            Awaiting::FramePointer => UnwindStep::Read { address: self.frame_pointer },
            Awaiting::Nothing => match self.failure {
                Some(error) => UnwindStep::Failed(error),
                None => UnwindStep::Finished,
            },
        }
    }

    /// Whether the walk has ended.
    pub open spec fn ended(&self) -> bool {
        self.awaiting == Awaiting::Nothing
    }

    /// Ends the walk with a failure.
    pub open spec fn spec_fail(self, error: UnwindError) -> (UnwindState, UnwindStep) {
        (
            UnwindState { awaiting: Awaiting::Nothing, failure: Some(error), ..self },
            UnwindStep::Failed(error),
        )
    }

    /// Turns to the frame record at the frame pointer: the walk is complete
    /// where the frame pointer is zero, and reads the record's return address
    /// otherwise.
    pub open spec fn spec_next_record(self) -> (UnwindState, UnwindStep) {
        if self.frame_pointer == 0 {
            (UnwindState { awaiting: Awaiting::Nothing, ..self }, UnwindStep::Finished)
        } else if self.frame_pointer + 8 > u64::MAX {
            self.spec_fail(UnwindError::Read)
        } else {
            (
                UnwindState { awaiting: Awaiting::ReturnAddress, ..self },
                UnwindStep::Read { address: (self.frame_pointer + 8) as u64 },
            )
        }
    }

    /// The walk of a thread with this program counter and frame pointer,
    /// and its first step.
    pub open spec fn spec_start(pc: u64, fp: u64) -> (UnwindState, UnwindStep) {
        (UnwindState {
            addresses: seq![pc],
            frame_pointer: fp,
            awaiting: Awaiting::Nothing,
            failure: None,
        }).spec_next_record()
    }

    /// The walk after the word asked for was read, or could not be read,
    /// and the step it asks for next.
    pub open spec fn spec_advance(self, word: Option<u64>) -> (UnwindState, UnwindStep) {
        match self.awaiting {
            Awaiting::ReturnAddress => match word {
                None => self.spec_fail(UnwindError::Read),
                Some(pc) => if pc == 0 {
                    (UnwindState { awaiting: Awaiting::Nothing, ..self }, UnwindStep::Finished)
                } else if self.addresses.len() >= FRAME_LIMIT {
                    self.spec_fail(UnwindError::Depth)
                } else {
                    (
                        UnwindState {
                            addresses: self.addresses.push(pc),
                            awaiting: Awaiting::FramePointer,
                            ..self
                        },
                        UnwindStep::Read { address: self.frame_pointer },
                    )
                },
            },
            Awaiting::FramePointer => match word {
                None => self.spec_fail(UnwindError::Read),
                Some(fp) => (UnwindState { frame_pointer: fp, ..self }).spec_next_record(),
            },
            Awaiting::Nothing => (
                self,
                match self.failure {
                    Some(error) => UnwindStep::Failed(error),
                    None => UnwindStep::Finished,
                },
            ),
        }
    }

    /// An upper bound on the words that are still to be read.
    pub open spec fn reads_left(&self) -> nat {
        match self.awaiting {
            Awaiting::ReturnAddress => (2 * (FRAME_LIMIT - self.addresses.len()) + 2) as nat,
            Awaiting::FramePointer => (2 * (FRAME_LIMIT - self.addresses.len()) + 3) as nat,
            Awaiting::Nothing => 0,
        }
    }
}

/// What a read at the address that `step` names yields in `memory`.
pub open spec fn spec_answer(memory: Memory, step: UnwindStep) -> Option<u64> {
    match step {
        UnwindStep::Read { address } => if memory.contains_key(address) {
            Some(memory[address])
        } else {
            None
        },
        _ => None,
    }
}

/// The walk after up to `reads` reads have been answered out of `memory`.
pub open spec fn spec_run(state: UnwindState, memory: Memory, reads: nat) -> UnwindState
    decreases reads,
{
    if reads == 0 || state.ended() {
        state
    } else {
        spec_run(
            state.spec_advance(spec_answer(memory, state.spec_pending())).0,
            memory,
            (reads - 1) as nat,
        )
    }
}

/// Whether `memory` holds, from the frame record at `fp`, a stack that ends
/// after the return addresses `callers`: each record can be read and holds
/// the next return address, none of them zero, and the chain ends at a frame
/// pointer of zero or at a record whose return address is zero.
pub open spec fn spec_stack(memory: Memory, fp: u64, callers: Seq<u64>) -> bool
    decreases callers.len(),
{
    if callers.len() == 0 {
        fp == 0 || (fp + 8 <= u64::MAX && memory.contains_key((fp + 8) as u64) && memory[(fp
            + 8) as u64] == 0)
    } else {
        &&& fp != 0
        &&& fp + 8 <= u64::MAX
        &&& memory.contains_key((fp + 8) as u64)
        &&& memory[(fp + 8) as u64] == callers[0]
        &&& callers[0] != 0
        &&& memory.contains_key(fp)
        &&& spec_stack(memory, memory[fp], callers.drop_first())
    }
}

/// The walker over one thread's stack.
#[derive(Debug, PartialEq, Eq)]
pub struct Unwinder {
    addresses: Vec<u64>,
    frame_pointer: u64,
    awaiting: Awaiting,
    failure: Option<UnwindError>,
}

impl View for Unwinder {
    type V = UnwindState;

    closed spec fn view(&self) -> UnwindState {
        UnwindState {
            addresses: self.addresses@,
            frame_pointer: self.frame_pointer,
            awaiting: self.awaiting,
            failure: self.failure,
        }
    }
}

impl Unwinder {
    #[verifier::type_invariant]
    spec fn well_formed(&self) -> bool {
        self@.inv()
    }

    fn fail(self, error: UnwindError) -> (ended: (Unwinder, UnwindStep))
        ensures
            (ended.0@, ended.1) == self@.spec_fail(error),
    {
        proof {
            use_type_invariant(&self);
        }
        let Unwinder { addresses, frame_pointer, awaiting: _, failure: _ } = self;
        (
            Unwinder {
                addresses,
                frame_pointer,
                awaiting: Awaiting::Nothing,
                failure: Some(error),
            },
            UnwindStep::Failed(error),
        )
    }

    fn finish(self) -> (ended: (Unwinder, UnwindStep))
        ensures
            ended.0@ == (UnwindState { awaiting: Awaiting::Nothing, ..self@ }),
            ended.1 == UnwindStep::Finished,
    {
        proof {
            use_type_invariant(&self);
        }
        let Unwinder { addresses, frame_pointer, awaiting: _, failure } = self;
        (
            Unwinder { addresses, frame_pointer, awaiting: Awaiting::Nothing, failure },
            UnwindStep::Finished,
        )
    }

    fn next_record(
        addresses: Vec<u64>,
        frame_pointer: u64,
        failure: Option<UnwindError>,
    ) -> (next: (Unwinder, UnwindStep))
        requires
            1 <= addresses@.len() <= FRAME_LIMIT,
            failure is None,
        ensures
            (next.0@, next.1) == (UnwindState {
                addresses: addresses@,
                frame_pointer,
                awaiting: Awaiting::Nothing,
                failure,
            }).spec_next_record(),
            next.1 matches UnwindStep::Read { address } ==> address != 0,
    {
        if frame_pointer == 0 {
            (
                Unwinder { addresses, frame_pointer, awaiting: Awaiting::Nothing, failure },
                UnwindStep::Finished,
            )
        } else if frame_pointer > u64::MAX - 8 {
            (
                Unwinder {
                    addresses,
                    frame_pointer,
                    awaiting: Awaiting::Nothing,
                    failure: Some(UnwindError::Read),
                },
                UnwindStep::Failed(UnwindError::Read),
            )
        } else {
            (
                Unwinder { addresses, frame_pointer, awaiting: Awaiting::ReturnAddress, failure },
                UnwindStep::Read { address: frame_pointer + 8 },
            )
        }
    }

    /// Begins the walk of a thread with program counter `pc` and frame
    /// pointer `fp`: the program counter is the first frame.
    pub fn start(pc: u64, fp: u64) -> (begun: (Unwinder, UnwindStep))
        ensures
            (begun.0@, begun.1) == UnwindState::spec_start(pc, fp),
            begun.0@.inv(),
            begun.1 == begun.0@.spec_pending(),
            begun.1 matches UnwindStep::Read { address } ==> address != 0,
    {
        let mut addresses: Vec<u64> = Vec::new();
        addresses.push(pc);
        assert(addresses@ =~= seq![pc]);
        let begun = Self::next_record(addresses, fp, None);
        proof {
            use_type_invariant(&begun.0);
        }
        begun
    }

    /// Takes the word read at the address asked for, or `None` where the
    /// read failed, and names the next step.
    ///
    /// The walk and the step are exactly those of `spec_advance`; the
    /// address of a read is never zero; and each answer leaves fewer reads
    /// to come.
    pub fn advance(self, word: Option<u64>) -> (next: (Unwinder, UnwindStep))
        ensures
            (next.0@, next.1) == self@.spec_advance(word),
            self@.inv(),
            next.0@.inv(),
            next.1 == next.0@.spec_pending(),
            next.1 matches UnwindStep::Read { address } ==> address != 0,
            !self@.ended() ==> next.0@.reads_left() < self@.reads_left(),
    {
        proof {
            use_type_invariant(&self);
        }
        let next = match self.awaiting {
            Awaiting::ReturnAddress => match word {
                None => self.fail(UnwindError::Read),
                Some(pc) => if pc == 0 {
                    self.finish()
                } else if self.addresses.len() as u64 >= FRAME_LIMIT {
                    self.fail(UnwindError::Depth)
                } else {
                    let Unwinder { mut addresses, frame_pointer, awaiting: _, failure } = self;
                    addresses.push(pc);
                    (
                        Unwinder {
                            addresses,
                            frame_pointer,
                            awaiting: Awaiting::FramePointer,
                            failure,
                        },
                        UnwindStep::Read { address: frame_pointer },
                    )
                },
            },
            Awaiting::FramePointer => match word {
                None => self.fail(UnwindError::Read),
                Some(fp) => {
                    let Unwinder { addresses, frame_pointer: _, awaiting: _, failure } = self;
                    Self::next_record(addresses, fp, failure)
                },
            },
            Awaiting::Nothing => {
                let step = match self.failure {
                    Some(error) => UnwindStep::Failed(error),
                    None => UnwindStep::Finished,
                };
                (self, step)
            },
        };
        proof {
            use_type_invariant(&next.0);
        }
        next
    }

    /// Whether the walk has ended.
    pub fn is_ended(&self) -> (ended: bool)
        ensures
            ended == self@.ended(),
    {
        matches!(self.awaiting, Awaiting::Nothing)
    }

    /// Why the walk was given up, if it was.
    pub fn failure(&self) -> (failure: Option<UnwindError>)
        ensures
            failure == self@.failure,
    {
        self.failure
    }

    /// The instruction pointers found so far, the thread's own first: at
    /// least that one, and no more than a depth can count.
    pub fn addresses(&self) -> (addresses: &Vec<u64>)
        ensures
            addresses@ == self@.addresses,
            1 <= addresses@.len() <= FRAME_LIMIT,
    {
        proof {
            use_type_invariant(self);
        }
        &self.addresses
    }
}

/// A step keeps what holds of every walk; the step it names is the one the
/// walk then waits to hear of; a read never names address zero; and each
/// answer leaves fewer reads to come.
pub proof fn lemma_advance(state: UnwindState, word: Option<u64>)
    requires
        state.inv(),
    ensures
        ({
            let (next, step) = state.spec_advance(word);
            &&& next.inv()
            &&& step == next.spec_pending()
            &&& step matches UnwindStep::Read { address } ==> address != 0
            &&& !state.ended() ==> next.reads_left() < state.reads_left()
        }),
{
}

/// No walk reads at address zero.
pub proof fn lemma_never_reads_zero(state: UnwindState)
    requires
        state.inv(),
    ensures
        state.spec_pending() matches UnwindStep::Read { address } ==> address != 0,
{
}

/// Every walk ends, whatever the target's memory holds: once as many reads
/// have been answered as the walk had left, it has ended.
pub proof fn lemma_walk_ends(state: UnwindState, memory: Memory, reads: nat)
    requires
        state.inv(),
        reads >= state.reads_left(),
    ensures
        spec_run(state, memory, reads).ended(),
        spec_run(state, memory, reads).inv(),
    decreases reads,
{
    if reads > 0 && !state.ended() {
        let word = spec_answer(memory, state.spec_pending());
        lemma_advance(state, word);
        lemma_walk_ends(state.spec_advance(word).0, memory, (reads - 1) as nat);
    }
}

proof fn lemma_walk_from_record(addresses: Seq<u64>, fp: u64, memory: Memory, callers: Seq<u64>)
    requires
        1 <= addresses.len(),
        addresses.len() + callers.len() <= FRAME_LIMIT,
        spec_stack(memory, fp, callers),
    ensures
        ({
            let begun = (UnwindState {
                addresses,
                frame_pointer: fp,
                awaiting: Awaiting::Nothing,
                failure: None,
            }).spec_next_record().0;
            let ended = spec_run(begun, memory, 2 * callers.len() + 1);
            &&& ended.ended()
            &&& ended.failure is None
            &&& ended.addresses == addresses + callers
        }),
    decreases callers.len(),
{
    let begun = (UnwindState {
        addresses,
        frame_pointer: fp,
        awaiting: Awaiting::Nothing,
        failure: None,
    }).spec_next_record().0;
    let reads = 2 * callers.len() + 1;
    if callers.len() == 0 {
        assert(addresses + callers =~= addresses);
        if fp != 0 {
            let after = begun.spec_advance(spec_answer(memory, begun.spec_pending())).0;
            assert(after.ended());
            assert(spec_run(begun, memory, reads) == spec_run(after, memory, 0));
        }
    } else {
        let first = begun.spec_advance(spec_answer(memory, begun.spec_pending())).0;
        assert(first.awaiting == Awaiting::FramePointer);
        assert(first.addresses == addresses.push(callers[0]));
        let second = first.spec_advance(spec_answer(memory, first.spec_pending())).0;
        assert(second == (UnwindState {
            addresses: addresses.push(callers[0]),
            frame_pointer: memory[fp],
            awaiting: Awaiting::Nothing,
            failure: None,
        }).spec_next_record().0);
        lemma_walk_from_record(
            addresses.push(callers[0]),
            memory[fp],
            memory,
            callers.drop_first(),
        );
        assert(addresses.push(callers[0]) + callers.drop_first() =~= addresses + callers);
        assert(spec_run(begun, memory, reads) == spec_run(first, memory, (reads - 1) as nat));
        assert(spec_run(first, memory, (reads - 1) as nat) == spec_run(
            second,
            memory,
            (reads - 2) as nat,
        ));
    }
}

/// The walk of a finite stack ends, and finds the stack: where the target's
/// memory holds, from the thread's frame pointer, a chain of frame records
/// with the return addresses `callers`, the walk is complete after two reads
/// for each of them and one more, nothing has failed, and the instruction
/// pointers it found are the program counter and then `callers`.
pub proof fn lemma_walk_finds_stack(pc: u64, fp: u64, memory: Memory, callers: Seq<u64>)
    requires
        spec_stack(memory, fp, callers),
        callers.len() < FRAME_LIMIT,
    ensures
        ({
            let begun = UnwindState::spec_start(pc, fp).0;
            let ended = spec_run(begun, memory, 2 * callers.len() + 1);
            &&& ended.ended()
            &&& ended.failure is None
            &&& ended.addresses == seq![pc] + callers
        }),
{
    lemma_walk_from_record(seq![pc], fp, memory, callers);
}

} // verus!
