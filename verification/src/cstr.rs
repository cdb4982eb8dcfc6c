//! Reading a zero-terminated string out of the target, one byte at a time.

use vstd::prelude::*;

verus! {

/// What the caller is to do next.
#[derive(Clone, Copy, Debug, PartialEq, Eq, Structural)]
pub enum StringStep {
    /// Read the byte at `address` in the target.
    Read { address: u64 },
    /// The string is complete.
    Finished,
    /// A byte could not be read, or the string runs to the end of the
    /// address space.
    Failed,
}

/// A reader as a plain value.
pub struct StringState {
    /// Where the string begins.
    pub base: u64,
    /// The bytes read so far; none of them is zero.
    pub bytes: Seq<u8>,
    /// The step that the reader has asked for and waits to hear of.
    pub pending: StringStep,
}

impl StringState {
    /// What holds of every reader that `start` and `advance` produce: no
    /// byte it holds is zero, and the byte it asks for is the one that
    /// follows them.
    pub open spec fn inv(&self) -> bool {
        &&& forall|i: int| 0 <= i < self.bytes.len() ==> self.bytes[i] != 0
        &&& self.pending matches StringStep::Read { address } ==> address == self.base
            + self.bytes.len()
    }

    /// The reader of the string at `base`; it asks for the first byte.
    pub open spec fn spec_start(base: u64) -> StringState {
        StringState { base, bytes: seq![], pending: StringStep::Read { address: base } }
    }

    /// The reader after the byte asked for was read, or could not be read.
    /// A zero byte completes the string; any other byte is added to it, and
    /// the byte after it is asked for.
    pub open spec fn spec_advance(self, byte: Option<u8>) -> StringState {
        match self.pending {
            StringStep::Read { address } => match byte {
                None => StringState { pending: StringStep::Failed, ..self },
                Some(byte) => if byte == 0 {
                    StringState { pending: StringStep::Finished, ..self }
                } else if address == u64::MAX {
                    StringState {
                        bytes: self.bytes.push(byte),
                        pending: StringStep::Failed,
                        ..self
                    }
                } else {
                    StringState {
                        bytes: self.bytes.push(byte),
                        pending: StringStep::Read { address: (address + 1) as u64 },
                        ..self
                    }
                },
            },
            _ => self,
        }
    }

    /// An upper bound on the bytes that are still to be read: the string
    /// cannot run past the end of the address space.
    pub open spec fn reads_left(&self) -> nat {
        match self.pending {
            StringStep::Read { address } => (u64::MAX - address + 1) as nat,
            _ => 0,
        }
    }

    /// The reader after up to `reads` bytes have been answered out of `memory`.
    pub open spec fn spec_run(self, memory: Map<u64, u8>, reads: nat) -> StringState
        decreases reads,
    {
        match self.pending {
            StringStep::Read { address } => if reads == 0 {
                self
            } else {
                self.spec_advance(
                    if memory.contains_key(address) {
                        Some(memory[address])
                    } else {
                        None
                    },
                ).spec_run(memory, (reads - 1) as nat)
            },
            _ => self,
        }
    }
}

/// Whether `memory` holds at `base` the string `text`: its bytes, none of
/// them zero, and a zero byte after them.
pub open spec fn spec_holds_string(memory: Map<u64, u8>, base: u64, text: Seq<u8>) -> bool {
    &&& base + text.len() <= u64::MAX
    &&& forall|i: int|
        0 <= i < text.len() ==> memory.contains_key((base + i) as u64) && memory[(base
            + i) as u64] == #[trigger] text[i] && text[i] != 0
    &&& memory.contains_key((base + text.len()) as u64)
    &&& memory[(base + text.len()) as u64] == 0
}

/// The text that a run of bytes stands for: the bytes read as UTF-8, with
/// the replacement character in place of each ill-formed sequence.
pub uninterp spec fn spec_lossy_text(bytes: Seq<u8>) -> Seq<char>;

/// Calls `String::from_utf8_lossy`, and claims of it that it maps the same
/// bytes to the same text.
#[verifier::external_body]
fn lossy_text(bytes: &[u8]) -> (text: String)
    ensures
        text@ == spec_lossy_text(bytes@),
{
    String::from_utf8_lossy(bytes).into_owned()
}

/// The reader of one string.
#[derive(Debug, PartialEq, Eq)]
pub struct StringReader {
    base: u64,
    bytes: Vec<u8>,
    pending: StringStep,
}

impl View for StringReader {
    type V = StringState;

    closed spec fn view(&self) -> StringState {
        StringState { base: self.base, bytes: self.bytes@, pending: self.pending }
    }
}

impl StringReader {
    #[verifier::type_invariant]
    spec fn well_formed(&self) -> bool {
        self@.inv()
    }

    /// Begins to read the string at `base`.
    pub fn start(base: u64) -> (reader: StringReader)
        ensures
            reader@ == StringState::spec_start(base),
            reader@.inv(),
    {
        StringReader { base, bytes: Vec::new(), pending: StringStep::Read { address: base } }
    }

    /// The step that the reader asks for.
    pub fn pending(&self) -> (step: StringStep)
        ensures
            step == self@.pending,
    {
        self.pending
    }

    /// Takes the byte read at the address asked for, or `None` where the
    /// read failed.
    pub fn advance(self, byte: Option<u8>) -> (next: StringReader)
        ensures
            next@ == self@.spec_advance(byte),
            next@.inv(),
    {
        proof {
            use_type_invariant(&self);
        }
        let StringReader { base, mut bytes, pending } = self;
        let next = match pending {
            StringStep::Read { address } => match byte {
                None => StringReader { base, bytes, pending: StringStep::Failed },
                Some(byte) => if byte == 0 {
                    StringReader { base, bytes, pending: StringStep::Finished }
                } else if address == u64::MAX {
                    bytes.push(byte);
                    StringReader { base, bytes, pending: StringStep::Failed }
                } else {
                    bytes.push(byte);
                    StringReader { base, bytes, pending: StringStep::Read { address: address + 1 } }
                },
            },
            _ => StringReader { base, bytes, pending },
        };
        next
    }

    /// The bytes of the string, the zero byte left out, once the string is
    /// complete.
    pub fn bytes(&self) -> (bytes: Option<&Vec<u8>>)
        ensures
            bytes is Some <==> self@.pending is Finished,
            bytes matches Some(bytes) ==> bytes@ == self@.bytes,
    {
        match self.pending {
            StringStep::Finished => Some(&self.bytes),
            _ => None,
        }
    }

    /// The text of the string, once the string is complete.
    pub fn text(&self) -> (text: Option<String>)
        ensures
            text is Some <==> self@.pending is Finished,
            text matches Some(text) ==> text@ == spec_lossy_text(self@.bytes),
    {
        match self.pending {
            StringStep::Finished => Some(lossy_text(self.bytes.as_slice())),
            _ => None,
        }
    }
}

/// Reading a string finds the string: where the target's memory holds the
/// string `text` at `base`, the reader is complete after one read for each
/// byte and one more, and holds `text`.
pub proof fn lemma_reads_string(memory: Map<u64, u8>, base: u64, text: Seq<u8>)
    requires
        spec_holds_string(memory, base, text),
    ensures
        ({
            let ended = StringState::spec_start(base).spec_run(memory, text.len() + 1);
            &&& ended.pending is Finished
            &&& ended.bytes == text
        }),
{
    assert(text.take(0) =~= Seq::<u8>::empty());
    lemma_reads_rest(StringState::spec_start(base), memory, text, 0);
}

proof fn lemma_reads_rest(state: StringState, memory: Map<u64, u8>, text: Seq<u8>, read: nat)
    requires
        spec_holds_string(memory, state.base, text),
        read <= text.len(),
        state.bytes == text.take(read as int),
        state.pending == (StringStep::Read { address: (state.base + read) as u64 }),
    ensures
        ({
            let ended = state.spec_run(memory, (text.len() - read + 1) as nat);
            &&& ended.pending is Finished
            &&& ended.bytes == text
        }),
    decreases text.len() - read,
{
    let address = (state.base + read) as u64;
    if read < text.len() {
        let i = read as int;
        let byte = text[i];
        assert(memory.contains_key((state.base + i) as u64));
        assert(memory[address] == byte && byte != 0);
    }
    assert(memory.contains_key(address));
    let next = state.spec_advance(Some(memory[address]));
    assert(state.spec_run(memory, (text.len() - read + 1) as nat) == next.spec_run(
        memory,
        (text.len() - read) as nat,
    ));
    if read == text.len() {
        assert(text.take(read as int) =~= text);
    } else {
        assert(text.take(read as int).push(text[read as int]) =~= text.take(read as int + 1));
        lemma_reads_rest(next, memory, text, read + 1);
    }
}

/// Every read of a string ends, whatever the target's memory holds: once as
/// many bytes have been answered as the reader had left, it reads no more.
pub proof fn lemma_reader_ends(state: StringState, memory: Map<u64, u8>, reads: nat)
    requires
        reads >= state.reads_left(),
    ensures
        !(state.spec_run(memory, reads).pending is Read),
    decreases reads,
{
    if let StringStep::Read { address } = state.pending {
        let byte = if memory.contains_key(address) {
            Some(memory[address])
        } else {
            None
        };
        lemma_reader_ends(state.spec_advance(byte), memory, (reads - 1) as nat);
    }
}

} // verus!
