//! The entities of a captured snapshot: modules, frames, threads.
//!
//! Addresses are stored with the slide already applied. A frame names the
//! first module whose text range holds its address, and in a snapshot taken
//! for an exception the faulting thread comes first and is the only one that
//! carries the exception.

use vstd::prelude::*;
use crate::context::ExceptionInfo;
use crate::unwind::{Unwinder, FRAME_LIMIT};

verus! {

/// A closed interval of addresses.
#[derive(Clone, Copy, Debug, PartialEq, Eq, Structural)]
pub struct Range {
    pub start: u64,
    pub end: u64,
}

impl Range {
    /// Whether `item` lies between `start` and `end`, both included.
    pub open spec fn spec_contains(&self, item: u64) -> bool {
        self.start <= item && item <= self.end
    }

    /// Whether `item` lies between `start` and `end`, both included.
    pub fn contains(&self, item: u64) -> (found: bool)
        ensures
            found == self.spec_contains(item),
    {
        self.start <= item && item <= self.end
    }
}

/// A loaded image of the target.
#[derive(Debug, PartialEq, Eq)]
pub struct Module {
    pub path: String,
    /// Where the image's header lies in the target.
    pub load_address: u64,
    /// The range of the image's text, by which an instruction pointer is
    /// attributed to the module.
    pub text_segment: Option<Range>,
    /// Where the image holds the exit entry point, if it does.
    pub exit_address: Option<u64>,
}

/// A module as a plain value.
pub struct ModuleView {
    pub path: Seq<char>,
    pub load_address: u64,
    pub text_segment: Option<Range>,
    pub exit_address: Option<u64>,
}

impl ModuleView {
    /// Whether the module's text holds `address`.
    pub open spec fn covers(&self, address: u64) -> bool {
        self.text_segment matches Some(range) && range.spec_contains(address)
    }
}

impl View for Module {
    type V = ModuleView;

    open spec fn view(&self) -> ModuleView {
        ModuleView {
            path: self.path@,
            load_address: self.load_address,
            text_segment: self.text_segment,
            exit_address: self.exit_address,
        }
    }
}

impl Clone for Module {
    fn clone(&self) -> (copy: Self)
        ensures
            copy == *self,
    {
        Module {
            path: self.path.clone(),
            load_address: self.load_address,
            text_segment: self.text_segment,
            exit_address: self.exit_address,
        }
    }
}

impl Module {
    /// Whether the module's text holds `address`.
    pub fn covers(&self, address: u64) -> (held: bool)
        ensures
            held == self@.covers(address),
    {
        match &self.text_segment {
            Some(range) => range.contains(address),
            None => false,
        }
    }
}

/// The modules as plain values.
pub open spec fn module_views(modules: Seq<Module>) -> Seq<ModuleView> {
    modules.map_values(|module: Module| module@)
}

/// The module an address belongs to: the first whose text holds it.
pub open spec fn spec_attribute(modules: Seq<ModuleView>, address: u64) -> Option<ModuleView>
    decreases modules.len(),
{
    if modules.len() == 0 {
        None
    } else if modules[0].covers(address) {
        Some(modules[0])
    } else {
        spec_attribute(modules.drop_first(), address)
    }
}

/// An address is attributed to a module of the list whose text holds it and
/// before which no module's text does; it is attributed to none exactly when
/// no module's text holds it.
pub proof fn lemma_attribute(modules: Seq<ModuleView>, address: u64)
    ensures
        match spec_attribute(modules, address) {
            Some(module) => exists|i: int|
                {
                    &&& 0 <= i < modules.len()
                    &&& #[trigger] modules[i] == module
                    &&& module.covers(address)
                    &&& forall|j: int| 0 <= j < i ==> !(#[trigger] modules[j]).covers(address)
                },
            None => forall|i: int|
                0 <= i < modules.len() ==> !(#[trigger] modules[i]).covers(address),
        },
    decreases modules.len(),
{
    if modules.len() > 0 && !modules[0].covers(address) {
        let rest = modules.drop_first();
        lemma_attribute(rest, address);
        match spec_attribute(rest, address) {
            Some(module) => {
                let i = choose|i: int|
                    {
                        &&& 0 <= i < rest.len()
                        &&& #[trigger] rest[i] == module
                        &&& module.covers(address)
                        &&& forall|j: int| 0 <= j < i ==> !(#[trigger] rest[j]).covers(address)
                    };
                assert(modules[i + 1] == module);
                assert forall|j: int| 0 <= j < i + 1 implies !(#[trigger] modules[j]).covers(
                    address,
                ) by {
                    if j > 0 {
                        assert(rest[j - 1] == modules[j]);
                    }
                }
            },
            None => {
                assert forall|i: int| 0 <= i < modules.len() implies !(#[trigger] modules[i])
                    .covers(address) by {
                    if i > 0 {
                        assert(rest[i - 1] == modules[i]);
                    }
                }
            },
        }
    } else if modules.len() > 0 {
        assert(modules[0] == spec_attribute(modules, address).unwrap());
    }
}

/// One frame of a thread's stack.
#[derive(Debug, PartialEq, Eq)]
pub struct Backtrace {
    depth: u32,
    address: u64,
    module: Option<Module>,
    symbol: Option<String>,
}

/// A frame as a plain value.
pub struct FrameView {
    /// How many frames lie between this one and the top of the stack.
    pub depth: u32,
    pub address: u64,
    pub module: Option<ModuleView>,
    pub symbol: Option<Seq<char>>,
}

impl FrameView {
    /// The frame at `depth` for `address`, attributed among `modules`, with
    /// no symbol.
    pub open spec fn at(depth: u32, address: u64, modules: Seq<ModuleView>) -> FrameView {
        FrameView { depth, address, module: spec_attribute(modules, address), symbol: None }
    }

    /// The frame's address lies in the text of the module it names.
    pub open spec fn attributed(&self) -> bool {
        self.module matches Some(module) ==> module.covers(self.address)
    }
}

/// Every frame lies in the text of the module it names: whatever the depth,
/// the address and the modules, the frame made of them names no module
/// whose text does not hold the frame's address.
pub proof fn lemma_frame_lies_in_its_module(depth: u32, address: u64, modules: Seq<ModuleView>)
    ensures
        FrameView::at(depth, address, modules).attributed(),
        FrameView::at(depth, address, modules).module matches Some(module) ==> {
            &&& module.text_segment is Some
            &&& module.text_segment.unwrap().start <= address <= module.text_segment.unwrap().end
        },
{
    lemma_attribute(modules, address);
}

impl View for Backtrace {
    type V = FrameView;

    closed spec fn view(&self) -> FrameView {
        FrameView {
            depth: self.depth,
            address: self.address,
            module: match self.module {
                Some(module) => Some(module@),
                None => None,
            },
            symbol: match self.symbol {
                Some(symbol) => Some(symbol@),
                None => None,
            },
        }
    }
}

impl Backtrace {
    #[verifier::type_invariant]
    spec fn well_formed(&self) -> bool {
        self@.attributed()
    }

    /// The frame at `depth` for `address`: it names the first of `modules`
    /// whose text holds the address, or none where no text does, and no
    /// symbol.
    pub fn new(depth: u32, address: u64, modules: &[Module]) -> (frame: Self)
        ensures
            frame@ == FrameView::at(depth, address, module_views(modules@)),
            frame@.attributed(),
    {
        let ghost views = module_views(modules@);
        let mut found: Option<Module> = None;
        let mut i: usize = 0;
        proof {
            assert(views.skip(0) =~= views);
        }
        while i < modules.len() && found.is_none()
            invariant
                0 <= i <= modules.len(),
                views == module_views(modules@),
                found is None ==> spec_attribute(views, address) == spec_attribute(
                    views.skip(i as int),
                    address,
                ),
                found matches Some(module) ==> spec_attribute(views, address) == Some(module@),
                found matches Some(module) ==> module@.covers(address),
            decreases modules.len() - i + if found is None { 1int } else { 0int },
        {
            proof {
                assert(views.skip(i as int)[0] == modules@[i as int]@);
                assert(views.skip(i as int).drop_first() == views.skip(i as int + 1));
            }
            if modules[i].covers(address) {
                found = Some(modules[i].clone());
            } else {
                i += 1;
            }
        }
        proof {
            if found is None {
                assert(views.skip(i as int).len() == 0);
            }
        }
        Backtrace { depth, address, module: found, symbol: None }
    }

    /// How many frames lie between this one and the top of the stack.
    pub fn depth(&self) -> (depth: u32)
        ensures
            depth == self@.depth,
    {
        self.depth
    }

    /// The instruction pointer of the frame.
    pub fn address(&self) -> (address: u64)
        ensures
            address == self@.address,
    {
        self.address
    }

    /// The module that the frame's address belongs to. Whatever the frame,
    /// the text of that module holds the address.
    pub fn module(&self) -> (module: Option<&Module>)
        ensures
            module is Some == self@.module is Some,
            module matches Some(found) ==> self@.module == Some(found@) && found@.covers(
                self@.address,
            ),
    {
        proof {
            use_type_invariant(self);
        }
        self.module.as_ref()
    }

    /// The symbol of the frame. The engine resolves none.
    pub fn symbol(&self) -> (symbol: Option<&String>)
        ensures
            symbol is Some == self@.symbol is Some,
            symbol matches Some(found) ==> self@.symbol == Some(found@),
    {
        self.symbol.as_ref()
    }
}

/// A thread as a plain value.
pub struct ThreadView {
    pub id: u64,
    pub exception: Option<ExceptionInfo>,
    pub backtrace: Seq<FrameView>,
}

impl ThreadView {
    /// Each frame lies as deep as it stands in the backtrace, no deeper than
    /// a depth can count, and its address lies in the text of the module it
    /// names.
    pub open spec fn wf(&self) -> bool {
        &&& self.backtrace.len() <= FRAME_LIMIT
        &&& forall|i: int|
            0 <= i < self.backtrace.len() ==> {
                &&& (#[trigger] self.backtrace[i]).depth == i
                &&& self.backtrace[i].attributed()
            }
    }

    /// The thread with `exception` in place of its own.
    pub open spec fn bearing(self, exception: Option<ExceptionInfo>) -> ThreadView {
        ThreadView { exception, ..self }
    }

    /// The thread `id` whose stack holds `addresses`, attributed among
    /// `modules`, with no exception.
    pub open spec fn walked(id: u64, addresses: Seq<u64>, modules: Seq<ModuleView>) -> ThreadView {
        ThreadView {
            id,
            exception: None,
            backtrace: Seq::new(
                addresses.len(),
                |i: int| FrameView::at(i as u32, addresses[i], modules),
            ),
        }
    }
}

/// The frames as plain values.
pub open spec fn frame_views(frames: Seq<Backtrace>) -> Seq<FrameView> {
    frames.map_values(|frame: Backtrace| frame@)
}

/// One thread of the target.
#[derive(Debug, PartialEq, Eq)]
pub struct Thread {
    id: u64,
    exception: Option<ExceptionInfo>,
    backtrace: Vec<Backtrace>,
}

impl View for Thread {
    type V = ThreadView;

    closed spec fn view(&self) -> ThreadView {
        ThreadView {
            id: self.id,
            exception: self.exception,
            backtrace: frame_views(self.backtrace@),
        }
    }
}

impl Thread {
    #[verifier::type_invariant]
    spec fn well_formed(&self) -> bool {
        self@.wf()
    }

    /// The thread `id` as the complete walk of its stack found it: one frame
    /// for each instruction pointer, as deep as it was found, attributed
    /// among `modules`, and no exception. A walk that has not ended, or that
    /// was given up, yields no thread.
    pub fn new(id: u64, walk: &Unwinder, modules: &[Module]) -> (thread: Option<Thread>)
        ensures
            thread is Some <==> walk@.ended() && walk@.failure is None,
            thread matches Some(thread) ==> {
                &&& thread@ == ThreadView::walked(id, walk@.addresses, module_views(modules@))
                &&& thread@.wf()
            },
    {
        if !walk.is_ended() || walk.failure().is_some() {
            return None;
        }
        let addresses = walk.addresses();
        let ghost views = module_views(modules@);
        let mut backtrace: Vec<Backtrace> = Vec::new();
        let mut i: usize = 0;
        while i < addresses.len()
            invariant
                0 <= i <= addresses.len() <= FRAME_LIMIT,
                views == module_views(modules@),
                backtrace@.len() == i,
                forall|j: int|
                    0 <= j < i ==> (#[trigger] backtrace@[j])@ == FrameView::at(
                        j as u32,
                        addresses@[j],
                        views,
                    ),
                forall|j: int| 0 <= j < i ==> (#[trigger] backtrace@[j])@.attributed(),
            decreases addresses.len() - i,
        {
            backtrace.push(Backtrace::new(i as u32, addresses[i], modules));
            i += 1;
        }
        assert(frame_views(backtrace@) =~= ThreadView::walked(id, addresses@, views).backtrace);
        Some(Thread { id, exception: None, backtrace })
    }

    fn bearing(self, exception: Option<ExceptionInfo>) -> (thread: Thread)
        ensures
            thread@ == self@.bearing(exception),
            thread@.wf(),
    {
        proof {
            use_type_invariant(&self);
        }
        let Thread { id, exception: _, backtrace } = self;
        Thread { id, exception, backtrace }
    }

    /// The stable identifier of the thread.
    pub fn id(&self) -> (id: u64)
        ensures
            id == self@.id,
    {
        self.id
    }

    /// The exception that the thread received, if it received one.
    pub fn exception(&self) -> (exception: Option<ExceptionInfo>)
        ensures
            exception == self@.exception,
    {
        self.exception
    }

    /// The frames of the thread's stack, the top of the stack first. Each
    /// lies as deep as it stands here, and within the module it names.
    pub fn backtrace(&self) -> (frames: &Vec<Backtrace>)
        ensures
            frame_views(frames@) == self@.backtrace,
            self@.wf(),
    {
        proof {
            use_type_invariant(self);
        }
        &self.backtrace
    }
}

/// The thread that received the exception, and the exception.
#[derive(Clone, Copy, Debug, PartialEq, Eq, Structural)]
pub struct Fault {
    pub thread_id: u64,
    pub exception: ExceptionInfo,
}

/// The threads as plain values.
pub open spec fn thread_views(threads: Seq<Thread>) -> Seq<ThreadView> {
    threads.map_values(|thread: Thread| thread@)
}

/// Where the first thread with identifier `id` stands among `threads`.
pub open spec fn spec_position(threads: Seq<ThreadView>, id: u64) -> Option<int>
    decreases threads.len(),
{
    if threads.len() == 0 {
        None
    } else if threads[0].id == id {
        Some(0)
    } else {
        match spec_position(threads.drop_first(), id) {
            Some(k) => Some(k + 1),
            None => None,
        }
    }
}

/// The position found is that of the first thread with the identifier, and
/// none is found exactly where no thread has it.
pub proof fn lemma_position(threads: Seq<ThreadView>, id: u64)
    ensures
        match spec_position(threads, id) {
            Some(k) => {
                &&& 0 <= k < threads.len()
                &&& threads[k].id == id
                &&& forall|j: int| 0 <= j < k ==> (#[trigger] threads[j]).id != id
            },
            None => forall|j: int| 0 <= j < threads.len() ==> (#[trigger] threads[j]).id != id,
        },
    decreases threads.len(),
{
    if threads.len() > 0 && threads[0].id != id {
        let rest = threads.drop_first();
        lemma_position(rest, id);
        match spec_position(rest, id) {
            Some(k) => {
                assert(rest[k] == threads[k + 1]);
                assert forall|j: int| 0 <= j < k + 1 implies (#[trigger] threads[j]).id != id by {
                    if j > 0 {
                        assert(rest[j - 1] == threads[j]);
                    }
                }
            },
            None => {
                assert forall|j: int| 0 <= j < threads.len() implies (#[trigger] threads[j]).id
                    != id by {
                    if j > 0 {
                        assert(rest[j - 1] == threads[j]);
                    }
                }
            },
        }
    }
}

/// A snapshot as a plain value.
pub struct SnapshotView {
    pub threads: Seq<ThreadView>,
    pub modules: Seq<ModuleView>,
}

impl SnapshotView {
    /// Every thread is well formed, and no thread but the first carries an
    /// exception.
    pub open spec fn wf(&self) -> bool {
        &&& forall|i: int| 0 <= i < self.threads.len() ==> (#[trigger] self.threads[i]).wf()
        &&& forall|i: int|
            0 < i < self.threads.len() ==> (#[trigger] self.threads[i]).exception is None
    }

    /// The snapshot of `threads` and `modules`.
    ///
    /// Without a fault the threads stand as they were enumerated and none
    /// carries an exception. With a fault the first thread that has the
    /// fault's identifier comes first and carries the exception, and the
    /// others follow as they were enumerated, without exception; where no
    /// thread has that identifier there is no snapshot.
    pub open spec fn spec_new(
        threads: Seq<ThreadView>,
        modules: Seq<ModuleView>,
        fault: Option<Fault>,
    ) -> Option<SnapshotView> {
        match fault {
            None => Some(
                SnapshotView {
                    threads: threads.map_values(|thread: ThreadView| thread.bearing(None)),
                    modules,
                },
            ),
            Some(fault) => match spec_position(threads, fault.thread_id) {
                Some(k) => Some(
                    SnapshotView {
                        threads: seq![threads[k].bearing(Some(fault.exception))]
                            + threads.remove(k).map_values(
                            |thread: ThreadView| thread.bearing(None),
                        ),
                        modules,
                    },
                ),
                None => None,
            },
        }
    }
}

/// In a snapshot taken for an exception, the first thread is the one that
/// received it: it has the fault's identifier and carries the fault's
/// exception, and no other thread carries one.
pub proof fn lemma_faulting_thread_first(
    threads: Seq<ThreadView>,
    modules: Seq<ModuleView>,
    fault: Fault,
)
    requires
        SnapshotView::spec_new(threads, modules, Some(fault)) is Some,
    ensures
        ({
            let snapshot = SnapshotView::spec_new(threads, modules, Some(fault)).unwrap();
            &&& snapshot.threads.len() == threads.len()
            &&& snapshot.threads[0].id == fault.thread_id
            &&& snapshot.threads[0].exception == Some(fault.exception)
            &&& forall|i: int|
                0 < i < snapshot.threads.len() ==> (#[trigger] snapshot.threads[i]).exception
                    is None
        }),
{
    lemma_position(threads, fault.thread_id);
}

/// The captured state of the target: its threads and its modules.
#[derive(Debug, PartialEq, Eq)]
pub struct Snapshot {
    threads: Vec<Thread>,
    modules: Vec<Module>,
}

impl View for Snapshot {
    type V = SnapshotView;

    closed spec fn view(&self) -> SnapshotView {
        SnapshotView { threads: thread_views(self.threads@), modules: module_views(self.modules@) }
    }
}

/// The threads with `exception` out of their way, in reverse.
fn cleared_in_reverse(threads: Vec<Thread>) -> (reversed: Vec<Thread>)
    ensures
        reversed@.len() == threads@.len(),
        forall|i: int|
            0 <= i < reversed@.len() ==> {
                &&& (#[trigger] reversed@[i])@ == threads@[threads@.len() - 1 - i]@.bearing(None)
                &&& reversed@[i]@.wf()
            },
{
    let mut threads = threads;
    let ghost given = threads@;
    let mut reversed: Vec<Thread> = Vec::new();
    while threads.len() > 0
        invariant
            threads@.len() + reversed@.len() == given.len(),
            threads@ == given.take(threads@.len() as int),
            forall|i: int|
                0 <= i < reversed@.len() ==> {
                    &&& (#[trigger] reversed@[i])@ == given[given.len() - 1 - i]@.bearing(None)
                    &&& reversed@[i]@.wf()
                },
        decreases threads@.len(),
    {
        let ghost before = threads@;
        match threads.pop() {
            Some(thread) => {
                assert(thread == given[before.len() - 1]);
                reversed.push(thread.bearing(None));
                assert(threads@ =~= given.take(threads@.len() as int));
            },
            None => {},
        }
    }
    reversed
}

impl Snapshot {
    #[verifier::type_invariant]
    spec fn well_formed(&self) -> bool {
        self@.wf()
    }

    /// Puts a snapshot together from the threads and modules that were
    /// enumerated and, for a capture on an exception, the fault.
    ///
    /// The snapshot is exactly that of `spec_new`: there is one unless a
    /// fault names a thread that was not enumerated, the faulting thread
    /// comes first in it, and only that thread carries an exception.
    pub fn new(threads: Vec<Thread>, modules: Vec<Module>, fault: Option<Fault>) -> (snapshot:
        Option<Snapshot>)
        ensures
            match snapshot {
                Some(snapshot) => SnapshotView::spec_new(
                    thread_views(threads@),
                    module_views(modules@),
                    fault,
                ) == Some(snapshot@) && snapshot@.wf(),
                None => SnapshotView::spec_new(
                    thread_views(threads@),
                    module_views(modules@),
                    fault,
                ) is None,
            },
    {
        let ghost given = thread_views(threads@);
        let mut threads = threads;
        let mut ordered: Vec<Thread> = Vec::new();
        match fault {
            Some(fault) => {
                let mut k: usize = 0;
                while k < threads.len() && threads[k].id() != fault.thread_id
                    invariant
                        0 <= k <= threads@.len(),
                        given == thread_views(threads@),
                        forall|j: int| 0 <= j < k ==> (#[trigger] given[j]).id != fault.thread_id,
                    decreases threads@.len() - k,
                {
                    k += 1;
                }
                proof {
                    lemma_position(given, fault.thread_id);
                }
                if k == threads.len() {
                    return None;
                }
                assert(given[k as int].id == fault.thread_id);
                assert(spec_position(given, fault.thread_id) == Some(k as int));
                let first = threads.remove(k);
                ordered.push(first.bearing(Some(fault.exception)));
                assert(thread_views(threads@) =~= given.remove(k as int));
            },
            None => {},
        }
        let ghost rest = thread_views(threads@);
        let ghost head = ordered@;
        let mut reversed = cleared_in_reverse(threads);
        while reversed.len() > 0
            invariant
                head.len() <= ordered@.len(),
                ordered@.len() + reversed@.len() == head.len() + rest.len(),
                ordered@.take(head.len() as int) == head,
                forall|i: int| 0 <= i < head.len() ==> (#[trigger] head[i])@.wf(),
                forall|i: int|
                    head.len() <= i < ordered@.len() ==> {
                        &&& (#[trigger] ordered@[i])@ == rest[i - head.len()].bearing(None)
                        &&& ordered@[i]@.wf()
                    },
                forall|i: int|
                    0 <= i < reversed@.len() ==> {
                        &&& (#[trigger] reversed@[i])@ == rest[rest.len() - 1 - i].bearing(None)
                        &&& reversed@[i]@.wf()
                    },
            decreases reversed@.len(),
        {
            let ghost before = ordered@;
            match reversed.pop() {
                Some(thread) => {
                    ordered.push(thread);
                    assert(ordered@.take(head.len() as int) =~= before.take(head.len() as int));
                },
                None => {},
            }
        }
        proof {
            let wanted = SnapshotView::spec_new(given, module_views(modules@), fault).unwrap();
            assert(ordered@.len() == wanted.threads.len());
            assert forall|i: int| 0 <= i < ordered@.len() implies thread_views(ordered@)[i]
                == wanted.threads[i] by {
                if i < head.len() {
                    assert(ordered@[i] == ordered@.take(head.len() as int)[i]);
                }
            }
            assert(thread_views(ordered@) =~= wanted.threads);
            assert forall|i: int| 0 <= i < ordered@.len() implies (#[trigger] thread_views(
                ordered@,
            )[i]).wf() by {
                if i < head.len() {
                    assert(ordered@[i] == ordered@.take(head.len() as int)[i]);
                }
            }
        }
        Some(Snapshot { threads: ordered, modules })
    }

    /// The threads of the snapshot. Whatever the snapshot, each thread is
    /// well formed and none but the first carries an exception.
    pub fn threads(&self) -> (threads: &Vec<Thread>)
        ensures
            thread_views(threads@) == self@.threads,
            self@.wf(),
    {
        proof {
            use_type_invariant(self);
        }
        &self.threads
    }

    /// The modules of the snapshot.
    pub fn modules(&self) -> (modules: &Vec<Module>)
        ensures
            module_views(modules@) == self@.modules,
    {
        &self.modules
    }
}

} // verus!
