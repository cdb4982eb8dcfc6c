//! The module walker: what is read of one loaded image, and in which order.
//!
//! The walker reads the image's header, then its load commands one after the
//! other. The segment named `__TEXT` gives the slide and the range of the
//! image's text; the segment named `__LINKEDIT` gives the correction between
//! offsets in the file and addresses in memory; the symbol table is searched,
//! entry by entry, for the exit entry point. The walker reads nothing itself:
//! it names the address of the next read and is handed what was read there.

use vstd::prelude::*;
use crate::macho::{
    is_exit_name, spec_exit_name, CommandHeader, MachHeader, SegmentCommand, SegmentKind, Symbol,
    SymtabCommand, COMMAND_SIZE, HEADER_SIZE, LC_SEGMENT_64, LC_SYMTAB, SEGMENT_SIZE, SYMBOL_SIZE,
    SYMTAB_SIZE,
};
use crate::snapshot::{Module, ModuleView, Range};

verus! {

/// Why the walk of an image was given up.
#[derive(Clone, Copy, Debug, PartialEq, Eq, Structural)]
pub enum ImageError {
    /// Bytes of the target could not be read, or fewer than were asked for.
    Read,
    /// The image names an address that does not lie in the address space.
    Malformed,
}

/// What the caller is to do next.
#[derive(Clone, Copy, Debug, PartialEq, Eq, Structural)]
pub enum ImageStep {
    /// Read `length` bytes at `address` in the target.
    Read { address: u64, length: u32 },
    /// Read the bytes at `address` in the target up to the first zero byte,
    /// which is left out.
    ReadString { address: u64 },
    /// The image has been walked.
    Finished,
    /// The walk was given up.
    Failed(ImageError),
}

/// Where a walk stands: what it has asked to be read.
#[derive(Clone, Copy, Debug, PartialEq, Eq, Structural)]
pub enum ImagePhase {
    Header,
    Command,
    Segment,
    Symtab,
    Symbol,
    Name,
    Finished,
    Failed(ImageError),
}

/// The walk of one image.
#[derive(Clone, Copy, Debug, PartialEq, Eq, Structural)]
pub struct ImageWalker {
    /// Where the image's header lies in the target.
    pub load_address: u64,
    pub phase: ImagePhase,
    /// How many load commands are still to be read, the current one included.
    pub commands_left: u32,
    /// Where the current load command lies.
    pub command_at: u64,
    /// How many bytes the current load command takes.
    pub command_size: u32,
    /// By how much the image lies above the address it asks for.
    pub slide: u64,
    /// What is added to an offset in the file of the symbol and string
    /// tables to get the address that the image asks for.
    pub correction: u64,
    pub text_segment: Option<Range>,
    /// How many entries of the symbol table are still to be read, the
    /// current one included.
    pub symbols_left: u32,
    /// Where the current entry of the symbol table lies.
    pub symbol_at: u64,
    /// Where the names of the symbols lie.
    pub names_at: u64,
    /// The value of the symbol whose name is being read.
    pub symbol_value: u64,
    pub exit_address: Option<u64>,
}

/// The sum of two addresses, where it lies in the address space.
pub open spec fn spec_offset(base: u64, by: u64) -> Option<u64> {
    if base + by <= u64::MAX {
        Some((base + by) as u64)
    } else {
        None
    }
}

/// The difference of two addresses, where the first is not the smaller.
pub open spec fn spec_distance(from: u64, to: u64) -> Option<u64> {
    if to >= from {
        Some((to - from) as u64)
    } else {
        None
    }
}

/// The sum of two addresses, where it lies in the address space.
pub fn offset(base: u64, by: u64) -> (sum: Option<u64>)
    ensures
        sum == spec_offset(base, by),
{
    if by <= u64::MAX - base {
        Some(base + by)
    } else {
        None
    }
}

/// The difference of two addresses, where the first is not the smaller.
pub fn distance(from: u64, to: u64) -> (difference: Option<u64>)
    ensures
        difference == spec_distance(from, to),
{
    if to >= from {
        Some(to - from)
    } else {
        None
    }
}

/// The slide of an image loaded at `load_address` whose text asks to be
/// mapped at `vmaddr`.
pub open spec fn spec_slide(load_address: u64, vmaddr: u64) -> Option<u64> {
    spec_distance(vmaddr, load_address)
}

/// The range, in the target, of a segment that asks for `vmsize` bytes at
/// `vmaddr` in an image that has slid by `slide`.
pub open spec fn spec_slid_range(slide: u64, vmaddr: u64, vmsize: u64) -> Option<Range> {
    if slide + vmaddr + vmsize <= u64::MAX {
        Some(Range { start: (slide + vmaddr) as u64, end: (slide + vmaddr + vmsize) as u64 })
    } else {
        None
    }
}

/// The range, in the target, of a segment in an image that has slid.
pub fn slid_range(slide: u64, vmaddr: u64, vmsize: u64) -> (range: Option<Range>)
    ensures
        range == spec_slid_range(slide, vmaddr, vmsize),
{
    match offset(slide, vmaddr) {
        Some(start) => match offset(start, vmsize) {
            Some(end) => Some(Range { start, end }),
            None => None,
        },
        None => None,
    }
}

impl ImageWalker {
    /// What holds of every walk that `start` and `advance` produce: while a
    /// load command is read there is one left, while the symbol table is
    /// read there is an entry left, and the range of the text, once it is
    /// known, starts at the load address.
    pub open spec fn inv(&self) -> bool {
        &&& match self.phase {
            ImagePhase::Command | ImagePhase::Segment | ImagePhase::Symtab => self.commands_left
                >= 1,
            ImagePhase::Symbol | ImagePhase::Name => self.commands_left >= 1 && self.symbols_left
                >= 1,
            _ => true,
        }
        &&& self.text_segment matches Some(range) ==> range.start == self.load_address
            && range.start <= range.end
    }

    /// The walk after a run of answers, each given to the step before it.
    pub open spec fn spec_run(self, replies: Seq<Option<Seq<u8>>>) -> ImageWalker
        decreases replies.len(),
    {
        if replies.len() == 0 {
            self
        } else {
            self.spec_advance(replies[0]).0.spec_run(replies.drop_first())
        }
    }

    /// Whether the walk has ended.
    pub open spec fn ended(&self) -> bool {
        self.phase is Finished || self.phase is Failed
    }

    /// An upper bound on the reads that are still to come: for each load
    /// command its kind and size, the command itself, and two reads for each
    /// entry that a symbol table can have.
    pub open spec fn reads_left(&self) -> nat {
        match self.phase {
            ImagePhase::Header => 0x1_0000_0000 * 0x2_0000_0004,
            ImagePhase::Command => (self.commands_left * 0x2_0000_0004) as nat,
            ImagePhase::Segment | ImagePhase::Symtab => (self.commands_left * 0x2_0000_0004
                - 1) as nat,
            ImagePhase::Symbol => ((self.commands_left - 1) * 0x2_0000_0004 + 2
                * self.symbols_left + 2) as nat,
            ImagePhase::Name => ((self.commands_left - 1) * 0x2_0000_0004 + 2 * self.symbols_left
                + 1) as nat,
            ImagePhase::Finished | ImagePhase::Failed(_) => 0,
        }
    }

    /// The walk of the image whose header lies at `load_address`, and its
    /// first step: to read the header.
    pub open spec fn spec_start(load_address: u64) -> (ImageWalker, ImageStep) {
        (
            ImageWalker {
                load_address,
                phase: ImagePhase::Header,
                commands_left: 0,
                command_at: 0,
                command_size: 0,
                slide: 0,
                correction: 0,
                text_segment: None,
                symbols_left: 0,
                symbol_at: 0,
                names_at: 0,
                symbol_value: 0,
                exit_address: None,
            },
            ImageStep::Read { address: load_address, length: HEADER_SIZE },
        )
    }

    /// Gives the walk up.
    pub open spec fn spec_fail(self, error: ImageError) -> (ImageWalker, ImageStep) {
        (ImageWalker { phase: ImagePhase::Failed(error), ..self }, ImageStep::Failed(error))
    }

    /// Reads the current load command, or finishes where none is left.
    pub open spec fn spec_next_command(self) -> (ImageWalker, ImageStep) {
        if self.commands_left == 0 {
            (ImageWalker { phase: ImagePhase::Finished, ..self }, ImageStep::Finished)
        } else {
            (
                ImageWalker { phase: ImagePhase::Command, ..self },
                ImageStep::Read { address: self.command_at, length: COMMAND_SIZE },
            )
        }
    }

    /// Leaves the current load command for the one that follows it.
    pub open spec fn spec_after_command(self) -> (ImageWalker, ImageStep) {
        if self.commands_left <= 1 {
            (
                ImageWalker { phase: ImagePhase::Finished, commands_left: 0, ..self },
                ImageStep::Finished,
            )
        } else {
            match spec_offset(self.command_at, self.command_size as u64) {
                Some(next) => (ImageWalker {
                    commands_left: (self.commands_left - 1) as u32,
                    command_at: next,
                    ..self
                }).spec_next_command(),
                None => self.spec_fail(ImageError::Malformed),
            }
        }
    }

    /// Reads the current entry of the symbol table, or leaves the symbol
    /// table where no entry is left.
    pub open spec fn spec_next_symbol(self) -> (ImageWalker, ImageStep) {
        if self.symbols_left == 0 {
            self.spec_after_command()
        } else {
            (
                ImageWalker { phase: ImagePhase::Symbol, ..self },
                ImageStep::Read { address: self.symbol_at, length: SYMBOL_SIZE },
            )
        }
    }

    /// Leaves the current entry of the symbol table for the one that follows it.
    pub open spec fn spec_after_symbol(self) -> (ImageWalker, ImageStep) {
        if self.symbols_left <= 1 {
            (ImageWalker { symbols_left: 0, ..self }).spec_after_command()
        } else {
            match spec_offset(self.symbol_at, SYMBOL_SIZE as u64) {
                Some(next) => (ImageWalker {
                    symbols_left: (self.symbols_left - 1) as u32,
                    symbol_at: next,
                    ..self
                }).spec_next_symbol(),
                None => self.spec_fail(ImageError::Malformed),
            }
        }
    }

    /// Takes in the header: the load commands follow it.
    pub open spec fn spec_on_header(self, header: MachHeader) -> (ImageWalker, ImageStep) {
        match spec_offset(self.load_address, HEADER_SIZE as u64) {
            Some(first) => (ImageWalker {
                commands_left: header.ncmds,
                command_at: first,
                ..self
            }).spec_next_command(),
            None => self.spec_fail(ImageError::Malformed),
        }
    }

    /// Takes in the kind and size of the current load command: a segment and
    /// the symbol table are read in full, anything else is passed over.
    pub open spec fn spec_on_command(self, header: CommandHeader) -> (ImageWalker, ImageStep) {
        let sized = ImageWalker { command_size: header.cmdsize, ..self };
        if header.cmd == LC_SEGMENT_64 {
            (
                ImageWalker { phase: ImagePhase::Segment, ..sized },
                ImageStep::Read { address: self.command_at, length: SEGMENT_SIZE },
            )
        } else if header.cmd == LC_SYMTAB {
            (
                ImageWalker { phase: ImagePhase::Symtab, ..sized },
                ImageStep::Read { address: self.command_at, length: SYMTAB_SIZE },
            )
        } else {
            sized.spec_after_command()
        }
    }

    /// Takes in a segment. The text segment gives the slide, which is the
    /// load address less the address the segment asks for, and the range of
    /// the text, which is the segment's range moved by the slide. The
    /// link-edit segment gives the correction, which is the address it asks
    /// for less its offset in the file.
    pub open spec fn spec_on_segment(self, segment: SegmentCommand) -> (ImageWalker, ImageStep) {
        match segment.kind {
            SegmentKind::Text => match spec_slide(self.load_address, segment.vmaddr) {
                Some(slide) => match spec_slid_range(slide, segment.vmaddr, segment.vmsize) {
                    Some(range) => (ImageWalker {
                        slide,
                        text_segment: Some(range),
                        ..self
                    }).spec_after_command(),
                    None => self.spec_fail(ImageError::Malformed),
                },
                None => self.spec_fail(ImageError::Malformed),
            },
            SegmentKind::Linkedit => match spec_distance(segment.fileoff, segment.vmaddr) {
                Some(correction) => (ImageWalker { correction, ..self }).spec_after_command(),
                None => self.spec_fail(ImageError::Malformed),
            },
            SegmentKind::Other => self.spec_after_command(),
        }
    }

    /// Takes in the symbol table's command: the entries and the names lie at
    /// their offsets in the file, moved by the correction and the slide.
    pub open spec fn spec_on_symtab(self, symtab: SymtabCommand) -> (ImageWalker, ImageStep) {
        match spec_offset(self.correction, self.slide) {
            Some(moved) => match (
                spec_offset(symtab.symoff as u64, moved),
                spec_offset(symtab.stroff as u64, moved),
            ) {
                (Some(symbol_at), Some(names_at)) => (ImageWalker {
                    symbols_left: symtab.nsyms,
                    symbol_at,
                    names_at,
                    ..self
                }).spec_next_symbol(),
                _ => self.spec_fail(ImageError::Malformed),
            },
            None => self.spec_fail(ImageError::Malformed),
        }
    }

    /// Takes in an entry of the symbol table: the name of a symbol defined
    /// in a section is read, any other entry is passed over.
    pub open spec fn spec_on_symbol(self, symbol: Symbol) -> (ImageWalker, ImageStep) {
        if symbol.spec_is_defined() {
            match spec_offset(self.names_at, symbol.n_strx as u64) {
                Some(address) => (
                    ImageWalker {
                        phase: ImagePhase::Name,
                        symbol_value: symbol.n_value,
                        ..self
                    },
                    ImageStep::ReadString { address },
                ),
                None => self.spec_fail(ImageError::Malformed),
            }
        } else {
            self.spec_after_symbol()
        }
    }

    /// Takes in the name of the current symbol: the exit entry point lies at
    /// the symbol's value moved by the slide.
    pub open spec fn spec_on_name(self, name: Seq<u8>) -> (ImageWalker, ImageStep) {
        if name == spec_exit_name() {
            match spec_offset(self.symbol_value, self.slide) {
                Some(address) => (ImageWalker {
                    exit_address: Some(address),
                    ..self
                }).spec_after_symbol(),
                None => self.spec_fail(ImageError::Malformed),
            }
        } else {
            self.spec_after_symbol()
        }
    }

    /// The walk after the bytes asked for were read, or could not be read,
    /// and the step it asks for next.
    pub open spec fn spec_advance(self, reply: Option<Seq<u8>>) -> (ImageWalker, ImageStep) {
        match self.phase {
            ImagePhase::Finished => (self, ImageStep::Finished),
            ImagePhase::Failed(error) => (self, ImageStep::Failed(error)),
            _ => match reply {
                None => self.spec_fail(ImageError::Read),
                Some(bytes) => match self.phase {
                    ImagePhase::Header => match MachHeader::spec_parse(bytes) {
                        Some(header) => self.spec_on_header(header),
                        None => self.spec_fail(ImageError::Read),
                    },
                    ImagePhase::Command => match CommandHeader::spec_parse(bytes) {
                        Some(header) => self.spec_on_command(header),
                        None => self.spec_fail(ImageError::Read),
                    },
                    ImagePhase::Segment => match SegmentCommand::spec_parse(bytes) {
                        Some(segment) => self.spec_on_segment(segment),
                        None => self.spec_fail(ImageError::Read),
                    },
                    ImagePhase::Symtab => match SymtabCommand::spec_parse(bytes) {
                        Some(symtab) => self.spec_on_symtab(symtab),
                        None => self.spec_fail(ImageError::Read),
                    },
                    ImagePhase::Symbol => match Symbol::spec_parse(bytes) {
                        Some(symbol) => self.spec_on_symbol(symbol),
                        None => self.spec_fail(ImageError::Read),
                    },
                    _ => self.spec_on_name(bytes),
                },
            },
        }
    }

    /// The module that the walk found, once it has finished.
    pub open spec fn spec_module(self, path: Seq<char>) -> Option<ModuleView> {
        if self.phase is Finished {
            Some(
                ModuleView {
                    path,
                    load_address: self.load_address,
                    text_segment: self.text_segment,
                    exit_address: self.exit_address,
                },
            )
        } else {
            None
        }
    }
}

/// The bytes of a reply as a plain value.
pub open spec fn spec_reply(reply: Option<&[u8]>) -> Option<Seq<u8>> {
    match reply {
        Some(bytes) => Some(bytes@),
        None => None,
    }
}

impl ImageWalker {
    /// Begins the walk of the image whose header lies at `load_address`.
    pub fn start(load_address: u64) -> (begun: (ImageWalker, ImageStep))
        ensures
            begun == Self::spec_start(load_address),
            begun.0.inv(),
    {
        (
            ImageWalker {
                load_address,
                phase: ImagePhase::Header,
                commands_left: 0,
                command_at: 0,
                command_size: 0,
                slide: 0,
                correction: 0,
                text_segment: None,
                symbols_left: 0,
                symbol_at: 0,
                names_at: 0,
                symbol_value: 0,
                exit_address: None,
            },
            ImageStep::Read { address: load_address, length: HEADER_SIZE },
        )
    }

    fn fail(&mut self, error: ImageError) -> (step: ImageStep)
        ensures
            (*final(self), step) == old(self).spec_fail(error),
    {
        self.phase = ImagePhase::Failed(error);
        ImageStep::Failed(error)
    }

    fn next_command(&mut self) -> (step: ImageStep)
        ensures
            (*final(self), step) == old(self).spec_next_command(),
    {
        if self.commands_left == 0 {
            self.phase = ImagePhase::Finished;
            ImageStep::Finished
        } else {
            self.phase = ImagePhase::Command;
            ImageStep::Read { address: self.command_at, length: COMMAND_SIZE }
        }
    }

    fn after_command(&mut self) -> (step: ImageStep)
        ensures
            (*final(self), step) == old(self).spec_after_command(),
    {
        if self.commands_left <= 1 {
            self.phase = ImagePhase::Finished;
            self.commands_left = 0;
            ImageStep::Finished
        } else {
            match offset(self.command_at, self.command_size as u64) {
                Some(next) => {
                    self.commands_left = self.commands_left - 1;
                    self.command_at = next;
                    self.next_command()
                },
                None => self.fail(ImageError::Malformed),
            }
        }
    }

    fn next_symbol(&mut self) -> (step: ImageStep)
        ensures
            (*final(self), step) == old(self).spec_next_symbol(),
    {
        if self.symbols_left == 0 {
            self.after_command()
        } else {
            self.phase = ImagePhase::Symbol;
            ImageStep::Read { address: self.symbol_at, length: SYMBOL_SIZE }
        }
    }

    fn after_symbol(&mut self) -> (step: ImageStep)
        ensures
            (*final(self), step) == old(self).spec_after_symbol(),
    {
        if self.symbols_left <= 1 {
            self.symbols_left = 0;
            self.after_command()
        } else {
            match offset(self.symbol_at, SYMBOL_SIZE as u64) {
                Some(next) => {
                    self.symbols_left = self.symbols_left - 1;
                    self.symbol_at = next;
                    self.next_symbol()
                },
                None => self.fail(ImageError::Malformed),
            }
        }
    }

    fn on_header(&mut self, header: MachHeader) -> (step: ImageStep)
        ensures
            (*final(self), step) == old(self).spec_on_header(header),
    {
        match offset(self.load_address, HEADER_SIZE as u64) {
            Some(first) => {
                self.commands_left = header.ncmds;
                self.command_at = first;
                self.next_command()
            },
            None => self.fail(ImageError::Malformed),
        }
    }

    fn on_command(&mut self, header: CommandHeader) -> (step: ImageStep)
        ensures
            (*final(self), step) == old(self).spec_on_command(header),
    {
        self.command_size = header.cmdsize;
        if header.cmd == LC_SEGMENT_64 {
            self.phase = ImagePhase::Segment;
            ImageStep::Read { address: self.command_at, length: SEGMENT_SIZE }
        } else if header.cmd == LC_SYMTAB {
            self.phase = ImagePhase::Symtab;
            ImageStep::Read { address: self.command_at, length: SYMTAB_SIZE }
        } else {
            self.after_command()
        }
    }

    fn on_segment(&mut self, segment: SegmentCommand) -> (step: ImageStep)
        ensures
            (*final(self), step) == old(self).spec_on_segment(segment),
    {
        match segment.kind {
            SegmentKind::Text => match distance(segment.vmaddr, self.load_address) {
                Some(slide) => match slid_range(slide, segment.vmaddr, segment.vmsize) {
                    Some(range) => {
                        self.slide = slide;
                        self.text_segment = Some(range);
                        self.after_command()
                    },
                    None => self.fail(ImageError::Malformed),
                },
                None => self.fail(ImageError::Malformed),
            },
            SegmentKind::Linkedit => match distance(segment.fileoff, segment.vmaddr) {
                Some(correction) => {
                    self.correction = correction;
                    self.after_command()
                },
                None => self.fail(ImageError::Malformed),
            },
            SegmentKind::Other => self.after_command(),
        }
    }

    fn on_symtab(&mut self, symtab: SymtabCommand) -> (step: ImageStep)
        ensures
            (*final(self), step) == old(self).spec_on_symtab(symtab),
    {
        match offset(self.correction, self.slide) {
            Some(moved) => match (
                offset(symtab.symoff as u64, moved),
                offset(symtab.stroff as u64, moved),
            ) {
                (Some(symbol_at), Some(names_at)) => {
                    self.symbols_left = symtab.nsyms;
                    self.symbol_at = symbol_at;
                    self.names_at = names_at;
                    self.next_symbol()
                },
                _ => self.fail(ImageError::Malformed),
            },
            None => self.fail(ImageError::Malformed),
        }
    }

    fn on_symbol(&mut self, symbol: Symbol) -> (step: ImageStep)
        ensures
            (*final(self), step) == old(self).spec_on_symbol(symbol),
    {
        if symbol.is_defined() {
            match offset(self.names_at, symbol.n_strx as u64) {
                Some(address) => {
                    self.phase = ImagePhase::Name;
                    self.symbol_value = symbol.n_value;
                    ImageStep::ReadString { address }
                },
                None => self.fail(ImageError::Malformed),
            }
        } else {
            self.after_symbol()
        }
    }

    fn on_name(&mut self, name: &[u8]) -> (step: ImageStep)
        ensures
            (*final(self), step) == old(self).spec_on_name(name@),
    {
        if is_exit_name(name) {
            match offset(self.symbol_value, self.slide) {
                Some(address) => {
                    self.exit_address = Some(address);
                    self.after_symbol()
                },
                None => self.fail(ImageError::Malformed),
            }
        } else {
            self.after_symbol()
        }
    }

    /// Takes the bytes read at the address asked for, or `None` where the
    /// read failed, and names the next step.
    ///
    /// The walk and the step are exactly those of `spec_advance`, and each
    /// answer leaves fewer reads to come.
    pub fn advance(&mut self, reply: Option<&[u8]>) -> (step: ImageStep)
        ensures
            (*final(self), step) == old(self).spec_advance(spec_reply(reply)),
            old(self).inv() ==> final(self).inv(),
            old(self).inv() && !old(self).ended() ==> final(self).reads_left() < old(
                self,
            ).reads_left(),
    {
        proof {
            if self.inv() {
                lemma_advance(*self, spec_reply(reply));
            }
        }
        match self.phase {
            ImagePhase::Finished => ImageStep::Finished,
            ImagePhase::Failed(error) => ImageStep::Failed(error),
            _ => match reply {
                None => self.fail(ImageError::Read),
                Some(bytes) => match self.phase {
                    ImagePhase::Header => match MachHeader::parse(bytes) {
                        Some(header) => self.on_header(header),
                        None => self.fail(ImageError::Read),
                    },
                    ImagePhase::Command => match CommandHeader::parse(bytes) {
                        Some(header) => self.on_command(header),
                        None => self.fail(ImageError::Read),
                    },
                    ImagePhase::Segment => match SegmentCommand::parse(bytes) {
                        Some(segment) => self.on_segment(segment),
                        None => self.fail(ImageError::Read),
                    },
                    ImagePhase::Symtab => match SymtabCommand::parse(bytes) {
                        Some(symtab) => self.on_symtab(symtab),
                        None => self.fail(ImageError::Read),
                    },
                    ImagePhase::Symbol => match Symbol::parse(bytes) {
                        Some(symbol) => self.on_symbol(symbol),
                        None => self.fail(ImageError::Read),
                    },
                    _ => self.on_name(bytes),
                },
            },
        }
    }

    /// The module that the walk found, under the path `path`: its load
    /// address, the range of its text, and its exit entry point. There is
    /// none until the walk has finished.
    pub fn module(&self, path: String) -> (module: Option<Module>)
        ensures
            match module {
                Some(module) => self.spec_module(path@) == Some(module@),
                None => self.spec_module(path@) is None,
            },
    {
        match self.phase {
            ImagePhase::Finished => Some(
                Module {
                    path,
                    load_address: self.load_address,
                    text_segment: self.text_segment,
                    exit_address: self.exit_address,
                },
            ),
            _ => None,
        }
    }
}

/// A step keeps what holds of every walk, and leaves fewer reads to come.
pub proof fn lemma_advance(walk: ImageWalker, reply: Option<Seq<u8>>)
    requires
        walk.inv(),
    ensures
        walk.spec_advance(reply).0.inv(),
        !walk.ended() ==> walk.spec_advance(reply).0.reads_left() < walk.reads_left(),
{
    if walk.commands_left >= 1 {
        lemma_after_command(walk);
        if walk.symbols_left >= 1 {
            lemma_after_symbol(walk);
        }
    }
    match reply {
        Some(bytes) => {
            match walk.phase {
                ImagePhase::Header => {
                    if let Some(header) = MachHeader::spec_parse(bytes) {
                    }
                },
                ImagePhase::Command => {
                    if let Some(header) = CommandHeader::spec_parse(bytes) {
                        lemma_after_command(ImageWalker { command_size: header.cmdsize, ..walk });
                    }
                },
                ImagePhase::Segment => {
                    if let Some(segment) = SegmentCommand::spec_parse(bytes) {
                        if let Some(slide) = spec_slide(walk.load_address, segment.vmaddr) {
                            if let Some(range) = spec_slid_range(
                                slide,
                                segment.vmaddr,
                                segment.vmsize,
                            ) {
                                lemma_after_command(
                                    ImageWalker { slide, text_segment: Some(range), ..walk },
                                );
                            }
                        }
                        if let Some(correction) = spec_distance(segment.fileoff, segment.vmaddr) {
                            lemma_after_command(ImageWalker { correction, ..walk });
                        }
                    }
                },
                ImagePhase::Symtab => {
                    if let Some(symtab) = SymtabCommand::spec_parse(bytes) {
                        if let Some(moved) = spec_offset(walk.correction, walk.slide) {
                            if let (Some(symbol_at), Some(names_at)) = (
                                spec_offset(symtab.symoff as u64, moved),
                                spec_offset(symtab.stroff as u64, moved),
                            ) {
                                let entered = ImageWalker {
                                    symbols_left: symtab.nsyms,
                                    symbol_at,
                                    names_at,
                                    ..walk
                                };
                                lemma_after_command(entered);
                            }
                        }
                    }
                },
                ImagePhase::Symbol => {},
                ImagePhase::Name => {
                    if let Some(address) = spec_offset(walk.symbol_value, walk.slide) {
                        lemma_after_symbol(ImageWalker { exit_address: Some(address), ..walk });
                    }
                },
                _ => {},
            }
        },
        None => {},
    }
}

proof fn lemma_after_command(walk: ImageWalker)
    requires
        walk.commands_left >= 1,
        walk.text_segment matches Some(range) ==> range.start == walk.load_address && range.start
            <= range.end,
    ensures
        ({
            let next = walk.spec_after_command().0;
            &&& next.inv()
            &&& next.reads_left() <= (walk.commands_left - 1) * 0x2_0000_0004
        }),
{
}

proof fn lemma_after_symbol(walk: ImageWalker)
    requires
        walk.commands_left >= 1,
        walk.symbols_left >= 1,
        walk.text_segment matches Some(range) ==> range.start == walk.load_address && range.start
            <= range.end,
    ensures
        ({
            let next = walk.spec_after_symbol().0;
            &&& next.inv()
            &&& next.reads_left() <= (walk.commands_left - 1) * 0x2_0000_0004 + 2
                * walk.symbols_left
        }),
{
    lemma_after_command(ImageWalker { symbols_left: 0, ..walk });
}

/// In every image the range of the text starts at the load address:
/// whatever is read of the image, the walk never holds a range of the text
/// that starts anywhere else, and neither does the module it yields.
pub proof fn lemma_text_starts_at_load_address(
    load_address: u64,
    replies: Seq<Option<Seq<u8>>>,
    path: Seq<char>,
)
    ensures
        ({
            let walk = ImageWalker::spec_start(load_address).0.spec_run(replies);
            &&& walk.load_address == load_address
            &&& walk.text_segment matches Some(range) ==> range.start == load_address
            &&& walk.spec_module(path) matches Some(module) ==> module.load_address
                == load_address && (module.text_segment matches Some(range) ==> range.start
                == load_address)
        }),
{
    lemma_run_keeps_inv(ImageWalker::spec_start(load_address).0, replies);
}

/// A run of answers keeps what holds of every walk, and the load address.
pub proof fn lemma_run_keeps_inv(walk: ImageWalker, replies: Seq<Option<Seq<u8>>>)
    requires
        walk.inv(),
    ensures
        walk.spec_run(replies).inv(),
        walk.spec_run(replies).load_address == walk.load_address,
    decreases replies.len(),
{
    if replies.len() > 0 {
        lemma_advance(walk, replies[0]);
        lemma_advance_keeps_load_address(walk, replies[0]);
        lemma_run_keeps_inv(walk.spec_advance(replies[0]).0, replies.drop_first());
    }
}

proof fn lemma_advance_keeps_load_address(walk: ImageWalker, reply: Option<Seq<u8>>)
    ensures
        walk.spec_advance(reply).0.load_address == walk.load_address,
{
    assert forall|any: ImageWalker| #[trigger]
        any.spec_after_command().0.load_address == any.load_address by {
        lemma_after_command_keeps(any);
    }
    assert forall|any: ImageWalker| #[trigger]
        any.spec_after_symbol().0.load_address == any.load_address by {
        lemma_after_symbol_keeps(any);
    }
}

/// Every walk of an image ends, whatever the image holds: once as many
/// answers have been given as the walk had reads left, it has ended.
pub proof fn lemma_walk_ends(walk: ImageWalker, replies: Seq<Option<Seq<u8>>>)
    requires
        walk.inv(),
        replies.len() >= walk.reads_left(),
    ensures
        walk.spec_run(replies).ended(),
    decreases replies.len(),
{
    if replies.len() > 0 {
        lemma_advance(walk, replies[0]);
        lemma_walk_ends(walk.spec_advance(replies[0]).0, replies.drop_first());
    }
}

/// Taking in the text segment sets the slide to what lies between the
/// address the text asks for and the load address, and the range of the text
/// to the segment's range moved by the slide: it starts at the load address
/// and is as long as the segment.
pub proof fn lemma_text_range(walk: ImageWalker, text: SegmentCommand)
    requires
        text.kind == SegmentKind::Text,
        !(walk.spec_on_segment(text).0.phase is Failed),
    ensures
        ({
            let taken = walk.spec_on_segment(text).0;
            &&& taken.slide == walk.load_address - text.vmaddr
            &&& taken.text_segment == Some(
                Range {
                    start: (taken.slide + text.vmaddr) as u64,
                    end: (taken.slide + text.vmaddr + text.vmsize) as u64,
                },
            )
            &&& taken.text_segment.unwrap().start == walk.load_address
            &&& taken.text_segment.unwrap().end == walk.load_address + text.vmsize
        }),
{
    lemma_after_command_keeps(walk);
    if let Some(slide) = spec_slide(walk.load_address, text.vmaddr) {
        if let Some(range) = spec_slid_range(slide, text.vmaddr, text.vmsize) {
            lemma_after_command_keeps(ImageWalker { slide, text_segment: Some(range), ..walk });
        }
    }
}

/// Taking in the name of the exit entry point sets the exit address to the
/// symbol's value moved by the same slide as the text.
pub proof fn lemma_exit_address(walk: ImageWalker)
    requires
        !(walk.spec_on_name(spec_exit_name()).0.phase is Failed),
    ensures
        ({
            let taken = walk.spec_on_name(spec_exit_name()).0;
            &&& taken.exit_address == Some((walk.symbol_value + walk.slide) as u64)
            &&& taken.slide == walk.slide
            &&& taken.text_segment == walk.text_segment
        }),
{
    lemma_after_symbol_keeps(walk);
    if let Some(address) = spec_offset(walk.symbol_value, walk.slide) {
        lemma_after_symbol_keeps(ImageWalker { exit_address: Some(address), ..walk });
    }
}

/// The text starts at the load address moved by what lies between the
/// address the text asks for and the address the image's first segment asks
/// for, in every image whose first segment asks for the address of its text.
pub proof fn lemma_text_start(walk: ImageWalker, text: SegmentCommand, first: SegmentCommand)
    requires
        text.kind == SegmentKind::Text,
        !(walk.spec_on_segment(text).0.phase is Failed),
        first.vmaddr == text.vmaddr,
    ensures
        walk.spec_on_segment(text).0.text_segment is Some,
        walk.spec_on_segment(text).0.text_segment.unwrap().start == walk.load_address + (
        text.vmaddr - first.vmaddr),
{
    lemma_text_range(walk, text);
}

proof fn lemma_after_command_keeps(walk: ImageWalker)
    ensures
        ({
            let next = walk.spec_after_command().0;
            &&& next.slide == walk.slide
            &&& next.text_segment == walk.text_segment
            &&& next.exit_address == walk.exit_address
            &&& next.load_address == walk.load_address
        }),
{
}

proof fn lemma_after_symbol_keeps(walk: ImageWalker)
    ensures
        ({
            let next = walk.spec_after_symbol().0;
            &&& next.slide == walk.slide
            &&& next.text_segment == walk.text_segment
            &&& next.exit_address == walk.exit_address
            &&& next.load_address == walk.load_address
        }),
{
    lemma_after_command_keeps(ImageWalker { symbols_left: 0, ..walk });
}

} // verus!
