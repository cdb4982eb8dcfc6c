//! The parts of the Mach-O image format that the module walker reads: the
//! header, the load commands for segments and for the symbol table, and the
//! entries of the symbol table, each as it lies in the target's memory.

use vstd::prelude::*;
use vstd::slice::slice_subrange;
use crate::bytes::{le_u16, le_u32, le_u64, spec_le_u16, spec_le_u32, spec_le_u64};
use crate::snapshot::Range;

verus! {

/// Bytes in the header of a 64-bit image.
pub const HEADER_SIZE: u32 = 32;

/// Bytes that every load command begins with: its kind and its size.
pub const COMMAND_SIZE: u32 = 8;

/// Bytes in the load command of a 64-bit segment, its sections apart.
pub const SEGMENT_SIZE: u32 = 72;

/// Bytes in the load command of the symbol table.
pub const SYMTAB_SIZE: u32 = 24;

/// Bytes in one entry of the symbol table of a 64-bit image.
pub const SYMBOL_SIZE: u32 = 16;

/// The kind of load command that describes the symbol table.
pub const LC_SYMTAB: u32 = 0x2;

/// The kind of load command that describes a 64-bit segment.
pub const LC_SEGMENT_64: u32 = 0x19;

/// Bits of a symbol's type that mark a debugging entry.
pub const N_STAB: u8 = 0xe0;

/// Bit of a symbol's type that marks a private external symbol.
pub const N_PEXT: u8 = 0x10;

/// Value of a symbol's type bits for a symbol defined in a section.
pub const N_SECT: u8 = 0x0e;

/// The header of a 64-bit image.
#[derive(Clone, Copy, Debug, PartialEq, Eq, Structural)]
pub struct MachHeader {
    pub magic: u32,
    pub cputype: u32,
    pub cpusubtype: u32,
    pub filetype: u32,
    /// How many load commands follow the header.
    pub ncmds: u32,
    /// How many bytes the load commands take.
    pub sizeofcmds: u32,
    pub flags: u32,
}

/// What every load command begins with.
#[derive(Clone, Copy, Debug, PartialEq, Eq, Structural)]
pub struct CommandHeader {
    /// The kind of load command.
    pub cmd: u32,
    /// How many bytes the command takes; the next command follows them.
    pub cmdsize: u32,
}

/// What a segment is, by its name.
#[derive(Clone, Copy, Debug, PartialEq, Eq, Structural)]
pub enum SegmentKind {
    /// The segment named `__TEXT`, which holds the image's code.
    Text,
    /// The segment named `__LINKEDIT`, which holds the symbol and string tables.
    Linkedit,
    /// Any other segment.
    Other,
}

/// The load command of a 64-bit segment.
#[derive(Clone, Copy, Debug, PartialEq, Eq, Structural)]
pub struct SegmentCommand {
    pub kind: SegmentKind,
    /// Where the segment asks to be mapped.
    pub vmaddr: u64,
    pub vmsize: u64,
    /// Where the segment lies in the file.
    pub fileoff: u64,
}

/// The load command of the symbol table.
#[derive(Clone, Copy, Debug, PartialEq, Eq, Structural)]
pub struct SymtabCommand {
    /// Where the entries lie in the file.
    pub symoff: u32,
    /// How many entries there are.
    pub nsyms: u32,
    /// Where the names lie in the file.
    pub stroff: u32,
    pub strsize: u32,
}

/// One entry of the symbol table.
#[derive(Clone, Copy, Debug, PartialEq, Eq, Structural)]
pub struct Symbol {
    /// Where the symbol's name begins among the names.
    pub n_strx: u32,
    pub n_type: u8,
    pub n_sect: u8,
    pub n_desc: u16,
    pub n_value: u64,
}

impl MachHeader {
    /// The header that `bytes` begin with, if they are enough for one.
    pub open spec fn spec_parse(bytes: Seq<u8>) -> Option<MachHeader> {
        if bytes.len() < HEADER_SIZE {
            None
        } else {
            Some(
                MachHeader {
                    magic: spec_le_u32(bytes, 0),
                    cputype: spec_le_u32(bytes, 4),
                    cpusubtype: spec_le_u32(bytes, 8),
                    filetype: spec_le_u32(bytes, 12),
                    ncmds: spec_le_u32(bytes, 16),
                    sizeofcmds: spec_le_u32(bytes, 20),
                    flags: spec_le_u32(bytes, 24),
                },
            )
        }
    }

    /// Reads the header that `bytes` begin with.
    pub fn parse(bytes: &[u8]) -> (header: Option<MachHeader>)
        ensures
            header == Self::spec_parse(bytes@),
    {
        if bytes.len() < HEADER_SIZE as usize {
            None
        } else {
            Some(
                MachHeader {
                    magic: le_u32(bytes, 0),
                    cputype: le_u32(bytes, 4),
                    cpusubtype: le_u32(bytes, 8),
                    filetype: le_u32(bytes, 12),
                    ncmds: le_u32(bytes, 16),
                    sizeofcmds: le_u32(bytes, 20),
                    flags: le_u32(bytes, 24),
                },
            )
        }
    }
}

impl CommandHeader {
    /// The kind and size that `bytes` begin with, if they are enough for them.
    pub open spec fn spec_parse(bytes: Seq<u8>) -> Option<CommandHeader> {
        if bytes.len() < COMMAND_SIZE {
            None
        } else {
            Some(CommandHeader { cmd: spec_le_u32(bytes, 0), cmdsize: spec_le_u32(bytes, 4) })
        }
    }

    /// Reads the kind and size that `bytes` begin with.
    pub fn parse(bytes: &[u8]) -> (header: Option<CommandHeader>)
        ensures
            header == Self::spec_parse(bytes@),
    {
        if bytes.len() < COMMAND_SIZE as usize {
            None
        } else {
            Some(CommandHeader { cmd: le_u32(bytes, 0), cmdsize: le_u32(bytes, 4) })
        }
    }
}

/// Whether the zero-padded `field` holds exactly the name `name`: the bytes
/// of the name, and a zero byte after them.
pub open spec fn spec_names(field: Seq<u8>, name: Seq<u8>) -> bool {
    &&& name.len() < field.len()
    &&& field.take(name.len() as int) == name
    &&& field[name.len() as int] == 0
}

/// The name of the segment that holds an image's code.
pub open spec fn spec_text_name() -> Seq<u8> {
    seq![0x5f, 0x5f, 0x54, 0x45, 0x58, 0x54]
}

/// The name of the segment that holds an image's symbol and string tables.
pub open spec fn spec_linkedit_name() -> Seq<u8> {
    seq![0x5f, 0x5f, 0x4c, 0x49, 0x4e, 0x4b, 0x45, 0x44, 0x49, 0x54]
}

/// The name of the symbol at which a process enters its exit.
pub open spec fn spec_exit_name() -> Seq<u8> {
    seq![0x5f, 0x5f, 0x65, 0x78, 0x69, 0x74]
}

/// Whether two runs of bytes are the same.
pub fn same_bytes(left: &[u8], right: &[u8]) -> (same: bool)
    ensures
        same == (left@ == right@),
{
    if left.len() != right.len() {
        return false;
    }
    let mut i: usize = 0;
    while i < left.len()
        invariant
            0 <= i <= left@.len(),
            left@.len() == right@.len(),
            forall|j: int| 0 <= j < i ==> left@[j] == right@[j],
        decreases left@.len() - i,
    {
        if left[i] != right[i] {
            return false;
        }
        i += 1;
    }
    assert(left@ =~= right@);
    true
}

/// Whether the zero-padded `field` holds exactly the name `name`.
pub fn names(field: &[u8], name: &[u8]) -> (named: bool)
    ensures
        named == spec_names(field@, name@),
{
    if name.len() >= field.len() {
        return false;
    }
    let mut i: usize = 0;
    while i < name.len()
        invariant
            0 <= i <= name@.len() < field@.len(),
            forall|j: int| 0 <= j < i ==> field@[j] == name@[j],
        decreases name@.len() - i,
    {
        if field[i] != name[i] {
            assert(field@.take(name@.len() as int)[i as int] != name@[i as int]);
            return false;
        }
        i += 1;
    }
    assert(field@.take(name@.len() as int) =~= name@);
    field[name.len()] == 0
}

/// What the segment with the zero-padded name `field` is.
pub open spec fn spec_segment_kind(field: Seq<u8>) -> SegmentKind {
    if spec_names(field, spec_text_name()) {
        SegmentKind::Text
    } else if spec_names(field, spec_linkedit_name()) {
        SegmentKind::Linkedit
    } else {
        SegmentKind::Other
    }
}

/// What the segment with the zero-padded name `field` is.
pub fn segment_kind(field: &[u8]) -> (kind: SegmentKind)
    ensures
        kind == spec_segment_kind(field@),
{
    let text: [u8; 6] = [0x5f, 0x5f, 0x54, 0x45, 0x58, 0x54];
    let linkedit: [u8; 10] = [0x5f, 0x5f, 0x4c, 0x49, 0x4e, 0x4b, 0x45, 0x44, 0x49, 0x54];
    assert(text@ =~= spec_text_name());
    assert(linkedit@ =~= spec_linkedit_name());
    if names(field, text.as_slice()) {
        SegmentKind::Text
    } else if names(field, linkedit.as_slice()) {
        SegmentKind::Linkedit
    } else {
        SegmentKind::Other
    }
}

/// Whether a symbol's name is that of the exit entry point.
pub fn is_exit_name(name: &[u8]) -> (exit: bool)
    ensures
        exit == (name@ == spec_exit_name()),
{
    let wanted: [u8; 6] = [0x5f, 0x5f, 0x65, 0x78, 0x69, 0x74];
    assert(wanted@ =~= spec_exit_name());
    same_bytes(name, wanted.as_slice())
}

impl SegmentCommand {
    /// The segment command that `bytes` begin with, if they are enough for
    /// one: the name stands in the sixteen bytes after the kind and size.
    pub open spec fn spec_parse(bytes: Seq<u8>) -> Option<SegmentCommand> {
        if bytes.len() < SEGMENT_SIZE {
            None
        } else {
            Some(
                SegmentCommand {
                    kind: spec_segment_kind(bytes.subrange(8, 24)),
                    vmaddr: spec_le_u64(bytes, 24),
                    vmsize: spec_le_u64(bytes, 32),
                    fileoff: spec_le_u64(bytes, 40),
                },
            )
        }
    }

    /// Reads the segment command that `bytes` begin with.
    pub fn parse(bytes: &[u8]) -> (segment: Option<SegmentCommand>)
        ensures
            segment == Self::spec_parse(bytes@),
    {
        if bytes.len() < SEGMENT_SIZE as usize {
            None
        } else {
            let field = slice_subrange(bytes, 8, 24);
            Some(
                SegmentCommand {
                    kind: segment_kind(field),
                    vmaddr: le_u64(bytes, 24),
                    vmsize: le_u64(bytes, 32),
                    fileoff: le_u64(bytes, 40),
                },
            )
        }
    }
}

impl SymtabCommand {
    /// The symbol-table command that `bytes` begin with, if they are enough
    /// for one.
    pub open spec fn spec_parse(bytes: Seq<u8>) -> Option<SymtabCommand> {
        if bytes.len() < SYMTAB_SIZE {
            None
        } else {
            Some(
                SymtabCommand {
                    symoff: spec_le_u32(bytes, 8),
                    nsyms: spec_le_u32(bytes, 12),
                    stroff: spec_le_u32(bytes, 16),
                    strsize: spec_le_u32(bytes, 20),
                },
            )
        }
    }

    /// Reads the symbol-table command that `bytes` begin with.
    pub fn parse(bytes: &[u8]) -> (symtab: Option<SymtabCommand>)
        ensures
            symtab == Self::spec_parse(bytes@),
    {
        if bytes.len() < SYMTAB_SIZE as usize {
            None
        } else {
            Some(
                SymtabCommand {
                    symoff: le_u32(bytes, 8),
                    nsyms: le_u32(bytes, 12),
                    stroff: le_u32(bytes, 16),
                    strsize: le_u32(bytes, 20),
                },
            )
        }
    }
}

impl Symbol {
    /// The entry that `bytes` begin with, if they are enough for one.
    pub open spec fn spec_parse(bytes: Seq<u8>) -> Option<Symbol> {
        if bytes.len() < SYMBOL_SIZE {
            None
        } else {
            Some(
                Symbol {
                    n_strx: spec_le_u32(bytes, 0),
                    n_type: bytes[4],
                    n_sect: bytes[5],
                    n_desc: spec_le_u16(bytes, 6),
                    n_value: spec_le_u64(bytes, 8),
                },
            )
        }
    }

    /// Whether the symbol is one whose name is looked at: neither a
    /// debugging entry nor private external, and defined in a section.
    pub open spec fn spec_is_defined(&self) -> bool {
        (self.n_type & (N_STAB | N_PEXT)) == 0 && (self.n_type & N_SECT) != 0
    }

    /// Reads the entry that `bytes` begin with.
    pub fn parse(bytes: &[u8]) -> (symbol: Option<Symbol>)
        ensures
            symbol == Self::spec_parse(bytes@),
    {
        if bytes.len() < SYMBOL_SIZE as usize {
            None
        } else {
            Some(
                Symbol {
                    n_strx: le_u32(bytes, 0),
                    n_type: bytes[4],
                    n_sect: bytes[5],
                    n_desc: le_u16(bytes, 6),
                    n_value: le_u64(bytes, 8),
                },
            )
        }
    }

    /// Whether the symbol is one whose name is looked at.
    pub fn is_defined(&self) -> (defined: bool)
        ensures
            defined == self.spec_is_defined(),
    {
        (self.n_type & (N_STAB | N_PEXT)) == 0 && (self.n_type & N_SECT) != 0
    }
}

} // verus!
