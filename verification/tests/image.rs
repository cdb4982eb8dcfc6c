use inspector::image::{distance, offset, slid_range, ImageError, ImagePhase, ImageStep, ImageWalker};
use inspector::snapshot::{Module, Range};
use std::collections::HashMap;

const LOAD: u64 = 0x10000;

#[derive(Default)]
struct Target {
    memory: HashMap<u64, u8>,
}

impl Target {
    fn place(&mut self, address: u64, bytes: &[u8]) {
        for (i, byte) in bytes.iter().enumerate() {
            self.memory.insert(address + i as u64, *byte);
        }
    }

    fn read(&self, address: u64, length: u32) -> Option<Vec<u8>> {
        (0..length as u64).map(|i| self.memory.get(&(address + i)).copied()).collect()
    }

    fn read_string(&self, address: u64) -> Option<Vec<u8>> {
        let mut bytes = vec![];
        loop {
            let byte = *self.memory.get(&(address + bytes.len() as u64))?;
            if byte == 0 {
                return Some(bytes);
            }
            bytes.push(byte);
        }
    }
}

fn header(ncmds: u32, sizeofcmds: u32) -> Vec<u8> {
    let mut bytes = vec![];
    for field in [0xfeed_facfu32, 0x0100_000c, 0, 6, ncmds, sizeofcmds, 0x85, 0] {
        bytes.extend_from_slice(&field.to_le_bytes());
    }
    bytes
}

fn segment(name: &str, vmaddr: u64, vmsize: u64, fileoff: u64) -> Vec<u8> {
    let mut bytes = vec![];
    bytes.extend_from_slice(&0x19u32.to_le_bytes());
    bytes.extend_from_slice(&72u32.to_le_bytes());
    let mut field = [0u8; 16];
    field[..name.len()].copy_from_slice(name.as_bytes());
    bytes.extend_from_slice(&field);
    for value in [vmaddr, vmsize, fileoff, vmsize] {
        bytes.extend_from_slice(&value.to_le_bytes());
    }
    for value in [5u32, 5, 0, 0] {
        bytes.extend_from_slice(&value.to_le_bytes());
    }
    bytes
}

fn symtab(symoff: u32, nsyms: u32, stroff: u32) -> Vec<u8> {
    let mut bytes = vec![];
    for value in [0x2u32, 24, symoff, nsyms, stroff, 64] {
        bytes.extend_from_slice(&value.to_le_bytes());
    }
    bytes
}

fn other(cmd: u32, cmdsize: u32) -> Vec<u8> {
    let mut bytes = vec![];
    bytes.extend_from_slice(&cmd.to_le_bytes());
    bytes.extend_from_slice(&cmdsize.to_le_bytes());
    bytes.resize(cmdsize as usize, 0xee);
    bytes
}

fn symbol(n_strx: u32, n_type: u8, n_value: u64) -> Vec<u8> {
    let mut bytes = vec![];
    bytes.extend_from_slice(&n_strx.to_le_bytes());
    bytes.extend_from_slice(&[n_type, 1, 0, 0]);
    bytes.extend_from_slice(&n_value.to_le_bytes());
    bytes
}

fn image(commands: &[Vec<u8>]) -> Target {
    let mut target = Target::default();
    let body: Vec<u8> = commands.concat();
    target.place(LOAD, &header(commands.len() as u32, body.len() as u32));
    target.place(LOAD + 32, &body);
    target
}

/// An image with its text at 0x1000, loaded at 0x10000, and three symbols.
fn library() -> Target {
    let mut target = image(&[
        segment("__TEXT", 0x1000, 0x2000, 0),
        segment("__DATA", 0x3000, 0x1000, 0x2000),
        segment("__LINKEDIT", 0x4000, 0x1000, 0x3000),
        other(0x1b, 24),
        symtab(0x3100, 4, 0x3200),
    ]);
    let symbols = [
        symbol(1, 0x0f, 0x1234),
        symbol(7, 0x64, 0x1400),
        symbol(7, 0x0f, 0x1500),
        symbol(7, 0x1e, 0x1600),
    ];
    target.place(0x13100, &symbols.concat());
    target.place(0x13200, b"\0_main\0__exit\0");
    target
}

/// Walks the image at `LOAD` and gives back the walker, its last step and
/// the steps it named on the way.
fn walk(target: &Target) -> (ImageWalker, ImageStep, Vec<ImageStep>) {
    let (mut walker, mut step) = ImageWalker::start(LOAD);
    let mut steps = vec![];
    loop {
        assert!(steps.len() < 10_000);
        let reply = match step {
            ImageStep::Read { address, length } => target.read(address, length),
            ImageStep::ReadString { address } => target.read_string(address),
            _ => return (walker, step, steps),
        };
        steps.push(step);
        step = walker.advance(reply.as_deref());
    }
}

#[test]
fn walk_finds_text_and_exit() {
    let target = library();
    let (walker, step, steps) = walk(&target);
    assert_eq!(step, ImageStep::Finished);
    assert_eq!(walker.phase, ImagePhase::Finished);
    assert_eq!(walker.slide, 0xf000);
    assert_eq!(walker.correction, 0x1000);
    assert_eq!(walker.text_segment, Some(Range { start: 0x10000, end: 0x12000 }));
    assert_eq!(walker.exit_address, Some(0x10500));
    assert_eq!(
        walker.module("/usr/lib/libsystem_kernel.dylib".to_string()),
        Some(Module {
            path: "/usr/lib/libsystem_kernel.dylib".to_string(),
            load_address: 0x10000,
            text_segment: Some(Range { start: 0x10000, end: 0x12000 }),
            exit_address: Some(0x10500),
        })
    );
    assert_eq!(
        steps,
        vec![
            ImageStep::Read { address: 0x10000, length: 32 },
            ImageStep::Read { address: 0x10020, length: 8 },
            ImageStep::Read { address: 0x10020, length: 72 },
            ImageStep::Read { address: 0x10068, length: 8 },
            ImageStep::Read { address: 0x10068, length: 72 },
            ImageStep::Read { address: 0x100b0, length: 8 },
            ImageStep::Read { address: 0x100b0, length: 72 },
            ImageStep::Read { address: 0x100f8, length: 8 },
            ImageStep::Read { address: 0x10110, length: 8 },
            ImageStep::Read { address: 0x10110, length: 24 },
            ImageStep::Read { address: 0x13100, length: 16 },
            ImageStep::ReadString { address: 0x13201 },
            ImageStep::Read { address: 0x13110, length: 16 },
            ImageStep::Read { address: 0x13120, length: 16 },
            ImageStep::ReadString { address: 0x13207 },
            ImageStep::Read { address: 0x13130, length: 16 },
        ]
    );
}

#[test]
fn text_starts_at_the_load_address() {
    for (vmaddr, vmsize) in [(0u64, 0x1000u64), (0x1000, 0x2000), (0x10000, 1), (0x8000, 0)] {
        let target = image(&[segment("__TEXT", vmaddr, vmsize, 0)]);
        let (walker, step, _) = walk(&target);
        assert_eq!(step, ImageStep::Finished);
        assert_eq!(walker.slide, LOAD - vmaddr);
        assert_eq!(walker.text_segment, Some(Range { start: LOAD, end: LOAD + vmsize }));
    }
}

#[test]
fn image_without_commands_has_nothing() {
    let target = image(&[]);
    let (walker, step, steps) = walk(&target);
    assert_eq!(step, ImageStep::Finished);
    assert_eq!(steps, vec![ImageStep::Read { address: LOAD, length: 32 }]);
    assert_eq!(walker.text_segment, None);
    assert_eq!(walker.exit_address, None);
}

#[test]
fn image_without_text_has_no_range() {
    let target = image(&[segment("__DATA", 0x3000, 0x1000, 0x2000), other(0x1b, 24)]);
    let (walker, step, _) = walk(&target);
    assert_eq!(step, ImageStep::Finished);
    assert_eq!(walker.text_segment, None);
    assert_eq!(walker.slide, 0);
}

#[test]
fn segment_names_are_compared_in_full() {
    for name in ["__TEXT_EXEC", "__TEX", "__text", "_TEXT", ""] {
        let target = image(&[segment(name, 0x1000, 0x2000, 0)]);
        let (walker, step, _) = walk(&target);
        assert_eq!(step, ImageStep::Finished);
        assert_eq!(walker.text_segment, None);
    }
}

#[test]
fn image_without_exit_symbol_has_no_exit_address() {
    let mut target = image(&[
        segment("__TEXT", 0x1000, 0x2000, 0),
        segment("__LINKEDIT", 0x4000, 0x1000, 0x3000),
        symtab(0x3100, 2, 0x3200),
    ]);
    target.place(0x13100, &[symbol(1, 0x0f, 0x1234), symbol(7, 0x0f, 0x1500)].concat());
    target.place(0x13200, b"\0_main\0_exit\0");
    let (walker, step, _) = walk(&target);
    assert_eq!(step, ImageStep::Finished);
    assert_eq!(walker.exit_address, None);
}

#[test]
fn symbols_that_are_not_defined_in_a_section_are_passed_over() {
    for n_type in [0x00u8, 0x01, 0x10, 0x1e, 0x20, 0x2e, 0x64, 0xef, 0xf0] {
        let mut target = image(&[segment("__TEXT", 0x1000, 0x2000, 0), symtab(0x3100, 1, 0x3200)]);
        target.place(0x12100, &symbol(1, n_type, 0x1500));
        target.place(0x12200, b"\0__exit\0");
        let (walker, step, steps) = walk(&target);
        assert_eq!(step, ImageStep::Finished);
        assert_eq!(walker.exit_address, None);
        assert!(steps.iter().all(|step| !matches!(step, ImageStep::ReadString { .. })));
    }
    for n_type in [0x0eu8, 0x0f, 0x02, 0x04, 0x08, 0x0a] {
        let mut target = image(&[segment("__TEXT", 0x1000, 0x2000, 0), symtab(0x3100, 1, 0x3200)]);
        target.place(0x12100, &symbol(1, n_type, 0x1500));
        target.place(0x12200, b"\0__exit\0");
        let (walker, step, _) = walk(&target);
        assert_eq!(step, ImageStep::Finished);
        assert_eq!(walker.exit_address, Some(0x10500));
    }
}

#[test]
fn last_exit_symbol_is_the_one_kept() {
    let mut target = image(&[segment("__TEXT", 0x1000, 0x2000, 0), symtab(0x3100, 2, 0x3200)]);
    target.place(0x12100, &[symbol(1, 0x0f, 0x1500), symbol(1, 0x0f, 0x1700)].concat());
    target.place(0x12200, b"\0__exit\0");
    let (walker, _, _) = walk(&target);
    assert_eq!(walker.exit_address, Some(0x10700));
}

#[test]
fn empty_symbol_table_is_passed_over() {
    let target = image(&[
        segment("__TEXT", 0x1000, 0x2000, 0),
        symtab(0x3100, 0, 0x3200),
        segment("__LINKEDIT", 0x4000, 0x1000, 0x3000),
    ]);
    let (walker, step, steps) = walk(&target);
    assert_eq!(step, ImageStep::Finished);
    assert_eq!(steps.len(), 7);
    assert_eq!(walker.correction, 0x1000);
}

#[test]
fn only_as_many_commands_as_the_header_counts_are_read() {
    let mut target = image(&[other(0x1b, 24), segment("__TEXT", 0x1000, 0x2000, 0)]);
    target.place(LOAD, &header(1, 96));
    let (walker, step, steps) = walk(&target);
    assert_eq!(step, ImageStep::Finished);
    assert_eq!(steps.len(), 2);
    assert_eq!(walker.text_segment, None);
}

#[test]
fn unreadable_header_fails() {
    let target = Target::default();
    let (walker, step, _) = walk(&target);
    assert_eq!(step, ImageStep::Failed(ImageError::Read));
    assert_eq!(walker.phase, ImagePhase::Failed(ImageError::Read));
    assert_eq!(walker.module("x".to_string()), None);
}

#[test]
fn short_read_fails() {
    let (mut walker, _) = ImageWalker::start(LOAD);
    assert_eq!(walker.advance(Some(&[0u8; 31])), ImageStep::Failed(ImageError::Read));
    let (mut walker, _) = ImageWalker::start(LOAD);
    walker.advance(Some(&header(1, 72)));
    assert_eq!(walker.advance(Some(&[0x19, 0, 0, 0, 72, 0, 0])), ImageStep::Failed(ImageError::Read));
}

#[test]
fn unreadable_command_fails() {
    let mut target = image(&[segment("__TEXT", 0x1000, 0x2000, 0)]);
    target.place(LOAD, &header(2, 144));
    let (_, step, steps) = walk(&target);
    assert_eq!(step, ImageStep::Failed(ImageError::Read));
    assert_eq!(steps.len(), 4);
}

#[test]
fn unreadable_symbol_name_fails() {
    let mut target = image(&[segment("__TEXT", 0x1000, 0x2000, 0), symtab(0x3100, 1, 0x3200)]);
    target.place(0x12100, &symbol(1, 0x0f, 0x1500));
    let (_, step, _) = walk(&target);
    assert_eq!(step, ImageStep::Failed(ImageError::Read));
}

#[test]
fn text_above_the_load_address_is_malformed() {
    let target = image(&[segment("__TEXT", LOAD + 1, 0x2000, 0)]);
    let (_, step, _) = walk(&target);
    assert_eq!(step, ImageStep::Failed(ImageError::Malformed));
}

#[test]
fn text_beyond_the_address_space_is_malformed() {
    let target = image(&[segment("__TEXT", 0x1000, u64::MAX - LOAD + 1, 0)]);
    let (_, step, _) = walk(&target);
    assert_eq!(step, ImageStep::Failed(ImageError::Malformed));
    let target = image(&[segment("__TEXT", 0x1000, u64::MAX - LOAD, 0)]);
    let (walker, step, _) = walk(&target);
    assert_eq!(step, ImageStep::Finished);
    assert_eq!(walker.text_segment, Some(Range { start: LOAD, end: u64::MAX }));
}

#[test]
fn linkedit_below_its_file_offset_is_malformed() {
    let target = image(&[segment("__LINKEDIT", 0x2000, 0x1000, 0x3000)]);
    let (_, step, _) = walk(&target);
    assert_eq!(step, ImageStep::Failed(ImageError::Malformed));
}

#[test]
fn exit_beyond_the_address_space_is_malformed() {
    let mut target = image(&[segment("__TEXT", 0x1000, 0x2000, 0), symtab(0x3100, 1, 0x3200)]);
    target.place(0x12100, &symbol(1, 0x0f, u64::MAX - 0xf000 + 1));
    target.place(0x12200, b"\0__exit\0");
    let (_, step, _) = walk(&target);
    assert_eq!(step, ImageStep::Failed(ImageError::Malformed));
}

#[test]
fn header_at_the_end_of_the_address_space_is_malformed() {
    let (mut walker, step) = ImageWalker::start(u64::MAX - 16);
    assert_eq!(step, ImageStep::Read { address: u64::MAX - 16, length: 32 });
    assert_eq!(walker.advance(Some(&header(1, 8))), ImageStep::Failed(ImageError::Malformed));
}

#[test]
fn ended_image_walk_stays_ended() {
    let target = image(&[]);
    let (mut walker, _, _) = walk(&target);
    assert_eq!(walker.advance(Some(&[1, 2, 3])), ImageStep::Finished);
    assert_eq!(walker.advance(None), ImageStep::Finished);
    let (mut walker, _) = ImageWalker::start(LOAD);
    walker.advance(None);
    assert_eq!(walker.advance(Some(&header(0, 0))), ImageStep::Failed(ImageError::Read));
}

#[test]
fn offset_and_distance_stay_in_the_address_space() {
    assert_eq!(offset(1, 2), Some(3));
    assert_eq!(offset(u64::MAX, 0), Some(u64::MAX));
    assert_eq!(offset(u64::MAX, 1), None);
    assert_eq!(offset(1, u64::MAX), None);
    assert_eq!(distance(2, 5), Some(3));
    assert_eq!(distance(5, 5), Some(0));
    assert_eq!(distance(6, 5), None);
}

#[test]
fn slid_range_moves_the_segment() {
    assert_eq!(slid_range(0xf000, 0x1000, 0x2000), Some(Range { start: 0x10000, end: 0x12000 }));
    assert_eq!(slid_range(0, 0, 0), Some(Range { start: 0, end: 0 }));
    assert_eq!(slid_range(u64::MAX, 1, 0), None);
    assert_eq!(slid_range(u64::MAX - 1, 1, 1), None);
}
