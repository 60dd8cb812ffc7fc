use mach_o_rust::cursor::{BitWidth, ByteOrder, Cursor};
use mach_o_rust::error::AppError;
use mach_o_rust::header::MachHeader;
use mach_o_rust::load_commands::{
    command_kind, BuildToolVersion, CommandKind, DataInCodeEntry, DylibModule, DylibModule64,
    DylibReference, DylibTableOfContents, EncryptionInfoCommand, LoadCommand, LoadCommandPrefix,
    RoutinesCommand, Section, SegmentCommand, TwoLevelHint,
};
use mach_o_rust::mach_o::MachO;
use mach_o_rust::memory_helpers::read_static;
use mach_o_rust::memory_utils::{advance_to_next_load_command, get_file_offset};
use mach_o_rust::parser::{check_magic_number, decode, get_load_command_remaining_size, parse};
use mach_o_rust::symbols::Nlist;

/// Writes integers in one byte order.
struct Image {
    bytes: Vec<u8>,
    big: bool,
}

impl Image {
    fn new(big: bool) -> Image {
        Image { bytes: Vec::new(), big }
    }

    fn u16(&mut self, v: u16) -> &mut Image {
        let b = if self.big { v.to_be_bytes() } else { v.to_le_bytes() };
        self.bytes.extend_from_slice(&b);
        self
    }

    fn u32(&mut self, v: u32) -> &mut Image {
        let b = if self.big { v.to_be_bytes() } else { v.to_le_bytes() };
        self.bytes.extend_from_slice(&b);
        self
    }

    fn u64(&mut self, v: u64) -> &mut Image {
        let b = if self.big { v.to_be_bytes() } else { v.to_le_bytes() };
        self.bytes.extend_from_slice(&b);
        self
    }

    fn raw(&mut self, b: &[u8]) -> &mut Image {
        self.bytes.extend_from_slice(b);
        self
    }

    fn name(&mut self, s: &str) -> &mut Image {
        let mut b = [0u8; 16];
        b[..s.len()].copy_from_slice(s.as_bytes());
        self.raw(&b)
    }

    /// The magic as stored: its bytes come out in the image's own order.
    fn header32(&mut self, ncmds: u32, sizeofcmds: u32) -> &mut Image {
        self.u32(0xfeedface).u32(7).u32(3).u32(2).u32(ncmds).u32(sizeofcmds).u32(0x85)
    }

    fn header64(&mut self, ncmds: u32, sizeofcmds: u32) -> &mut Image {
        self.u32(0xfeedfacf)
            .u32(0x0100_000c)
            .u32(0)
            .u32(2)
            .u32(ncmds)
            .u32(sizeofcmds)
            .u32(0x0020_0085)
            .u32(0)
    }
}

fn commands(m: &MachO) -> &Vec<LoadCommand> {
    &m.load_commands.as_ref().unwrap().0
}

fn sections(m: &MachO) -> &Vec<Vec<Section>> {
    &m.load_commands.as_ref().unwrap().1
}

fn strings(m: &MachO) -> &Vec<Vec<u8>> {
    &m.load_commands.as_ref().unwrap().2
}

fn segment32_with_one_section(big: bool) -> Vec<u8> {
    let mut img = Image::new(big);
    img.header32(1, 56);
    img.u32(0x1).u32(124).name("__TEXT");
    img.u32(0x1000).u32(0x2000).u32(0).u32(0x2000).u32(7).u32(5).u32(1).u32(0);
    img.name("__text").name("__TEXT");
    img.u32(0x1f00).u32(0x40).u32(0xf00).u32(4).u32(0).u32(0).u32(0x8000_0400).u32(0).u32(0);
    img.bytes.clone()
}

#[test]
fn segment_with_one_section_round_trip() {
    let m = decode(segment32_with_one_section(true)).unwrap();
    match m.header.as_ref().unwrap() {
        MachHeader::MH32(h) => {
            assert_eq!(h.magic, 0xfeedface);
            assert_eq!(h.cputype, 7);
            assert_eq!(h.cpusubtype, 3);
            assert_eq!(h.filetype, 2);
            assert_eq!(h.ncmds, 1);
            assert_eq!(h.sizeofcmds, 56);
            assert_eq!(h.flags, 0x85);
        }
        MachHeader::MH64(_) => panic!("expected a 32-bit header"),
    }
    assert_eq!(commands(&m).len(), 1);
    assert_eq!(sections(&m).len(), 1);
    assert_eq!(sections(&m)[0].len(), 1);
    match &commands(&m)[0] {
        LoadCommand::SegmentCommand(SegmentCommand::SEG32(s)) => {
            assert_eq!(s.cmd, 1);
            assert_eq!(s.cmdsize, 124);
            assert_eq!(&s.segname[..6], b"__TEXT");
            assert_eq!(s.vmaddr, 0x1000);
            assert_eq!(s.vmsize, 0x2000);
            assert_eq!(s.fileoff, 0);
            assert_eq!(s.filesize, 0x2000);
            assert_eq!(s.maxprot, 7);
            assert_eq!(s.initprot, 5);
            assert_eq!(s.nsects, 1);
            assert_eq!(s.flags, 0);
        }
        _ => panic!("expected a 32-bit segment"),
    }
    match &sections(&m)[0][0] {
        Section::SEC32(s) => {
            assert_eq!(&s.sectname[..6], b"__text");
            assert_eq!(&s.segname[..6], b"__TEXT");
            assert_eq!(s.addr, 0x1f00);
            assert_eq!(s.size, 0x40);
            assert_eq!(s.offset, 0xf00);
            assert_eq!(s.align, 4);
            assert_eq!(s.reloff, 0);
            assert_eq!(s.nreloc, 0);
            assert_eq!(s.flags, 0x8000_0400);
            assert_eq!(s.reserved1, 0);
            assert_eq!(s.reserved2, 0);
        }
        Section::SEC64(_) => panic!("expected a 32-bit section"),
    }
    assert_eq!(strings(&m)[0].len(), 0);
    assert_eq!(m.symtab.as_ref().unwrap().len(), 0);
}

#[test]
fn magic_selects_order_and_width() {
    assert_eq!(check_magic_number(0xfeedface), Ok((ByteOrder::Big, BitWidth::W32)));
    assert_eq!(check_magic_number(0xcefaedfe), Ok((ByteOrder::Little, BitWidth::W32)));
    assert_eq!(check_magic_number(0xfeedfacf), Ok((ByteOrder::Big, BitWidth::W64)));
    assert_eq!(check_magic_number(0xcffaedfe), Ok((ByteOrder::Little, BitWidth::W64)));
    assert_eq!(check_magic_number(0xcafebabe), Err(AppError::InvalidMagic(0xcafebabe)));
}

#[test]
fn each_magic_decodes_in_its_layout() {
    let be32 = decode(Image::new(true).header32(0, 0).bytes.clone()).unwrap();
    assert!(matches!(be32.header, Some(MachHeader::MH32(ref h)) if h.magic == 0xfeedface && h.cputype == 7));
    let le32 = decode(Image::new(false).header32(0, 0).bytes.clone()).unwrap();
    assert!(matches!(le32.header, Some(MachHeader::MH32(ref h)) if h.magic == 0xcefaedfe && h.cputype == 7));
    let be64 = decode(Image::new(true).header64(0, 0).bytes.clone()).unwrap();
    assert!(matches!(be64.header, Some(MachHeader::MH64(ref h)) if h.magic == 0xfeedfacf && h.cputype == 0x0100_000c));
    let le64 = decode(Image::new(false).header64(0, 0).bytes.clone()).unwrap();
    assert!(matches!(le64.header, Some(MachHeader::MH64(ref h)) if h.magic == 0xcffaedfe && h.flags == 0x0020_0085));
}

#[test]
fn unknown_magic_is_rejected() {
    let mut img = Image::new(true);
    img.u32(0x7f454c46).u32(0).u32(0).u32(0).u32(0).u32(0).u32(0);
    assert_eq!(decode(img.bytes.clone()).err(), Some(AppError::InvalidMagic(0x7f454c46)));
}

#[test]
fn truncated_header_fails() {
    let full = Image::new(true).header32(0, 0).bytes.clone();
    for len in 0..full.len() {
        assert_eq!(decode(full[..len].to_vec()).err(), Some(AppError::Truncated), "length {}", len);
    }
    let full64 = Image::new(false).header64(0, 0).bytes.clone();
    assert_eq!(decode(full64[..30].to_vec()).err(), Some(AppError::Truncated));
}

#[test]
fn command_count_matches_header() {
    let mut img = Image::new(false);
    img.header64(3, 0);
    img.u32(0x1b).u32(24).raw(&[9u8; 16]);
    img.u32(0x2a).u32(16).u64(0x0001_0002_0003);
    img.u32(0x80000028).u32(24).u64(0x4000).u64(0);
    let m = decode(img.bytes.clone()).unwrap();
    assert_eq!(m.header.as_ref().unwrap().ncmds(), 3);
    assert_eq!(commands(&m).len(), 3);
    match &commands(&m)[0] {
        LoadCommand::UuidCommand(u) => assert_eq!(u.uuid, [9u8; 16]),
        _ => panic!("expected a uuid"),
    }
    match &commands(&m)[1] {
        LoadCommand::SourceVersionCommand(v) => assert_eq!(v.version, 0x0001_0002_0003),
        _ => panic!("expected a source version"),
    }
    match &commands(&m)[2] {
        LoadCommand::EntryPointCommand(e) => {
            assert_eq!(e.cmd, 0x80000028);
            assert_eq!(e.entryoff, 0x4000);
            assert_eq!(e.stacksize, 0);
        }
        _ => panic!("expected an entry point"),
    }
}

#[test]
fn padded_record_resynchronizes() {
    // The first record declares 40 bytes though its fields take 24: the
    // decoder skips the padding and finds the second record after it.
    let mut img = Image::new(true);
    img.header32(2, 56);
    img.u32(0x1b).u32(40).raw(&[1u8; 16]).raw(&[0xee; 16]);
    img.u32(0x24).u32(16).u32(0x000a_0e00).u32(0x000a_0f00);
    let m = decode(img.bytes.clone()).unwrap();
    assert_eq!(commands(&m).len(), 2);
    assert_eq!(commands(&m)[0].prefix(), LoadCommandPrefix { cmd: 0x1b, cmdsize: 40 });
    match &commands(&m)[1] {
        LoadCommand::VersionMinCommand(v) => {
            assert_eq!(v.version, 0x000a_0e00);
            assert_eq!(v.sdk, 0x000a_0f00);
        }
        _ => panic!("expected a minimum version"),
    }
}

#[test]
fn thread_state_is_skipped() {
    let mut img = Image::new(false);
    img.header64(2, 0);
    img.u32(0x5).u32(24).u32(4).u32(2).u64(0xdead_beef);
    img.u32(0x2d).u32(12).u32(3);
    let m = decode(img.bytes.clone()).unwrap();
    match &commands(&m)[0] {
        LoadCommand::ThreadCommand(t) => {
            assert_eq!(t.cmd, 5);
            assert_eq!(t.cmdsize, 24);
        }
        _ => panic!("expected a thread"),
    }
    match &commands(&m)[1] {
        LoadCommand::LinkerOptionCommand(l) => assert_eq!(l.count, 3),
        _ => panic!("expected a linker option"),
    }
}

#[test]
fn trailing_string_length_is_derived() {
    let mut img = Image::new(true);
    img.header32(2, 0);
    img.u32(0xe).u32(28).u32(12).raw(b"/usr/lib/dyld\0\0\0");
    img.u32(0x8000001c).u32(12).u32(12);
    let m = decode(img.bytes.clone()).unwrap();
    assert_eq!(strings(&m)[0].len(), 28 - 12);
    assert_eq!(&strings(&m)[0][..], b"/usr/lib/dyld\0\0\0");
    match &commands(&m)[0] {
        LoadCommand::DylinkerCommand(d) => assert_eq!(d.name.offset, 12),
        _ => panic!("expected a dynamic linker"),
    }
    assert!(matches!(commands(&m)[1], LoadCommand::RpathCommand(_)));
    assert_eq!(strings(&m)[1].len(), 0);
}

#[test]
fn dylib_descriptor_and_its_name() {
    let mut img = Image::new(false);
    img.header64(1, 0);
    img.u32(0xc).u32(56).u32(24).u32(2).u32(0x0501_0000).u32(0x0001_0000);
    img.raw(b"/usr/lib/libSystem.B.dylib\0\0\0\0\0\0");
    let m = decode(img.bytes.clone()).unwrap();
    match &commands(&m)[0] {
        LoadCommand::DylibCommand(d) => {
            assert_eq!(d.dylib.name.offset, 24);
            assert_eq!(d.dylib.timestamp, 2);
            assert_eq!(d.dylib.current_version, 0x0501_0000);
            assert_eq!(d.dylib.compatibility_version, 0x0001_0000);
        }
        _ => panic!("expected a dylib"),
    }
    assert_eq!(strings(&m)[0].len(), 32);
    assert_eq!(&strings(&m)[0][..26], b"/usr/lib/libSystem.B.dylib");
}

#[test]
fn no_symbol_table_gives_no_symbols() {
    let m = decode(segment32_with_one_section(false)).unwrap();
    assert_eq!(m.symtab.as_ref().unwrap().len(), 0);
}

fn image_with_symbols(big: bool) -> Vec<u8> {
    // Header (32 bytes), symtab command (24), two entries at 56 and a string
    // table at 88.
    let mut img = Image::new(big);
    img.header64(1, 24);
    img.u32(0x2).u32(24).u32(56).u32(2).u32(88).u32(8);
    img.u32(1).raw(&[0x0f, 1]).u16(0).u64(0x1_0000_3f00);
    img.u32(4).raw(&[0x01, 0]).u16(0x0100).u64(0);
    img.raw(b"\0_main\0\0");
    img.bytes.clone()
}

#[test]
fn symbols_are_read_from_the_symbol_offset() {
    let m = decode(image_with_symbols(false)).unwrap();
    let syms = m.symtab.as_ref().unwrap();
    assert_eq!(syms.len(), 2);
    match &syms[0] {
        Nlist::NL64(n) => {
            assert_eq!(n.n_strx, 1);
            assert_eq!(n.n_type, 0x0f);
            assert_eq!(n.n_sect, 1);
            assert_eq!(n.n_desc, 0);
            assert_eq!(n.n_value, 0x1_0000_3f00);
        }
        Nlist::NL32(_) => panic!("expected a 64-bit entry"),
    }
    match &syms[1] {
        Nlist::NL64(n) => {
            assert_eq!(n.n_strx, 4);
            assert_eq!(n.n_type, 0x01);
            assert_eq!(n.n_desc, 0x0100);
        }
        Nlist::NL32(_) => panic!("expected a 64-bit entry"),
    }
}

#[test]
fn symbol_table_past_the_end() {
    let mut img = Image::new(true);
    img.header32(1, 24);
    img.u32(0x2).u32(24).u32(52).u32(1).u32(0).u32(0);
    img.u32(1).raw(&[0x0f, 1]).u16(0xffff);
    assert_eq!(decode(img.bytes.clone()).err(), Some(AppError::Truncated));
    let mut far = Image::new(true);
    far.header32(1, 24);
    far.u32(0x2).u32(24).u32(1000).u32(1).u32(0).u32(0);
    assert_eq!(decode(far.bytes.clone()).err(), Some(AppError::SeekOutOfRange));
}

#[test]
fn signed_descriptor_in_32_bit_entries() {
    let mut img = Image::new(true);
    img.header32(1, 24);
    img.u32(0x2).u32(24).u32(52).u32(1).u32(0).u32(0);
    img.u32(1).raw(&[0x0f, 1]).u16(0xfffe).u32(0x1000);
    let m = decode(img.bytes.clone()).unwrap();
    match &m.symtab.as_ref().unwrap()[0] {
        Nlist::NL32(n) => {
            assert_eq!(n.n_desc, -2);
            assert_eq!(n.n_value, 0x1000);
        }
        Nlist::NL64(_) => panic!("expected a 32-bit entry"),
    }
}

#[test]
fn byte_order_symmetry() {
    let big = decode(image_with_symbols(true)).unwrap();
    let little = decode(image_with_symbols(false)).unwrap();
    let (hb, hl) = match (big.header.as_ref().unwrap(), little.header.as_ref().unwrap()) {
        (MachHeader::MH64(b), MachHeader::MH64(l)) => (b, l),
        _ => panic!("expected 64-bit headers"),
    };
    assert_eq!(hb.magic, 0xfeedfacf);
    assert_eq!(hl.magic, 0xcffaedfe);
    assert_eq!(
        (hb.cputype, hb.cpusubtype, hb.filetype, hb.ncmds, hb.sizeofcmds, hb.flags, hb.reserved),
        (hl.cputype, hl.cpusubtype, hl.filetype, hl.ncmds, hl.sizeofcmds, hl.flags, hl.reserved)
    );
    assert_eq!(format!("{:?}", commands(&big)), format!("{:?}", commands(&little)));
    assert_eq!(format!("{:?}", big.symtab), format!("{:?}", little.symtab));

    let sb = decode(segment32_with_one_section(true)).unwrap();
    let sl = decode(segment32_with_one_section(false)).unwrap();
    assert_eq!(format!("{:?}", commands(&sb)), format!("{:?}", commands(&sl)));
    assert_eq!(format!("{:?}", sections(&sb)), format!("{:?}", sections(&sl)));
}

#[test]
fn unknown_load_command() {
    let mut img = Image::new(true);
    img.header32(1, 8);
    img.u32(0x6).u32(8);
    assert_eq!(decode(img.bytes.clone()).err(), Some(AppError::UnknownLoadCommand(6)));
}

#[test]
fn record_shorter_than_its_fields_is_malformed() {
    let mut img = Image::new(true);
    img.header32(1, 16);
    img.u32(0x2).u32(16).u32(0).u32(0).u32(0).u32(0);
    assert_eq!(decode(img.bytes.clone()).err(), Some(AppError::MalformedRecord));
    let mut short = Image::new(true);
    short.header32(1, 4);
    short.u32(0x4).u32(4);
    assert_eq!(decode(short.bytes.clone()).err(), Some(AppError::MalformedRecord));
}

#[test]
fn sections_beyond_the_record_are_malformed() {
    let mut bytes = segment32_with_one_section(true);
    // Declare 56 bytes: the segment's fields, but not its section.
    bytes[28 + 7] = 56;
    assert_eq!(decode(bytes).err(), Some(AppError::MalformedRecord));
}

#[test]
fn record_running_past_the_end() {
    let mut img = Image::new(true);
    img.header32(1, 64);
    img.u32(0x1b).u32(64).raw(&[0u8; 16]);
    assert_eq!(decode(img.bytes.clone()).err(), Some(AppError::SeekOutOfRange));
    let mut named = Image::new(true);
    named.header32(1, 64);
    named.u32(0xe).u32(64).u32(12).raw(b"/x");
    assert_eq!(decode(named.bytes.clone()).err(), Some(AppError::Truncated));
    let mut cut = Image::new(true);
    cut.header32(1, 24);
    cut.u32(0x1b).u32(24).raw(&[0u8; 4]);
    assert_eq!(decode(cut.bytes.clone()).err(), Some(AppError::Truncated));
}

#[test]
fn segment64_and_its_sections() {
    let mut img = Image::new(false);
    img.header64(1, 72 + 160);
    img.u32(0x19).u32(72 + 160).name("__DATA");
    img.u64(0x1_0000_4000).u64(0x4000).u64(0x4000).u64(0x4000).u32(3).u32(3).u32(2).u32(0);
    for (i, n) in ["__data", "__bss"].iter().enumerate() {
        img.name(n).name("__DATA");
        img.u64(0x1_0000_4000 + i as u64 * 0x100).u64(0x100).u32(0x4000).u32(3);
        img.u32(0).u32(0).u32(i as u32).u32(0).u32(0).u32(7);
    }
    let m = decode(img.bytes.clone()).unwrap();
    match &commands(&m)[0] {
        LoadCommand::SegmentCommand(SegmentCommand::SEG64(s)) => {
            assert_eq!(s.vmaddr, 0x1_0000_4000);
            assert_eq!(s.nsects, 2);
        }
        _ => panic!("expected a 64-bit segment"),
    }
    let secs = &sections(&m)[0];
    assert_eq!(secs.len(), 2);
    match &secs[1] {
        Section::SEC64(s) => {
            assert_eq!(&s.sectname[..5], b"__bss");
            assert_eq!(s.addr, 0x1_0000_4100);
            assert_eq!(s.size, 0x100);
            assert_eq!(s.flags, 1);
            assert_eq!(s.reserved3, 7);
        }
        Section::SEC32(_) => panic!("expected a 64-bit section"),
    }
}

#[test]
fn width_dependent_records_follow_the_image() {
    let mut img = Image::new(true);
    img.header32(2, 0);
    img.u32(0x11).u32(40).u32(0x1000).u32(1).u32(0).u32(0).u32(0).u32(0).u32(0).u32(0);
    img.u32(0x21).u32(20).u32(0x1000).u32(0x2000).u32(1);
    let m = decode(img.bytes.clone()).unwrap();
    match &commands(&m)[0] {
        LoadCommand::RoutinesCommand(RoutinesCommand::RTN32(r)) => {
            assert_eq!(r.init_address, 0x1000);
            assert_eq!(r.init_module, 1);
        }
        _ => panic!("expected 32-bit routines"),
    }
    match &commands(&m)[1] {
        LoadCommand::EncryptionInfoCommand(EncryptionInfoCommand::ENI32(e)) => {
            assert_eq!((e.cryptoff, e.cryptsize, e.cryptid), (0x1000, 0x2000, 1));
        }
        _ => panic!("expected 32-bit encryption info"),
    }
}

#[test]
fn dispatch_knows_the_defined_dynamic_linker_opcodes() {
    assert_eq!(command_kind(0x80000028), Some(CommandKind::EntryPoint));
    assert_eq!(command_kind(0x22), Some(CommandKind::DyldInfo));
    assert_eq!(command_kind(0x80000022), Some(CommandKind::DyldInfo));
    assert_eq!(command_kind(0x80000018), Some(CommandKind::Dylib));
    assert_eq!(command_kind(0x8000001c), Some(CommandKind::Rpath));
    assert_eq!(command_kind(0x8000001f), Some(CommandKind::Dylib));
    assert_eq!(command_kind(0x80000023), Some(CommandKind::Dylib));
    assert_eq!(command_kind(0x2), Some(CommandKind::Symtab));
    assert_eq!(command_kind(0x24), Some(CommandKind::VersionMin));
    assert_eq!(command_kind(0x28), None);
    assert_eq!(command_kind(0x80000002), None);
    assert_eq!(command_kind(0x80000001), None);
    assert_eq!(command_kind(0x33), None);
    assert_eq!(command_kind(0x6), None);
}

#[test]
fn undefined_high_bit_opcode_is_unknown() {
    let mut img = Image::new(true);
    img.header32(1, 24);
    img.u32(0x80000002).u32(24).u32(52).u32(1).u32(0).u32(0);
    img.u32(1).raw(&[0x0f, 1]).u16(0).u32(0x1000);
    assert_eq!(decode(img.bytes.clone()).err(), Some(AppError::UnknownLoadCommand(0x80000002)));
}

#[test]
fn resynchronization_final_position() {
    // A 32-byte uuid record carrying 8 bytes of padding, then a 16-byte
    // source version: the cursor ends where the second record's length ends.
    let mut img = Image::new(true);
    img.header32(2, 48);
    img.u32(0x1b).u32(32).raw(&[0x11; 16]).raw(&[0xaa; 8]);
    img.u32(0x2a).u32(16).raw(&[1, 2, 3, 4, 5, 6, 7, 8]);
    let mut c = Cursor::new(img.bytes.clone());
    let m = parse(&mut c).unwrap();
    assert_eq!(c.position(), 76);
    match &commands(&m)[0] {
        LoadCommand::UuidCommand(u) => {
            assert_eq!((u.cmd, u.cmdsize, u.uuid), (0x1b, 32, [0x11; 16]));
        }
        _ => panic!("expected a uuid"),
    }
    match &commands(&m)[1] {
        LoadCommand::SourceVersionCommand(v) => assert_eq!(v.version, 0x0102030405060708),
        _ => panic!("expected a source version"),
    }
    let mut other = img.bytes.clone();
    for b in &mut other[52..60] {
        *b = 0x55;
    }
    let mut c2 = Cursor::new(other);
    let m2 = parse(&mut c2).unwrap();
    assert_eq!(c2.position(), 76);
    assert_eq!(format!("{:?}", commands(&m)), format!("{:?}", commands(&m2)));
}

#[test]
fn cursor_reads_in_both_orders() {
    let bytes = vec![0x01, 0x02, 0x03, 0x04, 0x05, 0x06, 0x07, 0x08, 0xff, 0xfe];
    let mut c = Cursor::new(bytes.clone());
    assert_eq!(c.read_u16(ByteOrder::Big), Ok(0x0102));
    assert_eq!(c.read_u16(ByteOrder::Little), Ok(0x0403));
    assert_eq!(c.read_u32(ByteOrder::Big), Ok(0x05060708));
    assert_eq!(c.read_i16(ByteOrder::Big), Ok(-2));
    assert_eq!(c.read_u8(), Err(AppError::Truncated));
    assert_eq!(c.position(), 10);

    let mut c = Cursor::new(bytes.clone());
    assert_eq!(c.read_u32(ByteOrder::Little), Ok(0x04030201));
    assert_eq!(c.read_i32(ByteOrder::Little), Ok(0x08070605));
    assert_eq!(c.read_i16(ByteOrder::Little), Ok(-257));

    let mut c = Cursor::new(bytes.clone());
    assert_eq!(c.read_u64(ByteOrder::Big), Ok(0x0102030405060708));
    assert_eq!(c.seek(0), Ok(()));
    assert_eq!(c.read_u64(ByteOrder::Little), Ok(0x0807060504030201));
    assert_eq!(c.read_u64(ByteOrder::Little), Err(AppError::Truncated));
    assert_eq!(c.position(), 8);

    let mut c = Cursor::new(vec![0xff, 0xff, 0xff, 0xfe]);
    assert_eq!(c.read_i32(ByteOrder::Big), Ok(-2));
    assert_eq!(c.seek(0), Ok(()));
    assert_eq!(c.read_i32(ByteOrder::Little), Ok(-16777217));
    assert_eq!(c.seek(5), Err(AppError::SeekOutOfRange));
    assert_eq!(c.seek(4), Ok(()));
    assert_eq!(c.read_exact(0), Ok(vec![]));
}

#[test]
fn cursor_raw_reads() {
    let mut c = Cursor::new((0u8..20).collect());
    assert_eq!(c.read_exact(3), Ok(vec![0, 1, 2]));
    let a = c.read_array16().unwrap();
    assert_eq!(a[0], 3);
    assert_eq!(a[15], 18);
    assert_eq!(c.read_exact(2), Err(AppError::Truncated));
    assert_eq!(c.read_exact(1), Ok(vec![19]));
    assert_eq!(c.len(), 20);
}

#[test]
fn remaining_size_of_a_record() {
    assert_eq!(get_load_command_remaining_size(100, 40, 112), Ok(28));
    assert_eq!(get_load_command_remaining_size(100, 40, 140), Ok(0));
    assert_eq!(get_load_command_remaining_size(100, 40, 141), Err(AppError::MalformedRecord));
    assert_eq!(get_load_command_remaining_size(100, 40, 90), Ok(50));
}

#[test]
fn resynchronization_seek() {
    let mut c = Cursor::new(vec![0u8; 64]);
    assert_eq!(get_file_offset(&c), 0);
    assert_eq!(advance_to_next_load_command(&mut c, 8, 40), Ok(48));
    assert_eq!(get_file_offset(&c), 48);
    assert_eq!(advance_to_next_load_command(&mut c, 32, 40), Err(AppError::SeekOutOfRange));
    assert_eq!(get_file_offset(&c), 48);
}

#[test]
fn parse_from_a_cursor() {
    let mut c = Cursor::new(segment32_with_one_section(true));
    let m = parse(&mut c).unwrap();
    assert_eq!(commands(&m).len(), 1);
    assert_eq!(c.position(), 28 + 124);
    let empty = MachO::new();
    assert!(empty.header.is_none() && empty.load_commands.is_none() && empty.symtab.is_none());
}

#[test]
fn peek_leaves_the_cursor_in_place() {
    let mut c = Cursor::new(vec![1, 2, 3, 4, 5]);
    assert_eq!(c.seek(1), Ok(()));
    assert_eq!(read_static(&mut c, 3), Ok(vec![2, 3, 4]));
    assert_eq!(c.position(), 1);
    assert_eq!(read_static(&mut c, 5), Err(AppError::Truncated));
    assert_eq!(c.position(), 1);
}

#[test]
fn auxiliary_table_entries() {
    let mut img = Image::new(false);
    img.u32(5).u32(9);
    img.u32(0x10).raw(&[0x2]);
    img.raw(&[3]).u32(0x44);
    img.u32(3).u32(0x0003_0001);
    img.u32(0x100).u16(8).u16(2);
    let mut c = Cursor::new(img.bytes.clone());
    let toc = DylibTableOfContents::from_file(&mut c, ByteOrder::Little).unwrap();
    assert_eq!((toc.symbol_index, toc.module_index), (5, 9));
    let r = DylibReference::from_file(&mut c, ByteOrder::Little).unwrap();
    assert_eq!((r.isym, r.flags), (0x10, 2));
    let h = TwoLevelHint::from_file(&mut c, ByteOrder::Little).unwrap();
    assert_eq!((h.isub_image, h.itoc), (3, 0x44));
    let t = BuildToolVersion::from_file(&mut c, ByteOrder::Little).unwrap();
    assert_eq!((t.tool, t.version), (3, 0x0003_0001));
    let e = DataInCodeEntry::from_file(&mut c, ByteOrder::Little).unwrap();
    assert_eq!((e.offset, e.length, e.kind), (0x100, 8, 2));
    assert_eq!(c.position(), img.bytes.len());
    assert_eq!(
        DataInCodeEntry::from_file(&mut c, ByteOrder::Little).err(),
        Some(AppError::Truncated)
    );
}

#[test]
fn module_table_entry_64() {
    let mut img = Image::new(true);
    for v in 1..=12u32 {
        img.u32(v);
    }
    img.u64(0x1_0000_0000);
    let mut c = Cursor::new(img.bytes.clone());
    match DylibModule64::from_file(&mut c, ByteOrder::Big).unwrap() {
        DylibModule::DMD64(m) => {
            assert_eq!(m.module_name, 1);
            assert_eq!(m.ninit_nterm, 11);
            assert_eq!(m.objc_module_info_size, 12);
            assert_eq!(m.objc_module_info_addr, 0x1_0000_0000);
        }
        DylibModule::DMD32(_) => panic!("expected a 64-bit module"),
    }
}
