use crate::cursor::{u32_at, BitWidth, ByteOrder, Cursor};
use crate::error::AppError;
use crate::header::{header_size, magic_kind, MachHeader, MachHeader32, MachHeader64};
use crate::load_commands::{
    command_kind, kind_of, BuildVersionCommand, CommandKind, DyldInfoCommand, DylibCommand,
    DylinkerCommand, DynSymtabCommand, EncryptionInfoCommand32, EncryptionInfoCommand64,
    EntryPointCommand, IdentCommand, LinkeditDataCommand, LinkerOptionCommand, LoadCommand,
    LoadCommandPrefix, NoteCommand, PrebindCksumCommand, PreboundDylibCommand, RoutinesCommand32,
    RoutinesCommand64, RpathCommand, Section, Section32, Section64, SegmentCommand,
    SegmentCommand32, SegmentCommand64, SourceVersionCommand, SubClientCommand,
    SubFrameWorkCommand, SubLibraryCommand, SubUmbrellaCommand, SymsegCommand, SymtabCommand,
    ThreadCommand, TwoLevelHintsCommand, UuidCommand, VersionMinCommand,
};
use crate::constants::{MH_CIGAM, MH_CIGAM_64, MH_MAGIC, MH_MAGIC_64};
use crate::mach_o::MachO;
use crate::memory_utils::{advance_to_next_load_command, get_file_offset};
use crate::symbols::{Nlist, Symtab};
use vstd::prelude::*;

verus! {

// ----- What the bytes of an image decode to -----

/// The offset, from the start of a segment record, of its section count.
pub open spec fn nsects_offset(width: BitWidth) -> int {
    match width {
        BitWidth::W32 => 48,
        BitWidth::W64 => 64,
    }
}

/// The number of section records that a record of family `k` at `s` holds.
pub open spec fn section_count(
    k: CommandKind,
    d: Seq<u8>,
    s: int,
    order: ByteOrder,
    width: BitWidth,
) -> int {
    if k == CommandKind::Segment {
        u32_at(d, s + nsects_offset(width), order) as int
    } else {
        0
    }
}

/// The number of sections that a decoded command owns.
pub open spec fn sections_of(c: LoadCommand) -> int {
    match c {
        LoadCommand::SegmentCommand(seg) => seg.spec_nsects() as int,
        _ => 0,
    }
}

/// The start of the record that follows the record at `s`: `s` plus the
/// record's declared length.
pub open spec fn next_record(d: Seq<u8>, s: int, order: ByteOrder) -> int {
    s + u32_at(d, s + 4, order)
}

/// The start of record `i` of the sequence whose first record is at `first`.
pub open spec fn record_start(d: Seq<u8>, order: ByteOrder, first: int, i: nat) -> int
    decreases i,
{
    if i == 0 {
        first
    } else {
        next_record(d, record_start(d, order, first, (i - 1) as nat), order)
    }
}

/// The error that decoding the record at `s` ends in, or `None` when it
/// decodes. In order: the prefix must be there; its opcode must have a
/// decoder; the declared length must cover the fixed fields, which must be
/// there; it must cover the sections, which must be there; and the record's
/// end must lie within the image (reading a trailing string up to it, or
/// seeking to it).
pub open spec fn record_error(
    d: Seq<u8>,
    s: int,
    order: ByteOrder,
    width: BitWidth,
) -> Option<AppError> {
    if s + 8 > d.len() {
        Some(AppError::Truncated)
    } else {
        let prefix = LoadCommandPrefix::spec_at(d, s, order);
        match kind_of(prefix.cmd) {
            None => Some(AppError::UnknownLoadCommand(prefix.cmd)),
            Some(k) => {
                let fixed = 8 + k.spec_fixed_size(width);
                let body = fixed + section_count(k, d, s, order, width) * Section::spec_size(width);
                if prefix.cmdsize < fixed {
                    Some(AppError::MalformedRecord)
                } else if s + fixed > d.len() {
                    Some(AppError::Truncated)
                } else if prefix.cmdsize < body {
                    Some(AppError::MalformedRecord)
                } else if s + body > d.len() {
                    Some(AppError::Truncated)
                } else if s + prefix.cmdsize > d.len() {
                    if k.carries_string() {
                        Some(AppError::Truncated)
                    } else {
                        Some(AppError::SeekOutOfRange)
                    }
                } else {
                    None
                }
            },
        }
    }
}

/// `c`, `secs` and `string` are what the record at `s` decodes to, a record
/// that lies within the image and whose declared length covers its fields:
/// the command its opcode dispatches to, exactly as many sections as the segment
/// declares, laid out back to back after its fields, and, for a family that
/// carries one, the raw bytes from the end of the fixed fields to the end of
/// the record.
pub open spec fn record_decoded(
    d: Seq<u8>,
    s: int,
    order: ByteOrder,
    width: BitWidth,
    c: LoadCommand,
    secs: Seq<Section>,
    string: Seq<u8>,
) -> bool {
    let prefix = LoadCommandPrefix::spec_at(d, s, order);
    let fixed = 8 + c.kind().spec_fixed_size(width);
    &&& 0 <= s
    &&& fixed + secs.len() * Section::spec_size(width) <= prefix.cmdsize
    &&& s + prefix.cmdsize <= d.len()
    &&& c.decoded_at(prefix, d, s + 8, order, width)
    &&& secs.len() == sections_of(c)
    &&& forall|j: int|
        0 <= j < secs.len() ==> #[trigger] secs[j].decoded_at(
            d,
            s + fixed + j * Section::spec_size(width),
            order,
            width,
        )
    &&& string == if c.kind().carries_string() {
        d.subrange(s + fixed, s + prefix.cmdsize)
    } else {
        Seq::<u8>::empty()
    }
}

/// The first error among the `n` records that start at `s`, each found at
/// the end of the one before.
pub open spec fn commands_error(
    d: Seq<u8>,
    order: ByteOrder,
    width: BitWidth,
    s: int,
    n: nat,
) -> Option<AppError>
    decreases n,
{
    if n == 0 {
        None
    } else {
        match record_error(d, s, order, width) {
            Some(e) => Some(e),
            None => commands_error(d, order, width, next_record(d, s, order), (n - 1) as nat),
        }
    }
}

/// The decoded commands are the `n` records from `first` on, record `i + 1`
/// starting where record `i` ends by its declared length.
pub open spec fn commands_decoded(
    d: Seq<u8>,
    order: ByteOrder,
    width: BitWidth,
    first: int,
    n: nat,
    cmds: Seq<LoadCommand>,
    secs: Seq<Vec<Section>>,
    strings: Seq<Vec<u8>>,
) -> bool {
    &&& cmds.len() == n
    &&& secs.len() == n
    &&& strings.len() == n
    &&& forall|i: int|
        0 <= i < n ==> #[trigger] record_decoded(
            d,
            record_start(d, order, first, i as nat),
            order,
            width,
            cmds[i],
            secs[i]@,
            strings[i]@,
        )
}

/// The start of the first symbol-table record among the `n` records from
/// `s` on.
pub open spec fn symtab_record(d: Seq<u8>, order: ByteOrder, s: int, n: nat) -> Option<int>
    decreases n,
{
    if n == 0 {
        None
    } else if kind_of(u32_at(d, s, order)) == Some(CommandKind::Symtab) {
        Some(s)
    } else {
        symtab_record(d, order, next_record(d, s, order), (n - 1) as nat)
    }
}

/// The symbol offset and count of the first symbol-table command at or
/// after index `i`.
pub open spec fn first_symtab(cmds: Seq<LoadCommand>, i: int) -> Option<(u32, u32)>
    decreases cmds.len() - i,
{
    if i < 0 || i >= cmds.len() {
        None
    } else {
        match cmds[i] {
            LoadCommand::SymtabCommand(c) => Some((c.symoff, c.nsyms)),
            _ => first_symtab(cmds, i + 1),
        }
    }
}

/// The error that reading `nsyms` entries at `symoff` ends in, in an image of
/// `len` bytes.
pub open spec fn table_error(
    len: int,
    symoff: int,
    nsyms: int,
    width: BitWidth,
) -> Option<AppError> {
    if symoff > len {
        Some(AppError::SeekOutOfRange)
    } else if symoff + nsyms * Nlist::spec_size(width) > len {
        Some(AppError::Truncated)
    } else {
        None
    }
}

/// `syms` is the symbol table that `table` locates: empty without a table,
/// else exactly `nsyms` entries back to back from `symoff` on.
pub open spec fn symbols_decoded(
    d: Seq<u8>,
    order: ByteOrder,
    width: BitWidth,
    table: Option<(u32, u32)>,
    syms: Seq<Nlist>,
) -> bool {
    match table {
        None => syms.len() == 0,
        Some((symoff, nsyms)) => {
            &&& syms.len() == nsyms
            &&& forall|j: int|
                0 <= j < nsyms ==> #[trigger] syms[j].decoded_at(
                    d,
                    symoff + j * Nlist::spec_size(width),
                    order,
                    width,
                )
        },
    }
}

/// Reading the fixed fields of a command of family `kind` took the cursor
/// from `prev` to `next` and gave `r`: the command, when all its fixed fields
/// are there, else `Truncated`.
pub open spec fn fixed_fields_read(
    prev: Cursor,
    next: Cursor,
    r: Result<LoadCommand, AppError>,
    prefix: LoadCommandPrefix,
    kind: CommandKind,
    order: ByteOrder,
    width: BitWidth,
) -> bool {
    let size = kind.spec_fixed_size(width) as int;
    &&& next.bytes() == prev.bytes()
    &&& r is Ok <==> prev.has(size)
    &&& r is Ok ==> {
        &&& Cursor::advanced(prev, next, size)
        &&& r->Ok_0.kind() == kind
        &&& r->Ok_0.fits_width(width)
        &&& r->Ok_0.fields_at(prefix, prev.bytes(), prev.offset(), order)
    }
    &&& r is Err ==> r->Err_0 == AppError::Truncated
}

/// The error that decoding the image `d` ends in, or `None` when it decodes.
pub open spec fn decode_error(d: Seq<u8>) -> Option<AppError> {
    if d.len() < 4 {
        Some(AppError::Truncated)
    } else {
        let magic = u32_at(d, 0, ByteOrder::Big);
        match magic_kind(magic) {
            None => Some(AppError::InvalidMagic(magic)),
            Some((order, width)) => {
                if d.len() < header_size(width) {
                    Some(AppError::Truncated)
                } else {
                    let n = MachHeader::spec_at(d, 4, magic, order, width).spec_ncmds();
                    match commands_error(d, order, width, header_size(width), n as nat) {
                        Some(e) => Some(e),
                        None => match symtab_record(d, order, header_size(width), n as nat) {
                            None => None,
                            Some(t) => table_error(
                                d.len() as int,
                                u32_at(d, t + 8, order) as int,
                                u32_at(d, t + 12, order) as int,
                                width,
                            ),
                        },
                    }
                }
            },
        }
    }
}

/// `m` is the document that the image `d` decodes to.
pub open spec fn document_decoded(d: Seq<u8>, m: MachO) -> bool {
    let magic = u32_at(d, 0, ByteOrder::Big);
    let order = magic_kind(magic)->Some_0.0;
    let width = magic_kind(magic)->Some_0.1;
    let header = MachHeader::spec_at(d, 4, magic, order, width);
    &&& magic_kind(magic) is Some
    &&& m.header == Some(header)
    &&& m.load_commands matches Some(lc) && commands_decoded(
        d,
        order,
        width,
        header_size(width),
        header.spec_ncmds() as nat,
        lc.0@,
        lc.1@,
        lc.2@,
    ) && (m.symtab matches Some(syms) && symbols_decoded(
        d,
        order,
        width,
        first_symtab(lc.0@, 0),
        syms@,
    ))
}


// ----- Decoding -----

/// Classifies a magic value: the byte order and word size it announces, or
/// `InvalidMagic` for any value but the four recognized ones.
pub fn check_magic_number(magic: u32) -> (r: Result<(ByteOrder, BitWidth), AppError>)
    ensures
        r == match magic_kind(magic) {
            Some(kind) => Ok(kind),
            None => Err(AppError::InvalidMagic(magic)),
        },
{
    if magic == MH_MAGIC {
        Ok((ByteOrder::Big, BitWidth::W32))
    } else if magic == MH_CIGAM {
        Ok((ByteOrder::Little, BitWidth::W32))
    } else if magic == MH_MAGIC_64 {
        Ok((ByteOrder::Big, BitWidth::W64))
    } else if magic == MH_CIGAM_64 {
        Ok((ByteOrder::Little, BitWidth::W64))
    } else {
        Err(AppError::InvalidMagic(magic))
    }
}

fn parse_header(file: &mut Cursor, magic: u32, order: ByteOrder, width: BitWidth) -> (r: Result<
    MachHeader,
    AppError,
>)
    ensures
        final(file).bytes() == old(file).bytes(),
        r is Ok <==> old(file).has(header_size(width) - 4),
        r is Ok ==> Cursor::advanced(*old(file), *final(file), header_size(width) - 4) && r->Ok_0
            == MachHeader::spec_at(old(file).bytes(), old(file).offset(), magic, order, width),
        r is Err ==> r->Err_0 == AppError::Truncated,
{
    match width {
        BitWidth::W32 => MachHeader32::from_file(file, magic, order),
        BitWidth::W64 => MachHeader64::from_file(file, magic, order),
    }
}

/// Decodes the fixed fields of the command that the opcode of
/// `load_command` dispatches to; an opcode with no decoder is
/// `UnknownLoadCommand`, and nothing is read.
fn parse_command(
    file: &mut Cursor,
    load_command: &LoadCommandPrefix,
    order: ByteOrder,
    width: BitWidth,
) -> (r: Result<LoadCommand, AppError>)
    requires
        old(file).offset() <= old(file).bytes().len(),
    ensures
        match kind_of(load_command.cmd) {
            None => r == Err::<LoadCommand, AppError>(
                AppError::UnknownLoadCommand(load_command.cmd),
            ) && *final(file) == *old(file),
            Some(kind) => fixed_fields_read(
                *old(file),
                *final(file),
                r,
                *load_command,
                kind,
                order,
                width,
            ),
        },
{
    match command_kind(load_command.cmd) {
        Some(kind) => parse_family_command(file, load_command, kind, order, width),
        None => Err(AppError::UnknownLoadCommand(load_command.cmd)),
    }
}

/// Decodes the fixed fields of a command of family `kind`.
fn parse_family_command(
    file: &mut Cursor,
    load_command: &LoadCommandPrefix,
    kind: CommandKind,
    order: ByteOrder,
    width: BitWidth,
) -> (r: Result<LoadCommand, AppError>)
    requires
        old(file).offset() <= old(file).bytes().len(),
    ensures
        fixed_fields_read(*old(file), *final(file), r, *load_command, kind, order, width),
{
    match kind {
        CommandKind::Segment | CommandKind::Routines | CommandKind::EncryptionInfo => {
            parse_width_command(file, load_command, kind, order, width)
        },
        CommandKind::Dylib | CommandKind::SubFramework | CommandKind::SubClient
        | CommandKind::SubUmbrella | CommandKind::SubLibrary | CommandKind::PreboundDylib
        | CommandKind::Dylinker | CommandKind::Rpath => {
            parse_string_command(file, load_command, kind, order, width)
        },
        CommandKind::Symtab | CommandKind::DynSymtab | CommandKind::TwoLevelHints
        | CommandKind::LinkeditData | CommandKind::DyldInfo | CommandKind::Symseg
        | CommandKind::Thread | CommandKind::Ident => {
            parse_table_command(file, load_command, kind, order, width)
        },
        _ => parse_metadata_command(file, load_command, kind, order, width),
    }
}

/// Decodes a command whose layout depends on the word size.
fn parse_width_command(
    file: &mut Cursor,
    load_command: &LoadCommandPrefix,
    kind: CommandKind,
    order: ByteOrder,
    width: BitWidth,
) -> (r: Result<LoadCommand, AppError>)
    requires
        old(file).offset() <= old(file).bytes().len(),
        kind == CommandKind::Segment
            || kind == CommandKind::Routines
            || kind == CommandKind::EncryptionInfo,
    ensures
        fixed_fields_read(*old(file), *final(file), r, *load_command, kind, order, width),
{
    match kind {
        CommandKind::Segment => match width {
            BitWidth::W32 => SegmentCommand32::from_file(file, load_command, order),
            BitWidth::W64 => SegmentCommand64::from_file(file, load_command, order),
        },
        CommandKind::Routines => match width {
            BitWidth::W32 => RoutinesCommand32::from_file(file, load_command, order),
            BitWidth::W64 => RoutinesCommand64::from_file(file, load_command, order),
        },
        _ => match width {
            BitWidth::W32 => EncryptionInfoCommand32::from_file(file, load_command, order),
            BitWidth::W64 => EncryptionInfoCommand64::from_file(file, load_command, order),
        },
    }
}

/// Decodes the fixed fields of a command that carries a trailing string.
fn parse_string_command(
    file: &mut Cursor,
    load_command: &LoadCommandPrefix,
    kind: CommandKind,
    order: ByteOrder,
    width: BitWidth,
) -> (r: Result<LoadCommand, AppError>)
    requires
        old(file).offset() <= old(file).bytes().len(),
        kind == CommandKind::Dylib
            || kind == CommandKind::SubFramework
            || kind == CommandKind::SubClient
            || kind == CommandKind::SubUmbrella
            || kind == CommandKind::SubLibrary
            || kind == CommandKind::PreboundDylib
            || kind == CommandKind::Dylinker
            || kind == CommandKind::Rpath,
    ensures
        fixed_fields_read(*old(file), *final(file), r, *load_command, kind, order, width),
{
    match kind {
        CommandKind::Dylib => DylibCommand::from_file(file, load_command, order),
        CommandKind::SubFramework => SubFrameWorkCommand::from_file(file, load_command, order),
        CommandKind::SubClient => SubClientCommand::from_file(file, load_command, order),
        CommandKind::SubUmbrella => SubUmbrellaCommand::from_file(file, load_command, order),
        CommandKind::SubLibrary => SubLibraryCommand::from_file(file, load_command, order),
        CommandKind::PreboundDylib => PreboundDylibCommand::from_file(file, load_command, order),
        CommandKind::Dylinker => DylinkerCommand::from_file(file, load_command, order),
        _ => RpathCommand::from_file(file, load_command, order),
    }
}

/// Decodes a command that locates tables elsewhere in the image, or one of
/// which only the prefix is kept.
fn parse_table_command(
    file: &mut Cursor,
    load_command: &LoadCommandPrefix,
    kind: CommandKind,
    order: ByteOrder,
    width: BitWidth,
) -> (r: Result<LoadCommand, AppError>)
    requires
        old(file).offset() <= old(file).bytes().len(),
        kind == CommandKind::Symtab
            || kind == CommandKind::DynSymtab
            || kind == CommandKind::TwoLevelHints
            || kind == CommandKind::LinkeditData
            || kind == CommandKind::DyldInfo
            || kind == CommandKind::Symseg
            || kind == CommandKind::Thread
            || kind == CommandKind::Ident,
    ensures
        fixed_fields_read(*old(file), *final(file), r, *load_command, kind, order, width),
{
    match kind {
        CommandKind::Symtab => SymtabCommand::from_file(file, load_command, order),
        CommandKind::DynSymtab => DynSymtabCommand::from_file(file, load_command, order),
        CommandKind::TwoLevelHints => TwoLevelHintsCommand::from_file(file, load_command, order),
        CommandKind::LinkeditData => LinkeditDataCommand::from_file(file, load_command, order),
        CommandKind::DyldInfo => DyldInfoCommand::from_file(file, load_command, order),
        CommandKind::Symseg => SymsegCommand::from_file(file, load_command, order),
        CommandKind::Thread => ThreadCommand::from_file(load_command),
        _ => IdentCommand::from_file(load_command),
    }
}

/// Decodes a command of fixed identification or build metadata.
fn parse_metadata_command(
    file: &mut Cursor,
    load_command: &LoadCommandPrefix,
    kind: CommandKind,
    order: ByteOrder,
    width: BitWidth,
) -> (r: Result<LoadCommand, AppError>)
    requires
        old(file).offset() <= old(file).bytes().len(),
        kind == CommandKind::PrebindCksum
            || kind == CommandKind::Uuid
            || kind == CommandKind::VersionMin
            || kind == CommandKind::BuildVersion
            || kind == CommandKind::LinkerOption
            || kind == CommandKind::EntryPoint
            || kind == CommandKind::SourceVersion
            || kind == CommandKind::Note,
    ensures
        fixed_fields_read(*old(file), *final(file), r, *load_command, kind, order, width),
{
    match kind {
        CommandKind::PrebindCksum => PrebindCksumCommand::from_file(file, load_command, order),
        CommandKind::Uuid => UuidCommand::from_file(file, load_command, order),
        CommandKind::VersionMin => VersionMinCommand::from_file(file, load_command, order),
        CommandKind::BuildVersion => BuildVersionCommand::from_file(file, load_command, order),
        CommandKind::LinkerOption => LinkerOptionCommand::from_file(file, load_command, order),
        CommandKind::EntryPoint => EntryPointCommand::from_file(file, load_command, order),
        CommandKind::SourceVersion => SourceVersionCommand::from_file(file, load_command, order),
        _ => NoteCommand::from_file(file, load_command, order),
    }
}

/// The bytes of a record that remain after the position `file_offset`:
/// `(lc_offset + lc_size) - file_offset`, or `MalformedRecord` when that is
/// negative.
pub fn get_load_command_remaining_size(lc_offset: u64, lc_size: u64, file_offset: u64) -> (r:
    Result<u64, AppError>)
    requires
        lc_offset + lc_size <= u64::MAX,
    ensures
        r is Ok <==> file_offset <= lc_offset + lc_size,
        r is Ok ==> r->Ok_0 == lc_offset + lc_size - file_offset,
        r is Err ==> r->Err_0 == AppError::MalformedRecord,
{
    let end = lc_offset + lc_size;
    if file_offset <= end {
        Ok(end - file_offset)
    } else {
        Err(AppError::MalformedRecord)
    }
}


/// Decodes the sections of a segment: exactly as many records as the segment
/// declares, back to back, in the layout of `width`. Other commands own none.
fn parse_sections_for_segment(
    file: &mut Cursor,
    load_command: &LoadCommand,
    order: ByteOrder,
    width: BitWidth,
) -> (r: Result<Vec<Section>, AppError>)
    requires
        old(file).offset() <= old(file).bytes().len(),
        load_command.fits_width(width),
    ensures
        final(file).bytes() == old(file).bytes(),
        r is Ok <==> old(file).has(sections_of(*load_command) * Section::spec_size(width)),
        r is Ok ==> {
            &&& Cursor::advanced(
                *old(file),
                *final(file),
                sections_of(*load_command) * Section::spec_size(width),
            )
            &&& r->Ok_0@.len() == sections_of(*load_command)
            &&& forall|j: int|
                0 <= j < r->Ok_0@.len() ==> (#[trigger] r->Ok_0@[j] is SEC32 <==> *load_command
                    matches LoadCommand::SegmentCommand(SegmentCommand::SEG32(_)))
            &&& forall|j: int|
                0 <= j < r->Ok_0@.len() ==> #[trigger] r->Ok_0@[j].decoded_at(
                    old(file).bytes(),
                    old(file).offset() + j * Section::spec_size(width),
                    order,
                    width,
                )
        },
        r is Err ==> r->Err_0 == AppError::Truncated,
{
    let mut load_command_sections: Vec<Section> = Vec::new();
    let ghost d = file.bytes();
    let ghost start = file.offset();
    match load_command {
        LoadCommand::SegmentCommand(SegmentCommand::SEG32(command)) => {
            let mut i: u32 = 0;
            while i < command.nsects
                invariant
                    d == old(file).bytes(),
                    start == old(file).offset(),
                    sections_of(*load_command) == command.nsects,
                    file.bytes() == d,
                    file.offset() == start + i * 68,
                    forall|j: int| 0 <= j < i ==> #[trigger] load_command_sections@[j] is SEC32,
                    file.offset() <= d.len(),
                    width == BitWidth::W32,
                    i <= command.nsects,
                    load_command_sections@.len() == i,
                    forall|j: int|
                        0 <= j < i ==> #[trigger] load_command_sections@[j].decoded_at(
                            d,
                            start + j * 68,
                            order,
                            width,
                        ),
                decreases command.nsects - i,
            {
                let section = Section32::from_file(file, order)?;
                load_command_sections.push(Section::SEC32(section));
                i = i + 1;
            }
        },
        LoadCommand::SegmentCommand(SegmentCommand::SEG64(command)) => {
            let mut i: u32 = 0;
            while i < command.nsects
                invariant
                    d == old(file).bytes(),
                    start == old(file).offset(),
                    sections_of(*load_command) == command.nsects,
                    file.bytes() == d,
                    file.offset() == start + i * 80,
                    forall|j: int| 0 <= j < i ==> #[trigger] load_command_sections@[j] is SEC64,
                    file.offset() <= d.len(),
                    width == BitWidth::W64,
                    i <= command.nsects,
                    load_command_sections@.len() == i,
                    forall|j: int|
                        0 <= j < i ==> #[trigger] load_command_sections@[j].decoded_at(
                            d,
                            start + j * 80,
                            order,
                            width,
                        ),
                decreases command.nsects - i,
            {
                let section = Section64::from_file(file, order)?;
                load_command_sections.push(Section::SEC64(section));
                i = i + 1;
            }
        },
        _ => {},
    }
    Ok(load_command_sections)
}

/// Extracts the trailing string of a command whose family carries one: the
/// raw bytes from the cursor to the end of the record that starts at
/// `lc_offset` and is `cmdsize` bytes long. Other commands get no bytes.
fn parse_load_command_string(
    file: &mut Cursor,
    load_command: &LoadCommand,
    lc_offset: usize,
    cmdsize: u32,
) -> (r: Result<Vec<u8>, AppError>)
    ensures
        final(file).bytes() == old(file).bytes(),
        !load_command.kind().carries_string() ==> (r matches Ok(v) && v@.len() == 0
            && *final(file) == *old(file)),
        load_command.kind().carries_string() ==> {
            let end = lc_offset + cmdsize;
            if end < old(file).offset() {
                r matches Err(e) && e == AppError::MalformedRecord && *final(file) == *old(file)
            } else if end > old(file).bytes().len() {
                r matches Err(e) && e == AppError::Truncated && *final(file) == *old(file)
            } else {
                r matches Ok(v) && v@ == old(file).bytes().subrange(old(file).offset(), end)
                    && final(file).offset() == end
            }
        },
{
    let load_command_string: Vec<u8> = Vec::new();
    let kind = match load_command {
        LoadCommand::DylibCommand(_) => CommandKind::Dylib,
        LoadCommand::SubFrameWorkCommand(_) => CommandKind::SubFramework,
        LoadCommand::SubClientCommand(_) => CommandKind::SubClient,
        LoadCommand::SubUmbrellaCommand(_) => CommandKind::SubUmbrella,
        LoadCommand::SubLibraryCommand(_) => CommandKind::SubLibrary,
        LoadCommand::PreboundDylibCommand(_) => CommandKind::PreboundDylib,
        LoadCommand::DylinkerCommand(_) => CommandKind::Dylinker,
        LoadCommand::RpathCommand(_) => CommandKind::Rpath,
        _ => return Ok(load_command_string),
    };
    assert(kind == load_command.kind());
    let position = get_file_offset(file);
    // An end past every u64 lies past the end of the image.
    let end = match (lc_offset as u64).checked_add(cmdsize as u64) {
        Some(end) => end,
        None => return Err(AppError::Truncated),
    };
    let remaining_size = get_load_command_remaining_size(
        end - cmdsize as u64,
        cmdsize as u64,
        position as u64,
    )?;
    if remaining_size > usize::MAX as u64 {
        return Err(AppError::Truncated);
    }
    file.read_exact(remaining_size as usize)
}


/// Decodes the load command at the cursor: its prefix, the fixed fields of
/// the family its opcode dispatches to, a segment's sections and a trailing
/// string; then moves to the start of the next record by the declared
/// length, whatever was read.
fn parse_load_command(file: &mut Cursor, order: ByteOrder, width: BitWidth) -> (r: Result<
    (LoadCommand, Vec<Section>, Vec<u8>),
    AppError,
>)
    ensures
        final(file).bytes() == old(file).bytes(),
        match r {
            Ok((c, secs, string)) => {
                &&& record_error(old(file).bytes(), old(file).offset(), order, width) is None
                &&& record_decoded(
                    old(file).bytes(),
                    old(file).offset(),
                    order,
                    width,
                    c,
                    secs@,
                    string@,
                )
                &&& final(file).offset() == next_record(
                    old(file).bytes(),
                    old(file).offset(),
                    order,
                )
            },
            Err(e) => {
                &&& record_error(old(file).bytes(), old(file).offset(), order, width) == Some(e)
                &&& e is UnknownLoadCommand ==> final(file).offset() == old(file).offset() + 8
            },
        },
{
    let ghost d = file.bytes();
    let offset = get_file_offset(file);
    let load_command_prefix = LoadCommandPrefix::from_file(file, order)?;
    let kind = match command_kind(load_command_prefix.cmd) {
        Some(kind) => kind,
        None => return Err(AppError::UnknownLoadCommand(load_command_prefix.cmd)),
    };
    let fixed = 8 + kind.fixed_size(width);
    if load_command_prefix.cmdsize < fixed {
        return Err(AppError::MalformedRecord);
    }
    let load_command = parse_command(file, &load_command_prefix, order, width)?;
    if let LoadCommand::SegmentCommand(segment) = &load_command {
        let nsects = segment.nsects() as u64;
        let section_size = Section::size(width) as u64;
        assert(nsects * section_size <= 0xffff_ffff * 80) by (nonlinear_arith)
            requires
                nsects <= 0xffff_ffff,
                section_size <= 80,
        ;
        if nsects * section_size > (load_command_prefix.cmdsize - fixed) as u64 {
            return Err(AppError::MalformedRecord);
        }
    }
    let load_command_sections = parse_sections_for_segment(file, &load_command, order, width)?;
    let load_command_string = parse_load_command_string(
        file,
        &load_command,
        offset,
        load_command_prefix.cmdsize,
    )?;
    advance_to_next_load_command(file, offset, load_command_prefix.cmdsize)?;
    proof {
        if !kind.carries_string() {
            assert(load_command_string@ =~= Seq::<u8>::empty());
        }
    }
    Ok((load_command, load_command_sections, load_command_string))
}


/// Decodes the `ncmds` load commands that follow the header, each found at
/// the end of the one before by its declared length.
fn parse_load_commands(
    file: &mut Cursor,
    header: &MachHeader,
    order: ByteOrder,
    width: BitWidth,
) -> (r: Result<(Vec<LoadCommand>, Vec<Vec<Section>>, Vec<Vec<u8>>), AppError>)
    ensures
        final(file).bytes() == old(file).bytes(),
        match commands_error(
            old(file).bytes(),
            order,
            width,
            old(file).offset(),
            header.spec_ncmds() as nat,
        ) {
            Some(e) => r matches Err(x) && x == e,
            None => r matches Ok(lc) && commands_decoded(
                old(file).bytes(),
                order,
                width,
                old(file).offset(),
                header.spec_ncmds() as nat,
                lc.0@,
                lc.1@,
                lc.2@,
            ),
        },
        r matches Ok(lc) ==> {
            &&& lc.0@.len() == header.spec_ncmds()
            &&& lc.1@.len() == header.spec_ncmds()
            &&& lc.2@.len() == header.spec_ncmds()
            &&& final(file).offset() == record_start(
                old(file).bytes(),
                order,
                old(file).offset(),
                header.spec_ncmds() as nat,
            )
        },
{
    let ghost d = file.bytes();
    let ghost first = file.offset();
    let n = header.ncmds();
    let mut load_commands: Vec<LoadCommand> = Vec::new();
    let mut sections: Vec<Vec<Section>> = Vec::new();
    let mut load_commands_strings: Vec<Vec<u8>> = Vec::new();
    let mut i: u32 = 0;
    while i < n
        invariant
            d == old(file).bytes(),
            first == old(file).offset(),
            n == header.spec_ncmds(),
            file.bytes() == d,
            i <= n,
            file.offset() == record_start(d, order, first, i as nat),
            commands_error(d, order, width, first, n as nat) == commands_error(
                d,
                order,
                width,
                file.offset(),
                (n - i) as nat,
            ),
            load_commands@.len() == i,
            sections@.len() == i,
            load_commands_strings@.len() == i,
            forall|k: int|
                0 <= k < i ==> #[trigger] record_decoded(
                    d,
                    record_start(d, order, first, k as nat),
                    order,
                    width,
                    load_commands@[k],
                    sections@[k]@,
                    load_commands_strings@[k]@,
                ),
        decreases n - i,
    {
        let (load_command, load_command_sections, load_command_string) = parse_load_command(
            file,
            order,
            width,
        )?;
        load_commands.push(load_command);
        sections.push(load_command_sections);
        load_commands_strings.push(load_command_string);
        i = i + 1;
    }
    Ok((load_commands, sections, load_commands_strings))
}

/// Reads `nsyms` symbol-table entries from `symoff` on.
fn parse_symbols(
    file: &mut Cursor,
    symoff: u32,
    nsyms: u32,
    order: ByteOrder,
    width: BitWidth,
) -> (r: Result<Symtab, AppError>)
    ensures
        final(file).bytes() == old(file).bytes(),
        match table_error(old(file).bytes().len() as int, symoff as int, nsyms as int, width) {
            Some(e) => r matches Err(x) && x == e,
            None => r matches Ok(syms) && symbols_decoded(
                old(file).bytes(),
                order,
                width,
                Some((symoff, nsyms)),
                syms@,
            ) && final(file).offset() == symoff + nsyms * Nlist::spec_size(width),
        },
{
    let ghost d = file.bytes();
    let ghost size = Nlist::spec_size(width) as int;
    file.seek(symoff as usize)?;
    let mut symtab: Symtab = Vec::new();
    let mut j: u32 = 0;
    while j < nsyms
        invariant
            d == old(file).bytes(),
            size == Nlist::spec_size(width),
            file.bytes() == d,
            j <= nsyms,
            file.offset() == symoff + j * size,
            file.offset() <= d.len(),
            symtab@.len() == j,
            forall|k: int|
                0 <= k < j ==> #[trigger] symtab@[k].decoded_at(d, symoff + k * size, order, width),
        decreases nsyms - j,
    {
        let entry = match Nlist::from_file(file, order, width) {
            Ok(entry) => entry,
            Err(e) => {
                assert(j * size + size <= nsyms * size) by (nonlinear_arith)
                    requires
                        j < nsyms,
                        size >= 0,
                ;
                return Err(e);
            },
        };
        symtab.push(entry);
        assert((j + 1) * size == j * size + size) by (nonlinear_arith);
        j = j + 1;
    }
    Ok(symtab)
}

/// Locates the first symbol-table command among the decoded commands and
/// reads the entries it declares; without one, the table is empty.
fn parse_symtab(
    file: &mut Cursor,
    load_commands: &Vec<LoadCommand>,
    order: ByteOrder,
    width: BitWidth,
) -> (r: Result<Symtab, AppError>)
    ensures
        final(file).bytes() == old(file).bytes(),
        match first_symtab(load_commands@, 0) {
            None => r matches Ok(syms) && syms@.len() == 0 && *final(file) == *old(file),
            Some((symoff, nsyms)) => match table_error(
                old(file).bytes().len() as int,
                symoff as int,
                nsyms as int,
                width,
            ) {
                Some(e) => r matches Err(x) && x == e,
                None => r matches Ok(syms) && symbols_decoded(
                    old(file).bytes(),
                    order,
                    width,
                    Some((symoff, nsyms)),
                    syms@,
                ) && final(file).offset() == symoff + nsyms * Nlist::spec_size(width),
            },
        },
{
    let mut i: usize = 0;
    while i < load_commands.len()
        invariant
            i <= load_commands@.len(),
            first_symtab(load_commands@, 0) == first_symtab(load_commands@, i as int),
            *file == *old(file),
        decreases load_commands@.len() - i,
    {
        if let LoadCommand::SymtabCommand(command) = &load_commands[i] {
            return parse_symbols(file, command.symoff, command.nsyms, order, width);
        }
        i = i + 1;
    }
    Ok(Vec::new())
}


/// Over a run of decoded records, the first symbol-table command among the
/// decoded commands (from index `k` on) is the one that scanning the bytes
/// finds.
proof fn lemma_symtab_located(
    d: Seq<u8>,
    order: ByteOrder,
    width: BitWidth,
    first: int,
    n: nat,
    cmds: Seq<LoadCommand>,
    secs: Seq<Vec<Section>>,
    strings: Seq<Vec<u8>>,
    k: nat,
)
    requires
        commands_decoded(d, order, width, first, n, cmds, secs, strings),
        k <= n,
    ensures
        first_symtab(cmds, k as int) == match symtab_record(
            d,
            order,
            record_start(d, order, first, k),
            (n - k) as nat,
        ) {
            None => None,
            Some(t) => Some((u32_at(d, t + 8, order), u32_at(d, t + 12, order))),
        },
    decreases n - k,
{
    if k < n {
        lemma_symtab_located(d, order, width, first, n, cmds, secs, strings, k + 1);
        let s = record_start(d, order, first, k);
        assert(record_decoded(
            d,
            s,
            order,
            width,
            cmds[k as int],
            secs[k as int]@,
            strings[k as int]@,
        ));
        assert(record_start(d, order, first, k + 1) == next_record(d, s, order));
        assert(s + 8 + 4 == s + 12);
    }
}

/// Decodes the header fields, the load commands and the symbol table of an
/// image whose magic, already read, announces `order` and `width`.
fn parse_with_endian(
    file: &mut Cursor,
    magic: u32,
    order: ByteOrder,
    width: BitWidth,
) -> (r: Result<
    MachO,
    AppError,
>)
    requires
        old(file).offset() == 4,
        old(file).bytes().len() >= 4,
        magic == u32_at(old(file).bytes(), 0, ByteOrder::Big),
        magic_kind(magic) == Some((order, width)),
    ensures
        final(file).bytes() == old(file).bytes(),
        match r {
            Ok(m) => decode_error(old(file).bytes()) is None && document_decoded(
                old(file).bytes(),
                m,
            ),
            Err(e) => decode_error(old(file).bytes()) == Some(e),
        },
{
    let ghost d = file.bytes();
    let mut mach_o = MachO::new();
    let header = parse_header(file, magic, order, width)?;
    let load_commands = parse_load_commands(file, &header, order, width)?;
    proof {
        lemma_symtab_located(
            d,
            order,
            width,
            header_size(width),
            header.spec_ncmds() as nat,
            load_commands.0@,
            load_commands.1@,
            load_commands.2@,
            0,
        );
    }
    let symtab = parse_symtab(file, &load_commands.0, order, width)?;
    mach_o.header = Some(header);
    mach_o.load_commands = Some(load_commands);
    mach_o.symtab = Some(symtab);
    Ok(mach_o)
}

/// Decodes a whole image from a cursor at its start: the header, whose magic
/// fixes byte order and word size for every later read, the load commands
/// and the symbol table. The first error ends the decode.
pub fn parse(file: &mut Cursor) -> (r: Result<MachO, AppError>)
    requires
        old(file).offset() == 0,
    ensures
        final(file).bytes() == old(file).bytes(),
        r is Ok <==> decode_error(old(file).bytes()) is None,
        match r {
            Ok(m) => document_decoded(old(file).bytes(), m),
            Err(e) => decode_error(old(file).bytes()) == Some(e),
        },
{
    let magic = file.read_u32(ByteOrder::Big)?;
    let (order, width) = check_magic_number(magic)?;
    parse_with_endian(file, magic, order, width)
}

/// Decodes a whole image held in memory.
pub fn decode(data: Vec<u8>) -> (r: Result<MachO, AppError>)
    ensures
        r is Ok <==> decode_error(data@) is None,
        match r {
            Ok(m) => document_decoded(data@, m),
            Err(e) => decode_error(data@) == Some(e),
        },
{
    let mut file = Cursor::new(data);
    parse(&mut file)
}

} // verus!
