use crate::constants::{LC_SYMTAB, MH_CIGAM, MH_CIGAM_64, MH_MAGIC, MH_MAGIC_64};
use crate::cursor::{i16_at, i32_at, u16_at, u32_at, u64_at, BitWidth, ByteOrder};
use crate::error::AppError;
use crate::header::{header_size, magic_kind, MachHeader};
use crate::load_commands::{
    CommandKind, EncryptionInfoCommand, LoadCommand, LoadCommandPrefix, RoutinesCommand, Section,
    SegmentCommand,
};
use crate::mach_o::MachO;
use crate::symbols::Nlist;
use crate::load_commands::kind_of;
use crate::parser::{
    commands_decoded, commands_error, decode_error, document_decoded, first_symtab,
    record_decoded, record_start, section_count, symtab_record,
};
use vstd::prelude::*;

verus! {

/// The byte order and word size of a decoded image, as its magic announces.
pub open spec fn layout_of(d: Seq<u8>) -> (ByteOrder, BitWidth) {
    magic_kind(u32_at(d, 0, ByteOrder::Big))->Some_0
}

/// The number of load commands that the decoded header of `doc` declares.
pub open spec fn declared_commands(doc: MachO) -> nat {
    doc.header->Some_0.spec_ncmds() as nat
}

/// The start of load command `i` of the image `d`.
pub open spec fn command_start(d: Seq<u8>, i: nat) -> int {
    record_start(d, layout_of(d).0, header_size(layout_of(d).1), i)
}

/// Command `i` of a decoded document is what the record at its start decodes
/// to.
proof fn lemma_command_at(d: Seq<u8>, doc: MachO, i: int)
    requires
        document_decoded(d, doc),
        0 <= i < declared_commands(doc),
    ensures
        record_decoded(
            d,
            command_start(d, i as nat),
            layout_of(d).0,
            layout_of(d).1,
            doc.load_commands->Some_0.0@[i],
            doc.load_commands->Some_0.1@[i]@,
            doc.load_commands->Some_0.2@[i]@,
        ),
{
    let lc = doc.load_commands->Some_0;
    assert(commands_decoded(
        d,
        layout_of(d).0,
        layout_of(d).1,
        header_size(layout_of(d).1),
        declared_commands(doc),
        lc.0@,
        lc.1@,
        lc.2@,
    ));
    assert(record_decoded(
        d,
        record_start(d, layout_of(d).0, header_size(layout_of(d).1), i as nat),
        layout_of(d).0,
        layout_of(d).1,
        lc.0@[i],
        lc.1@[i]@,
        lc.2@[i]@,
    ));
}

/// Each of the four magic values selects its byte order and word size: the
/// header of the decoded document holds the fields read in that order, in
/// that word size's layout.
pub proof fn lemma_magic_selects_layout(d: Seq<u8>, doc: MachO)
    requires
        document_decoded(d, doc),
    ensures
        u32_at(d, 0, ByteOrder::Big) == MH_MAGIC ==> doc.header == Some(
            MachHeader::spec_at(d, 4, MH_MAGIC, ByteOrder::Big, BitWidth::W32),
        ),
        u32_at(d, 0, ByteOrder::Big) == MH_CIGAM ==> doc.header == Some(
            MachHeader::spec_at(d, 4, MH_CIGAM, ByteOrder::Little, BitWidth::W32),
        ),
        u32_at(d, 0, ByteOrder::Big) == MH_MAGIC_64 ==> doc.header == Some(
            MachHeader::spec_at(d, 4, MH_MAGIC_64, ByteOrder::Big, BitWidth::W64),
        ),
        u32_at(d, 0, ByteOrder::Big) == MH_CIGAM_64 ==> doc.header == Some(
            MachHeader::spec_at(d, 4, MH_CIGAM_64, ByteOrder::Little, BitWidth::W64),
        ),
{
}

/// An image whose first four bytes are none of the four magic values fails
/// with `InvalidMagic`, carrying the value read.
pub proof fn lemma_unknown_magic_rejected(d: Seq<u8>)
    requires
        d.len() >= 4,
        u32_at(d, 0, ByteOrder::Big) != MH_MAGIC,
        u32_at(d, 0, ByteOrder::Big) != MH_CIGAM,
        u32_at(d, 0, ByteOrder::Big) != MH_MAGIC_64,
        u32_at(d, 0, ByteOrder::Big) != MH_CIGAM_64,
    ensures
        decode_error(d) == Some(AppError::InvalidMagic(u32_at(d, 0, ByteOrder::Big))),
{
}

/// A decoded document holds exactly as many load commands as its header
/// declares, and one section list and one string per command.
pub proof fn lemma_command_count(d: Seq<u8>, doc: MachO)
    requires
        document_decoded(d, doc),
    ensures
        doc.load_commands->Some_0.0@.len() == declared_commands(doc),
        doc.load_commands->Some_0.1@.len() == declared_commands(doc),
        doc.load_commands->Some_0.2@.len() == declared_commands(doc),
{
}

/// Command `i + 1` is decoded from where command `i` starts plus the byte
/// length that command `i` declares, however many bytes its decoder read.
pub proof fn lemma_resynchronization(d: Seq<u8>, doc: MachO, i: nat)
    requires
        document_decoded(d, doc),
        i + 1 < declared_commands(doc),
    ensures
        command_start(d, (i + 1) as nat) == command_start(d, i)
            + doc.load_commands->Some_0.0@[i as int].spec_prefix().cmdsize,
        record_decoded(
            d,
            command_start(d, i) + doc.load_commands->Some_0.0@[i as int].spec_prefix().cmdsize,
            layout_of(d).0,
            layout_of(d).1,
            doc.load_commands->Some_0.0@[i + 1 as int],
            doc.load_commands->Some_0.1@[i + 1 as int]@,
            doc.load_commands->Some_0.2@[i + 1 as int]@,
        ),
{
    lemma_command_at(d, doc, i as int);
    lemma_command_at(d, doc, i + 1 as int);
}

/// A segment owns exactly as many sections as it declares, each in the
/// layout of the image's word size.
pub proof fn lemma_segment_sections(d: Seq<u8>, doc: MachO, i: nat)
    requires
        document_decoded(d, doc),
        i < declared_commands(doc),
        doc.load_commands->Some_0.0@[i as int] is SegmentCommand,
    ensures
        doc.load_commands->Some_0.1@[i as int]@.len()
            == doc.load_commands->Some_0.0@[i as int]->SegmentCommand_0.spec_nsects(),
        forall|j: int|
            0 <= j < doc.load_commands->Some_0.1@[i as int]@.len() ==> (
            #[trigger] doc.load_commands->Some_0.1@[i as int]@[j] is SEC32 <==> layout_of(d).1
                == BitWidth::W32),
{
    let lc = doc.load_commands->Some_0;
    let s = command_start(d, i);
    lemma_command_at(d, doc, i as int);
    assert forall|j: int| 0 <= j < lc.1@[i as int]@.len() implies (
    #[trigger] lc.1@[i as int]@[j] is SEC32 <==> layout_of(d).1 == BitWidth::W32) by {
        let fixed = 8 + lc.0@[i as int].kind().spec_fixed_size(layout_of(d).1);
        assert(lc.1@[i as int]@[j].decoded_at(
            d,
            s + fixed + j * Section::spec_size(layout_of(d).1),
            layout_of(d).0,
            layout_of(d).1,
        ));
    }
}

/// The trailing string of a command that carries one is as long as the
/// record's declared length less its prefix and fixed fields; a record no
/// longer than those carries an empty string.
pub proof fn lemma_trailing_string_length(d: Seq<u8>, doc: MachO, i: nat)
    requires
        document_decoded(d, doc),
        i < declared_commands(doc),
        doc.load_commands->Some_0.0@[i as int].kind().carries_string(),
    ensures
        doc.load_commands->Some_0.2@[i as int]@.len()
            == doc.load_commands->Some_0.0@[i as int].spec_prefix().cmdsize - (8
            + doc.load_commands->Some_0.0@[i as int].kind().spec_fixed_size(layout_of(d).1)),
        doc.load_commands->Some_0.0@[i as int].spec_prefix().cmdsize == 8
            + doc.load_commands->Some_0.0@[i as int].kind().spec_fixed_size(layout_of(d).1)
            ==> doc.load_commands->Some_0.2@[i as int]@.len() == 0,
{
    lemma_command_at(d, doc, i as int);
}

proof fn lemma_no_symtab_from(cmds: Seq<LoadCommand>, i: int)
    requires
        0 <= i <= cmds.len(),
        forall|k: int| 0 <= k < cmds.len() ==> !(#[trigger] cmds[k] is SymtabCommand),
    ensures
        first_symtab(cmds, i) is None,
    decreases cmds.len() - i,
{
    if i < cmds.len() {
        lemma_no_symtab_from(cmds, i + 1);
    }
}

/// A document none of whose load commands has the symbol-table opcode has an
/// empty symbol table.
pub proof fn lemma_no_symtab_empty_symbols(d: Seq<u8>, doc: MachO)
    requires
        document_decoded(d, doc),
        forall|k: int|
            0 <= k < doc.load_commands->Some_0.0@.len() ==> (
            #[trigger] doc.load_commands->Some_0.0@[k]).spec_prefix().cmd != LC_SYMTAB,
    ensures
        doc.symtab->Some_0@.len() == 0,
{
    let cmds = doc.load_commands->Some_0.0@;
    lemma_command_count(d, doc);
    assert forall|k: int| 0 <= k < cmds.len() implies !(#[trigger] cmds[k] is SymtabCommand) by {
        lemma_command_at(d, doc, k);
        assert(cmds[k].spec_prefix().cmd != LC_SYMTAB);
    }
    lemma_no_symtab_from(cmds, 0);
}

/// An image whose header and load commands decode, and none of whose load
/// commands is a symbol-table command, decodes without error.
pub proof fn lemma_no_symtab_decodes(d: Seq<u8>)
    requires
        d.len() >= 4,
        magic_kind(u32_at(d, 0, ByteOrder::Big)) is Some,
        d.len() >= header_size(layout_of(d).1),
        commands_error(
            d,
            layout_of(d).0,
            layout_of(d).1,
            header_size(layout_of(d).1),
            MachHeader::spec_at(
                d,
                4,
                u32_at(d, 0, ByteOrder::Big),
                layout_of(d).0,
                layout_of(d).1,
            ).spec_ncmds() as nat,
        ) is None,
        symtab_record(
            d,
            layout_of(d).0,
            header_size(layout_of(d).1),
            MachHeader::spec_at(
                d,
                4,
                u32_at(d, 0, ByteOrder::Big),
                layout_of(d).0,
                layout_of(d).1,
            ).spec_ncmds() as nat,
        ) is None,
    ensures
        decode_error(d) is None,
{
}

/// An image that ends inside its header fails with `Truncated`: shorter than
/// the magic, or shorter than the header that a recognized magic announces.
pub proof fn lemma_truncated_header(d: Seq<u8>)
    requires
        d.len() < 4 || (magic_kind(u32_at(d, 0, ByteOrder::Big)) is Some && d.len() < header_size(
            layout_of(d).1,
        )),
    ensures
        decode_error(d) == Some(AppError::Truncated),
{
}


/// The `n` bytes of `b` at `q` are the `n` bytes of `a` at `p` in reverse
/// order.
pub open spec fn mirrored(a: Seq<u8>, p: int, b: Seq<u8>, q: int, n: int) -> bool {
    forall|k: int| 0 <= k < n ==> #[trigger] b[q + k] == a[p + n - 1 - k]
}

/// A 16-bit field read most significant byte first from `a` holds the same
/// value as its mirror image read least significant byte first from `b`.
pub proof fn lemma_u16_order_symmetry(a: Seq<u8>, p: int, b: Seq<u8>, q: int)
    requires
        mirrored(a, p, b, q, 2),
    ensures
        u16_at(a, p, ByteOrder::Big) == u16_at(b, q, ByteOrder::Little),
        i16_at(a, p, ByteOrder::Big) == i16_at(b, q, ByteOrder::Little),
{
    assert(b[q + 0] == a[p + 1]);
    assert(b[q + 1] == a[p + 0]);
    reveal(u16_at);
    reveal(i16_at);
}

/// A 32-bit field read most significant byte first from `a` holds the same
/// value as its mirror image read least significant byte first from `b`.
pub proof fn lemma_u32_order_symmetry(a: Seq<u8>, p: int, b: Seq<u8>, q: int)
    requires
        mirrored(a, p, b, q, 4),
    ensures
        u32_at(a, p, ByteOrder::Big) == u32_at(b, q, ByteOrder::Little),
        i32_at(a, p, ByteOrder::Big) == i32_at(b, q, ByteOrder::Little),
{
    assert(b[q + 0] == a[p + 3]);
    assert(b[q + 1] == a[p + 2]);
    assert(b[q + 2] == a[p + 1]);
    assert(b[q + 3] == a[p + 0]);
    reveal(u32_at);
    reveal(i32_at);
}

/// A 64-bit field read most significant byte first from `a` holds the same
/// value as its mirror image read least significant byte first from `b`.
pub proof fn lemma_u64_order_symmetry(a: Seq<u8>, p: int, b: Seq<u8>, q: int)
    requires
        mirrored(a, p, b, q, 8),
    ensures
        u64_at(a, p, ByteOrder::Big) == u64_at(b, q, ByteOrder::Little),
{
    assert forall|k: int| 0 <= k < 4 implies #[trigger] b[q + k] == a[p + 4 + 4 - 1 - k] by {
        assert(b[q + k] == a[p + 8 - 1 - k]);
    }
    assert forall|k: int| 0 <= k < 4 implies #[trigger] b[q + 4 + k] == a[p + 4 - 1 - k] by {
        assert(b[q + (4 + k)] == a[p + 8 - 1 - (4 + k)]);
    }
    lemma_u32_order_symmetry(a, p + 4, b, q);
    lemma_u32_order_symmetry(a, p, b, q + 4);
    reveal(u64_at);
}

/// Two headers agree in every field but the magic.
pub open spec fn same_header_fields(x: MachHeader, y: MachHeader) -> bool {
    match (x, y) {
        (MachHeader::MH32(h), MachHeader::MH32(g)) => {
            &&& h.cputype == g.cputype
            &&& h.cpusubtype == g.cpusubtype
            &&& h.filetype == g.filetype
            &&& h.ncmds == g.ncmds
            &&& h.sizeofcmds == g.sizeofcmds
            &&& h.flags == g.flags
        },
        (MachHeader::MH64(h), MachHeader::MH64(g)) => {
            &&& h.cputype == g.cputype
            &&& h.cpusubtype == g.cpusubtype
            &&& h.filetype == g.filetype
            &&& h.ncmds == g.ncmds
            &&& h.sizeofcmds == g.sizeofcmds
            &&& h.flags == g.flags
            &&& h.reserved == g.reserved
        },
        _ => false,
    }
}

/// An image stored most significant byte first and one stored least
/// significant byte first, of the same word size, whose header fields hold
/// the same values (each field's bytes reversed from one image to the
/// other), decode to headers that agree in every field but the magic.
pub proof fn lemma_header_order_symmetry(a: Seq<u8>, da: MachO, b: Seq<u8>, db: MachO)
    requires
        document_decoded(a, da),
        document_decoded(b, db),
        layout_of(a).0 == ByteOrder::Big,
        layout_of(b).0 == ByteOrder::Little,
        layout_of(a).1 == layout_of(b).1,
        forall|f: int|
            0 <= f < (header_size(layout_of(a).1) - 4) / 4 ==> #[trigger] mirrored(
                a,
                4 + 4 * f,
                b,
                4 + 4 * f,
                4,
            ),
    ensures
        same_header_fields(da.header->Some_0, db.header->Some_0),
{
    lemma_u32_order_symmetry(a, 4 + 4 * 0int, b, 4 + 4 * 0int);
    lemma_u32_order_symmetry(a, 4 + 4 * 1int, b, 4 + 4 * 1int);
    lemma_u32_order_symmetry(a, 4 + 4 * 2int, b, 4 + 4 * 2int);
    lemma_u32_order_symmetry(a, 4 + 4 * 3int, b, 4 + 4 * 3int);
    lemma_u32_order_symmetry(a, 4 + 4 * 4int, b, 4 + 4 * 4int);
    lemma_u32_order_symmetry(a, 4 + 4 * 5int, b, 4 + 4 * 5int);
    if layout_of(a).1 == BitWidth::W64 {
        lemma_u32_order_symmetry(a, 4 + 4 * 6int, b, 4 + 4 * 6int);
    }
}

/// The fixed fields of a record of family `kind`, from `p` on, hold the same
/// values in `a` and `b`: each integer field's bytes reversed from one image
/// to the other, raw names and single bytes equal.
pub open spec fn fields_mirrored(
    a: Seq<u8>,
    b: Seq<u8>,
    p: int,
    kind: CommandKind,
    width: BitWidth,
) -> bool {
    match kind {
        CommandKind::Segment => if width == BitWidth::W32 {
            a.subrange(p, p + 16) == b.subrange(p, p + 16)
                && mirrored(a, p + 16, b, p + 16, 4)
                && mirrored(a, p + 20, b, p + 20, 4)
                && mirrored(a, p + 24, b, p + 24, 4)
                && mirrored(a, p + 28, b, p + 28, 4)
                && mirrored(a, p + 32, b, p + 32, 4)
                && mirrored(a, p + 36, b, p + 36, 4)
                && mirrored(a, p + 40, b, p + 40, 4)
                && mirrored(a, p + 44, b, p + 44, 4)
        } else {
            a.subrange(p, p + 16) == b.subrange(p, p + 16)
                && mirrored(a, p + 16, b, p + 16, 8)
                && mirrored(a, p + 24, b, p + 24, 8)
                && mirrored(a, p + 32, b, p + 32, 8)
                && mirrored(a, p + 40, b, p + 40, 8)
                && mirrored(a, p + 48, b, p + 48, 4)
                && mirrored(a, p + 52, b, p + 52, 4)
                && mirrored(a, p + 56, b, p + 56, 4)
                && mirrored(a, p + 60, b, p + 60, 4)
        },
        CommandKind::Dylib => mirrored(a, p, b, p, 4)
            && mirrored(a, p + 4, b, p + 4, 4)
            && mirrored(a, p + 8, b, p + 8, 4)
            && mirrored(a, p + 12, b, p + 12, 4),
        CommandKind::SubFramework => mirrored(a, p, b, p, 4),
        CommandKind::SubClient => mirrored(a, p, b, p, 4),
        CommandKind::SubUmbrella => mirrored(a, p, b, p, 4),
        CommandKind::SubLibrary => mirrored(a, p, b, p, 4),
        CommandKind::PreboundDylib => mirrored(a, p, b, p, 4)
            && mirrored(a, p + 4, b, p + 4, 4)
            && mirrored(a, p + 8, b, p + 8, 4),
        CommandKind::Dylinker => mirrored(a, p, b, p, 4),
        CommandKind::Thread => true,
        CommandKind::Routines => if width == BitWidth::W32 {
            mirrored(a, p, b, p, 4)
                && mirrored(a, p + 4, b, p + 4, 4)
                && mirrored(a, p + 8, b, p + 8, 4)
                && mirrored(a, p + 12, b, p + 12, 4)
                && mirrored(a, p + 16, b, p + 16, 4)
                && mirrored(a, p + 20, b, p + 20, 4)
                && mirrored(a, p + 24, b, p + 24, 4)
                && mirrored(a, p + 28, b, p + 28, 4)
        } else {
            mirrored(a, p, b, p, 8)
                && mirrored(a, p + 8, b, p + 8, 8)
                && mirrored(a, p + 16, b, p + 16, 8)
                && mirrored(a, p + 24, b, p + 24, 8)
                && mirrored(a, p + 32, b, p + 32, 8)
                && mirrored(a, p + 40, b, p + 40, 8)
                && mirrored(a, p + 48, b, p + 48, 8)
                && mirrored(a, p + 56, b, p + 56, 8)
        },
        CommandKind::Symtab => mirrored(a, p, b, p, 4)
            && mirrored(a, p + 4, b, p + 4, 4)
            && mirrored(a, p + 8, b, p + 8, 4)
            && mirrored(a, p + 12, b, p + 12, 4),
        CommandKind::DynSymtab => mirrored(a, p, b, p, 4)
            && mirrored(a, p + 4, b, p + 4, 4)
            && mirrored(a, p + 8, b, p + 8, 4)
            && mirrored(a, p + 12, b, p + 12, 4)
            && mirrored(a, p + 16, b, p + 16, 4)
            && mirrored(a, p + 20, b, p + 20, 4)
            && mirrored(a, p + 24, b, p + 24, 4)
            && mirrored(a, p + 28, b, p + 28, 4)
            && mirrored(a, p + 32, b, p + 32, 4)
            && mirrored(a, p + 36, b, p + 36, 4)
            && mirrored(a, p + 40, b, p + 40, 4)
            && mirrored(a, p + 44, b, p + 44, 4)
            && mirrored(a, p + 48, b, p + 48, 4)
            && mirrored(a, p + 52, b, p + 52, 4)
            && mirrored(a, p + 56, b, p + 56, 4)
            && mirrored(a, p + 60, b, p + 60, 4)
            && mirrored(a, p + 64, b, p + 64, 4)
            && mirrored(a, p + 68, b, p + 68, 4),
        CommandKind::TwoLevelHints => mirrored(a, p, b, p, 4)
            && mirrored(a, p + 4, b, p + 4, 4),
        CommandKind::PrebindCksum => mirrored(a, p, b, p, 4),
        CommandKind::Uuid => a.subrange(p, p + 16) == b.subrange(p, p + 16),
        CommandKind::Rpath => mirrored(a, p, b, p, 4),
        CommandKind::LinkeditData => mirrored(a, p, b, p, 4)
            && mirrored(a, p + 4, b, p + 4, 4),
        CommandKind::EncryptionInfo => if width == BitWidth::W32 {
            mirrored(a, p, b, p, 4)
                && mirrored(a, p + 4, b, p + 4, 4)
                && mirrored(a, p + 8, b, p + 8, 4)
        } else {
            mirrored(a, p, b, p, 4)
                && mirrored(a, p + 4, b, p + 4, 4)
                && mirrored(a, p + 8, b, p + 8, 4)
                && mirrored(a, p + 12, b, p + 12, 4)
        },
        CommandKind::VersionMin => mirrored(a, p, b, p, 4)
            && mirrored(a, p + 4, b, p + 4, 4),
        CommandKind::BuildVersion => mirrored(a, p, b, p, 4)
            && mirrored(a, p + 4, b, p + 4, 4)
            && mirrored(a, p + 8, b, p + 8, 4)
            && mirrored(a, p + 12, b, p + 12, 4),
        CommandKind::DyldInfo => mirrored(a, p, b, p, 4)
            && mirrored(a, p + 4, b, p + 4, 4)
            && mirrored(a, p + 8, b, p + 8, 4)
            && mirrored(a, p + 12, b, p + 12, 4)
            && mirrored(a, p + 16, b, p + 16, 4)
            && mirrored(a, p + 20, b, p + 20, 4)
            && mirrored(a, p + 24, b, p + 24, 4)
            && mirrored(a, p + 28, b, p + 28, 4)
            && mirrored(a, p + 32, b, p + 32, 4)
            && mirrored(a, p + 36, b, p + 36, 4),
        CommandKind::LinkerOption => mirrored(a, p, b, p, 4),
        CommandKind::Symseg => mirrored(a, p, b, p, 4)
            && mirrored(a, p + 4, b, p + 4, 4),
        CommandKind::Ident => true,
        CommandKind::EntryPoint => mirrored(a, p, b, p, 8)
            && mirrored(a, p + 8, b, p + 8, 8),
        CommandKind::SourceVersion => mirrored(a, p, b, p, 8),
        CommandKind::Note => a.subrange(p, p + 16) == b.subrange(p, p + 16)
            && mirrored(a, p + 16, b, p + 16, 8)
            && mirrored(a, p + 24, b, p + 24, 8),
    }
}

/// A section record at `p` holds the same values in `a` and `b`.
pub open spec fn section_mirrored(a: Seq<u8>, b: Seq<u8>, p: int, width: BitWidth) -> bool {
    if width == BitWidth::W32 {
        a.subrange(p, p + 16) == b.subrange(p, p + 16)
            && a.subrange(p + 16, p + 32) == b.subrange(p + 16, p + 32)
            && mirrored(a, p + 32, b, p + 32, 4)
            && mirrored(a, p + 36, b, p + 36, 4)
            && mirrored(a, p + 40, b, p + 40, 4)
            && mirrored(a, p + 44, b, p + 44, 4)
            && mirrored(a, p + 48, b, p + 48, 4)
            && mirrored(a, p + 52, b, p + 52, 4)
            && mirrored(a, p + 56, b, p + 56, 4)
            && mirrored(a, p + 60, b, p + 60, 4)
            && mirrored(a, p + 64, b, p + 64, 4)
    } else {
        a.subrange(p, p + 16) == b.subrange(p, p + 16)
            && a.subrange(p + 16, p + 32) == b.subrange(p + 16, p + 32)
            && mirrored(a, p + 32, b, p + 32, 8)
            && mirrored(a, p + 40, b, p + 40, 8)
            && mirrored(a, p + 48, b, p + 48, 4)
            && mirrored(a, p + 52, b, p + 52, 4)
            && mirrored(a, p + 56, b, p + 56, 4)
            && mirrored(a, p + 60, b, p + 60, 4)
            && mirrored(a, p + 64, b, p + 64, 4)
            && mirrored(a, p + 68, b, p + 68, 4)
            && mirrored(a, p + 72, b, p + 72, 4)
            && mirrored(a, p + 76, b, p + 76, 4)
    }
}

/// A symbol-table entry at `p` holds the same values in `a` and `b`.
pub open spec fn entry_mirrored(a: Seq<u8>, b: Seq<u8>, p: int, width: BitWidth) -> bool {
    if width == BitWidth::W32 {
        mirrored(a, p, b, p, 4)
            && a[p + 4] == b[p + 4]
            && a[p + 5] == b[p + 5]
            && mirrored(a, p + 6, b, p + 6, 2)
            && mirrored(a, p + 8, b, p + 8, 4)
    } else {
        mirrored(a, p, b, p, 4)
            && a[p + 4] == b[p + 4]
            && a[p + 5] == b[p + 5]
            && mirrored(a, p + 6, b, p + 6, 2)
            && mirrored(a, p + 8, b, p + 8, 8)
    }
}

/// Two records decoded with the same prefix, one from `a` read most
/// significant byte first and one from `b` read least significant byte first,
/// are equal when their fixed fields hold the same values.
proof fn lemma_command_symmetric(
    x: LoadCommand,
    y: LoadCommand,
    prefix: LoadCommandPrefix,
    a: Seq<u8>,
    b: Seq<u8>,
    p: int,
    width: BitWidth,
)
    requires
        x.decoded_at(prefix, a, p, ByteOrder::Big, width),
        y.decoded_at(prefix, b, p, ByteOrder::Little, width),
        fields_mirrored(a, b, p, x.kind(), width),
    ensures
        x == y,
{
    match (x, y) {
        (
            LoadCommand::SegmentCommand(SegmentCommand::SEG32(x)),
            LoadCommand::SegmentCommand(SegmentCommand::SEG32(y)),
        ) => {
            lemma_u32_order_symmetry(a, p + 16, b, p + 16);
            lemma_u32_order_symmetry(a, p + 20, b, p + 20);
            lemma_u32_order_symmetry(a, p + 24, b, p + 24);
            lemma_u32_order_symmetry(a, p + 28, b, p + 28);
            lemma_u32_order_symmetry(a, p + 32, b, p + 32);
            lemma_u32_order_symmetry(a, p + 36, b, p + 36);
            lemma_u32_order_symmetry(a, p + 40, b, p + 40);
            lemma_u32_order_symmetry(a, p + 44, b, p + 44);
            assert(x.segname =~= y.segname);
        },
        (
            LoadCommand::SegmentCommand(SegmentCommand::SEG64(x)),
            LoadCommand::SegmentCommand(SegmentCommand::SEG64(y)),
        ) => {
            lemma_u64_order_symmetry(a, p + 16, b, p + 16);
            lemma_u64_order_symmetry(a, p + 24, b, p + 24);
            lemma_u64_order_symmetry(a, p + 32, b, p + 32);
            lemma_u64_order_symmetry(a, p + 40, b, p + 40);
            lemma_u32_order_symmetry(a, p + 48, b, p + 48);
            lemma_u32_order_symmetry(a, p + 52, b, p + 52);
            lemma_u32_order_symmetry(a, p + 56, b, p + 56);
            lemma_u32_order_symmetry(a, p + 60, b, p + 60);
            assert(x.segname =~= y.segname);
        },
        (LoadCommand::DylibCommand(x), LoadCommand::DylibCommand(y)) => {
            lemma_u32_order_symmetry(a, p, b, p);
            lemma_u32_order_symmetry(a, p + 4, b, p + 4);
            lemma_u32_order_symmetry(a, p + 8, b, p + 8);
            lemma_u32_order_symmetry(a, p + 12, b, p + 12);
        },
        (LoadCommand::SubFrameWorkCommand(x), LoadCommand::SubFrameWorkCommand(y)) => {
            lemma_u32_order_symmetry(a, p, b, p);
        },
        (LoadCommand::SubClientCommand(x), LoadCommand::SubClientCommand(y)) => {
            lemma_u32_order_symmetry(a, p, b, p);
        },
        (LoadCommand::SubUmbrellaCommand(x), LoadCommand::SubUmbrellaCommand(y)) => {
            lemma_u32_order_symmetry(a, p, b, p);
        },
        (LoadCommand::SubLibraryCommand(x), LoadCommand::SubLibraryCommand(y)) => {
            lemma_u32_order_symmetry(a, p, b, p);
        },
        (LoadCommand::PreboundDylibCommand(x), LoadCommand::PreboundDylibCommand(y)) => {
            lemma_u32_order_symmetry(a, p, b, p);
            lemma_u32_order_symmetry(a, p + 4, b, p + 4);
            lemma_u32_order_symmetry(a, p + 8, b, p + 8);
        },
        (LoadCommand::DylinkerCommand(x), LoadCommand::DylinkerCommand(y)) => {
            lemma_u32_order_symmetry(a, p, b, p);
        },
        (LoadCommand::ThreadCommand(x), LoadCommand::ThreadCommand(y)) => {

        },
        (
            LoadCommand::RoutinesCommand(RoutinesCommand::RTN32(x)),
            LoadCommand::RoutinesCommand(RoutinesCommand::RTN32(y)),
        ) => {
            lemma_u32_order_symmetry(a, p, b, p);
            lemma_u32_order_symmetry(a, p + 4, b, p + 4);
            lemma_u32_order_symmetry(a, p + 8, b, p + 8);
            lemma_u32_order_symmetry(a, p + 12, b, p + 12);
            lemma_u32_order_symmetry(a, p + 16, b, p + 16);
            lemma_u32_order_symmetry(a, p + 20, b, p + 20);
            lemma_u32_order_symmetry(a, p + 24, b, p + 24);
            lemma_u32_order_symmetry(a, p + 28, b, p + 28);
        },
        (
            LoadCommand::RoutinesCommand(RoutinesCommand::RTN64(x)),
            LoadCommand::RoutinesCommand(RoutinesCommand::RTN64(y)),
        ) => {
            lemma_u64_order_symmetry(a, p, b, p);
            lemma_u64_order_symmetry(a, p + 8, b, p + 8);
            lemma_u64_order_symmetry(a, p + 16, b, p + 16);
            lemma_u64_order_symmetry(a, p + 24, b, p + 24);
            lemma_u64_order_symmetry(a, p + 32, b, p + 32);
            lemma_u64_order_symmetry(a, p + 40, b, p + 40);
            lemma_u64_order_symmetry(a, p + 48, b, p + 48);
            lemma_u64_order_symmetry(a, p + 56, b, p + 56);
        },
        (LoadCommand::SymtabCommand(x), LoadCommand::SymtabCommand(y)) => {
            lemma_u32_order_symmetry(a, p, b, p);
            lemma_u32_order_symmetry(a, p + 4, b, p + 4);
            lemma_u32_order_symmetry(a, p + 8, b, p + 8);
            lemma_u32_order_symmetry(a, p + 12, b, p + 12);
        },
        (LoadCommand::DynSymtabCommand(x), LoadCommand::DynSymtabCommand(y)) => {
            lemma_u32_order_symmetry(a, p, b, p);
            lemma_u32_order_symmetry(a, p + 4, b, p + 4);
            lemma_u32_order_symmetry(a, p + 8, b, p + 8);
            lemma_u32_order_symmetry(a, p + 12, b, p + 12);
            lemma_u32_order_symmetry(a, p + 16, b, p + 16);
            lemma_u32_order_symmetry(a, p + 20, b, p + 20);
            lemma_u32_order_symmetry(a, p + 24, b, p + 24);
            lemma_u32_order_symmetry(a, p + 28, b, p + 28);
            lemma_u32_order_symmetry(a, p + 32, b, p + 32);
            lemma_u32_order_symmetry(a, p + 36, b, p + 36);
            lemma_u32_order_symmetry(a, p + 40, b, p + 40);
            lemma_u32_order_symmetry(a, p + 44, b, p + 44);
            lemma_u32_order_symmetry(a, p + 48, b, p + 48);
            lemma_u32_order_symmetry(a, p + 52, b, p + 52);
            lemma_u32_order_symmetry(a, p + 56, b, p + 56);
            lemma_u32_order_symmetry(a, p + 60, b, p + 60);
            lemma_u32_order_symmetry(a, p + 64, b, p + 64);
            lemma_u32_order_symmetry(a, p + 68, b, p + 68);
        },
        (LoadCommand::TwoLevelHintsCommand(x), LoadCommand::TwoLevelHintsCommand(y)) => {
            lemma_u32_order_symmetry(a, p, b, p);
            lemma_u32_order_symmetry(a, p + 4, b, p + 4);
        },
        (LoadCommand::PrebindCksumCommand(x), LoadCommand::PrebindCksumCommand(y)) => {
            lemma_u32_order_symmetry(a, p, b, p);
        },
        (LoadCommand::UuidCommand(x), LoadCommand::UuidCommand(y)) => {

            assert(x.uuid =~= y.uuid);
        },
        (LoadCommand::RpathCommand(x), LoadCommand::RpathCommand(y)) => {
            lemma_u32_order_symmetry(a, p, b, p);
        },
        (LoadCommand::LinkeditDataCommand(x), LoadCommand::LinkeditDataCommand(y)) => {
            lemma_u32_order_symmetry(a, p, b, p);
            lemma_u32_order_symmetry(a, p + 4, b, p + 4);
        },
        (
            LoadCommand::EncryptionInfoCommand(EncryptionInfoCommand::ENI32(x)),
            LoadCommand::EncryptionInfoCommand(EncryptionInfoCommand::ENI32(y)),
        ) => {
            lemma_u32_order_symmetry(a, p, b, p);
            lemma_u32_order_symmetry(a, p + 4, b, p + 4);
            lemma_u32_order_symmetry(a, p + 8, b, p + 8);
        },
        (
            LoadCommand::EncryptionInfoCommand(EncryptionInfoCommand::ENI64(x)),
            LoadCommand::EncryptionInfoCommand(EncryptionInfoCommand::ENI64(y)),
        ) => {
            lemma_u32_order_symmetry(a, p, b, p);
            lemma_u32_order_symmetry(a, p + 4, b, p + 4);
            lemma_u32_order_symmetry(a, p + 8, b, p + 8);
            lemma_u32_order_symmetry(a, p + 12, b, p + 12);
        },
        (LoadCommand::VersionMinCommand(x), LoadCommand::VersionMinCommand(y)) => {
            lemma_u32_order_symmetry(a, p, b, p);
            lemma_u32_order_symmetry(a, p + 4, b, p + 4);
        },
        (LoadCommand::BuildVersionCommand(x), LoadCommand::BuildVersionCommand(y)) => {
            lemma_u32_order_symmetry(a, p, b, p);
            lemma_u32_order_symmetry(a, p + 4, b, p + 4);
            lemma_u32_order_symmetry(a, p + 8, b, p + 8);
            lemma_u32_order_symmetry(a, p + 12, b, p + 12);
        },
        (LoadCommand::DyldInfoCommand(x), LoadCommand::DyldInfoCommand(y)) => {
            lemma_u32_order_symmetry(a, p, b, p);
            lemma_u32_order_symmetry(a, p + 4, b, p + 4);
            lemma_u32_order_symmetry(a, p + 8, b, p + 8);
            lemma_u32_order_symmetry(a, p + 12, b, p + 12);
            lemma_u32_order_symmetry(a, p + 16, b, p + 16);
            lemma_u32_order_symmetry(a, p + 20, b, p + 20);
            lemma_u32_order_symmetry(a, p + 24, b, p + 24);
            lemma_u32_order_symmetry(a, p + 28, b, p + 28);
            lemma_u32_order_symmetry(a, p + 32, b, p + 32);
            lemma_u32_order_symmetry(a, p + 36, b, p + 36);
        },
        (LoadCommand::LinkerOptionCommand(x), LoadCommand::LinkerOptionCommand(y)) => {
            lemma_u32_order_symmetry(a, p, b, p);
        },
        (LoadCommand::SymsegCommand(x), LoadCommand::SymsegCommand(y)) => {
            lemma_u32_order_symmetry(a, p, b, p);
            lemma_u32_order_symmetry(a, p + 4, b, p + 4);
        },
        (LoadCommand::IdentCommand(x), LoadCommand::IdentCommand(y)) => {

        },
        (LoadCommand::EntryPointCommand(x), LoadCommand::EntryPointCommand(y)) => {
            lemma_u64_order_symmetry(a, p, b, p);
            lemma_u64_order_symmetry(a, p + 8, b, p + 8);
        },
        (LoadCommand::SourceVersionCommand(x), LoadCommand::SourceVersionCommand(y)) => {
            lemma_u64_order_symmetry(a, p, b, p);
        },
        (LoadCommand::NoteCommand(x), LoadCommand::NoteCommand(y)) => {
            lemma_u64_order_symmetry(a, p + 16, b, p + 16);
            lemma_u64_order_symmetry(a, p + 24, b, p + 24);
            assert(x.data_owner =~= y.data_owner);
        },
        _ => {},
    }
}

/// Two sections decoded at `p`, from `a` most significant byte first and
/// from `b` least significant byte first, are equal when they hold the same
/// values.
proof fn lemma_section_symmetric(
    x: Section,
    y: Section,
    a: Seq<u8>,
    b: Seq<u8>,
    p: int,
    width: BitWidth,
)
    requires
        x.decoded_at(a, p, ByteOrder::Big, width),
        y.decoded_at(b, p, ByteOrder::Little, width),
        section_mirrored(a, b, p, width),
    ensures
        x == y,
{
    match (x, y) {
        (Section::SEC32(x), Section::SEC32(y)) => {
            lemma_u32_order_symmetry(a, p + 32, b, p + 32);
            lemma_u32_order_symmetry(a, p + 36, b, p + 36);
            lemma_u32_order_symmetry(a, p + 40, b, p + 40);
            lemma_u32_order_symmetry(a, p + 44, b, p + 44);
            lemma_u32_order_symmetry(a, p + 48, b, p + 48);
            lemma_u32_order_symmetry(a, p + 52, b, p + 52);
            lemma_u32_order_symmetry(a, p + 56, b, p + 56);
            lemma_u32_order_symmetry(a, p + 60, b, p + 60);
            lemma_u32_order_symmetry(a, p + 64, b, p + 64);
            assert(x.sectname =~= y.sectname);
            assert(x.segname =~= y.segname);
        },
        (Section::SEC64(x), Section::SEC64(y)) => {
            lemma_u64_order_symmetry(a, p + 32, b, p + 32);
            lemma_u64_order_symmetry(a, p + 40, b, p + 40);
            lemma_u32_order_symmetry(a, p + 48, b, p + 48);
            lemma_u32_order_symmetry(a, p + 52, b, p + 52);
            lemma_u32_order_symmetry(a, p + 56, b, p + 56);
            lemma_u32_order_symmetry(a, p + 60, b, p + 60);
            lemma_u32_order_symmetry(a, p + 64, b, p + 64);
            lemma_u32_order_symmetry(a, p + 68, b, p + 68);
            lemma_u32_order_symmetry(a, p + 72, b, p + 72);
            lemma_u32_order_symmetry(a, p + 76, b, p + 76);
            assert(x.sectname =~= y.sectname);
            assert(x.segname =~= y.segname);
        },
        _ => {},
    }
}

/// Two symbol-table entries decoded at `p`, from `a` most significant byte
/// first and from `b` least significant byte first, are equal when they hold
/// the same values.
proof fn lemma_entry_symmetric(x: Nlist, y: Nlist, a: Seq<u8>, b: Seq<u8>, p: int, width: BitWidth)
    requires
        x.decoded_at(a, p, ByteOrder::Big, width),
        y.decoded_at(b, p, ByteOrder::Little, width),
        entry_mirrored(a, b, p, width),
    ensures
        x == y,
{
    match (x, y) {
        (Nlist::NL32(x), Nlist::NL32(y)) => {
            lemma_u32_order_symmetry(a, p, b, p);
            lemma_u16_order_symmetry(a, p + 6, b, p + 6);
            lemma_u32_order_symmetry(a, p + 8, b, p + 8);
        },
        (Nlist::NL64(x), Nlist::NL64(y)) => {
            lemma_u32_order_symmetry(a, p, b, p);
            lemma_u16_order_symmetry(a, p + 6, b, p + 6);
            lemma_u64_order_symmetry(a, p + 8, b, p + 8);
        },
        _ => {},
    }
}


/// The record at `s` of `a` holds the same values in `b`: its prefix and
/// fixed fields, each of its sections, and its trailing string bytes.
pub open spec fn record_mirrored(a: Seq<u8>, b: Seq<u8>, s: int, width: BitWidth) -> bool {
    let kind = kind_of(u32_at(a, s, ByteOrder::Big))->Some_0;
    let fixed = 8 + kind.spec_fixed_size(width);
    let size = u32_at(a, s + 4, ByteOrder::Big);
    &&& mirrored(a, s, b, s, 4)
    &&& mirrored(a, s + 4, b, s + 4, 4)
    &&& fields_mirrored(a, b, s + 8, kind, width)
    &&& forall|j: int|
        0 <= j < section_count(kind, a, s, ByteOrder::Big, width) ==> #[trigger] section_mirrored(
            a,
            b,
            s + fixed + j * Section::spec_size(width),
            width,
        )
    &&& kind.carries_string() ==> a.subrange(s + fixed, s + size) == b.subrange(s + fixed, s + size)
}

/// The symbol-table entries that `table` locates hold the same values in `a`
/// and `b`.
pub open spec fn symbols_mirrored(
    a: Seq<u8>,
    b: Seq<u8>,
    table: Option<(u32, u32)>,
    width: BitWidth,
) -> bool {
    match table {
        None => true,
        Some((symoff, nsyms)) => forall|j: int|
            0 <= j < nsyms ==> #[trigger] entry_mirrored(
                a,
                b,
                symoff + j * Nlist::spec_size(width),
                width,
            ),
    }
}

/// The conditions under which `b` encodes, least significant byte first,
/// the values that `a` encodes most significant byte first: the same word
/// size, and the same values in the header fields, in every load command and
/// in every symbol-table entry.
pub open spec fn images_mirrored(a: Seq<u8>, da: MachO, b: Seq<u8>) -> bool {
    let width = layout_of(a).1;
    &&& layout_of(a).0 == ByteOrder::Big
    &&& layout_of(b).0 == ByteOrder::Little
    &&& layout_of(b).1 == width
    &&& forall|f: int|
        0 <= f < (header_size(width) - 4) / 4 ==> #[trigger] mirrored(
            a,
            4 + 4 * f,
            b,
            4 + 4 * f,
            4,
        )
    &&& forall|i: nat|
        i < declared_commands(da) ==> record_mirrored(a, b, #[trigger] command_start(a, i), width)
    &&& symbols_mirrored(a, b, first_symtab(da.load_commands->Some_0.0@, 0), width)
}

proof fn lemma_starts_agree(a: Seq<u8>, da: MachO, b: Seq<u8>, db: MachO, i: nat)
    requires
        document_decoded(a, da),
        document_decoded(b, db),
        images_mirrored(a, da, b),
        i <= declared_commands(da),
    ensures
        command_start(a, i) == command_start(b, i),
    decreases i,
{
    if i > 0 {
        let k = (i - 1) as nat;
        lemma_starts_agree(a, da, b, db, k);
        let s = command_start(a, k);
        assert(record_mirrored(a, b, command_start(a, k), layout_of(a).1));
        lemma_u32_order_symmetry(a, s + 4, b, s + 4);
    }
}

/// An image stored most significant byte first and one stored least
/// significant byte first that encode the same values (see
/// `images_mirrored`) decode to documents that agree in every field but the
/// magic: the same header fields, load commands, sections, trailing strings
/// and symbols.
pub proof fn lemma_byte_order_symmetry(a: Seq<u8>, da: MachO, b: Seq<u8>, db: MachO)
    requires
        document_decoded(a, da),
        document_decoded(b, db),
        images_mirrored(a, da, b),
    ensures
        same_header_fields(da.header->Some_0, db.header->Some_0),
        da.load_commands->Some_0.0@ == db.load_commands->Some_0.0@,
        forall|i: int|
            0 <= i < declared_commands(da) ==> (#[trigger] da.load_commands->Some_0.1@[i])@
                == db.load_commands->Some_0.1@[i]@,
        forall|i: int|
            0 <= i < declared_commands(da) ==> (#[trigger] da.load_commands->Some_0.2@[i])@
                == db.load_commands->Some_0.2@[i]@,
        da.symtab->Some_0@ == db.symtab->Some_0@,
{
    let width = layout_of(a).1;
    let la = da.load_commands->Some_0;
    let lb = db.load_commands->Some_0;
    lemma_header_order_symmetry(a, da, b, db);
    let n = declared_commands(da);
    assert(n == declared_commands(db));
    lemma_command_count(a, da);
    lemma_command_count(b, db);
    assert forall|i: int| 0 <= i < n implies la.0@[i] == lb.0@[i] && la.1@[i]@ == lb.1@[i]@
        && la.2@[i]@ == lb.2@[i]@ by {
        lemma_starts_agree(a, da, b, db, i as nat);
        lemma_command_at(a, da, i);
        lemma_command_at(b, db, i);
        let s = command_start(a, i as nat);
        assert(record_mirrored(a, b, command_start(a, i as nat), width));
        lemma_u32_order_symmetry(a, s, b, s);
        lemma_u32_order_symmetry(a, s + 4, b, s + 4);
        let prefix = LoadCommandPrefix::spec_at(a, s, ByteOrder::Big);
        assert(prefix == LoadCommandPrefix::spec_at(b, s, ByteOrder::Little));
        lemma_command_symmetric(la.0@[i], lb.0@[i], prefix, a, b, s + 8, width);
        let fixed = 8 + la.0@[i].kind().spec_fixed_size(width);
        assert forall|j: int| 0 <= j < la.1@[i]@.len() implies la.1@[i]@[j] == lb.1@[i]@[j] by {
            let q = s + fixed + j * Section::spec_size(width);
            assert(section_mirrored(a, b, q, width));
            assert(la.1@[i]@[j].decoded_at(a, q, ByteOrder::Big, width));
            assert(lb.1@[i]@[j].decoded_at(b, q, ByteOrder::Little, width));
            lemma_section_symmetric(la.1@[i]@[j], lb.1@[i]@[j], a, b, q, width);
        }
        assert(la.1@[i]@ =~= lb.1@[i]@);
    }
    assert forall|i: int| 0 <= i < n implies (#[trigger] la.1@[i])@ == lb.1@[i]@ by {
        assert(la.0@[i] == lb.0@[i]);
    }
    assert forall|i: int| 0 <= i < n implies (#[trigger] la.2@[i])@ == lb.2@[i]@ by {
        assert(la.0@[i] == lb.0@[i]);
    }
    assert(la.0@ =~= lb.0@);
    match first_symtab(la.0@, 0) {
        None => {
            assert(da.symtab->Some_0@ =~= db.symtab->Some_0@);
        },
        Some((symoff, nsyms)) => {
            let sa = da.symtab->Some_0@;
            let sb = db.symtab->Some_0@;
            assert forall|j: int| 0 <= j < sa.len() implies sa[j] == sb[j] by {
                let q = symoff + j * Nlist::spec_size(width);
                assert(entry_mirrored(a, b, q, width));
                assert(sa[j].decoded_at(a, q, ByteOrder::Big, width));
                assert(sb[j].decoded_at(b, q, ByteOrder::Little, width));
                lemma_entry_symmetric(sa[j], sb[j], a, b, q, width);
            }
            assert(sa =~= sb);
        },
    }
}

} // verus!
