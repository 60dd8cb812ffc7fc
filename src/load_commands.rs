use crate::constants::{
    LC_BUILD_VERSION, LC_CODE_SIGNATURE, LC_DATA_IN_CODE, LC_DYLD_ENVIRONMENT, LC_DYLD_INFO,
    LC_DYLD_INFO_ONLY, LC_DYLIB_CODE_SIGN_DRS, LC_DYSYMTAB, LC_ENCRYPTION_INFO,
    LC_ENCRYPTION_INFO_64, LC_FUNCTION_STARTS, LC_IDENT, LC_ID_DYLIB, LC_ID_DYLINKER,
    LC_LAZY_LOAD_DYLIB, LC_LINKER_OPTIMIZATION_HINT, LC_LINKER_OPTION, LC_LOAD_DYLIB,
    LC_LOAD_DYLINKER, LC_LOAD_UPWARD_DYLIB, LC_LOAD_WEAK_DYLIB, LC_MAIN, LC_NOTE, LC_PREBIND_CKSUM,
    LC_PREBOUND_DYLIB, LC_REEXPORT_DYLIB, LC_ROUTINES, LC_ROUTINES_64, LC_RPATH,
    LC_SEGMENT, LC_SEGMENT_64, LC_SEGMENT_SPLIT_INFO, LC_SOURCE_VERSION, LC_SUB_CLIENT,
    LC_SUB_FRAMEWORK, LC_SUB_LIBRARY, LC_SUB_UMBRELLA, LC_SYMSEG, LC_SYMTAB, LC_THREAD,
    LC_TWOLEVEL_HINTS, LC_UNIXTHREAD, LC_UUID, LC_VERSION_MIN_IPHONEOS, LC_VERSION_MIN_MACOSX,
    LC_VERSION_MIN_TVOS, LC_VERSION_MIN_WATCHOS,
};
use crate::cursor::{i16_at, i32_at, u16_at, u32_at, u64_at, BitWidth, ByteOrder, Cursor};
use crate::error::AppError;
use vstd::prelude::*;

verus! {

/// One decoded load command: a closed sum over every record kind the decoder
/// knows.
#[derive(Debug)]
pub enum LoadCommand {
    SegmentCommand(SegmentCommand),
    DylibCommand(DylibCommand),
    SubFrameWorkCommand(SubFrameWorkCommand),
    SubClientCommand(SubClientCommand),
    SubUmbrellaCommand(SubUmbrellaCommand),
    SubLibraryCommand(SubLibraryCommand),
    PreboundDylibCommand(PreboundDylibCommand),
    DylinkerCommand(DylinkerCommand),
    ThreadCommand(ThreadCommand),
    RoutinesCommand(RoutinesCommand),
    SymtabCommand(SymtabCommand),
    DynSymtabCommand(DynSymtabCommand),
    TwoLevelHintsCommand(TwoLevelHintsCommand),
    PrebindCksumCommand(PrebindCksumCommand),
    UuidCommand(UuidCommand),
    RpathCommand(RpathCommand),
    LinkeditDataCommand(LinkeditDataCommand),
    EncryptionInfoCommand(EncryptionInfoCommand),
    VersionMinCommand(VersionMinCommand),
    BuildVersionCommand(BuildVersionCommand),
    DyldInfoCommand(DyldInfoCommand),
    LinkerOptionCommand(LinkerOptionCommand),
    SymsegCommand(SymsegCommand),
    IdentCommand(IdentCommand),
    EntryPointCommand(EntryPointCommand),
    SourceVersionCommand(SourceVersionCommand),
    NoteCommand(NoteCommand),
}

/// The family a load command belongs to; it fixes the shape of the record.
#[derive(Debug, Clone, Copy, PartialEq, Eq, Structural)]
pub enum CommandKind {
    Segment,
    Dylib,
    SubFramework,
    SubClient,
    SubUmbrella,
    SubLibrary,
    PreboundDylib,
    Dylinker,
    Thread,
    Routines,
    Symtab,
    DynSymtab,
    TwoLevelHints,
    PrebindCksum,
    Uuid,
    Rpath,
    LinkeditData,
    EncryptionInfo,
    VersionMin,
    BuildVersion,
    DyldInfo,
    LinkerOption,
    Symseg,
    Ident,
    EntryPoint,
    SourceVersion,
    Note,
}

/// The family that the opcode `cmd` dispatches to, if any. Opcodes that
/// carry the "required by the dynamic linker" bit dispatch only where the
/// format defines them (a weak, re-exported or upward dylib, a run path,
/// dyld information only, the main entry point).
pub open spec fn kind_of(cmd: u32) -> Option<CommandKind> {
    if cmd == LC_SEGMENT || cmd == LC_SEGMENT_64 {
        Some(CommandKind::Segment)
    } else if cmd == LC_SYMTAB {
        Some(CommandKind::Symtab)
    } else if cmd == LC_SYMSEG {
        Some(CommandKind::Symseg)
    } else if cmd == LC_THREAD || cmd == LC_UNIXTHREAD {
        Some(CommandKind::Thread)
    } else if cmd == LC_IDENT {
        Some(CommandKind::Ident)
    } else if cmd == LC_DYSYMTAB {
        Some(CommandKind::DynSymtab)
    } else if cmd == LC_LOAD_DYLIB || cmd == LC_ID_DYLIB || cmd == LC_LOAD_WEAK_DYLIB || cmd
        == LC_REEXPORT_DYLIB || cmd == LC_LAZY_LOAD_DYLIB || cmd == LC_LOAD_UPWARD_DYLIB {
        Some(CommandKind::Dylib)
    } else if cmd == LC_LOAD_DYLINKER || cmd == LC_ID_DYLINKER || cmd == LC_DYLD_ENVIRONMENT {
        Some(CommandKind::Dylinker)
    } else if cmd == LC_PREBOUND_DYLIB {
        Some(CommandKind::PreboundDylib)
    } else if cmd == LC_ROUTINES || cmd == LC_ROUTINES_64 {
        Some(CommandKind::Routines)
    } else if cmd == LC_SUB_FRAMEWORK {
        Some(CommandKind::SubFramework)
    } else if cmd == LC_SUB_UMBRELLA {
        Some(CommandKind::SubUmbrella)
    } else if cmd == LC_SUB_CLIENT {
        Some(CommandKind::SubClient)
    } else if cmd == LC_SUB_LIBRARY {
        Some(CommandKind::SubLibrary)
    } else if cmd == LC_TWOLEVEL_HINTS {
        Some(CommandKind::TwoLevelHints)
    } else if cmd == LC_PREBIND_CKSUM {
        Some(CommandKind::PrebindCksum)
    } else if cmd == LC_UUID {
        Some(CommandKind::Uuid)
    } else if cmd == LC_RPATH {
        Some(CommandKind::Rpath)
    } else if cmd == LC_CODE_SIGNATURE || cmd == LC_SEGMENT_SPLIT_INFO
        || cmd == LC_FUNCTION_STARTS || cmd == LC_DATA_IN_CODE || cmd == LC_DYLIB_CODE_SIGN_DRS
        || cmd == LC_LINKER_OPTIMIZATION_HINT {
        Some(CommandKind::LinkeditData)
    } else if cmd == LC_ENCRYPTION_INFO || cmd == LC_ENCRYPTION_INFO_64 {
        Some(CommandKind::EncryptionInfo)
    } else if cmd == LC_DYLD_INFO || cmd == LC_DYLD_INFO_ONLY {
        Some(CommandKind::DyldInfo)
    } else if cmd == LC_VERSION_MIN_MACOSX || cmd == LC_VERSION_MIN_IPHONEOS
        || cmd == LC_VERSION_MIN_TVOS || cmd == LC_VERSION_MIN_WATCHOS {
        Some(CommandKind::VersionMin)
    } else if cmd == LC_MAIN {
        Some(CommandKind::EntryPoint)
    } else if cmd == LC_SOURCE_VERSION {
        Some(CommandKind::SourceVersion)
    } else if cmd == LC_LINKER_OPTION {
        Some(CommandKind::LinkerOption)
    } else if cmd == LC_NOTE {
        Some(CommandKind::Note)
    } else if cmd == LC_BUILD_VERSION {
        Some(CommandKind::BuildVersion)
    } else {
        None
    }
}

impl CommandKind {
    /// The number of bytes of fixed fields that follow the prefix.
    pub open spec fn spec_fixed_size(self, width: BitWidth) -> u32 {
        match self {
            CommandKind::Segment => if width == BitWidth::W32 { 48 } else { 64 },
            CommandKind::Dylib => 16,
            CommandKind::SubFramework => 4,
            CommandKind::SubClient => 4,
            CommandKind::SubUmbrella => 4,
            CommandKind::SubLibrary => 4,
            CommandKind::PreboundDylib => 12,
            CommandKind::Dylinker => 4,
            CommandKind::Thread => 0,
            CommandKind::Routines => if width == BitWidth::W32 { 32 } else { 64 },
            CommandKind::Symtab => 16,
            CommandKind::DynSymtab => 72,
            CommandKind::TwoLevelHints => 8,
            CommandKind::PrebindCksum => 4,
            CommandKind::Uuid => 16,
            CommandKind::Rpath => 4,
            CommandKind::LinkeditData => 8,
            CommandKind::EncryptionInfo => if width == BitWidth::W32 { 12 } else { 16 },
            CommandKind::VersionMin => 8,
            CommandKind::BuildVersion => 16,
            CommandKind::DyldInfo => 40,
            CommandKind::LinkerOption => 4,
            CommandKind::Symseg => 8,
            CommandKind::Ident => 0,
            CommandKind::EntryPoint => 16,
            CommandKind::SourceVersion => 8,
            CommandKind::Note => 32,
        }
    }

    #[verifier::when_used_as_spec(spec_fixed_size)]
    pub fn fixed_size(self, width: BitWidth) -> (r: u32)
        ensures
            r == self.spec_fixed_size(width),
    {
        match self {
            CommandKind::Segment => match width {
                BitWidth::W32 => 48,
                BitWidth::W64 => 64,
            },
            CommandKind::Dylib => 16,
            CommandKind::SubFramework => 4,
            CommandKind::SubClient => 4,
            CommandKind::SubUmbrella => 4,
            CommandKind::SubLibrary => 4,
            CommandKind::PreboundDylib => 12,
            CommandKind::Dylinker => 4,
            CommandKind::Thread => 0,
            CommandKind::Routines => match width {
                BitWidth::W32 => 32,
                BitWidth::W64 => 64,
            },
            CommandKind::Symtab => 16,
            CommandKind::DynSymtab => 72,
            CommandKind::TwoLevelHints => 8,
            CommandKind::PrebindCksum => 4,
            CommandKind::Uuid => 16,
            CommandKind::Rpath => 4,
            CommandKind::LinkeditData => 8,
            CommandKind::EncryptionInfo => match width {
                BitWidth::W32 => 12,
                BitWidth::W64 => 16,
            },
            CommandKind::VersionMin => 8,
            CommandKind::BuildVersion => 16,
            CommandKind::DyldInfo => 40,
            CommandKind::LinkerOption => 4,
            CommandKind::Symseg => 8,
            CommandKind::Ident => 0,
            CommandKind::EntryPoint => 16,
            CommandKind::SourceVersion => 8,
            CommandKind::Note => 32,
        }
    }

    /// Records of this family end in raw string bytes after their fixed
    /// fields: one path or name, or for a prebound library its two strings
    /// together, unsplit.
    pub open spec fn carries_string(self) -> bool {
        match self {
            CommandKind::Dylib | CommandKind::SubFramework | CommandKind::SubClient
            | CommandKind::SubUmbrella | CommandKind::SubLibrary | CommandKind::PreboundDylib
            | CommandKind::Dylinker | CommandKind::Rpath => true,
            _ => false,
        }
    }
}

/// The family that the opcode `cmd` dispatches to; `None` for an opcode with
/// no decoder.
pub fn command_kind(cmd: u32) -> (r: Option<CommandKind>)
    ensures
        r == kind_of(cmd),
{
    if cmd == LC_SEGMENT || cmd == LC_SEGMENT_64 {
        Some(CommandKind::Segment)
    } else if cmd == LC_SYMTAB {
        Some(CommandKind::Symtab)
    } else if cmd == LC_SYMSEG {
        Some(CommandKind::Symseg)
    } else if cmd == LC_THREAD || cmd == LC_UNIXTHREAD {
        Some(CommandKind::Thread)
    } else if cmd == LC_IDENT {
        Some(CommandKind::Ident)
    } else if cmd == LC_DYSYMTAB {
        Some(CommandKind::DynSymtab)
    } else if cmd == LC_LOAD_DYLIB || cmd == LC_ID_DYLIB || cmd == LC_LOAD_WEAK_DYLIB || cmd
        == LC_REEXPORT_DYLIB || cmd == LC_LAZY_LOAD_DYLIB || cmd == LC_LOAD_UPWARD_DYLIB {
        Some(CommandKind::Dylib)
    } else if cmd == LC_LOAD_DYLINKER || cmd == LC_ID_DYLINKER || cmd == LC_DYLD_ENVIRONMENT {
        Some(CommandKind::Dylinker)
    } else if cmd == LC_PREBOUND_DYLIB {
        Some(CommandKind::PreboundDylib)
    } else if cmd == LC_ROUTINES || cmd == LC_ROUTINES_64 {
        Some(CommandKind::Routines)
    } else if cmd == LC_SUB_FRAMEWORK {
        Some(CommandKind::SubFramework)
    } else if cmd == LC_SUB_UMBRELLA {
        Some(CommandKind::SubUmbrella)
    } else if cmd == LC_SUB_CLIENT {
        Some(CommandKind::SubClient)
    } else if cmd == LC_SUB_LIBRARY {
        Some(CommandKind::SubLibrary)
    } else if cmd == LC_TWOLEVEL_HINTS {
        Some(CommandKind::TwoLevelHints)
    } else if cmd == LC_PREBIND_CKSUM {
        Some(CommandKind::PrebindCksum)
    } else if cmd == LC_UUID {
        Some(CommandKind::Uuid)
    } else if cmd == LC_RPATH {
        Some(CommandKind::Rpath)
    } else if cmd == LC_CODE_SIGNATURE || cmd == LC_SEGMENT_SPLIT_INFO
        || cmd == LC_FUNCTION_STARTS || cmd == LC_DATA_IN_CODE || cmd == LC_DYLIB_CODE_SIGN_DRS
        || cmd == LC_LINKER_OPTIMIZATION_HINT {
        Some(CommandKind::LinkeditData)
    } else if cmd == LC_ENCRYPTION_INFO || cmd == LC_ENCRYPTION_INFO_64 {
        Some(CommandKind::EncryptionInfo)
    } else if cmd == LC_DYLD_INFO || cmd == LC_DYLD_INFO_ONLY {
        Some(CommandKind::DyldInfo)
    } else if cmd == LC_VERSION_MIN_MACOSX || cmd == LC_VERSION_MIN_IPHONEOS || cmd
        == LC_VERSION_MIN_TVOS || cmd == LC_VERSION_MIN_WATCHOS {
        Some(CommandKind::VersionMin)
    } else if cmd == LC_MAIN {
        Some(CommandKind::EntryPoint)
    } else if cmd == LC_SOURCE_VERSION {
        Some(CommandKind::SourceVersion)
    } else if cmd == LC_LINKER_OPTION {
        Some(CommandKind::LinkerOption)
    } else if cmd == LC_NOTE {
        Some(CommandKind::Note)
    } else if cmd == LC_BUILD_VERSION {
        Some(CommandKind::BuildVersion)
    } else {
        None
    }
}

impl LoadCommand {
    /// The family of this record.
    pub open spec fn kind(self) -> CommandKind {
        match self {
            LoadCommand::SegmentCommand(_) => CommandKind::Segment,
            LoadCommand::DylibCommand(_) => CommandKind::Dylib,
            LoadCommand::SubFrameWorkCommand(_) => CommandKind::SubFramework,
            LoadCommand::SubClientCommand(_) => CommandKind::SubClient,
            LoadCommand::SubUmbrellaCommand(_) => CommandKind::SubUmbrella,
            LoadCommand::SubLibraryCommand(_) => CommandKind::SubLibrary,
            LoadCommand::PreboundDylibCommand(_) => CommandKind::PreboundDylib,
            LoadCommand::DylinkerCommand(_) => CommandKind::Dylinker,
            LoadCommand::ThreadCommand(_) => CommandKind::Thread,
            LoadCommand::RoutinesCommand(_) => CommandKind::Routines,
            LoadCommand::SymtabCommand(_) => CommandKind::Symtab,
            LoadCommand::DynSymtabCommand(_) => CommandKind::DynSymtab,
            LoadCommand::TwoLevelHintsCommand(_) => CommandKind::TwoLevelHints,
            LoadCommand::PrebindCksumCommand(_) => CommandKind::PrebindCksum,
            LoadCommand::UuidCommand(_) => CommandKind::Uuid,
            LoadCommand::RpathCommand(_) => CommandKind::Rpath,
            LoadCommand::LinkeditDataCommand(_) => CommandKind::LinkeditData,
            LoadCommand::EncryptionInfoCommand(_) => CommandKind::EncryptionInfo,
            LoadCommand::VersionMinCommand(_) => CommandKind::VersionMin,
            LoadCommand::BuildVersionCommand(_) => CommandKind::BuildVersion,
            LoadCommand::DyldInfoCommand(_) => CommandKind::DyldInfo,
            LoadCommand::LinkerOptionCommand(_) => CommandKind::LinkerOption,
            LoadCommand::SymsegCommand(_) => CommandKind::Symseg,
            LoadCommand::IdentCommand(_) => CommandKind::Ident,
            LoadCommand::EntryPointCommand(_) => CommandKind::EntryPoint,
            LoadCommand::SourceVersionCommand(_) => CommandKind::SourceVersion,
            LoadCommand::NoteCommand(_) => CommandKind::Note,
        }
    }

    /// A record of a width-dependent family has the layout of `width`.
    pub open spec fn fits_width(self, width: BitWidth) -> bool {
        match self {
            LoadCommand::SegmentCommand(SegmentCommand::SEG32(_)) => width == BitWidth::W32,
            LoadCommand::SegmentCommand(SegmentCommand::SEG64(_)) => width == BitWidth::W64,
            LoadCommand::RoutinesCommand(RoutinesCommand::RTN32(_)) => width == BitWidth::W32,
            LoadCommand::RoutinesCommand(RoutinesCommand::RTN64(_)) => width == BitWidth::W64,
            LoadCommand::EncryptionInfoCommand(EncryptionInfoCommand::ENI32(_)) => width
                == BitWidth::W32,
            LoadCommand::EncryptionInfoCommand(EncryptionInfoCommand::ENI64(_)) => width
                == BitWidth::W64,
            _ => true,
        }
    }

    /// The fields of `self` are what the bytes from `p` on hold, after the
    /// prefix `prefix`.
    pub open spec fn fields_at(
        self,
        prefix: LoadCommandPrefix,
        d: Seq<u8>,
        p: int,
        order: ByteOrder,
    ) -> bool {
        match self {
            LoadCommand::SegmentCommand(SegmentCommand::SEG32(c)) => {
                c.decoded_at(prefix, d, p, order)
            },
            LoadCommand::SegmentCommand(SegmentCommand::SEG64(c)) => {
                c.decoded_at(prefix, d, p, order)
            },
            LoadCommand::DylibCommand(c) => c.decoded_at(prefix, d, p, order),
            LoadCommand::SubFrameWorkCommand(c) => c.decoded_at(prefix, d, p, order),
            LoadCommand::SubClientCommand(c) => c.decoded_at(prefix, d, p, order),
            LoadCommand::SubUmbrellaCommand(c) => c.decoded_at(prefix, d, p, order),
            LoadCommand::SubLibraryCommand(c) => c.decoded_at(prefix, d, p, order),
            LoadCommand::PreboundDylibCommand(c) => c.decoded_at(prefix, d, p, order),
            LoadCommand::DylinkerCommand(c) => c.decoded_at(prefix, d, p, order),
            LoadCommand::ThreadCommand(c) => c.cmd == prefix.cmd && c.cmdsize == prefix.cmdsize,
            LoadCommand::RoutinesCommand(RoutinesCommand::RTN32(c)) => {
                c.decoded_at(prefix, d, p, order)
            },
            LoadCommand::RoutinesCommand(RoutinesCommand::RTN64(c)) => {
                c.decoded_at(prefix, d, p, order)
            },
            LoadCommand::SymtabCommand(c) => c.decoded_at(prefix, d, p, order),
            LoadCommand::DynSymtabCommand(c) => c.decoded_at(prefix, d, p, order),
            LoadCommand::TwoLevelHintsCommand(c) => c.decoded_at(prefix, d, p, order),
            LoadCommand::PrebindCksumCommand(c) => c.decoded_at(prefix, d, p, order),
            LoadCommand::UuidCommand(c) => c.decoded_at(prefix, d, p, order),
            LoadCommand::RpathCommand(c) => c.decoded_at(prefix, d, p, order),
            LoadCommand::LinkeditDataCommand(c) => c.decoded_at(prefix, d, p, order),
            LoadCommand::EncryptionInfoCommand(EncryptionInfoCommand::ENI32(c)) => {
                c.decoded_at(prefix, d, p, order)
            },
            LoadCommand::EncryptionInfoCommand(EncryptionInfoCommand::ENI64(c)) => {
                c.decoded_at(prefix, d, p, order)
            },
            LoadCommand::VersionMinCommand(c) => c.decoded_at(prefix, d, p, order),
            LoadCommand::BuildVersionCommand(c) => c.decoded_at(prefix, d, p, order),
            LoadCommand::DyldInfoCommand(c) => c.decoded_at(prefix, d, p, order),
            LoadCommand::LinkerOptionCommand(c) => c.decoded_at(prefix, d, p, order),
            LoadCommand::SymsegCommand(c) => c.decoded_at(prefix, d, p, order),
            LoadCommand::IdentCommand(c) => c.cmd == prefix.cmd && c.cmdsize == prefix.cmdsize,
            LoadCommand::EntryPointCommand(c) => c.decoded_at(prefix, d, p, order),
            LoadCommand::SourceVersionCommand(c) => c.decoded_at(prefix, d, p, order),
            LoadCommand::NoteCommand(c) => c.decoded_at(prefix, d, p, order),
        }
    }

    /// The prefix that the record was decoded with.
    pub open spec fn spec_prefix(&self) -> LoadCommandPrefix {
        match self {
            LoadCommand::SegmentCommand(SegmentCommand::SEG32(c)) => {
                LoadCommandPrefix { cmd: c.cmd, cmdsize: c.cmdsize }
            },
            LoadCommand::SegmentCommand(SegmentCommand::SEG64(c)) => {
                LoadCommandPrefix { cmd: c.cmd, cmdsize: c.cmdsize }
            },
            LoadCommand::DylibCommand(c) => LoadCommandPrefix { cmd: c.cmd, cmdsize: c.cmdsize },
            LoadCommand::SubFrameWorkCommand(c) => {
                LoadCommandPrefix { cmd: c.cmd, cmdsize: c.cmdsize }
            },
            LoadCommand::SubClientCommand(c) => {
                LoadCommandPrefix { cmd: c.cmd, cmdsize: c.cmdsize }
            },
            LoadCommand::SubUmbrellaCommand(c) => {
                LoadCommandPrefix { cmd: c.cmd, cmdsize: c.cmdsize }
            },
            LoadCommand::SubLibraryCommand(c) => {
                LoadCommandPrefix { cmd: c.cmd, cmdsize: c.cmdsize }
            },
            LoadCommand::PreboundDylibCommand(c) => {
                LoadCommandPrefix { cmd: c.cmd, cmdsize: c.cmdsize }
            },
            LoadCommand::DylinkerCommand(c) => LoadCommandPrefix { cmd: c.cmd, cmdsize: c.cmdsize },
            LoadCommand::ThreadCommand(c) => LoadCommandPrefix { cmd: c.cmd, cmdsize: c.cmdsize },
            LoadCommand::RoutinesCommand(RoutinesCommand::RTN32(c)) => {
                LoadCommandPrefix { cmd: c.cmd, cmdsize: c.cmdsize }
            },
            LoadCommand::RoutinesCommand(RoutinesCommand::RTN64(c)) => {
                LoadCommandPrefix { cmd: c.cmd, cmdsize: c.cmdsize }
            },
            LoadCommand::SymtabCommand(c) => LoadCommandPrefix { cmd: c.cmd, cmdsize: c.cmdsize },
            LoadCommand::DynSymtabCommand(c) => {
                LoadCommandPrefix { cmd: c.cmd, cmdsize: c.cmdsize }
            },
            LoadCommand::TwoLevelHintsCommand(c) => {
                LoadCommandPrefix { cmd: c.cmd, cmdsize: c.cmdsize }
            },
            LoadCommand::PrebindCksumCommand(c) => {
                LoadCommandPrefix { cmd: c.cmd, cmdsize: c.cmdsize }
            },
            LoadCommand::UuidCommand(c) => LoadCommandPrefix { cmd: c.cmd, cmdsize: c.cmdsize },
            LoadCommand::RpathCommand(c) => LoadCommandPrefix { cmd: c.cmd, cmdsize: c.cmdsize },
            LoadCommand::LinkeditDataCommand(c) => {
                LoadCommandPrefix { cmd: c.cmd, cmdsize: c.cmdsize }
            },
            LoadCommand::EncryptionInfoCommand(EncryptionInfoCommand::ENI32(c)) => {
                LoadCommandPrefix { cmd: c.cmd, cmdsize: c.cmdsize }
            },
            LoadCommand::EncryptionInfoCommand(EncryptionInfoCommand::ENI64(c)) => {
                LoadCommandPrefix { cmd: c.cmd, cmdsize: c.cmdsize }
            },
            LoadCommand::VersionMinCommand(c) => {
                LoadCommandPrefix { cmd: c.cmd, cmdsize: c.cmdsize }
            },
            LoadCommand::BuildVersionCommand(c) => {
                LoadCommandPrefix { cmd: c.cmd, cmdsize: c.cmdsize }
            },
            LoadCommand::DyldInfoCommand(c) => LoadCommandPrefix { cmd: c.cmd, cmdsize: c.cmdsize },
            LoadCommand::LinkerOptionCommand(c) => {
                LoadCommandPrefix { cmd: c.cmd, cmdsize: c.cmdsize }
            },
            LoadCommand::SymsegCommand(c) => LoadCommandPrefix { cmd: c.cmd, cmdsize: c.cmdsize },
            LoadCommand::IdentCommand(c) => LoadCommandPrefix { cmd: c.cmd, cmdsize: c.cmdsize },
            LoadCommand::EntryPointCommand(c) => {
                LoadCommandPrefix { cmd: c.cmd, cmdsize: c.cmdsize }
            },
            LoadCommand::SourceVersionCommand(c) => {
                LoadCommandPrefix { cmd: c.cmd, cmdsize: c.cmdsize }
            },
            LoadCommand::NoteCommand(c) => LoadCommandPrefix { cmd: c.cmd, cmdsize: c.cmdsize },
        }
    }

    /// The opcode and declared byte length of the record.
    #[verifier::when_used_as_spec(spec_prefix)]
    pub fn prefix(&self) -> (r: LoadCommandPrefix)
        ensures
            r == self.spec_prefix(),
    {
        match self {
            LoadCommand::SegmentCommand(SegmentCommand::SEG32(c)) => {
                LoadCommandPrefix { cmd: c.cmd, cmdsize: c.cmdsize }
            },
            LoadCommand::SegmentCommand(SegmentCommand::SEG64(c)) => {
                LoadCommandPrefix { cmd: c.cmd, cmdsize: c.cmdsize }
            },
            LoadCommand::DylibCommand(c) => LoadCommandPrefix { cmd: c.cmd, cmdsize: c.cmdsize },
            LoadCommand::SubFrameWorkCommand(c) => {
                LoadCommandPrefix { cmd: c.cmd, cmdsize: c.cmdsize }
            },
            LoadCommand::SubClientCommand(c) => {
                LoadCommandPrefix { cmd: c.cmd, cmdsize: c.cmdsize }
            },
            LoadCommand::SubUmbrellaCommand(c) => {
                LoadCommandPrefix { cmd: c.cmd, cmdsize: c.cmdsize }
            },
            LoadCommand::SubLibraryCommand(c) => {
                LoadCommandPrefix { cmd: c.cmd, cmdsize: c.cmdsize }
            },
            LoadCommand::PreboundDylibCommand(c) => {
                LoadCommandPrefix { cmd: c.cmd, cmdsize: c.cmdsize }
            },
            LoadCommand::DylinkerCommand(c) => LoadCommandPrefix { cmd: c.cmd, cmdsize: c.cmdsize },
            LoadCommand::ThreadCommand(c) => LoadCommandPrefix { cmd: c.cmd, cmdsize: c.cmdsize },
            LoadCommand::RoutinesCommand(RoutinesCommand::RTN32(c)) => {
                LoadCommandPrefix { cmd: c.cmd, cmdsize: c.cmdsize }
            },
            LoadCommand::RoutinesCommand(RoutinesCommand::RTN64(c)) => {
                LoadCommandPrefix { cmd: c.cmd, cmdsize: c.cmdsize }
            },
            LoadCommand::SymtabCommand(c) => LoadCommandPrefix { cmd: c.cmd, cmdsize: c.cmdsize },
            LoadCommand::DynSymtabCommand(c) => {
                LoadCommandPrefix { cmd: c.cmd, cmdsize: c.cmdsize }
            },
            LoadCommand::TwoLevelHintsCommand(c) => {
                LoadCommandPrefix { cmd: c.cmd, cmdsize: c.cmdsize }
            },
            LoadCommand::PrebindCksumCommand(c) => {
                LoadCommandPrefix { cmd: c.cmd, cmdsize: c.cmdsize }
            },
            LoadCommand::UuidCommand(c) => LoadCommandPrefix { cmd: c.cmd, cmdsize: c.cmdsize },
            LoadCommand::RpathCommand(c) => LoadCommandPrefix { cmd: c.cmd, cmdsize: c.cmdsize },
            LoadCommand::LinkeditDataCommand(c) => {
                LoadCommandPrefix { cmd: c.cmd, cmdsize: c.cmdsize }
            },
            LoadCommand::EncryptionInfoCommand(EncryptionInfoCommand::ENI32(c)) => {
                LoadCommandPrefix { cmd: c.cmd, cmdsize: c.cmdsize }
            },
            LoadCommand::EncryptionInfoCommand(EncryptionInfoCommand::ENI64(c)) => {
                LoadCommandPrefix { cmd: c.cmd, cmdsize: c.cmdsize }
            },
            LoadCommand::VersionMinCommand(c) => {
                LoadCommandPrefix { cmd: c.cmd, cmdsize: c.cmdsize }
            },
            LoadCommand::BuildVersionCommand(c) => {
                LoadCommandPrefix { cmd: c.cmd, cmdsize: c.cmdsize }
            },
            LoadCommand::DyldInfoCommand(c) => LoadCommandPrefix { cmd: c.cmd, cmdsize: c.cmdsize },
            LoadCommand::LinkerOptionCommand(c) => {
                LoadCommandPrefix { cmd: c.cmd, cmdsize: c.cmdsize }
            },
            LoadCommand::SymsegCommand(c) => LoadCommandPrefix { cmd: c.cmd, cmdsize: c.cmdsize },
            LoadCommand::IdentCommand(c) => LoadCommandPrefix { cmd: c.cmd, cmdsize: c.cmdsize },
            LoadCommand::EntryPointCommand(c) => {
                LoadCommandPrefix { cmd: c.cmd, cmdsize: c.cmdsize }
            },
            LoadCommand::SourceVersionCommand(c) => {
                LoadCommandPrefix { cmd: c.cmd, cmdsize: c.cmdsize }
            },
            LoadCommand::NoteCommand(c) => LoadCommandPrefix { cmd: c.cmd, cmdsize: c.cmdsize },
        }
    }

    /// `self` is the record that the opcode of `prefix` dispatches to, with
    /// its fixed fields read from `p` on.
    pub open spec fn decoded_at(
        self,
        prefix: LoadCommandPrefix,
        d: Seq<u8>,
        p: int,
        order: ByteOrder,
        width: BitWidth,
    ) -> bool {
        &&& kind_of(prefix.cmd) == Some(self.kind())
        &&& self.fits_width(width)
        &&& self.fields_at(prefix, d, p, order)
    }
}

/// The opcode and byte length that open every load command.
#[derive(Debug, Clone, Copy, PartialEq, Eq, Structural)]
pub struct LoadCommandPrefix {
    pub cmd: u32,
    pub cmdsize: u32,
}

impl LoadCommandPrefix {
    pub open spec fn spec_at(d: Seq<u8>, p: int, order: ByteOrder) -> LoadCommandPrefix {
        LoadCommandPrefix { cmd: u32_at(d, p, order), cmdsize: u32_at(d, p + 4, order) }
    }

    pub fn from_file(
        file: &mut Cursor,
        order: ByteOrder,
    ) -> (r: Result<LoadCommandPrefix, AppError>)
        ensures
            final(file).bytes() == old(file).bytes(),
            r is Ok <==> old(file).has(8),
            r is Ok ==> Cursor::advanced(*old(file), *final(file), 8) && r->Ok_0
                == LoadCommandPrefix::spec_at(old(file).bytes(), old(file).offset(), order),
            r is Err ==> r->Err_0 == AppError::Truncated,
    {
        let load_command = LoadCommandPrefix {
            cmd: file.read_u32(order)?,
            cmdsize: file.read_u32(order)?,
        };
        Ok(load_command)
    }
}

/// The in-record offset of a string that trails a load command's fixed
/// fields.
#[derive(Debug, Clone, Copy, PartialEq, Eq, Structural)]
pub struct LcStr {
    pub offset: u32,
}

#[derive(Debug)]
pub enum SegmentCommand {
    SEG32(SegmentCommand32),
    SEG64(SegmentCommand64),
}

impl SegmentCommand {
    pub open spec fn spec_nsects(&self) -> u32 {
        match self {
            SegmentCommand::SEG32(c) => c.nsects,
            SegmentCommand::SEG64(c) => c.nsects,
        }
    }

    /// The number of section records that follow the segment's fields.
    #[verifier::when_used_as_spec(spec_nsects)]
    pub fn nsects(&self) -> (r: u32)
        ensures
            r == self.spec_nsects(),
    {
        match self {
            SegmentCommand::SEG32(c) => c.nsects,
            SegmentCommand::SEG64(c) => c.nsects,
        }
    }
}

#[derive(Debug)]
pub enum Section {
    SEC32(Section32),
    SEC64(Section64),
}

impl Section {
    /// The size of one section record.
    pub open spec fn spec_size(width: BitWidth) -> u32 {
        match width {
            BitWidth::W32 => 68,
            BitWidth::W64 => 80,
        }
    }

    #[verifier::when_used_as_spec(spec_size)]
    pub fn size(width: BitWidth) -> (r: u32)
        ensures
            r == Section::spec_size(width),
    {
        match width {
            BitWidth::W32 => 68,
            BitWidth::W64 => 80,
        }
    }

    /// `self` has the layout of `width` and is what the bytes at `p` hold.
    pub open spec fn decoded_at(
        self,
        d: Seq<u8>,
        p: int,
        order: ByteOrder,
        width: BitWidth,
    ) -> bool {
        match self {
            Section::SEC32(s) => width == BitWidth::W32 && s.decoded_at(d, p, order),
            Section::SEC64(s) => width == BitWidth::W64 && s.decoded_at(d, p, order),
        }
    }
}

#[derive(Debug)]
pub struct SegmentCommand32 {
    pub cmd: u32,
    pub cmdsize: u32,
    pub segname: [u8; 16],
    pub vmaddr: u32,
    pub vmsize: u32,
    pub fileoff: u32,
    pub filesize: u32,
    pub maxprot: i32,
    pub initprot: i32,
    pub nsects: u32,
    pub flags: u32,
}

impl SegmentCommand32 {
    /// `self` is what the 48 bytes at `p` hold, after the prefix `prefix`.
    pub open spec fn decoded_at(
        self,
        prefix: LoadCommandPrefix,
        d: Seq<u8>,
        p: int,
        order: ByteOrder,
    ) -> bool {
        &&& self.cmd == prefix.cmd
        &&& self.cmdsize == prefix.cmdsize
        &&& self.segname@ == d.subrange(p, p + 16)
        &&& self.vmaddr == u32_at(d, p + 16, order)
        &&& self.vmsize == u32_at(d, p + 20, order)
        &&& self.fileoff == u32_at(d, p + 24, order)
        &&& self.filesize == u32_at(d, p + 28, order)
        &&& self.maxprot == i32_at(d, p + 32, order)
        &&& self.initprot == i32_at(d, p + 36, order)
        &&& self.nsects == u32_at(d, p + 40, order)
        &&& self.flags == u32_at(d, p + 44, order)
    }

    pub fn from_file(
        file: &mut Cursor,
        load_command: &LoadCommandPrefix,
        order: ByteOrder,
    ) -> (r: Result<LoadCommand, AppError>)
        ensures
            final(file).bytes() == old(file).bytes(),
            r is Ok <==> old(file).has(48),
            r is Ok ==> {
                &&& Cursor::advanced(*old(file), *final(file), 48)
                &&& (r->Ok_0 matches LoadCommand::SegmentCommand(SegmentCommand::SEG32(c))
                    && c.decoded_at(
                        *load_command,
                        old(file).bytes(),
                        old(file).offset(),
                        order,
                    ))
            },
            r is Err ==> r->Err_0 == AppError::Truncated,
    {
        let segment_command = SegmentCommand32 {
            cmd: load_command.cmd,
            cmdsize: load_command.cmdsize,
            segname: Self::read_segname(file)?,
            vmaddr: file.read_u32(order)?,
            vmsize: file.read_u32(order)?,
            fileoff: file.read_u32(order)?,
            filesize: file.read_u32(order)?,
            maxprot: file.read_i32(order)?,
            initprot: file.read_i32(order)?,
            nsects: file.read_u32(order)?,
            flags: file.read_u32(order)?,
        };
        Ok(LoadCommand::SegmentCommand(SegmentCommand::SEG32(segment_command)))
    }

    fn read_segname(file: &mut Cursor) -> (r: Result<[u8; 16], AppError>)
        ensures
            r is Ok <==> old(file).has(16),
            r is Ok ==> {
                &&& Cursor::advanced(*old(file), *final(file), 16)
                &&& r->Ok_0@ == old(file).bytes().subrange(
                    old(file).offset(),
                    old(file).offset() + 16,
                )
            },
            r is Err ==> r->Err_0 == AppError::Truncated && *final(file) == *old(file),
    {
        file.read_array16()
    }
}

#[derive(Debug)]
pub struct SegmentCommand64 {
    pub cmd: u32,
    pub cmdsize: u32,
    pub segname: [u8; 16],
    pub vmaddr: u64,
    pub vmsize: u64,
    pub fileoff: u64,
    pub filesize: u64,
    pub maxprot: i32,
    pub initprot: i32,
    pub nsects: u32,
    pub flags: u32,
}

impl SegmentCommand64 {
    /// `self` is what the 64 bytes at `p` hold, after the prefix `prefix`.
    pub open spec fn decoded_at(
        self,
        prefix: LoadCommandPrefix,
        d: Seq<u8>,
        p: int,
        order: ByteOrder,
    ) -> bool {
        &&& self.cmd == prefix.cmd
        &&& self.cmdsize == prefix.cmdsize
        &&& self.segname@ == d.subrange(p, p + 16)
        &&& self.vmaddr == u64_at(d, p + 16, order)
        &&& self.vmsize == u64_at(d, p + 24, order)
        &&& self.fileoff == u64_at(d, p + 32, order)
        &&& self.filesize == u64_at(d, p + 40, order)
        &&& self.maxprot == i32_at(d, p + 48, order)
        &&& self.initprot == i32_at(d, p + 52, order)
        &&& self.nsects == u32_at(d, p + 56, order)
        &&& self.flags == u32_at(d, p + 60, order)
    }

    pub fn from_file(
        file: &mut Cursor,
        load_command: &LoadCommandPrefix,
        order: ByteOrder,
    ) -> (r: Result<LoadCommand, AppError>)
        ensures
            final(file).bytes() == old(file).bytes(),
            r is Ok <==> old(file).has(64),
            r is Ok ==> {
                &&& Cursor::advanced(*old(file), *final(file), 64)
                &&& (r->Ok_0 matches LoadCommand::SegmentCommand(SegmentCommand::SEG64(c))
                    && c.decoded_at(
                        *load_command,
                        old(file).bytes(),
                        old(file).offset(),
                        order,
                    ))
            },
            r is Err ==> r->Err_0 == AppError::Truncated,
    {
        let segment_command = SegmentCommand64 {
            cmd: load_command.cmd,
            cmdsize: load_command.cmdsize,
            segname: Self::read_segname(file)?,
            vmaddr: file.read_u64(order)?,
            vmsize: file.read_u64(order)?,
            fileoff: file.read_u64(order)?,
            filesize: file.read_u64(order)?,
            maxprot: file.read_i32(order)?,
            initprot: file.read_i32(order)?,
            nsects: file.read_u32(order)?,
            flags: file.read_u32(order)?,
        };
        Ok(LoadCommand::SegmentCommand(SegmentCommand::SEG64(segment_command)))
    }

    fn read_segname(file: &mut Cursor) -> (r: Result<[u8; 16], AppError>)
        ensures
            r is Ok <==> old(file).has(16),
            r is Ok ==> {
                &&& Cursor::advanced(*old(file), *final(file), 16)
                &&& r->Ok_0@ == old(file).bytes().subrange(
                    old(file).offset(),
                    old(file).offset() + 16,
                )
            },
            r is Err ==> r->Err_0 == AppError::Truncated && *final(file) == *old(file),
    {
        file.read_array16()
    }
}

#[derive(Debug)]
pub struct Section32 {
    pub sectname: [u8; 16],
    pub segname: [u8; 16],
    pub addr: u32,
    pub size: u32,
    pub offset: u32,
    pub align: u32,
    pub reloff: u32,
    pub nreloc: u32,
    pub flags: u32,
    pub reserved1: u32,
    pub reserved2: u32,
}

impl Section32 {
    /// `self` is what the 68 bytes at `p` hold.
    pub open spec fn decoded_at(self, d: Seq<u8>, p: int, order: ByteOrder) -> bool {
        &&& self.sectname@ == d.subrange(p, p + 16)
        &&& self.segname@ == d.subrange(p + 16, p + 32)
        &&& self.addr == u32_at(d, p + 32, order)
        &&& self.size == u32_at(d, p + 36, order)
        &&& self.offset == u32_at(d, p + 40, order)
        &&& self.align == u32_at(d, p + 44, order)
        &&& self.reloff == u32_at(d, p + 48, order)
        &&& self.nreloc == u32_at(d, p + 52, order)
        &&& self.flags == u32_at(d, p + 56, order)
        &&& self.reserved1 == u32_at(d, p + 60, order)
        &&& self.reserved2 == u32_at(d, p + 64, order)
    }

    pub fn from_file(file: &mut Cursor, order: ByteOrder) -> (r: Result<Section32, AppError>)
        ensures
            final(file).bytes() == old(file).bytes(),
            r is Ok <==> old(file).has(68),
            r is Ok ==> {
                &&& Cursor::advanced(*old(file), *final(file), 68)
                &&& r->Ok_0.decoded_at(old(file).bytes(), old(file).offset(), order)
            },
            r is Err ==> r->Err_0 == AppError::Truncated,
    {
        let section = Section32 {
            sectname: Self::read_sectname_or_segname(file)?,
            segname: Self::read_sectname_or_segname(file)?,
            addr: file.read_u32(order)?,
            size: file.read_u32(order)?,
            offset: file.read_u32(order)?,
            align: file.read_u32(order)?,
            reloff: file.read_u32(order)?,
            nreloc: file.read_u32(order)?,
            flags: file.read_u32(order)?,
            reserved1: file.read_u32(order)?,
            reserved2: file.read_u32(order)?,
        };
        Ok(section)
    }

    fn read_sectname_or_segname(file: &mut Cursor) -> (r: Result<[u8; 16], AppError>)
        ensures
            r is Ok <==> old(file).has(16),
            r is Ok ==> {
                &&& Cursor::advanced(*old(file), *final(file), 16)
                &&& r->Ok_0@ == old(file).bytes().subrange(
                    old(file).offset(),
                    old(file).offset() + 16,
                )
            },
            r is Err ==> r->Err_0 == AppError::Truncated && *final(file) == *old(file),
    {
        file.read_array16()
    }
}

#[derive(Debug)]
pub struct Section64 {
    pub sectname: [u8; 16],
    pub segname: [u8; 16],
    pub addr: u64,
    pub size: u64,
    pub offset: u32,
    pub align: u32,
    pub reloff: u32,
    pub nreloc: u32,
    pub flags: u32,
    pub reserved1: u32,
    pub reserved2: u32,
    pub reserved3: u32,
}

impl Section64 {
    /// `self` is what the 80 bytes at `p` hold.
    pub open spec fn decoded_at(self, d: Seq<u8>, p: int, order: ByteOrder) -> bool {
        &&& self.sectname@ == d.subrange(p, p + 16)
        &&& self.segname@ == d.subrange(p + 16, p + 32)
        &&& self.addr == u64_at(d, p + 32, order)
        &&& self.size == u64_at(d, p + 40, order)
        &&& self.offset == u32_at(d, p + 48, order)
        &&& self.align == u32_at(d, p + 52, order)
        &&& self.reloff == u32_at(d, p + 56, order)
        &&& self.nreloc == u32_at(d, p + 60, order)
        &&& self.flags == u32_at(d, p + 64, order)
        &&& self.reserved1 == u32_at(d, p + 68, order)
        &&& self.reserved2 == u32_at(d, p + 72, order)
        &&& self.reserved3 == u32_at(d, p + 76, order)
    }

    pub fn from_file(file: &mut Cursor, order: ByteOrder) -> (r: Result<Section64, AppError>)
        ensures
            final(file).bytes() == old(file).bytes(),
            r is Ok <==> old(file).has(80),
            r is Ok ==> {
                &&& Cursor::advanced(*old(file), *final(file), 80)
                &&& r->Ok_0.decoded_at(old(file).bytes(), old(file).offset(), order)
            },
            r is Err ==> r->Err_0 == AppError::Truncated,
    {
        let section = Section64 {
            sectname: Self::read_sectname_or_segname(file)?,
            segname: Self::read_sectname_or_segname(file)?,
            addr: file.read_u64(order)?,
            size: file.read_u64(order)?,
            offset: file.read_u32(order)?,
            align: file.read_u32(order)?,
            reloff: file.read_u32(order)?,
            nreloc: file.read_u32(order)?,
            flags: file.read_u32(order)?,
            reserved1: file.read_u32(order)?,
            reserved2: file.read_u32(order)?,
            reserved3: file.read_u32(order)?,
        };
        Ok(section)
    }

    fn read_sectname_or_segname(file: &mut Cursor) -> (r: Result<[u8; 16], AppError>)
        ensures
            r is Ok <==> old(file).has(16),
            r is Ok ==> {
                &&& Cursor::advanced(*old(file), *final(file), 16)
                &&& r->Ok_0@ == old(file).bytes().subrange(
                    old(file).offset(),
                    old(file).offset() + 16,
                )
            },
            r is Err ==> r->Err_0 == AppError::Truncated && *final(file) == *old(file),
    {
        file.read_array16()
    }
}

#[derive(Debug)]
pub struct Dylib {
    pub name: LcStr,
    pub timestamp: u32,
    pub current_version: u32,
    pub compatibility_version: u32,
}

impl Dylib {
    /// `self` is what the 16 bytes at `p` hold.
    pub open spec fn decoded_at(self, d: Seq<u8>, p: int, order: ByteOrder) -> bool {
        &&& self.name.offset == u32_at(d, p, order)
        &&& self.timestamp == u32_at(d, p + 4, order)
        &&& self.current_version == u32_at(d, p + 8, order)
        &&& self.compatibility_version == u32_at(d, p + 12, order)
    }

    pub fn from_file(file: &mut Cursor, order: ByteOrder) -> (r: Result<Dylib, AppError>)
        ensures
            final(file).bytes() == old(file).bytes(),
            r is Ok <==> old(file).has(16),
            r is Ok ==> {
                &&& Cursor::advanced(*old(file), *final(file), 16)
                &&& r->Ok_0.decoded_at(old(file).bytes(), old(file).offset(), order)
            },
            r is Err ==> r->Err_0 == AppError::Truncated,
    {
        let dylib = Dylib {
            name: LcStr { offset: file.read_u32(order)? },
            timestamp: file.read_u32(order)?,
            current_version: file.read_u32(order)?,
            compatibility_version: file.read_u32(order)?,
        };
        Ok(dylib)
    }
}

#[derive(Debug)]
pub struct DylibCommand {
    pub cmd: u32,
    pub cmdsize: u32,
    pub dylib: Dylib,
}

impl DylibCommand {
    /// `self` is what the 16 bytes at `p` hold, after the prefix `prefix`.
    pub open spec fn decoded_at(
        self,
        prefix: LoadCommandPrefix,
        d: Seq<u8>,
        p: int,
        order: ByteOrder,
    ) -> bool {
        &&& self.cmd == prefix.cmd
        &&& self.cmdsize == prefix.cmdsize
        &&& self.dylib.decoded_at(d, p, order)
    }

    pub fn from_file(
        file: &mut Cursor,
        load_command: &LoadCommandPrefix,
        order: ByteOrder,
    ) -> (r: Result<LoadCommand, AppError>)
        ensures
            final(file).bytes() == old(file).bytes(),
            r is Ok <==> old(file).has(16),
            r is Ok ==> {
                &&& Cursor::advanced(*old(file), *final(file), 16)
                &&& (r->Ok_0 matches LoadCommand::DylibCommand(c) && c.decoded_at(
                    *load_command,
                    old(file).bytes(),
                    old(file).offset(),
                    order,
                ))
            },
            r is Err ==> r->Err_0 == AppError::Truncated,
    {
        let dylib_command = DylibCommand {
            cmd: load_command.cmd,
            cmdsize: load_command.cmdsize,
            dylib: Dylib::from_file(file, order)?,
        };
        Ok(LoadCommand::DylibCommand(dylib_command))
    }
}

#[derive(Debug)]
pub struct SubFrameWorkCommand {
    pub cmd: u32,
    pub cmdsize: u32,
    pub umbrella: LcStr,
}

impl SubFrameWorkCommand {
    /// `self` is what the 4 bytes at `p` hold, after the prefix `prefix`.
    pub open spec fn decoded_at(
        self,
        prefix: LoadCommandPrefix,
        d: Seq<u8>,
        p: int,
        order: ByteOrder,
    ) -> bool {
        &&& self.cmd == prefix.cmd
        &&& self.cmdsize == prefix.cmdsize
        &&& self.umbrella.offset == u32_at(d, p, order)
    }

    pub fn from_file(
        file: &mut Cursor,
        load_command: &LoadCommandPrefix,
        order: ByteOrder,
    ) -> (r: Result<LoadCommand, AppError>)
        ensures
            final(file).bytes() == old(file).bytes(),
            r is Ok <==> old(file).has(4),
            r is Ok ==> {
                &&& Cursor::advanced(*old(file), *final(file), 4)
                &&& (r->Ok_0 matches LoadCommand::SubFrameWorkCommand(c) && c.decoded_at(
                    *load_command,
                    old(file).bytes(),
                    old(file).offset(),
                    order,
                ))
            },
            r is Err ==> r->Err_0 == AppError::Truncated,
    {
        let sub_frame_work_command = SubFrameWorkCommand {
            cmd: load_command.cmd,
            cmdsize: load_command.cmdsize,
            umbrella: LcStr { offset: file.read_u32(order)? },
        };
        Ok(LoadCommand::SubFrameWorkCommand(sub_frame_work_command))
    }
}

#[derive(Debug)]
pub struct SubClientCommand {
    pub cmd: u32,
    pub cmdsize: u32,
    pub client: LcStr,
}

impl SubClientCommand {
    /// `self` is what the 4 bytes at `p` hold, after the prefix `prefix`.
    pub open spec fn decoded_at(
        self,
        prefix: LoadCommandPrefix,
        d: Seq<u8>,
        p: int,
        order: ByteOrder,
    ) -> bool {
        &&& self.cmd == prefix.cmd
        &&& self.cmdsize == prefix.cmdsize
        &&& self.client.offset == u32_at(d, p, order)
    }

    pub fn from_file(
        file: &mut Cursor,
        load_command: &LoadCommandPrefix,
        order: ByteOrder,
    ) -> (r: Result<LoadCommand, AppError>)
        ensures
            final(file).bytes() == old(file).bytes(),
            r is Ok <==> old(file).has(4),
            r is Ok ==> {
                &&& Cursor::advanced(*old(file), *final(file), 4)
                &&& (r->Ok_0 matches LoadCommand::SubClientCommand(c) && c.decoded_at(
                    *load_command,
                    old(file).bytes(),
                    old(file).offset(),
                    order,
                ))
            },
            r is Err ==> r->Err_0 == AppError::Truncated,
    {
        let sub_client_command = SubClientCommand {
            cmd: load_command.cmd,
            cmdsize: load_command.cmdsize,
            client: LcStr { offset: file.read_u32(order)? },
        };
        Ok(LoadCommand::SubClientCommand(sub_client_command))
    }
}

#[derive(Debug)]
pub struct SubUmbrellaCommand {
    pub cmd: u32,
    pub cmdsize: u32,
    pub sub_umbrella: LcStr,
}

impl SubUmbrellaCommand {
    /// `self` is what the 4 bytes at `p` hold, after the prefix `prefix`.
    pub open spec fn decoded_at(
        self,
        prefix: LoadCommandPrefix,
        d: Seq<u8>,
        p: int,
        order: ByteOrder,
    ) -> bool {
        &&& self.cmd == prefix.cmd
        &&& self.cmdsize == prefix.cmdsize
        &&& self.sub_umbrella.offset == u32_at(d, p, order)
    }

    pub fn from_file(
        file: &mut Cursor,
        load_command: &LoadCommandPrefix,
        order: ByteOrder,
    ) -> (r: Result<LoadCommand, AppError>)
        ensures
            final(file).bytes() == old(file).bytes(),
            r is Ok <==> old(file).has(4),
            r is Ok ==> {
                &&& Cursor::advanced(*old(file), *final(file), 4)
                &&& (r->Ok_0 matches LoadCommand::SubUmbrellaCommand(c) && c.decoded_at(
                    *load_command,
                    old(file).bytes(),
                    old(file).offset(),
                    order,
                ))
            },
            r is Err ==> r->Err_0 == AppError::Truncated,
    {
        let sub_umbrella_command = SubUmbrellaCommand {
            cmd: load_command.cmd,
            cmdsize: load_command.cmdsize,
            sub_umbrella: LcStr { offset: file.read_u32(order)? },
        };
        Ok(LoadCommand::SubUmbrellaCommand(sub_umbrella_command))
    }
}

#[derive(Debug)]
pub struct SubLibraryCommand {
    pub cmd: u32,
    pub cmdsize: u32,
    pub sub_library: LcStr,
}

impl SubLibraryCommand {
    /// `self` is what the 4 bytes at `p` hold, after the prefix `prefix`.
    pub open spec fn decoded_at(
        self,
        prefix: LoadCommandPrefix,
        d: Seq<u8>,
        p: int,
        order: ByteOrder,
    ) -> bool {
        &&& self.cmd == prefix.cmd
        &&& self.cmdsize == prefix.cmdsize
        &&& self.sub_library.offset == u32_at(d, p, order)
    }

    pub fn from_file(
        file: &mut Cursor,
        load_command: &LoadCommandPrefix,
        order: ByteOrder,
    ) -> (r: Result<LoadCommand, AppError>)
        ensures
            final(file).bytes() == old(file).bytes(),
            r is Ok <==> old(file).has(4),
            r is Ok ==> {
                &&& Cursor::advanced(*old(file), *final(file), 4)
                &&& (r->Ok_0 matches LoadCommand::SubLibraryCommand(c) && c.decoded_at(
                    *load_command,
                    old(file).bytes(),
                    old(file).offset(),
                    order,
                ))
            },
            r is Err ==> r->Err_0 == AppError::Truncated,
    {
        let sub_library_command = SubLibraryCommand {
            cmd: load_command.cmd,
            cmdsize: load_command.cmdsize,
            sub_library: LcStr { offset: file.read_u32(order)? },
        };
        Ok(LoadCommand::SubLibraryCommand(sub_library_command))
    }
}

#[derive(Debug)]
pub struct PreboundDylibCommand {
    pub cmd: u32,
    pub cmdsize: u32,
    pub name: LcStr,
    pub nmodules: u32,
    pub linked_modules: LcStr,
}

impl PreboundDylibCommand {
    /// `self` is what the 12 bytes at `p` hold, after the prefix `prefix`.
    pub open spec fn decoded_at(
        self,
        prefix: LoadCommandPrefix,
        d: Seq<u8>,
        p: int,
        order: ByteOrder,
    ) -> bool {
        &&& self.cmd == prefix.cmd
        &&& self.cmdsize == prefix.cmdsize
        &&& self.name.offset == u32_at(d, p, order)
        &&& self.nmodules == u32_at(d, p + 4, order)
        &&& self.linked_modules.offset == u32_at(d, p + 8, order)
    }

    pub fn from_file(
        file: &mut Cursor,
        load_command: &LoadCommandPrefix,
        order: ByteOrder,
    ) -> (r: Result<LoadCommand, AppError>)
        ensures
            final(file).bytes() == old(file).bytes(),
            r is Ok <==> old(file).has(12),
            r is Ok ==> {
                &&& Cursor::advanced(*old(file), *final(file), 12)
                &&& (r->Ok_0 matches LoadCommand::PreboundDylibCommand(c) && c.decoded_at(
                    *load_command,
                    old(file).bytes(),
                    old(file).offset(),
                    order,
                ))
            },
            r is Err ==> r->Err_0 == AppError::Truncated,
    {
        let prebound_dylib_command = PreboundDylibCommand {
            cmd: load_command.cmd,
            cmdsize: load_command.cmdsize,
            name: LcStr { offset: file.read_u32(order)? },
            nmodules: file.read_u32(order)?,
            linked_modules: LcStr { offset: file.read_u32(order)? },
        };
        Ok(LoadCommand::PreboundDylibCommand(prebound_dylib_command))
    }
}

#[derive(Debug)]
pub struct DylinkerCommand {
    pub cmd: u32,
    pub cmdsize: u32,
    pub name: LcStr,
}

impl DylinkerCommand {
    /// `self` is what the 4 bytes at `p` hold, after the prefix `prefix`.
    pub open spec fn decoded_at(
        self,
        prefix: LoadCommandPrefix,
        d: Seq<u8>,
        p: int,
        order: ByteOrder,
    ) -> bool {
        &&& self.cmd == prefix.cmd
        &&& self.cmdsize == prefix.cmdsize
        &&& self.name.offset == u32_at(d, p, order)
    }

    pub fn from_file(
        file: &mut Cursor,
        load_command: &LoadCommandPrefix,
        order: ByteOrder,
    ) -> (r: Result<LoadCommand, AppError>)
        ensures
            final(file).bytes() == old(file).bytes(),
            r is Ok <==> old(file).has(4),
            r is Ok ==> {
                &&& Cursor::advanced(*old(file), *final(file), 4)
                &&& (r->Ok_0 matches LoadCommand::DylinkerCommand(c) && c.decoded_at(
                    *load_command,
                    old(file).bytes(),
                    old(file).offset(),
                    order,
                ))
            },
            r is Err ==> r->Err_0 == AppError::Truncated,
    {
        let dylinker_command = DylinkerCommand {
            cmd: load_command.cmd,
            cmdsize: load_command.cmdsize,
            name: LcStr { offset: file.read_u32(order)? },
        };
        Ok(LoadCommand::DylinkerCommand(dylinker_command))
    }
}

/// A thread-state record: its register contents depend on the architecture
/// and stay uninterpreted; only the prefix is kept.
#[derive(Debug)]
pub struct ThreadCommand {
    pub cmd: u32,
    pub cmdsize: u32,
}

impl ThreadCommand {
    pub fn from_file(load_command: &LoadCommandPrefix) -> (r: Result<LoadCommand, AppError>)
        ensures
            r matches Ok(LoadCommand::ThreadCommand(c)) && c.cmd == load_command.cmd && c.cmdsize
                == load_command.cmdsize,
    {
        let thread_command = ThreadCommand { cmd: load_command.cmd, cmdsize: load_command.cmdsize };
        Ok(LoadCommand::ThreadCommand(thread_command))
    }
}

#[derive(Debug)]
pub enum RoutinesCommand {
    RTN32(RoutinesCommand32),
    RTN64(RoutinesCommand64),
}

#[derive(Debug)]
pub struct RoutinesCommand32 {
    pub cmd: u32,
    pub cmdsize: u32,
    pub init_address: u32,
    pub init_module: u32,
    pub reserved1: u32,
    pub reserved2: u32,
    pub reserved3: u32,
    pub reserved4: u32,
    pub reserved5: u32,
    pub reserved6: u32,
}

impl RoutinesCommand32 {
    /// `self` is what the 32 bytes at `p` hold, after the prefix `prefix`.
    pub open spec fn decoded_at(
        self,
        prefix: LoadCommandPrefix,
        d: Seq<u8>,
        p: int,
        order: ByteOrder,
    ) -> bool {
        &&& self.cmd == prefix.cmd
        &&& self.cmdsize == prefix.cmdsize
        &&& self.init_address == u32_at(d, p, order)
        &&& self.init_module == u32_at(d, p + 4, order)
        &&& self.reserved1 == u32_at(d, p + 8, order)
        &&& self.reserved2 == u32_at(d, p + 12, order)
        &&& self.reserved3 == u32_at(d, p + 16, order)
        &&& self.reserved4 == u32_at(d, p + 20, order)
        &&& self.reserved5 == u32_at(d, p + 24, order)
        &&& self.reserved6 == u32_at(d, p + 28, order)
    }

    pub fn from_file(
        file: &mut Cursor,
        load_command: &LoadCommandPrefix,
        order: ByteOrder,
    ) -> (r: Result<LoadCommand, AppError>)
        ensures
            final(file).bytes() == old(file).bytes(),
            r is Ok <==> old(file).has(32),
            r is Ok ==> {
                &&& Cursor::advanced(*old(file), *final(file), 32)
                &&& (r->Ok_0 matches LoadCommand::RoutinesCommand(RoutinesCommand::RTN32(c))
                    && c.decoded_at(
                        *load_command,
                        old(file).bytes(),
                        old(file).offset(),
                        order,
                    ))
            },
            r is Err ==> r->Err_0 == AppError::Truncated,
    {
        let routines_command = RoutinesCommand32 {
            cmd: load_command.cmd,
            cmdsize: load_command.cmdsize,
            init_address: file.read_u32(order)?,
            init_module: file.read_u32(order)?,
            reserved1: file.read_u32(order)?,
            reserved2: file.read_u32(order)?,
            reserved3: file.read_u32(order)?,
            reserved4: file.read_u32(order)?,
            reserved5: file.read_u32(order)?,
            reserved6: file.read_u32(order)?,
        };
        Ok(LoadCommand::RoutinesCommand(RoutinesCommand::RTN32(routines_command)))
    }
}

#[derive(Debug)]
pub struct RoutinesCommand64 {
    pub cmd: u32,
    pub cmdsize: u32,
    pub init_address: u64,
    pub init_module: u64,
    pub reserved1: u64,
    pub reserved2: u64,
    pub reserved3: u64,
    pub reserved4: u64,
    pub reserved5: u64,
    pub reserved6: u64,
}

impl RoutinesCommand64 {
    /// `self` is what the 64 bytes at `p` hold, after the prefix `prefix`.
    pub open spec fn decoded_at(
        self,
        prefix: LoadCommandPrefix,
        d: Seq<u8>,
        p: int,
        order: ByteOrder,
    ) -> bool {
        &&& self.cmd == prefix.cmd
        &&& self.cmdsize == prefix.cmdsize
        &&& self.init_address == u64_at(d, p, order)
        &&& self.init_module == u64_at(d, p + 8, order)
        &&& self.reserved1 == u64_at(d, p + 16, order)
        &&& self.reserved2 == u64_at(d, p + 24, order)
        &&& self.reserved3 == u64_at(d, p + 32, order)
        &&& self.reserved4 == u64_at(d, p + 40, order)
        &&& self.reserved5 == u64_at(d, p + 48, order)
        &&& self.reserved6 == u64_at(d, p + 56, order)
    }

    pub fn from_file(
        file: &mut Cursor,
        load_command: &LoadCommandPrefix,
        order: ByteOrder,
    ) -> (r: Result<LoadCommand, AppError>)
        ensures
            final(file).bytes() == old(file).bytes(),
            r is Ok <==> old(file).has(64),
            r is Ok ==> {
                &&& Cursor::advanced(*old(file), *final(file), 64)
                &&& (r->Ok_0 matches LoadCommand::RoutinesCommand(RoutinesCommand::RTN64(c))
                    && c.decoded_at(
                        *load_command,
                        old(file).bytes(),
                        old(file).offset(),
                        order,
                    ))
            },
            r is Err ==> r->Err_0 == AppError::Truncated,
    {
        let routines_command = RoutinesCommand64 {
            cmd: load_command.cmd,
            cmdsize: load_command.cmdsize,
            init_address: file.read_u64(order)?,
            init_module: file.read_u64(order)?,
            reserved1: file.read_u64(order)?,
            reserved2: file.read_u64(order)?,
            reserved3: file.read_u64(order)?,
            reserved4: file.read_u64(order)?,
            reserved5: file.read_u64(order)?,
            reserved6: file.read_u64(order)?,
        };
        Ok(LoadCommand::RoutinesCommand(RoutinesCommand::RTN64(routines_command)))
    }
}

#[derive(Debug)]
pub struct SymtabCommand {
    pub cmd: u32,
    pub cmdsize: u32,
    pub symoff: u32,
    pub nsyms: u32,
    pub stroff: u32,
    pub strsize: u32,
}

impl SymtabCommand {
    /// `self` is what the 16 bytes at `p` hold, after the prefix `prefix`.
    pub open spec fn decoded_at(
        self,
        prefix: LoadCommandPrefix,
        d: Seq<u8>,
        p: int,
        order: ByteOrder,
    ) -> bool {
        &&& self.cmd == prefix.cmd
        &&& self.cmdsize == prefix.cmdsize
        &&& self.symoff == u32_at(d, p, order)
        &&& self.nsyms == u32_at(d, p + 4, order)
        &&& self.stroff == u32_at(d, p + 8, order)
        &&& self.strsize == u32_at(d, p + 12, order)
    }

    pub fn from_file(
        file: &mut Cursor,
        load_command: &LoadCommandPrefix,
        order: ByteOrder,
    ) -> (r: Result<LoadCommand, AppError>)
        ensures
            final(file).bytes() == old(file).bytes(),
            r is Ok <==> old(file).has(16),
            r is Ok ==> {
                &&& Cursor::advanced(*old(file), *final(file), 16)
                &&& (r->Ok_0 matches LoadCommand::SymtabCommand(c) && c.decoded_at(
                    *load_command,
                    old(file).bytes(),
                    old(file).offset(),
                    order,
                ))
            },
            r is Err ==> r->Err_0 == AppError::Truncated,
    {
        let symtab_command = SymtabCommand {
            cmd: load_command.cmd,
            cmdsize: load_command.cmdsize,
            symoff: file.read_u32(order)?,
            nsyms: file.read_u32(order)?,
            stroff: file.read_u32(order)?,
            strsize: file.read_u32(order)?,
        };
        Ok(LoadCommand::SymtabCommand(symtab_command))
    }
}

#[derive(Debug)]
pub struct DynSymtabCommand {
    pub cmd: u32,
    pub cmdsize: u32,
    pub ilocalsym: u32,
    pub nlocalsym: u32,
    pub iextdefsym: u32,
    pub nextdefsym: u32,
    pub iundefsym: u32,
    pub nundefsym: u32,
    pub tocoff: u32,
    pub ntoc: u32,
    pub modtaboff: u32,
    pub nmodtab: u32,
    pub extrefsymoff: u32,
    pub nextrefsyms: u32,
    pub indirectsymoff: u32,
    pub nindirectsyms: u32,
    pub extreloff: u32,
    pub nextrel: u32,
    pub locreloff: u32,
    pub nlocrel: u32,
}

impl DynSymtabCommand {
    /// `self` is what the 72 bytes at `p` hold, after the prefix `prefix`.
    pub open spec fn decoded_at(
        self,
        prefix: LoadCommandPrefix,
        d: Seq<u8>,
        p: int,
        order: ByteOrder,
    ) -> bool {
        &&& self.cmd == prefix.cmd
        &&& self.cmdsize == prefix.cmdsize
        &&& self.ilocalsym == u32_at(d, p, order)
        &&& self.nlocalsym == u32_at(d, p + 4, order)
        &&& self.iextdefsym == u32_at(d, p + 8, order)
        &&& self.nextdefsym == u32_at(d, p + 12, order)
        &&& self.iundefsym == u32_at(d, p + 16, order)
        &&& self.nundefsym == u32_at(d, p + 20, order)
        &&& self.tocoff == u32_at(d, p + 24, order)
        &&& self.ntoc == u32_at(d, p + 28, order)
        &&& self.modtaboff == u32_at(d, p + 32, order)
        &&& self.nmodtab == u32_at(d, p + 36, order)
        &&& self.extrefsymoff == u32_at(d, p + 40, order)
        &&& self.nextrefsyms == u32_at(d, p + 44, order)
        &&& self.indirectsymoff == u32_at(d, p + 48, order)
        &&& self.nindirectsyms == u32_at(d, p + 52, order)
        &&& self.extreloff == u32_at(d, p + 56, order)
        &&& self.nextrel == u32_at(d, p + 60, order)
        &&& self.locreloff == u32_at(d, p + 64, order)
        &&& self.nlocrel == u32_at(d, p + 68, order)
    }

    pub fn from_file(
        file: &mut Cursor,
        load_command: &LoadCommandPrefix,
        order: ByteOrder,
    ) -> (r: Result<LoadCommand, AppError>)
        ensures
            final(file).bytes() == old(file).bytes(),
            r is Ok <==> old(file).has(72),
            r is Ok ==> {
                &&& Cursor::advanced(*old(file), *final(file), 72)
                &&& (r->Ok_0 matches LoadCommand::DynSymtabCommand(c) && c.decoded_at(
                    *load_command,
                    old(file).bytes(),
                    old(file).offset(),
                    order,
                ))
            },
            r is Err ==> r->Err_0 == AppError::Truncated,
    {
        let dyn_symtab_command = DynSymtabCommand {
            cmd: load_command.cmd,
            cmdsize: load_command.cmdsize,
            ilocalsym: file.read_u32(order)?,
            nlocalsym: file.read_u32(order)?,
            iextdefsym: file.read_u32(order)?,
            nextdefsym: file.read_u32(order)?,
            iundefsym: file.read_u32(order)?,
            nundefsym: file.read_u32(order)?,
            tocoff: file.read_u32(order)?,
            ntoc: file.read_u32(order)?,
            modtaboff: file.read_u32(order)?,
            nmodtab: file.read_u32(order)?,
            extrefsymoff: file.read_u32(order)?,
            nextrefsyms: file.read_u32(order)?,
            indirectsymoff: file.read_u32(order)?,
            nindirectsyms: file.read_u32(order)?,
            extreloff: file.read_u32(order)?,
            nextrel: file.read_u32(order)?,
            locreloff: file.read_u32(order)?,
            nlocrel: file.read_u32(order)?,
        };
        Ok(LoadCommand::DynSymtabCommand(dyn_symtab_command))
    }
}

#[derive(Debug)]
pub struct DylibTableOfContents {
    pub symbol_index: u32,
    pub module_index: u32,
}

impl DylibTableOfContents {
    /// `self` is what the 8 bytes at `p` hold.
    pub open spec fn decoded_at(self, d: Seq<u8>, p: int, order: ByteOrder) -> bool {
        &&& self.symbol_index == u32_at(d, p, order)
        &&& self.module_index == u32_at(d, p + 4, order)
    }

    pub fn from_file(
        file: &mut Cursor,
        order: ByteOrder,
    ) -> (r: Result<DylibTableOfContents, AppError>)
        ensures
            final(file).bytes() == old(file).bytes(),
            r is Ok <==> old(file).has(8),
            r is Ok ==> {
                &&& Cursor::advanced(*old(file), *final(file), 8)
                &&& r->Ok_0.decoded_at(old(file).bytes(), old(file).offset(), order)
            },
            r is Err ==> r->Err_0 == AppError::Truncated,
    {
        let dylib_table_of_contents = DylibTableOfContents {
            symbol_index: file.read_u32(order)?,
            module_index: file.read_u32(order)?,
        };
        Ok(dylib_table_of_contents)
    }
}

#[derive(Debug)]
pub enum DylibModule {
    DMD32(DylibModule32),
    DMD64(DylibModule64),
}

#[derive(Debug)]
pub struct DylibModule32 {
    pub module_name: u32,
    pub iextdefsym: u32,
    pub nextdefsym: u32,
    pub irefsym: u32,
    pub nrefsym: u32,
    pub ilocalsym: u32,
    pub nlocalsym: u32,
    pub iextrel: u32,
    pub nextrel: u32,
    pub iinit_iterm: u32,
    pub ninit_nterm: u32,
    pub objc_module_info_addr: u32,
    pub objc_module_info_size: u32,
}

impl DylibModule32 {
    /// `self` is what the 52 bytes at `p` hold.
    pub open spec fn decoded_at(self, d: Seq<u8>, p: int, order: ByteOrder) -> bool {
        &&& self.module_name == u32_at(d, p, order)
        &&& self.iextdefsym == u32_at(d, p + 4, order)
        &&& self.nextdefsym == u32_at(d, p + 8, order)
        &&& self.irefsym == u32_at(d, p + 12, order)
        &&& self.nrefsym == u32_at(d, p + 16, order)
        &&& self.ilocalsym == u32_at(d, p + 20, order)
        &&& self.nlocalsym == u32_at(d, p + 24, order)
        &&& self.iextrel == u32_at(d, p + 28, order)
        &&& self.nextrel == u32_at(d, p + 32, order)
        &&& self.iinit_iterm == u32_at(d, p + 36, order)
        &&& self.ninit_nterm == u32_at(d, p + 40, order)
        &&& self.objc_module_info_addr == u32_at(d, p + 44, order)
        &&& self.objc_module_info_size == u32_at(d, p + 48, order)
    }

    pub fn from_file(file: &mut Cursor, order: ByteOrder) -> (r: Result<DylibModule, AppError>)
        ensures
            final(file).bytes() == old(file).bytes(),
            r is Ok <==> old(file).has(52),
            r is Ok ==> {
                &&& Cursor::advanced(*old(file), *final(file), 52)
                &&& (r->Ok_0 matches DylibModule::DMD32(c) && c.decoded_at(
                    old(file).bytes(),
                    old(file).offset(),
                    order,
                ))
            },
            r is Err ==> r->Err_0 == AppError::Truncated,
    {
        let dylib_module = DylibModule32 {
            module_name: file.read_u32(order)?,
            iextdefsym: file.read_u32(order)?,
            nextdefsym: file.read_u32(order)?,
            irefsym: file.read_u32(order)?,
            nrefsym: file.read_u32(order)?,
            ilocalsym: file.read_u32(order)?,
            nlocalsym: file.read_u32(order)?,
            iextrel: file.read_u32(order)?,
            nextrel: file.read_u32(order)?,
            iinit_iterm: file.read_u32(order)?,
            ninit_nterm: file.read_u32(order)?,
            objc_module_info_addr: file.read_u32(order)?,
            objc_module_info_size: file.read_u32(order)?,
        };
        Ok(DylibModule::DMD32(dylib_module))
    }
}

#[derive(Debug)]
pub struct DylibModule64 {
    pub module_name: u32,
    pub iextdefsym: u32,
    pub nextdefsym: u32,
    pub irefsym: u32,
    pub nrefsym: u32,
    pub ilocalsym: u32,
    pub nlocalsym: u32,
    pub iextrel: u32,
    pub nextrel: u32,
    pub iinit_iterm: u32,
    pub ninit_nterm: u32,
    pub objc_module_info_size: u32,
    pub objc_module_info_addr: u64,
}

impl DylibModule64 {
    /// `self` is what the 56 bytes at `p` hold.
    pub open spec fn decoded_at(self, d: Seq<u8>, p: int, order: ByteOrder) -> bool {
        &&& self.module_name == u32_at(d, p, order)
        &&& self.iextdefsym == u32_at(d, p + 4, order)
        &&& self.nextdefsym == u32_at(d, p + 8, order)
        &&& self.irefsym == u32_at(d, p + 12, order)
        &&& self.nrefsym == u32_at(d, p + 16, order)
        &&& self.ilocalsym == u32_at(d, p + 20, order)
        &&& self.nlocalsym == u32_at(d, p + 24, order)
        &&& self.iextrel == u32_at(d, p + 28, order)
        &&& self.nextrel == u32_at(d, p + 32, order)
        &&& self.iinit_iterm == u32_at(d, p + 36, order)
        &&& self.ninit_nterm == u32_at(d, p + 40, order)
        &&& self.objc_module_info_size == u32_at(d, p + 44, order)
        &&& self.objc_module_info_addr == u64_at(d, p + 48, order)
    }

    pub fn from_file(file: &mut Cursor, order: ByteOrder) -> (r: Result<DylibModule, AppError>)
        ensures
            final(file).bytes() == old(file).bytes(),
            r is Ok <==> old(file).has(56),
            r is Ok ==> {
                &&& Cursor::advanced(*old(file), *final(file), 56)
                &&& (r->Ok_0 matches DylibModule::DMD64(c) && c.decoded_at(
                    old(file).bytes(),
                    old(file).offset(),
                    order,
                ))
            },
            r is Err ==> r->Err_0 == AppError::Truncated,
    {
        let dylib_module = DylibModule64 {
            module_name: file.read_u32(order)?,
            iextdefsym: file.read_u32(order)?,
            nextdefsym: file.read_u32(order)?,
            irefsym: file.read_u32(order)?,
            nrefsym: file.read_u32(order)?,
            ilocalsym: file.read_u32(order)?,
            nlocalsym: file.read_u32(order)?,
            iextrel: file.read_u32(order)?,
            nextrel: file.read_u32(order)?,
            iinit_iterm: file.read_u32(order)?,
            ninit_nterm: file.read_u32(order)?,
            objc_module_info_size: file.read_u32(order)?,
            objc_module_info_addr: file.read_u64(order)?,
        };
        Ok(DylibModule::DMD64(dylib_module))
    }
}

#[derive(Debug)]
pub struct DylibReference {
    pub isym: u32,
    pub flags: u8,
}

impl DylibReference {
    /// `self` is what the 5 bytes at `p` hold.
    pub open spec fn decoded_at(self, d: Seq<u8>, p: int, order: ByteOrder) -> bool {
        &&& self.isym == u32_at(d, p, order)
        &&& self.flags == d[p + 4]
    }

    pub fn from_file(file: &mut Cursor, order: ByteOrder) -> (r: Result<DylibReference, AppError>)
        ensures
            final(file).bytes() == old(file).bytes(),
            r is Ok <==> old(file).has(5),
            r is Ok ==> {
                &&& Cursor::advanced(*old(file), *final(file), 5)
                &&& r->Ok_0.decoded_at(old(file).bytes(), old(file).offset(), order)
            },
            r is Err ==> r->Err_0 == AppError::Truncated,
    {
        let dylib_reference = DylibReference {
            isym: file.read_u32(order)?,
            flags: file.read_u8()?,
        };
        Ok(dylib_reference)
    }
}

#[derive(Debug)]
pub struct TwoLevelHintsCommand {
    pub cmd: u32,
    pub cmdsize: u32,
    pub offset: u32,
    pub nhints: u32,
}

impl TwoLevelHintsCommand {
    /// `self` is what the 8 bytes at `p` hold, after the prefix `prefix`.
    pub open spec fn decoded_at(
        self,
        prefix: LoadCommandPrefix,
        d: Seq<u8>,
        p: int,
        order: ByteOrder,
    ) -> bool {
        &&& self.cmd == prefix.cmd
        &&& self.cmdsize == prefix.cmdsize
        &&& self.offset == u32_at(d, p, order)
        &&& self.nhints == u32_at(d, p + 4, order)
    }

    pub fn from_file(
        file: &mut Cursor,
        load_command: &LoadCommandPrefix,
        order: ByteOrder,
    ) -> (r: Result<LoadCommand, AppError>)
        ensures
            final(file).bytes() == old(file).bytes(),
            r is Ok <==> old(file).has(8),
            r is Ok ==> {
                &&& Cursor::advanced(*old(file), *final(file), 8)
                &&& (r->Ok_0 matches LoadCommand::TwoLevelHintsCommand(c) && c.decoded_at(
                    *load_command,
                    old(file).bytes(),
                    old(file).offset(),
                    order,
                ))
            },
            r is Err ==> r->Err_0 == AppError::Truncated,
    {
        let two_level_hints_command = TwoLevelHintsCommand {
            cmd: load_command.cmd,
            cmdsize: load_command.cmdsize,
            offset: file.read_u32(order)?,
            nhints: file.read_u32(order)?,
        };
        Ok(LoadCommand::TwoLevelHintsCommand(two_level_hints_command))
    }
}

#[derive(Debug)]
pub struct TwoLevelHint {
    pub isub_image: u8,
    pub itoc: u32,
}

impl TwoLevelHint {
    /// `self` is what the 5 bytes at `p` hold.
    pub open spec fn decoded_at(self, d: Seq<u8>, p: int, order: ByteOrder) -> bool {
        &&& self.isub_image == d[p]
        &&& self.itoc == u32_at(d, p + 1, order)
    }

    pub fn from_file(file: &mut Cursor, order: ByteOrder) -> (r: Result<TwoLevelHint, AppError>)
        ensures
            final(file).bytes() == old(file).bytes(),
            r is Ok <==> old(file).has(5),
            r is Ok ==> {
                &&& Cursor::advanced(*old(file), *final(file), 5)
                &&& r->Ok_0.decoded_at(old(file).bytes(), old(file).offset(), order)
            },
            r is Err ==> r->Err_0 == AppError::Truncated,
    {
        let two_level_hint = TwoLevelHint {
            isub_image: file.read_u8()?,
            itoc: file.read_u32(order)?,
        };
        Ok(two_level_hint)
    }
}

#[derive(Debug)]
pub struct PrebindCksumCommand {
    pub cmd: u32,
    pub cmdsize: u32,
    pub cksum: u32,
}

impl PrebindCksumCommand {
    /// `self` is what the 4 bytes at `p` hold, after the prefix `prefix`.
    pub open spec fn decoded_at(
        self,
        prefix: LoadCommandPrefix,
        d: Seq<u8>,
        p: int,
        order: ByteOrder,
    ) -> bool {
        &&& self.cmd == prefix.cmd
        &&& self.cmdsize == prefix.cmdsize
        &&& self.cksum == u32_at(d, p, order)
    }

    pub fn from_file(
        file: &mut Cursor,
        load_command: &LoadCommandPrefix,
        order: ByteOrder,
    ) -> (r: Result<LoadCommand, AppError>)
        ensures
            final(file).bytes() == old(file).bytes(),
            r is Ok <==> old(file).has(4),
            r is Ok ==> {
                &&& Cursor::advanced(*old(file), *final(file), 4)
                &&& (r->Ok_0 matches LoadCommand::PrebindCksumCommand(c) && c.decoded_at(
                    *load_command,
                    old(file).bytes(),
                    old(file).offset(),
                    order,
                ))
            },
            r is Err ==> r->Err_0 == AppError::Truncated,
    {
        let prebind_cksum_command = PrebindCksumCommand {
            cmd: load_command.cmd,
            cmdsize: load_command.cmdsize,
            cksum: file.read_u32(order)?,
        };
        Ok(LoadCommand::PrebindCksumCommand(prebind_cksum_command))
    }
}

#[derive(Debug)]
pub struct UuidCommand {
    pub cmd: u32,
    pub cmdsize: u32,
    pub uuid: [u8; 16],
}

impl UuidCommand {
    /// `self` is what the 16 bytes at `p` hold, after the prefix `prefix`.
    pub open spec fn decoded_at(
        self,
        prefix: LoadCommandPrefix,
        d: Seq<u8>,
        p: int,
        order: ByteOrder,
    ) -> bool {
        &&& self.cmd == prefix.cmd
        &&& self.cmdsize == prefix.cmdsize
        &&& self.uuid@ == d.subrange(p, p + 16)
    }

    pub fn from_file(
        file: &mut Cursor,
        load_command: &LoadCommandPrefix,
        order: ByteOrder,
    ) -> (r: Result<LoadCommand, AppError>)
        ensures
            final(file).bytes() == old(file).bytes(),
            r is Ok <==> old(file).has(16),
            r is Ok ==> {
                &&& Cursor::advanced(*old(file), *final(file), 16)
                &&& (r->Ok_0 matches LoadCommand::UuidCommand(c) && c.decoded_at(
                    *load_command,
                    old(file).bytes(),
                    old(file).offset(),
                    order,
                ))
            },
            r is Err ==> r->Err_0 == AppError::Truncated,
    {
        let uuid_command = UuidCommand {
            cmd: load_command.cmd,
            cmdsize: load_command.cmdsize,
            uuid: Self::read_uuid(file)?,
        };
        Ok(LoadCommand::UuidCommand(uuid_command))
    }

    fn read_uuid(file: &mut Cursor) -> (r: Result<[u8; 16], AppError>)
        ensures
            r is Ok <==> old(file).has(16),
            r is Ok ==> {
                &&& Cursor::advanced(*old(file), *final(file), 16)
                &&& r->Ok_0@ == old(file).bytes().subrange(
                    old(file).offset(),
                    old(file).offset() + 16,
                )
            },
            r is Err ==> r->Err_0 == AppError::Truncated && *final(file) == *old(file),
    {
        file.read_array16()
    }
}

#[derive(Debug)]
pub struct RpathCommand {
    pub cmd: u32,
    pub cmdsize: u32,
    pub path: LcStr,
}

impl RpathCommand {
    /// `self` is what the 4 bytes at `p` hold, after the prefix `prefix`.
    pub open spec fn decoded_at(
        self,
        prefix: LoadCommandPrefix,
        d: Seq<u8>,
        p: int,
        order: ByteOrder,
    ) -> bool {
        &&& self.cmd == prefix.cmd
        &&& self.cmdsize == prefix.cmdsize
        &&& self.path.offset == u32_at(d, p, order)
    }

    pub fn from_file(
        file: &mut Cursor,
        load_command: &LoadCommandPrefix,
        order: ByteOrder,
    ) -> (r: Result<LoadCommand, AppError>)
        ensures
            final(file).bytes() == old(file).bytes(),
            r is Ok <==> old(file).has(4),
            r is Ok ==> {
                &&& Cursor::advanced(*old(file), *final(file), 4)
                &&& (r->Ok_0 matches LoadCommand::RpathCommand(c) && c.decoded_at(
                    *load_command,
                    old(file).bytes(),
                    old(file).offset(),
                    order,
                ))
            },
            r is Err ==> r->Err_0 == AppError::Truncated,
    {
        let rpath_command = RpathCommand {
            cmd: load_command.cmd,
            cmdsize: load_command.cmdsize,
            path: LcStr { offset: file.read_u32(order)? },
        };
        Ok(LoadCommand::RpathCommand(rpath_command))
    }
}

#[derive(Debug)]
pub struct LinkeditDataCommand {
    pub cmd: u32,
    pub cmdsize: u32,
    pub dataoff: u32,
    pub datasize: u32,
}

impl LinkeditDataCommand {
    /// `self` is what the 8 bytes at `p` hold, after the prefix `prefix`.
    pub open spec fn decoded_at(
        self,
        prefix: LoadCommandPrefix,
        d: Seq<u8>,
        p: int,
        order: ByteOrder,
    ) -> bool {
        &&& self.cmd == prefix.cmd
        &&& self.cmdsize == prefix.cmdsize
        &&& self.dataoff == u32_at(d, p, order)
        &&& self.datasize == u32_at(d, p + 4, order)
    }

    pub fn from_file(
        file: &mut Cursor,
        load_command: &LoadCommandPrefix,
        order: ByteOrder,
    ) -> (r: Result<LoadCommand, AppError>)
        ensures
            final(file).bytes() == old(file).bytes(),
            r is Ok <==> old(file).has(8),
            r is Ok ==> {
                &&& Cursor::advanced(*old(file), *final(file), 8)
                &&& (r->Ok_0 matches LoadCommand::LinkeditDataCommand(c) && c.decoded_at(
                    *load_command,
                    old(file).bytes(),
                    old(file).offset(),
                    order,
                ))
            },
            r is Err ==> r->Err_0 == AppError::Truncated,
    {
        let linkedit_data_command = LinkeditDataCommand {
            cmd: load_command.cmd,
            cmdsize: load_command.cmdsize,
            dataoff: file.read_u32(order)?,
            datasize: file.read_u32(order)?,
        };
        Ok(LoadCommand::LinkeditDataCommand(linkedit_data_command))
    }
}

#[derive(Debug)]
pub enum EncryptionInfoCommand {
    ENI32(EncryptionInfoCommand32),
    ENI64(EncryptionInfoCommand64),
}

#[derive(Debug)]
pub struct EncryptionInfoCommand32 {
    pub cmd: u32,
    pub cmdsize: u32,
    pub cryptoff: u32,
    pub cryptsize: u32,
    pub cryptid: u32,
}

impl EncryptionInfoCommand32 {
    /// `self` is what the 12 bytes at `p` hold, after the prefix `prefix`.
    pub open spec fn decoded_at(
        self,
        prefix: LoadCommandPrefix,
        d: Seq<u8>,
        p: int,
        order: ByteOrder,
    ) -> bool {
        &&& self.cmd == prefix.cmd
        &&& self.cmdsize == prefix.cmdsize
        &&& self.cryptoff == u32_at(d, p, order)
        &&& self.cryptsize == u32_at(d, p + 4, order)
        &&& self.cryptid == u32_at(d, p + 8, order)
    }

    pub fn from_file(
        file: &mut Cursor,
        load_command: &LoadCommandPrefix,
        order: ByteOrder,
    ) -> (r: Result<LoadCommand, AppError>)
        ensures
            final(file).bytes() == old(file).bytes(),
            r is Ok <==> old(file).has(12),
            r is Ok ==> {
                &&& Cursor::advanced(*old(file), *final(file), 12)
                &&& (r->Ok_0 matches LoadCommand::EncryptionInfoCommand(
                    EncryptionInfoCommand::ENI32(c),
                )
                    && c.decoded_at(
                        *load_command,
                        old(file).bytes(),
                        old(file).offset(),
                        order,
                    ))
            },
            r is Err ==> r->Err_0 == AppError::Truncated,
    {
        let encryption_info_command = EncryptionInfoCommand32 {
            cmd: load_command.cmd,
            cmdsize: load_command.cmdsize,
            cryptoff: file.read_u32(order)?,
            cryptsize: file.read_u32(order)?,
            cryptid: file.read_u32(order)?,
        };
        Ok(LoadCommand::EncryptionInfoCommand(
            EncryptionInfoCommand::ENI32(encryption_info_command),
        ))
    }
}

#[derive(Debug)]
pub struct EncryptionInfoCommand64 {
    pub cmd: u32,
    pub cmdsize: u32,
    pub cryptoff: u32,
    pub cryptsize: u32,
    pub cryptid: u32,
    pub pad: u32,
}

impl EncryptionInfoCommand64 {
    /// `self` is what the 16 bytes at `p` hold, after the prefix `prefix`.
    pub open spec fn decoded_at(
        self,
        prefix: LoadCommandPrefix,
        d: Seq<u8>,
        p: int,
        order: ByteOrder,
    ) -> bool {
        &&& self.cmd == prefix.cmd
        &&& self.cmdsize == prefix.cmdsize
        &&& self.cryptoff == u32_at(d, p, order)
        &&& self.cryptsize == u32_at(d, p + 4, order)
        &&& self.cryptid == u32_at(d, p + 8, order)
        &&& self.pad == u32_at(d, p + 12, order)
    }

    pub fn from_file(
        file: &mut Cursor,
        load_command: &LoadCommandPrefix,
        order: ByteOrder,
    ) -> (r: Result<LoadCommand, AppError>)
        ensures
            final(file).bytes() == old(file).bytes(),
            r is Ok <==> old(file).has(16),
            r is Ok ==> {
                &&& Cursor::advanced(*old(file), *final(file), 16)
                &&& (r->Ok_0 matches LoadCommand::EncryptionInfoCommand(
                    EncryptionInfoCommand::ENI64(c),
                )
                    && c.decoded_at(
                        *load_command,
                        old(file).bytes(),
                        old(file).offset(),
                        order,
                    ))
            },
            r is Err ==> r->Err_0 == AppError::Truncated,
    {
        let encryption_info_command = EncryptionInfoCommand64 {
            cmd: load_command.cmd,
            cmdsize: load_command.cmdsize,
            cryptoff: file.read_u32(order)?,
            cryptsize: file.read_u32(order)?,
            cryptid: file.read_u32(order)?,
            pad: file.read_u32(order)?,
        };
        Ok(LoadCommand::EncryptionInfoCommand(
            EncryptionInfoCommand::ENI64(encryption_info_command),
        ))
    }
}

#[derive(Debug)]
pub struct VersionMinCommand {
    pub cmd: u32,
    pub cmdsize: u32,
    pub version: u32,
    pub sdk: u32,
}

impl VersionMinCommand {
    /// `self` is what the 8 bytes at `p` hold, after the prefix `prefix`.
    pub open spec fn decoded_at(
        self,
        prefix: LoadCommandPrefix,
        d: Seq<u8>,
        p: int,
        order: ByteOrder,
    ) -> bool {
        &&& self.cmd == prefix.cmd
        &&& self.cmdsize == prefix.cmdsize
        &&& self.version == u32_at(d, p, order)
        &&& self.sdk == u32_at(d, p + 4, order)
    }

    pub fn from_file(
        file: &mut Cursor,
        load_command: &LoadCommandPrefix,
        order: ByteOrder,
    ) -> (r: Result<LoadCommand, AppError>)
        ensures
            final(file).bytes() == old(file).bytes(),
            r is Ok <==> old(file).has(8),
            r is Ok ==> {
                &&& Cursor::advanced(*old(file), *final(file), 8)
                &&& (r->Ok_0 matches LoadCommand::VersionMinCommand(c) && c.decoded_at(
                    *load_command,
                    old(file).bytes(),
                    old(file).offset(),
                    order,
                ))
            },
            r is Err ==> r->Err_0 == AppError::Truncated,
    {
        let version_min_command = VersionMinCommand {
            cmd: load_command.cmd,
            cmdsize: load_command.cmdsize,
            version: file.read_u32(order)?,
            sdk: file.read_u32(order)?,
        };
        Ok(LoadCommand::VersionMinCommand(version_min_command))
    }
}

#[derive(Debug)]
pub struct BuildVersionCommand {
    pub cmd: u32,
    pub cmdsize: u32,
    pub platform: u32,
    pub minos: u32,
    pub sdk: u32,
    pub ntools: u32,
}

impl BuildVersionCommand {
    /// `self` is what the 16 bytes at `p` hold, after the prefix `prefix`.
    pub open spec fn decoded_at(
        self,
        prefix: LoadCommandPrefix,
        d: Seq<u8>,
        p: int,
        order: ByteOrder,
    ) -> bool {
        &&& self.cmd == prefix.cmd
        &&& self.cmdsize == prefix.cmdsize
        &&& self.platform == u32_at(d, p, order)
        &&& self.minos == u32_at(d, p + 4, order)
        &&& self.sdk == u32_at(d, p + 8, order)
        &&& self.ntools == u32_at(d, p + 12, order)
    }

    pub fn from_file(
        file: &mut Cursor,
        load_command: &LoadCommandPrefix,
        order: ByteOrder,
    ) -> (r: Result<LoadCommand, AppError>)
        ensures
            final(file).bytes() == old(file).bytes(),
            r is Ok <==> old(file).has(16),
            r is Ok ==> {
                &&& Cursor::advanced(*old(file), *final(file), 16)
                &&& (r->Ok_0 matches LoadCommand::BuildVersionCommand(c) && c.decoded_at(
                    *load_command,
                    old(file).bytes(),
                    old(file).offset(),
                    order,
                ))
            },
            r is Err ==> r->Err_0 == AppError::Truncated,
    {
        let build_version_command = BuildVersionCommand {
            cmd: load_command.cmd,
            cmdsize: load_command.cmdsize,
            platform: file.read_u32(order)?,
            minos: file.read_u32(order)?,
            sdk: file.read_u32(order)?,
            ntools: file.read_u32(order)?,
        };
        Ok(LoadCommand::BuildVersionCommand(build_version_command))
    }
}

#[derive(Debug)]
pub struct DyldInfoCommand {
    pub cmd: u32,
    pub cmdsize: u32,
    pub rebase_off: u32,
    pub rebase_size: u32,
    pub bind_off: u32,
    pub bind_size: u32,
    pub weak_bind_off: u32,
    pub weak_bind_size: u32,
    pub lazy_bind_off: u32,
    pub lazy_bind_size: u32,
    pub export_off: u32,
    pub export_size: u32,
}

impl DyldInfoCommand {
    /// `self` is what the 40 bytes at `p` hold, after the prefix `prefix`.
    pub open spec fn decoded_at(
        self,
        prefix: LoadCommandPrefix,
        d: Seq<u8>,
        p: int,
        order: ByteOrder,
    ) -> bool {
        &&& self.cmd == prefix.cmd
        &&& self.cmdsize == prefix.cmdsize
        &&& self.rebase_off == u32_at(d, p, order)
        &&& self.rebase_size == u32_at(d, p + 4, order)
        &&& self.bind_off == u32_at(d, p + 8, order)
        &&& self.bind_size == u32_at(d, p + 12, order)
        &&& self.weak_bind_off == u32_at(d, p + 16, order)
        &&& self.weak_bind_size == u32_at(d, p + 20, order)
        &&& self.lazy_bind_off == u32_at(d, p + 24, order)
        &&& self.lazy_bind_size == u32_at(d, p + 28, order)
        &&& self.export_off == u32_at(d, p + 32, order)
        &&& self.export_size == u32_at(d, p + 36, order)
    }

    pub fn from_file(
        file: &mut Cursor,
        load_command: &LoadCommandPrefix,
        order: ByteOrder,
    ) -> (r: Result<LoadCommand, AppError>)
        ensures
            final(file).bytes() == old(file).bytes(),
            r is Ok <==> old(file).has(40),
            r is Ok ==> {
                &&& Cursor::advanced(*old(file), *final(file), 40)
                &&& (r->Ok_0 matches LoadCommand::DyldInfoCommand(c) && c.decoded_at(
                    *load_command,
                    old(file).bytes(),
                    old(file).offset(),
                    order,
                ))
            },
            r is Err ==> r->Err_0 == AppError::Truncated,
    {
        let dyld_info_command = DyldInfoCommand {
            cmd: load_command.cmd,
            cmdsize: load_command.cmdsize,
            rebase_off: file.read_u32(order)?,
            rebase_size: file.read_u32(order)?,
            bind_off: file.read_u32(order)?,
            bind_size: file.read_u32(order)?,
            weak_bind_off: file.read_u32(order)?,
            weak_bind_size: file.read_u32(order)?,
            lazy_bind_off: file.read_u32(order)?,
            lazy_bind_size: file.read_u32(order)?,
            export_off: file.read_u32(order)?,
            export_size: file.read_u32(order)?,
        };
        Ok(LoadCommand::DyldInfoCommand(dyld_info_command))
    }
}

#[derive(Debug)]
pub struct BuildToolVersion {
    pub tool: u32,
    pub version: u32,
}

impl BuildToolVersion {
    /// `self` is what the 8 bytes at `p` hold.
    pub open spec fn decoded_at(self, d: Seq<u8>, p: int, order: ByteOrder) -> bool {
        &&& self.tool == u32_at(d, p, order)
        &&& self.version == u32_at(d, p + 4, order)
    }

    pub fn from_file(file: &mut Cursor, order: ByteOrder) -> (r: Result<BuildToolVersion, AppError>)
        ensures
            final(file).bytes() == old(file).bytes(),
            r is Ok <==> old(file).has(8),
            r is Ok ==> {
                &&& Cursor::advanced(*old(file), *final(file), 8)
                &&& r->Ok_0.decoded_at(old(file).bytes(), old(file).offset(), order)
            },
            r is Err ==> r->Err_0 == AppError::Truncated,
    {
        let build_tool_version = BuildToolVersion {
            tool: file.read_u32(order)?,
            version: file.read_u32(order)?,
        };
        Ok(build_tool_version)
    }
}

#[derive(Debug)]
pub struct LinkerOptionCommand {
    pub cmd: u32,
    pub cmdsize: u32,
    pub count: u32,
}

impl LinkerOptionCommand {
    /// `self` is what the 4 bytes at `p` hold, after the prefix `prefix`.
    pub open spec fn decoded_at(
        self,
        prefix: LoadCommandPrefix,
        d: Seq<u8>,
        p: int,
        order: ByteOrder,
    ) -> bool {
        &&& self.cmd == prefix.cmd
        &&& self.cmdsize == prefix.cmdsize
        &&& self.count == u32_at(d, p, order)
    }

    pub fn from_file(
        file: &mut Cursor,
        load_command: &LoadCommandPrefix,
        order: ByteOrder,
    ) -> (r: Result<LoadCommand, AppError>)
        ensures
            final(file).bytes() == old(file).bytes(),
            r is Ok <==> old(file).has(4),
            r is Ok ==> {
                &&& Cursor::advanced(*old(file), *final(file), 4)
                &&& (r->Ok_0 matches LoadCommand::LinkerOptionCommand(c) && c.decoded_at(
                    *load_command,
                    old(file).bytes(),
                    old(file).offset(),
                    order,
                ))
            },
            r is Err ==> r->Err_0 == AppError::Truncated,
    {
        let linker_option_command = LinkerOptionCommand {
            cmd: load_command.cmd,
            cmdsize: load_command.cmdsize,
            count: file.read_u32(order)?,
        };
        Ok(LoadCommand::LinkerOptionCommand(linker_option_command))
    }
}

#[derive(Debug)]
pub struct SymsegCommand {
    pub cmd: u32,
    pub cmdsize: u32,
    pub offset: u32,
    pub size: u32,
}

impl SymsegCommand {
    /// `self` is what the 8 bytes at `p` hold, after the prefix `prefix`.
    pub open spec fn decoded_at(
        self,
        prefix: LoadCommandPrefix,
        d: Seq<u8>,
        p: int,
        order: ByteOrder,
    ) -> bool {
        &&& self.cmd == prefix.cmd
        &&& self.cmdsize == prefix.cmdsize
        &&& self.offset == u32_at(d, p, order)
        &&& self.size == u32_at(d, p + 4, order)
    }

    pub fn from_file(
        file: &mut Cursor,
        load_command: &LoadCommandPrefix,
        order: ByteOrder,
    ) -> (r: Result<LoadCommand, AppError>)
        ensures
            final(file).bytes() == old(file).bytes(),
            r is Ok <==> old(file).has(8),
            r is Ok ==> {
                &&& Cursor::advanced(*old(file), *final(file), 8)
                &&& (r->Ok_0 matches LoadCommand::SymsegCommand(c) && c.decoded_at(
                    *load_command,
                    old(file).bytes(),
                    old(file).offset(),
                    order,
                ))
            },
            r is Err ==> r->Err_0 == AppError::Truncated,
    {
        let symseg_command = SymsegCommand {
            cmd: load_command.cmd,
            cmdsize: load_command.cmdsize,
            offset: file.read_u32(order)?,
            size: file.read_u32(order)?,
        };
        Ok(LoadCommand::SymsegCommand(symseg_command))
    }
}

/// An identification record of which only the prefix is kept.
#[derive(Debug)]
pub struct IdentCommand {
    pub cmd: u32,
    pub cmdsize: u32,
}

impl IdentCommand {
    pub fn from_file(load_command: &LoadCommandPrefix) -> (r: Result<LoadCommand, AppError>)
        ensures
            r matches Ok(LoadCommand::IdentCommand(c)) && c.cmd == load_command.cmd && c.cmdsize
                == load_command.cmdsize,
    {
        let ident_command = IdentCommand { cmd: load_command.cmd, cmdsize: load_command.cmdsize };
        Ok(LoadCommand::IdentCommand(ident_command))
    }
}

#[derive(Debug)]
pub struct EntryPointCommand {
    pub cmd: u32,
    pub cmdsize: u32,
    pub entryoff: u64,
    pub stacksize: u64,
}

impl EntryPointCommand {
    /// `self` is what the 16 bytes at `p` hold, after the prefix `prefix`.
    pub open spec fn decoded_at(
        self,
        prefix: LoadCommandPrefix,
        d: Seq<u8>,
        p: int,
        order: ByteOrder,
    ) -> bool {
        &&& self.cmd == prefix.cmd
        &&& self.cmdsize == prefix.cmdsize
        &&& self.entryoff == u64_at(d, p, order)
        &&& self.stacksize == u64_at(d, p + 8, order)
    }

    pub fn from_file(
        file: &mut Cursor,
        load_command: &LoadCommandPrefix,
        order: ByteOrder,
    ) -> (r: Result<LoadCommand, AppError>)
        ensures
            final(file).bytes() == old(file).bytes(),
            r is Ok <==> old(file).has(16),
            r is Ok ==> {
                &&& Cursor::advanced(*old(file), *final(file), 16)
                &&& (r->Ok_0 matches LoadCommand::EntryPointCommand(c) && c.decoded_at(
                    *load_command,
                    old(file).bytes(),
                    old(file).offset(),
                    order,
                ))
            },
            r is Err ==> r->Err_0 == AppError::Truncated,
    {
        let entry_point_command = EntryPointCommand {
            cmd: load_command.cmd,
            cmdsize: load_command.cmdsize,
            entryoff: file.read_u64(order)?,
            stacksize: file.read_u64(order)?,
        };
        Ok(LoadCommand::EntryPointCommand(entry_point_command))
    }
}

#[derive(Debug)]
pub struct SourceVersionCommand {
    pub cmd: u32,
    pub cmdsize: u32,
    pub version: u64,
}

impl SourceVersionCommand {
    /// `self` is what the 8 bytes at `p` hold, after the prefix `prefix`.
    pub open spec fn decoded_at(
        self,
        prefix: LoadCommandPrefix,
        d: Seq<u8>,
        p: int,
        order: ByteOrder,
    ) -> bool {
        &&& self.cmd == prefix.cmd
        &&& self.cmdsize == prefix.cmdsize
        &&& self.version == u64_at(d, p, order)
    }

    pub fn from_file(
        file: &mut Cursor,
        load_command: &LoadCommandPrefix,
        order: ByteOrder,
    ) -> (r: Result<LoadCommand, AppError>)
        ensures
            final(file).bytes() == old(file).bytes(),
            r is Ok <==> old(file).has(8),
            r is Ok ==> {
                &&& Cursor::advanced(*old(file), *final(file), 8)
                &&& (r->Ok_0 matches LoadCommand::SourceVersionCommand(c) && c.decoded_at(
                    *load_command,
                    old(file).bytes(),
                    old(file).offset(),
                    order,
                ))
            },
            r is Err ==> r->Err_0 == AppError::Truncated,
    {
        let source_version_command = SourceVersionCommand {
            cmd: load_command.cmd,
            cmdsize: load_command.cmdsize,
            version: file.read_u64(order)?,
        };
        Ok(LoadCommand::SourceVersionCommand(source_version_command))
    }
}

#[derive(Debug)]
pub struct DataInCodeEntry {
    pub offset: u32,
    pub length: u16,
    pub kind: u16,
}

impl DataInCodeEntry {
    /// `self` is what the 8 bytes at `p` hold.
    pub open spec fn decoded_at(self, d: Seq<u8>, p: int, order: ByteOrder) -> bool {
        &&& self.offset == u32_at(d, p, order)
        &&& self.length == u16_at(d, p + 4, order)
        &&& self.kind == u16_at(d, p + 6, order)
    }

    pub fn from_file(file: &mut Cursor, order: ByteOrder) -> (r: Result<DataInCodeEntry, AppError>)
        ensures
            final(file).bytes() == old(file).bytes(),
            r is Ok <==> old(file).has(8),
            r is Ok ==> {
                &&& Cursor::advanced(*old(file), *final(file), 8)
                &&& r->Ok_0.decoded_at(old(file).bytes(), old(file).offset(), order)
            },
            r is Err ==> r->Err_0 == AppError::Truncated,
    {
        let data_in_code_entry = DataInCodeEntry {
            offset: file.read_u32(order)?,
            length: file.read_u16(order)?,
            kind: file.read_u16(order)?,
        };
        Ok(data_in_code_entry)
    }
}

#[derive(Debug)]
pub struct NoteCommand {
    pub cmd: u32,
    pub cmdsize: u32,
    pub data_owner: [u8; 16],
    pub offset: u64,
    pub size: u64,
}

impl NoteCommand {
    /// `self` is what the 32 bytes at `p` hold, after the prefix `prefix`.
    pub open spec fn decoded_at(
        self,
        prefix: LoadCommandPrefix,
        d: Seq<u8>,
        p: int,
        order: ByteOrder,
    ) -> bool {
        &&& self.cmd == prefix.cmd
        &&& self.cmdsize == prefix.cmdsize
        &&& self.data_owner@ == d.subrange(p, p + 16)
        &&& self.offset == u64_at(d, p + 16, order)
        &&& self.size == u64_at(d, p + 24, order)
    }

    pub fn from_file(
        file: &mut Cursor,
        load_command: &LoadCommandPrefix,
        order: ByteOrder,
    ) -> (r: Result<LoadCommand, AppError>)
        ensures
            final(file).bytes() == old(file).bytes(),
            r is Ok <==> old(file).has(32),
            r is Ok ==> {
                &&& Cursor::advanced(*old(file), *final(file), 32)
                &&& (r->Ok_0 matches LoadCommand::NoteCommand(c) && c.decoded_at(
                    *load_command,
                    old(file).bytes(),
                    old(file).offset(),
                    order,
                ))
            },
            r is Err ==> r->Err_0 == AppError::Truncated,
    {
        let note_command = NoteCommand {
            cmd: load_command.cmd,
            cmdsize: load_command.cmdsize,
            data_owner: Self::read_data_owner(file)?,
            offset: file.read_u64(order)?,
            size: file.read_u64(order)?,
        };
        Ok(LoadCommand::NoteCommand(note_command))
    }

    fn read_data_owner(file: &mut Cursor) -> (r: Result<[u8; 16], AppError>)
        ensures
            r is Ok <==> old(file).has(16),
            r is Ok ==> {
                &&& Cursor::advanced(*old(file), *final(file), 16)
                &&& r->Ok_0@ == old(file).bytes().subrange(
                    old(file).offset(),
                    old(file).offset() + 16,
                )
            },
            r is Err ==> r->Err_0 == AppError::Truncated && *final(file) == *old(file),
    {
        file.read_array16()
    }
}

} // verus!
