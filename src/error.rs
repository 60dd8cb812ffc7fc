use vstd::prelude::*;

verus! {

/// The ways in which decoding a Mach-O image can fail. Every error is
/// terminal for the decode in progress.
#[derive(Debug, Clone, Copy, PartialEq, Eq, Structural)]
pub enum AppError {
    /// The first four bytes are none of the four recognized magic values.
    InvalidMagic(u32),
    /// Fewer bytes remain than a read asks for.
    Truncated,
    /// A seek targets an offset beyond the end of the source.
    SeekOutOfRange,
    /// The dispatcher knows no decoder for this opcode.
    UnknownLoadCommand(u32),
    /// A record's declared length is inconsistent with the fields it holds.
    MalformedRecord,
}

} // verus!
