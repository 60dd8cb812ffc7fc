use crate::constants::{MH_CIGAM, MH_CIGAM_64, MH_MAGIC, MH_MAGIC_64};
use crate::cursor::{i32_at, u32_at, BitWidth, ByteOrder, Cursor};
use crate::error::AppError;
use vstd::prelude::*;

verus! {

/// The byte order and word size that a magic value announces, if it is one
/// of the four recognized values.
pub open spec fn magic_kind(magic: u32) -> Option<(ByteOrder, BitWidth)> {
    if magic == MH_MAGIC {
        Some((ByteOrder::Big, BitWidth::W32))
    } else if magic == MH_CIGAM {
        Some((ByteOrder::Little, BitWidth::W32))
    } else if magic == MH_MAGIC_64 {
        Some((ByteOrder::Big, BitWidth::W64))
    } else if magic == MH_CIGAM_64 {
        Some((ByteOrder::Little, BitWidth::W64))
    } else {
        None
    }
}

/// The size of the fixed header, magic included.
pub open spec fn header_size(width: BitWidth) -> int {
    match width {
        BitWidth::W32 => 28,
        BitWidth::W64 => 32,
    }
}

#[derive(Debug)]
pub enum MachHeader {
    MH32(MachHeader32),
    MH64(MachHeader64),
}

impl MachHeader {
    pub open spec fn spec_ncmds(&self) -> u32 {
        match self {
            MachHeader::MH32(h) => h.ncmds,
            MachHeader::MH64(h) => h.ncmds,
        }
    }

    pub open spec fn spec_magic(&self) -> u32 {
        match self {
            MachHeader::MH32(h) => h.magic,
            MachHeader::MH64(h) => h.magic,
        }
    }

    /// The number of load commands that follow the header.
    #[verifier::when_used_as_spec(spec_ncmds)]
    pub fn ncmds(&self) -> (r: u32)
        ensures
            r == self.spec_ncmds(),
    {
        match self {
            MachHeader::MH32(header) => header.ncmds,
            MachHeader::MH64(header) => header.ncmds,
        }
    }

    /// The magic value exactly as it was read.
    #[verifier::when_used_as_spec(spec_magic)]
    pub fn magic(&self) -> (r: u32)
        ensures
            r == self.spec_magic(),
    {
        match self {
            MachHeader::MH32(header) => header.magic,
            MachHeader::MH64(header) => header.magic,
        }
    }

    /// The header whose magic is `magic` and whose other fields are stored
    /// in `order` from `p` on.
    pub open spec fn spec_at(
        d: Seq<u8>,
        p: int,
        magic: u32,
        order: ByteOrder,
        width: BitWidth,
    ) -> MachHeader {
        match width {
            BitWidth::W32 => MachHeader::MH32(
                MachHeader32 {
                    magic,
                    cputype: i32_at(d, p, order),
                    cpusubtype: i32_at(d, p + 4, order),
                    filetype: u32_at(d, p + 8, order),
                    ncmds: u32_at(d, p + 12, order),
                    sizeofcmds: u32_at(d, p + 16, order),
                    flags: u32_at(d, p + 20, order),
                },
            ),
            BitWidth::W64 => MachHeader::MH64(
                MachHeader64 {
                    magic,
                    cputype: i32_at(d, p, order),
                    cpusubtype: i32_at(d, p + 4, order),
                    filetype: u32_at(d, p + 8, order),
                    ncmds: u32_at(d, p + 12, order),
                    sizeofcmds: u32_at(d, p + 16, order),
                    flags: u32_at(d, p + 20, order),
                    reserved: u32_at(d, p + 24, order),
                },
            ),
        }
    }
}

#[derive(Debug)]
pub struct MachHeader32 {
    pub magic: u32,
    pub cputype: i32,
    pub cpusubtype: i32,
    pub filetype: u32,
    pub ncmds: u32,
    pub sizeofcmds: u32,
    pub flags: u32,
}

impl MachHeader32 {
    /// Reads the fields that follow the magic of a 32-bit header.
    pub fn from_file(file: &mut Cursor, magic: u32, order: ByteOrder) -> (r: Result<
        MachHeader,
        AppError,
    >)
        ensures
            final(file).bytes() == old(file).bytes(),
            r is Ok <==> old(file).has(24),
            r is Ok ==> Cursor::advanced(*old(file), *final(file), 24) && r->Ok_0
                == MachHeader::spec_at(
                old(file).bytes(),
                old(file).offset(),
                magic,
                order,
                BitWidth::W32,
            ),
            r is Err ==> r->Err_0 == AppError::Truncated,
    {
        let header = MachHeader32 {
            magic,
            cputype: file.read_i32(order)?,
            cpusubtype: file.read_i32(order)?,
            filetype: file.read_u32(order)?,
            ncmds: file.read_u32(order)?,
            sizeofcmds: file.read_u32(order)?,
            flags: file.read_u32(order)?,
        };
        Ok(MachHeader::MH32(header))
    }
}

#[derive(Debug)]
pub struct MachHeader64 {
    pub magic: u32,
    pub cputype: i32,
    pub cpusubtype: i32,
    pub filetype: u32,
    pub ncmds: u32,
    pub sizeofcmds: u32,
    pub flags: u32,
    pub reserved: u32,
}

impl MachHeader64 {
    /// Reads the fields that follow the magic of a 64-bit header.
    pub fn from_file(file: &mut Cursor, magic: u32, order: ByteOrder) -> (r: Result<
        MachHeader,
        AppError,
    >)
        ensures
            final(file).bytes() == old(file).bytes(),
            r is Ok <==> old(file).has(28),
            r is Ok ==> Cursor::advanced(*old(file), *final(file), 28) && r->Ok_0
                == MachHeader::spec_at(
                old(file).bytes(),
                old(file).offset(),
                magic,
                order,
                BitWidth::W64,
            ),
            r is Err ==> r->Err_0 == AppError::Truncated,
    {
        let header = MachHeader64 {
            magic,
            cputype: file.read_i32(order)?,
            cpusubtype: file.read_i32(order)?,
            filetype: file.read_u32(order)?,
            ncmds: file.read_u32(order)?,
            sizeofcmds: file.read_u32(order)?,
            flags: file.read_u32(order)?,
            reserved: file.read_u32(order)?,
        };
        Ok(MachHeader::MH64(header))
    }
}

} // verus!
