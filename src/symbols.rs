use crate::cursor::{i16_at, u16_at, u32_at, u64_at, BitWidth, ByteOrder, Cursor};
use crate::error::AppError;
use vstd::prelude::*;

verus! {

pub type Symtab = Vec<Nlist>;

/// One symbol-table entry, in the layout of the image's word size.
#[derive(Debug)]
pub enum Nlist {
    NL32(Nlist32),
    NL64(Nlist64),
}

impl Nlist {
    /// The size of one entry.
    pub open spec fn spec_size(width: BitWidth) -> int {
        match width {
            BitWidth::W32 => 12,
            BitWidth::W64 => 16,
        }
    }

    /// `self` has the layout of `width` and is what the bytes at `p` hold.
    pub open spec fn decoded_at(
        self,
        d: Seq<u8>,
        p: int,
        order: ByteOrder,
        width: BitWidth,
    ) -> bool {
        match self {
            Nlist::NL32(n) => width == BitWidth::W32 && n.decoded_at(d, p, order),
            Nlist::NL64(n) => width == BitWidth::W64 && n.decoded_at(d, p, order),
        }
    }

    pub fn from_file(
        file: &mut Cursor,
        order: ByteOrder,
        width: BitWidth,
    ) -> (r: Result<Nlist, AppError>)
        ensures
            final(file).bytes() == old(file).bytes(),
            r is Ok <==> old(file).has(Nlist::spec_size(width)),
            r is Ok ==> Cursor::advanced(*old(file), *final(file), Nlist::spec_size(width))
                && r->Ok_0.decoded_at(old(file).bytes(), old(file).offset(), order, width),
            r is Err ==> r->Err_0 == AppError::Truncated,
    {
        match width {
            BitWidth::W64 => Nlist64::from_file(file, order),
            BitWidth::W32 => Nlist32::from_file(file, order),
        }
    }
}

#[derive(Debug)]
pub struct Nlist32 {
    pub n_strx: u32,
    pub n_type: u8,
    pub n_sect: u8,
    pub n_desc: i16,
    pub n_value: u32,
}

impl Nlist32 {
    /// `self` is what the 12 bytes at `p` hold.
    pub open spec fn decoded_at(self, d: Seq<u8>, p: int, order: ByteOrder) -> bool {
        &&& self.n_strx == u32_at(d, p, order)
        &&& self.n_type == d[p + 4]
        &&& self.n_sect == d[p + 5]
        &&& self.n_desc == i16_at(d, p + 6, order)
        &&& self.n_value == u32_at(d, p + 8, order)
    }

    pub fn from_file(file: &mut Cursor, order: ByteOrder) -> (r: Result<Nlist, AppError>)
        ensures
            final(file).bytes() == old(file).bytes(),
            r is Ok <==> old(file).has(12),
            r is Ok ==> {
                &&& Cursor::advanced(*old(file), *final(file), 12)
                &&& (r->Ok_0 matches Nlist::NL32(c) && c.decoded_at(
                    old(file).bytes(),
                    old(file).offset(),
                    order,
                ))
            },
            r is Err ==> r->Err_0 == AppError::Truncated,
    {
        let nlist = Nlist32 {
            n_strx: file.read_u32(order)?,
            n_type: file.read_u8()?,
            n_sect: file.read_u8()?,
            n_desc: file.read_i16(order)?,
            n_value: file.read_u32(order)?,
        };
        Ok(Nlist::NL32(nlist))
    }
}

#[derive(Debug)]
pub struct Nlist64 {
    pub n_strx: u32,
    pub n_type: u8,
    pub n_sect: u8,
    pub n_desc: u16,
    pub n_value: u64,
}

impl Nlist64 {
    /// `self` is what the 16 bytes at `p` hold.
    pub open spec fn decoded_at(self, d: Seq<u8>, p: int, order: ByteOrder) -> bool {
        &&& self.n_strx == u32_at(d, p, order)
        &&& self.n_type == d[p + 4]
        &&& self.n_sect == d[p + 5]
        &&& self.n_desc == u16_at(d, p + 6, order)
        &&& self.n_value == u64_at(d, p + 8, order)
    }

    pub fn from_file(file: &mut Cursor, order: ByteOrder) -> (r: Result<Nlist, AppError>)
        ensures
            final(file).bytes() == old(file).bytes(),
            r is Ok <==> old(file).has(16),
            r is Ok ==> {
                &&& Cursor::advanced(*old(file), *final(file), 16)
                &&& (r->Ok_0 matches Nlist::NL64(c) && c.decoded_at(
                    old(file).bytes(),
                    old(file).offset(),
                    order,
                ))
            },
            r is Err ==> r->Err_0 == AppError::Truncated,
    {
        let nlist = Nlist64 {
            n_strx: file.read_u32(order)?,
            n_type: file.read_u8()?,
            n_sect: file.read_u8()?,
            n_desc: file.read_u16(order)?,
            n_value: file.read_u64(order)?,
        };
        Ok(Nlist::NL64(nlist))
    }
}

} // verus!
