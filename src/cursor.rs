use crate::error::AppError;
use vstd::prelude::*;

verus! {

/// The order in which the bytes of a multi-byte integer are stored.
#[derive(Debug, Clone, Copy, PartialEq, Eq, Structural)]
pub enum ByteOrder {
    Big,
    Little,
}

/// The word size of an image: it fixes the width of addresses, sizes and
/// symbol values throughout.
#[derive(Debug, Clone, Copy, PartialEq, Eq, Structural)]
pub enum BitWidth {
    W32,
    W64,
}

/// The unsigned 16-bit integer stored at `p` in `order`.
#[verifier::opaque]
pub open spec fn u16_at(d: Seq<u8>, p: int, order: ByteOrder) -> u16 {
    match order {
        ByteOrder::Big => (d[p] * 0x100 + d[p + 1]) as u16,
        ByteOrder::Little => (d[p + 1] * 0x100 + d[p]) as u16,
    }
}

/// The unsigned 32-bit integer stored at `p` in `order`.
#[verifier::opaque]
pub open spec fn u32_at(d: Seq<u8>, p: int, order: ByteOrder) -> u32 {
    match order {
        ByteOrder::Big => (d[p] * 0x100_0000 + d[p + 1] * 0x1_0000 + d[p + 2] * 0x100
            + d[p + 3]) as u32,
        ByteOrder::Little => (d[p + 3] * 0x100_0000 + d[p + 2] * 0x1_0000 + d[p + 1] * 0x100
            + d[p]) as u32,
    }
}

/// The unsigned 64-bit integer stored at `p` in `order`.
#[verifier::opaque]
pub open spec fn u64_at(d: Seq<u8>, p: int, order: ByteOrder) -> u64 {
    match order {
        ByteOrder::Big => (u32_at(d, p, order) * 0x1_0000_0000 + u32_at(d, p + 4, order)) as u64,
        ByteOrder::Little => (u32_at(d, p + 4, order) * 0x1_0000_0000 + u32_at(d, p, order)) as u64,
    }
}

/// The two's-complement signed 16-bit integer stored at `p` in `order`.
#[verifier::opaque]
pub open spec fn i16_at(d: Seq<u8>, p: int, order: ByteOrder) -> i16 {
    let u = u16_at(d, p, order);
    (if u < 0x8000 { u as int } else { u - 0x1_0000 }) as i16
}

/// The two's-complement signed 32-bit integer stored at `p` in `order`.
#[verifier::opaque]
pub open spec fn i32_at(d: Seq<u8>, p: int, order: ByteOrder) -> i32 {
    let u = u32_at(d, p, order);
    (if u < 0x8000_0000 { u as int } else { u - 0x1_0000_0000 }) as i32
}

/// Relies on byteorder's `BigEndian::read_u16`: the first two bytes of the
/// slice, most significant first; it panics only on a shorter slice.
#[verifier::external_body]
fn big_u16(data: &Vec<u8>, pos: usize) -> (r: u16)
    requires
        pos + 2 <= data@.len(),
    ensures
        r == u16_at(data@, pos as int, ByteOrder::Big),
{
    <byteorder::BigEndian as byteorder::ByteOrder>::read_u16(&data[pos..])
}

/// Relies on byteorder's `LittleEndian::read_u16`: the first two bytes of the
/// slice, least significant first; it panics only on a shorter slice.
#[verifier::external_body]
fn little_u16(data: &Vec<u8>, pos: usize) -> (r: u16)
    requires
        pos + 2 <= data@.len(),
    ensures
        r == u16_at(data@, pos as int, ByteOrder::Little),
{
    <byteorder::LittleEndian as byteorder::ByteOrder>::read_u16(&data[pos..])
}

/// Relies on byteorder's `BigEndian::read_i16`: `read_u16` reinterpreted as
/// two's complement.
#[verifier::external_body]
fn big_i16(data: &Vec<u8>, pos: usize) -> (r: i16)
    requires
        pos + 2 <= data@.len(),
    ensures
        r == i16_at(data@, pos as int, ByteOrder::Big),
{
    <byteorder::BigEndian as byteorder::ByteOrder>::read_i16(&data[pos..])
}

/// Relies on byteorder's `LittleEndian::read_i16`: `read_u16` reinterpreted
/// as two's complement.
#[verifier::external_body]
fn little_i16(data: &Vec<u8>, pos: usize) -> (r: i16)
    requires
        pos + 2 <= data@.len(),
    ensures
        r == i16_at(data@, pos as int, ByteOrder::Little),
{
    <byteorder::LittleEndian as byteorder::ByteOrder>::read_i16(&data[pos..])
}

/// Relies on byteorder's `BigEndian::read_u32`: the first four bytes of the
/// slice, most significant first; it panics only on a shorter slice.
#[verifier::external_body]
fn big_u32(data: &Vec<u8>, pos: usize) -> (r: u32)
    requires
        pos + 4 <= data@.len(),
    ensures
        r == u32_at(data@, pos as int, ByteOrder::Big),
{
    <byteorder::BigEndian as byteorder::ByteOrder>::read_u32(&data[pos..])
}

/// Relies on byteorder's `LittleEndian::read_u32`: the first four bytes of
/// the slice, least significant first; it panics only on a shorter slice.
#[verifier::external_body]
fn little_u32(data: &Vec<u8>, pos: usize) -> (r: u32)
    requires
        pos + 4 <= data@.len(),
    ensures
        r == u32_at(data@, pos as int, ByteOrder::Little),
{
    <byteorder::LittleEndian as byteorder::ByteOrder>::read_u32(&data[pos..])
}

/// Relies on byteorder's `BigEndian::read_i32`: `read_u32` reinterpreted as
/// two's complement.
#[verifier::external_body]
fn big_i32(data: &Vec<u8>, pos: usize) -> (r: i32)
    requires
        pos + 4 <= data@.len(),
    ensures
        r == i32_at(data@, pos as int, ByteOrder::Big),
{
    <byteorder::BigEndian as byteorder::ByteOrder>::read_i32(&data[pos..])
}

/// Relies on byteorder's `LittleEndian::read_i32`: `read_u32` reinterpreted
/// as two's complement.
#[verifier::external_body]
fn little_i32(data: &Vec<u8>, pos: usize) -> (r: i32)
    requires
        pos + 4 <= data@.len(),
    ensures
        r == i32_at(data@, pos as int, ByteOrder::Little),
{
    <byteorder::LittleEndian as byteorder::ByteOrder>::read_i32(&data[pos..])
}

/// Relies on byteorder's `BigEndian::read_u64`: the first eight bytes of the
/// slice, most significant first; it panics only on a shorter slice.
#[verifier::external_body]
fn big_u64(data: &Vec<u8>, pos: usize) -> (r: u64)
    requires
        pos + 8 <= data@.len(),
    ensures
        r == u64_at(data@, pos as int, ByteOrder::Big),
{
    <byteorder::BigEndian as byteorder::ByteOrder>::read_u64(&data[pos..])
}

/// Relies on byteorder's `LittleEndian::read_u64`: the first eight bytes of
/// the slice, least significant first; it panics only on a shorter slice.
#[verifier::external_body]
fn little_u64(data: &Vec<u8>, pos: usize) -> (r: u64)
    requires
        pos + 8 <= data@.len(),
    ensures
        r == u64_at(data@, pos as int, ByteOrder::Little),
{
    <byteorder::LittleEndian as byteorder::ByteOrder>::read_u64(&data[pos..])
}

/// A seekable reader over an in-memory image. Reads past the end fail with
/// `Truncated` and leave the cursor where it was.
pub struct Cursor {
    data: Vec<u8>,
    pos: usize,
}

impl Cursor {
    #[verifier::type_invariant]
    spec fn well_formed(self) -> bool {
        self.pos <= self.data@.len() <= usize::MAX
    }

    /// The bytes the cursor reads from.
    pub closed spec fn bytes(&self) -> Seq<u8> {
        self.data@
    }

    /// The absolute position of the next read.
    pub closed spec fn offset(&self) -> int {
        self.pos as int
    }

    /// The cursor has `k` more bytes available at its position.
    pub open spec fn has(&self, k: int) -> bool {
        self.offset() + k <= self.bytes().len()
    }

    /// `next` is `prev` advanced by `k` bytes over the same source.
    pub open spec fn advanced(prev: Cursor, next: Cursor, k: int) -> bool {
        next.bytes() == prev.bytes() && next.offset() == prev.offset() + k
    }

    pub fn new(data: Vec<u8>) -> (r: Cursor)
        ensures
            r.bytes() == data@,
            r.offset() == 0,
    {
        // The length is a usize, which the invariant records.
        let len = data.len();
        assert(len == data@.len());
        Cursor { data, pos: 0 }
    }

    /// The length of the source.
    pub fn len(&self) -> (r: usize)
        ensures
            r == self.bytes().len(),
    {
        self.data.len()
    }

    /// The position, which never passes the end of the source.
    pub fn position(&self) -> (r: usize)
        ensures
            r == self.offset(),
            r <= self.bytes().len() <= usize::MAX,
    {
        proof {
            use_type_invariant(self);
        }
        self.pos
    }

    fn available(&self, k: usize) -> (r: bool)
        ensures
            r == self.has(k as int),
            self.bytes().len() <= usize::MAX,
    {
        self.pos <= self.data.len() && self.data.len() - self.pos >= k
    }

    /// Moves to the absolute offset `target`, which may be the end of the
    /// source but not beyond it.
    pub fn seek(&mut self, target: usize) -> (r: Result<(), AppError>)
        ensures
            final(self).bytes() == old(self).bytes(),
            r is Ok <==> target <= old(self).bytes().len(),
            r is Ok ==> final(self).offset() == target,
            r is Err ==> r == Err::<(), AppError>(AppError::SeekOutOfRange) && final(self).offset()
                == old(self).offset(),
    {
        if target <= self.data.len() {
            self.pos = target;
            Ok(())
        } else {
            Err(AppError::SeekOutOfRange)
        }
    }

    pub fn read_u8(&mut self) -> (r: Result<u8, AppError>)
        ensures
            r is Ok <==> old(self).has(1),
            r is Ok ==> Cursor::advanced(*old(self), *final(self), 1) && r->Ok_0 == old(
                self,
            ).bytes()[old(self).offset()],
            r is Err ==> r == Err::<u8, AppError>(AppError::Truncated) && *final(self) == *old(
                self,
            ),
    {
        if self.available(1) {
            let v = self.data[self.pos];
            self.pos = self.pos + 1;
            Ok(v)
        } else {
            Err(AppError::Truncated)
        }
    }

    pub fn read_u16(&mut self, order: ByteOrder) -> (r: Result<u16, AppError>)
        ensures
            r is Ok <==> old(self).has(2),
            r is Ok ==> Cursor::advanced(*old(self), *final(self), 2) && r->Ok_0 == u16_at(
                old(self).bytes(),
                old(self).offset(),
                order,
            ),
            r is Err ==> r == Err::<u16, AppError>(AppError::Truncated) && *final(self) == *old(
                self,
            ),
    {
        if self.available(2) {
            let v = match order {
                ByteOrder::Big => big_u16(&self.data, self.pos),
                ByteOrder::Little => little_u16(&self.data, self.pos),
            };
            self.pos = self.pos + 2;
            Ok(v)
        } else {
            Err(AppError::Truncated)
        }
    }

    pub fn read_i16(&mut self, order: ByteOrder) -> (r: Result<i16, AppError>)
        ensures
            r is Ok <==> old(self).has(2),
            r is Ok ==> Cursor::advanced(*old(self), *final(self), 2) && r->Ok_0 == i16_at(
                old(self).bytes(),
                old(self).offset(),
                order,
            ),
            r is Err ==> r == Err::<i16, AppError>(AppError::Truncated) && *final(self) == *old(
                self,
            ),
    {
        if self.available(2) {
            let v = match order {
                ByteOrder::Big => big_i16(&self.data, self.pos),
                ByteOrder::Little => little_i16(&self.data, self.pos),
            };
            self.pos = self.pos + 2;
            Ok(v)
        } else {
            Err(AppError::Truncated)
        }
    }

    pub fn read_u32(&mut self, order: ByteOrder) -> (r: Result<u32, AppError>)
        ensures
            r is Ok <==> old(self).has(4),
            r is Ok ==> Cursor::advanced(*old(self), *final(self), 4) && r->Ok_0 == u32_at(
                old(self).bytes(),
                old(self).offset(),
                order,
            ),
            r is Err ==> r == Err::<u32, AppError>(AppError::Truncated) && *final(self) == *old(
                self,
            ),
    {
        if self.available(4) {
            let v = match order {
                ByteOrder::Big => big_u32(&self.data, self.pos),
                ByteOrder::Little => little_u32(&self.data, self.pos),
            };
            self.pos = self.pos + 4;
            Ok(v)
        } else {
            Err(AppError::Truncated)
        }
    }

    pub fn read_i32(&mut self, order: ByteOrder) -> (r: Result<i32, AppError>)
        ensures
            r is Ok <==> old(self).has(4),
            r is Ok ==> Cursor::advanced(*old(self), *final(self), 4) && r->Ok_0 == i32_at(
                old(self).bytes(),
                old(self).offset(),
                order,
            ),
            r is Err ==> r == Err::<i32, AppError>(AppError::Truncated) && *final(self) == *old(
                self,
            ),
    {
        if self.available(4) {
            let v = match order {
                ByteOrder::Big => big_i32(&self.data, self.pos),
                ByteOrder::Little => little_i32(&self.data, self.pos),
            };
            self.pos = self.pos + 4;
            Ok(v)
        } else {
            Err(AppError::Truncated)
        }
    }

    pub fn read_u64(&mut self, order: ByteOrder) -> (r: Result<u64, AppError>)
        ensures
            r is Ok <==> old(self).has(8),
            r is Ok ==> Cursor::advanced(*old(self), *final(self), 8) && r->Ok_0 == u64_at(
                old(self).bytes(),
                old(self).offset(),
                order,
            ),
            r is Err ==> r == Err::<u64, AppError>(AppError::Truncated) && *final(self) == *old(
                self,
            ),
    {
        if self.available(8) {
            let v = match order {
                ByteOrder::Big => big_u64(&self.data, self.pos),
                ByteOrder::Little => little_u64(&self.data, self.pos),
            };
            self.pos = self.pos + 8;
            Ok(v)
        } else {
            Err(AppError::Truncated)
        }
    }

    /// Reads `n` raw bytes.
    pub fn read_exact(&mut self, n: usize) -> (r: Result<Vec<u8>, AppError>)
        ensures
            r is Ok <==> old(self).has(n as int),
            r is Ok ==> Cursor::advanced(*old(self), *final(self), n as int) && r->Ok_0@ == old(
                self,
            ).bytes().subrange(old(self).offset(), old(self).offset() + n),
            r is Err ==> r == Err::<Vec<u8>, AppError>(AppError::Truncated) && *final(self)
                == *old(self),
    {
        if !self.available(n) {
            return Err(AppError::Truncated);
        }
        let start = self.pos;
        let mut out: Vec<u8> = Vec::with_capacity(n);
        let mut i: usize = 0;
        while i < n
            invariant
                start + n <= self.data@.len() <= usize::MAX,
                self.pos == start,
                i <= n,
                out@ == self.data@.subrange(start as int, start + i),
            decreases n - i,
        {
            out.push(self.data[start + i]);
            i = i + 1;
            assert(out@ =~= self.data@.subrange(start as int, start + i));
        }
        self.pos = start + n;
        Ok(out)
    }

    /// Reads sixteen raw bytes into a fixed-size name or identifier field.
    pub fn read_array16(&mut self) -> (r: Result<[u8; 16], AppError>)
        ensures
            r is Ok <==> old(self).has(16),
            r is Ok ==> Cursor::advanced(*old(self), *final(self), 16) && r->Ok_0@ == old(
                self,
            ).bytes().subrange(old(self).offset(), old(self).offset() + 16),
            r is Err ==> r == Err::<[u8; 16], AppError>(AppError::Truncated) && *final(self)
                == *old(self),
    {
        if !self.available(16) {
            return Err(AppError::Truncated);
        }
        let start = self.pos;
        let mut out: [u8; 16] = [0u8; 16];
        let mut i: usize = 0;
        while i < 16
            invariant
                start + 16 <= self.data@.len() <= usize::MAX,
                self.pos == start,
                i <= 16,
                forall|j: int| 0 <= j < i ==> out@[j] == self.data@[start + j],
            decreases 16 - i,
        {
            out[i] = self.data[start + i];
            i = i + 1;
        }
        assert(out@ =~= self.data@.subrange(start as int, start + 16));
        self.pos = start + 16;
        Ok(out)
    }
}

} // verus!
