//! Fixed-width integers as bytes, in little-endian and big-endian order.
//!
//! Writing appends to a byte buffer; reading takes bytes off the front of a
//! [`ByteReader`]. Moving the bytes to and from files is the caller's part.

use vstd::prelude::*;

verus! {

/// The two bytes of `value`, least significant first.
pub open spec fn le16_bytes(value: u16) -> Seq<u8> {
    seq![(value % 256) as u8, (value / 256) as u8]
}

/// The two bytes of `value`, most significant first.
pub open spec fn be16_bytes(value: u16) -> Seq<u8> {
    seq![(value / 256) as u8, (value % 256) as u8]
}

/// The four bytes of `value`, least significant first.
pub open spec fn le32_bytes(value: u32) -> Seq<u8> {
    seq![
        (value % 256) as u8,
        (value / 0x100 % 256) as u8,
        (value / 0x1_0000 % 256) as u8,
        (value / 0x100_0000) as u8,
    ]
}

/// The four bytes of `value`, most significant first.
pub open spec fn be32_bytes(value: u32) -> Seq<u8> {
    seq![
        (value / 0x100_0000) as u8,
        (value / 0x1_0000 % 256) as u8,
        (value / 0x100 % 256) as u8,
        (value % 256) as u8,
    ]
}

/// The number whose little-endian bytes are the first two of `bytes`.
pub open spec fn le16_value(bytes: Seq<u8>) -> u16 {
    (bytes[0] + 256 * bytes[1]) as u16
}

/// The number whose big-endian bytes are the first two of `bytes`.
pub open spec fn be16_value(bytes: Seq<u8>) -> u16 {
    (256 * bytes[0] + bytes[1]) as u16
}

/// The number whose little-endian bytes are the first four of `bytes`.
pub open spec fn le32_value(bytes: Seq<u8>) -> u32 {
    (bytes[0] + 0x100 * bytes[1] + 0x1_0000 * bytes[2] + 0x100_0000 * bytes[3]) as u32
}

/// The number whose big-endian bytes are the first four of `bytes`.
pub open spec fn be32_value(bytes: Seq<u8>) -> u32 {
    (0x100_0000 * bytes[0] + 0x1_0000 * bytes[1] + 0x100 * bytes[2] + bytes[3]) as u32
}

/// Reading back what was written gives the number that was written.
pub proof fn lemma_value_of_bytes(v16: u16, v32: u32)
    ensures
        le16_value(le16_bytes(v16)) == v16,
        be16_value(be16_bytes(v16)) == v16,
        le32_value(le32_bytes(v32)) == v32,
        be32_value(be32_bytes(v32)) == v32,
{
}

/// Writing a 16-bit number that was read gives the bytes that were read.
pub proof fn lemma_bytes_of_value16(bytes: Seq<u8>)
    requires
        bytes.len() == 2,
    ensures
        le16_bytes(le16_value(bytes)) == bytes,
        be16_bytes(be16_value(bytes)) == bytes,
{
    assert(le16_bytes(le16_value(bytes)) =~= bytes);
    assert(be16_bytes(be16_value(bytes)) =~= bytes);
}

/// Writing a 32-bit number that was read gives the bytes that were read.
pub proof fn lemma_bytes_of_value32(bytes: Seq<u8>)
    requires
        bytes.len() == 4,
    ensures
        le32_bytes(le32_value(bytes)) == bytes,
        be32_bytes(be32_value(bytes)) == bytes,
{
    let (a, b, c, d) = (bytes[0] as int, bytes[1] as int, bytes[2] as int, bytes[3] as int);
    let le = a + 0x100 * b + 0x1_0000 * c + 0x100_0000 * d;
    assert(le % 256 == a && le / 0x100 % 256 == b && le / 0x1_0000 % 256 == c && le / 0x100_0000
        == d) by {
        lemma_base256(a, b, c, d);
    }
    let be = 0x100_0000 * a + 0x1_0000 * b + 0x100 * c + d;
    assert(be % 256 == d && be / 0x100 % 256 == c && be / 0x1_0000 % 256 == b && be / 0x100_0000
        == a) by {
        lemma_base256(d, c, b, a);
    }
    assert(le32_bytes(le32_value(bytes)) =~= bytes);
    assert(be32_bytes(be32_value(bytes)) =~= bytes);
}

/// The digits of a four-digit number in base 256.
proof fn lemma_base256(a: int, b: int, c: int, d: int)
    requires
        0 <= a < 256,
        0 <= b < 256,
        0 <= c < 256,
        0 <= d < 256,
    ensures
        (a + 0x100 * b + 0x1_0000 * c + 0x100_0000 * d) % 256 == a,
        (a + 0x100 * b + 0x1_0000 * c + 0x100_0000 * d) / 0x100 % 256 == b,
        (a + 0x100 * b + 0x1_0000 * c + 0x100_0000 * d) / 0x1_0000 % 256 == c,
        (a + 0x100 * b + 0x1_0000 * c + 0x100_0000 * d) / 0x100_0000 == d,
{
}

/// Why a read failed.
#[derive(Clone, Copy, Debug, PartialEq, Eq)]
pub enum ReadError {
    /// The input ended before the value was complete.
    UnexpectedEof,
}

/// A cursor over bytes that are read front to back.
pub struct ByteReader<'a> {
    data: &'a [u8],
    pos: usize,
}

impl<'a> View for ByteReader<'a> {
    type V = Seq<u8>;

    /// The bytes that have not been read yet.
    closed spec fn view(&self) -> Seq<u8> {
        self.data@.skip(self.pos as int)
    }
}

impl<'a> ByteReader<'a> {
    /// Whether the cursor lies inside its data.
    pub closed spec fn wf(&self) -> bool {
        self.pos <= self.data@.len()
    }

    /// A reader that has all of `data` before it.
    pub fn new(data: &'a [u8]) -> (reader: ByteReader<'a>)
        ensures
            reader.wf(),
            reader@ == data@,
    {
        let reader = ByteReader { data, pos: 0 };
        assert(data@.skip(0) =~= data@);
        reader
    }

    /// How many bytes are left to read.
    pub fn remaining(&self) -> (count: usize)
        requires
            self.wf(),
        ensures
            count == self@.len(),
    {
        self.data.len() - self.pos
    }

    /// Takes `count` bytes off the front and returns where they start. When
    /// fewer are left, the reader is drained and the read fails.
    fn advance(&mut self, count: usize) -> (start: Result<usize, ReadError>)
        requires
            old(self).wf(),
        ensures
            final(self).wf(),
            match start {
                Ok(at) => {
                    &&& old(self)@.len() >= count
                    &&& final(self)@ == old(self)@.skip(count as int)
                    &&& at + count <= final(self).data@.len()
                    &&& final(self).data@.subrange(at as int, at + count) == old(self)@.take(
                        count as int,
                    )
                    &&& final(self).data == old(self).data
                },
                Err(_) => old(self)@.len() < count && final(self)@ == Seq::<u8>::empty(),
            },
    {
        let start = self.pos;
        if self.data.len() - start >= count {
            self.pos = start + count;
            assert(self@ =~= old(self)@.skip(count as int));
            assert(self.data@.subrange(start as int, start + count) =~= old(self)@.take(
                count as int,
            ));
            Ok(start)
        } else {
            self.pos = self.data.len();
            assert(self@ =~= Seq::<u8>::empty());
            Err(ReadError::UnexpectedEof)
        }
    }
}

/// Reads one byte.
pub fn read_byte(reader: &mut ByteReader) -> (result: Result<u8, ReadError>)
    requires
        old(reader).wf(),
    ensures
        final(reader).wf(),
        match result {
            Ok(value) => {
                &&& old(reader)@.len() >= 1
                &&& value == old(reader)@[0]
                &&& final(reader)@ == old(reader)@.skip(1)
            },
            Err(_) => old(reader)@.len() < 1 && final(reader)@ == Seq::<u8>::empty(),
        },
{
    let at = reader.advance(1)?;
    assert(reader.data@.subrange(at as int, at + 1)[0] == old(reader)@.take(1)[0]);
    Ok(reader.data[at])
}

/// Reads a 16-bit number, least significant byte first.
pub fn read_le16(reader: &mut ByteReader) -> (result: Result<u16, ReadError>)
    requires
        old(reader).wf(),
    ensures
        final(reader).wf(),
        match result {
            Ok(value) => {
                &&& old(reader)@.len() >= 2
                &&& value == le16_value(old(reader)@)
                &&& final(reader)@ == old(reader)@.skip(2)
            },
            Err(_) => old(reader)@.len() < 2 && final(reader)@ == Seq::<u8>::empty(),
        },
{
    let at = reader.advance(2)?;
    let ghost taken = reader.data@.subrange(at as int, at + 2);
    assert(taken[0] == old(reader)@[0] && taken[1] == old(reader)@[1]);
    let b0 = reader.data[at] as u16;
    let b1 = reader.data[at + 1] as u16;
    Ok(b0 + 256 * b1)
}

/// Reads a 32-bit number, least significant byte first.
pub fn read_le32(reader: &mut ByteReader) -> (result: Result<u32, ReadError>)
    requires
        old(reader).wf(),
    ensures
        final(reader).wf(),
        match result {
            Ok(value) => {
                &&& old(reader)@.len() >= 4
                &&& value == le32_value(old(reader)@)
                &&& final(reader)@ == old(reader)@.skip(4)
            },
            Err(_) => old(reader)@.len() < 4 && final(reader)@ == Seq::<u8>::empty(),
        },
{
    let at = reader.advance(4)?;
    let ghost taken = reader.data@.subrange(at as int, at + 4);
    assert(taken[0] == old(reader)@[0] && taken[1] == old(reader)@[1] && taken[2] == old(
        reader,
    )@[2] && taken[3] == old(reader)@[3]);
    let b0 = reader.data[at] as u32;
    let b1 = reader.data[at + 1] as u32;
    let b2 = reader.data[at + 2] as u32;
    let b3 = reader.data[at + 3] as u32;
    Ok(b0 + 0x100 * b1 + 0x1_0000 * b2 + 0x100_0000 * b3)
}

/// Reads a 16-bit number, most significant byte first.
pub fn read_be16(reader: &mut ByteReader) -> (result: Result<u16, ReadError>)
    requires
        old(reader).wf(),
    ensures
        final(reader).wf(),
        match result {
            Ok(value) => {
                &&& old(reader)@.len() >= 2
                &&& value == be16_value(old(reader)@)
                &&& final(reader)@ == old(reader)@.skip(2)
            },
            Err(_) => old(reader)@.len() < 2 && final(reader)@ == Seq::<u8>::empty(),
        },
{
    let at = reader.advance(2)?;
    let ghost taken = reader.data@.subrange(at as int, at + 2);
    assert(taken[0] == old(reader)@[0] && taken[1] == old(reader)@[1]);
    let b0 = reader.data[at] as u16;
    let b1 = reader.data[at + 1] as u16;
    Ok(256 * b0 + b1)
}

/// Reads a 32-bit number, most significant byte first.
pub fn read_be32(reader: &mut ByteReader) -> (result: Result<u32, ReadError>)
    requires
        old(reader).wf(),
    ensures
        final(reader).wf(),
        match result {
            Ok(value) => {
                &&& old(reader)@.len() >= 4
                &&& value == be32_value(old(reader)@)
                &&& final(reader)@ == old(reader)@.skip(4)
            },
            Err(_) => old(reader)@.len() < 4 && final(reader)@ == Seq::<u8>::empty(),
        },
{
    let at = reader.advance(4)?;
    let ghost taken = reader.data@.subrange(at as int, at + 4);
    assert(taken[0] == old(reader)@[0] && taken[1] == old(reader)@[1] && taken[2] == old(
        reader,
    )@[2] && taken[3] == old(reader)@[3]);
    let b0 = reader.data[at] as u32;
    let b1 = reader.data[at + 1] as u32;
    let b2 = reader.data[at + 2] as u32;
    let b3 = reader.data[at + 3] as u32;
    Ok(0x100_0000 * b0 + 0x1_0000 * b1 + 0x100 * b2 + b3)
}

/// Appends one byte.
pub fn write_byte(out_byte: u8, writer: &mut Vec<u8>)
    ensures
        final(writer)@ == old(writer)@.push(out_byte),
{
    writer.push(out_byte);
}

/// Appends a 16-bit number, most significant byte first.
pub fn write_be16(out_val: u16, writer: &mut Vec<u8>)
    ensures
        final(writer)@ == old(writer)@ + be16_bytes(out_val),
{
    writer.push((out_val / 256) as u8);
    writer.push((out_val % 256) as u8);
    assert(writer@ =~= old(writer)@ + be16_bytes(out_val));
}

/// Appends a 32-bit number, most significant byte first.
pub fn write_be32(out_val: u32, writer: &mut Vec<u8>)
    ensures
        final(writer)@ == old(writer)@ + be32_bytes(out_val),
{
    writer.push((out_val / 0x100_0000) as u8);
    writer.push((out_val / 0x1_0000 % 256) as u8);
    writer.push((out_val / 0x100 % 256) as u8);
    writer.push((out_val % 256) as u8);
    assert(writer@ =~= old(writer)@ + be32_bytes(out_val));
}

/// Appends a 16-bit number, least significant byte first.
pub fn write_le16(out_val: u16, writer: &mut Vec<u8>)
    ensures
        final(writer)@ == old(writer)@ + le16_bytes(out_val),
{
    writer.push((out_val % 256) as u8);
    writer.push((out_val / 256) as u8);
    assert(writer@ =~= old(writer)@ + le16_bytes(out_val));
}

/// Appends a 32-bit number, least significant byte first.
pub fn write_le32(out_val: u32, writer: &mut Vec<u8>)
    ensures
        final(writer)@ == old(writer)@ + le32_bytes(out_val),
{
    writer.push((out_val % 256) as u8);
    writer.push((out_val / 0x100 % 256) as u8);
    writer.push((out_val / 0x1_0000 % 256) as u8);
    writer.push((out_val / 0x100_0000) as u8);
    assert(writer@ =~= old(writer)@ + le32_bytes(out_val));
}

} // verus!
