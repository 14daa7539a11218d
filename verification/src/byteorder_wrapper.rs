//! Big-endian reads from a byte cursor and big-endian appends to a byte vector.

use byteorder::{BigEndian, ReadBytesExt, WriteBytesExt};
use vstd::prelude::*;

verus! {

/// The 16-bit value whose big-endian encoding is `hi lo`.
pub open spec fn spec_u16_be(hi: u8, lo: u8) -> u16 {
    (hi as int * 0x100 + lo as int) as u16
}

/// The 32-bit value whose big-endian encoding is `b0 b1 b2 b3`.
pub open spec fn spec_u32_be(b0: u8, b1: u8, b2: u8, b3: u8) -> u32 {
    (b0 as int * 0x100_0000 + b1 as int * 0x1_0000 + b2 as int * 0x100 + b3 as int) as u32
}

/// The value whose big-endian encoding in 48 bits is `b0` to `b5`.
pub open spec fn spec_u48_be(b0: u8, b1: u8, b2: u8, b3: u8, b4: u8, b5: u8) -> u64 {
    (b0 as int * 0x100_0000_0000 + b1 as int * 0x1_0000_0000 + b2 as int * 0x100_0000 + b3 as int
        * 0x1_0000 + b4 as int * 0x100 + b5 as int) as u64
}

/// Big-endian encoding of a 16-bit value.
pub open spec fn spec_u16_be_bytes(v: u16) -> Seq<u8> {
    seq![(v / 0x100) as u8, (v % 0x100) as u8]
}

/// Big-endian encoding of a 32-bit value.
pub open spec fn spec_u32_be_bytes(v: u32) -> Seq<u8> {
    seq![
        (v / 0x100_0000) as u8,
        (v / 0x1_0000 % 0x100) as u8,
        (v / 0x100 % 0x100) as u8,
        (v % 0x100) as u8,
    ]
}

/// Big-endian encoding of the low 48 bits of a value.
pub open spec fn spec_u48_be_bytes(v: u64) -> Seq<u8> {
    seq![
        (v / 0x100_0000_0000 % 0x100) as u8,
        (v / 0x1_0000_0000 % 0x100) as u8,
        (v / 0x100_0000 % 0x100) as u8,
        (v / 0x1_0000 % 0x100) as u8,
        (v / 0x100 % 0x100) as u8,
        (v % 0x100) as u8,
    ]
}

/// Decoding the encoding of a 16-bit value gives the value back.
pub proof fn lemma_u16_be_decode_encode(v: u16)
    ensures
        spec_u16_be_bytes(v).len() == 2,
        spec_u16_be(spec_u16_be_bytes(v)[0], spec_u16_be_bytes(v)[1]) == v,
{
}

/// Encoding the value of two bytes gives the two bytes back.
pub proof fn lemma_u16_be_encode_decode(hi: u8, lo: u8)
    ensures
        spec_u16_be_bytes(spec_u16_be(hi, lo)) =~= seq![hi, lo],
{
}

/// Decoding the encoding of a 32-bit value gives the value back.
pub proof fn lemma_u32_be_decode_encode(v: u32)
    ensures
        spec_u32_be_bytes(v).len() == 4,
        spec_u32_be(
            spec_u32_be_bytes(v)[0],
            spec_u32_be_bytes(v)[1],
            spec_u32_be_bytes(v)[2],
            spec_u32_be_bytes(v)[3],
        ) == v,
{
    let n = v as int;
    let x3 = n / 0x100;
    let x2 = x3 / 0x100;
    let x1 = x2 / 0x100;
    assert(n == x3 * 0x100 + n % 0x100);
    assert(x3 == x2 * 0x100 + x3 % 0x100);
    assert(x2 == x1 * 0x100 + x2 % 0x100);
    assert(x2 == n / 0x1_0000);
    assert(x1 == n / 0x100_0000);
}

/// Encoding the value of four bytes gives the four bytes back.
pub proof fn lemma_u32_be_encode_decode(b0: u8, b1: u8, b2: u8, b3: u8)
    ensures
        spec_u32_be_bytes(spec_u32_be(b0, b1, b2, b3)) =~= seq![b0, b1, b2, b3],
{
    let n = spec_u32_be(b0, b1, b2, b3) as int;
    let x1 = b0 as int * 0x100 + b1 as int;
    let x2 = x1 * 0x100 + b2 as int;
    let x3 = x2 * 0x100 + b3 as int;
    assert(n == x3);
    assert(x3 / 0x100 == x2 && x3 % 0x100 == b3);
    assert(x2 / 0x100 == x1 && x2 % 0x100 == b2);
    assert(x1 / 0x100 == b0 && x1 % 0x100 == b1);
    assert(n / 0x1_0000 == x1);
    assert(n / 0x100_0000 == b0);
}

/// A read position in a borrowed byte buffer.
pub struct ByteCursor<'a> {
    buf: &'a [u8],
    pos: usize,
}

impl<'a> ByteCursor<'a> {
    /// The whole buffer that the cursor reads from.
    pub closed spec fn source(&self) -> Seq<u8> {
        self.buf@
    }

    /// The number of bytes that have been read.
    pub closed spec fn position(&self) -> int {
        if self.pos <= self.buf@.len() {
            self.pos as int
        } else {
            self.buf@.len() as int
        }
    }

    /// The bytes that have not been read yet.
    pub open spec fn remaining(&self) -> Seq<u8> {
        self.source().skip(self.position())
    }

    /// The position never passes the end of the buffer.
    pub proof fn lemma_position_in_source(&self)
        ensures
            0 <= self.position() <= self.source().len(),
    {
    }

    /// A cursor at the start of `buf`.
    pub fn new(buf: &'a [u8]) -> (cursor: Self)
        ensures
            cursor.source() == buf@,
            cursor.position() == 0,
    {
        ByteCursor { buf, pos: 0 }
    }

    /// The number of bytes that are left to read.
    pub fn remaining_len(&self) -> (n: usize)
        ensures
            n == self.source().len() - self.position(),
    {
        if self.pos <= self.buf.len() {
            self.buf.len() - self.pos
        } else {
            0
        }
    }

    /// The start of the unread bytes within the buffer.
    fn offset(&self) -> (at: usize)
        ensures
            at == self.position(),
            at <= self.buf@.len(),
    {
        if self.pos <= self.buf.len() {
            self.pos
        } else {
            self.buf.len()
        }
    }

    /// Moves the cursor over `n` bytes that are known to be there.
    fn advance(&mut self, n: usize)
        requires
            old(self).position() + n <= old(self).source().len(),
        ensures
            final(self).source() == old(self).source(),
            final(self).position() == old(self).position() + n,
    {
        let at = self.offset();
        let len = self.buf.len();
        self.pos = at + n;
    }
}

/// `byteorder::ReadBytesExt::read_u8` on the bytes of `buf` from `at` on:
/// the byte at `at`, or nothing when no byte is left.
#[verifier::external_body]
fn get_u8(buf: &[u8], at: usize) -> (r: Option<u8>)
    requires
        at <= buf@.len(),
    ensures
        r == (if at < buf@.len() {
            Some(buf@[at as int])
        } else {
            None
        }),
{
    let mut rest = &buf[at..];
    rest.read_u8().ok()
}

/// `byteorder::ReadBytesExt::read_u16::<BigEndian>` on the bytes of `buf`
/// from `at` on: the big-endian value of the next two bytes, or nothing when
/// fewer than two are left.
#[verifier::external_body]
fn get_u16_be(buf: &[u8], at: usize) -> (r: Option<u16>)
    requires
        at <= buf@.len(),
    ensures
        r == (if at + 2 <= buf@.len() {
            Some(spec_u16_be(buf@[at as int], buf@[at + 1]))
        } else {
            None
        }),
{
    let mut rest = &buf[at..];
    rest.read_u16::<BigEndian>().ok()
}

/// `byteorder::ReadBytesExt::read_u32::<BigEndian>` on the bytes of `buf`
/// from `at` on: the big-endian value of the next four bytes, or nothing when
/// fewer than four are left.
#[verifier::external_body]
fn get_u32_be(buf: &[u8], at: usize) -> (r: Option<u32>)
    requires
        at <= buf@.len(),
    ensures
        r == (if at + 4 <= buf@.len() {
            Some(spec_u32_be(buf@[at as int], buf@[at + 1], buf@[at + 2], buf@[at + 3]))
        } else {
            None
        }),
{
    let mut rest = &buf[at..];
    rest.read_u32::<BigEndian>().ok()
}

/// `byteorder::ReadBytesExt::read_u48::<BigEndian>` on the bytes of `buf`
/// from `at` on: the big-endian value of the next six bytes, or nothing when
/// fewer than six are left.
#[verifier::external_body]
fn get_u48_be(buf: &[u8], at: usize) -> (r: Option<u64>)
    requires
        at <= buf@.len(),
    ensures
        r == (if at + 6 <= buf@.len() {
            Some(
                spec_u48_be(
                    buf@[at as int],
                    buf@[at + 1],
                    buf@[at + 2],
                    buf@[at + 3],
                    buf@[at + 4],
                    buf@[at + 5],
                ),
            )
        } else {
            None
        }),
{
    let mut rest = &buf[at..];
    rest.read_u48::<BigEndian>().ok()
}

/// `byteorder::WriteBytesExt::write_u8` on a vector: appends the byte and
/// reports success, as writing to a vector always does.
#[verifier::external_body]
fn put_u8(buf: &mut Vec<u8>, v: u8) -> (ok: bool)
    ensures
        ok,
        final(buf)@ == old(buf)@.push(v),
{
    buf.write_u8(v).is_ok()
}

/// `byteorder::WriteBytesExt::write_u16::<BigEndian>` on a vector: appends
/// the two bytes of `v`, high byte first, and reports success.
#[verifier::external_body]
fn put_u16_be(buf: &mut Vec<u8>, v: u16) -> (ok: bool)
    ensures
        ok,
        final(buf)@ == old(buf)@ + spec_u16_be_bytes(v),
{
    buf.write_u16::<BigEndian>(v).is_ok()
}

/// `byteorder::WriteBytesExt::write_u32::<BigEndian>` on a vector: appends
/// the four bytes of `v`, high byte first, and reports success.
#[verifier::external_body]
fn put_u32_be(buf: &mut Vec<u8>, v: u32) -> (ok: bool)
    ensures
        ok,
        final(buf)@ == old(buf)@ + spec_u32_be_bytes(v),
{
    buf.write_u32::<BigEndian>(v).is_ok()
}

/// `byteorder::WriteBytesExt::write_u48::<BigEndian>` on a vector: appends
/// the six low bytes of `v`, high byte first, and reports success. The crate
/// asserts that `v` fits in 48 bits.
#[verifier::external_body]
fn put_u48_be(buf: &mut Vec<u8>, v: u64) -> (ok: bool)
    requires
        v < 0x1_0000_0000_0000,
    ensures
        ok,
        final(buf)@ == old(buf)@ + spec_u48_be_bytes(v),
{
    buf.write_u48::<BigEndian>(v).is_ok()
}

/// Reads one byte. With no byte left the cursor stays and `err` is returned.
pub fn read_u8<E: Copy>(reader: &mut ByteCursor, err: E) -> (r: Result<u8, E>)
    ensures
        final(reader).source() == old(reader).source(),
        0 <= final(reader).position() <= final(reader).source().len(),
        old(reader).position() + 1 <= old(reader).source().len() ==> r == Ok::<u8, E>(
            old(reader).source()[old(reader).position()],
        ) && final(reader).position() == old(reader).position() + 1,
        old(reader).position() + 1 > old(reader).source().len() ==> r == Err::<u8, E>(err)
            && final(reader).position() == old(reader).position(),
{
    let at = reader.offset();
    match get_u8(reader.buf, at) {
        Some(v) => {
            reader.advance(1);
            Ok(v)
        },
        None => Err(err),
    }
}

/// Reads a big-endian 16-bit value. With fewer than two bytes left the cursor
/// stays and `err` is returned.
pub fn read_u16_as_be<E: Copy>(reader: &mut ByteCursor, err: E) -> (r: Result<u16, E>)
    ensures
        final(reader).source() == old(reader).source(),
        0 <= final(reader).position() <= final(reader).source().len(),
        old(reader).position() + 2 <= old(reader).source().len() ==> r == Ok::<u16, E>(
            spec_u16_be(
                old(reader).source()[old(reader).position()],
                old(reader).source()[old(reader).position() + 1],
            ),
        ) && final(reader).position() == old(reader).position() + 2,
        old(reader).position() + 2 > old(reader).source().len() ==> r == Err::<u16, E>(err)
            && final(reader).position() == old(reader).position(),
{
    let at = reader.offset();
    match get_u16_be(reader.buf, at) {
        Some(v) => {
            reader.advance(2);
            Ok(v)
        },
        None => Err(err),
    }
}

/// Reads a big-endian 32-bit value. With fewer than four bytes left the
/// cursor stays and `err` is returned.
pub fn read_u32_as_be<E: Copy>(reader: &mut ByteCursor, err: E) -> (r: Result<u32, E>)
    ensures
        final(reader).source() == old(reader).source(),
        0 <= final(reader).position() <= final(reader).source().len(),
        old(reader).position() + 4 <= old(reader).source().len() ==> r == Ok::<u32, E>(
            spec_u32_be(
                old(reader).source()[old(reader).position()],
                old(reader).source()[old(reader).position() + 1],
                old(reader).source()[old(reader).position() + 2],
                old(reader).source()[old(reader).position() + 3],
            ),
        ) && final(reader).position() == old(reader).position() + 4,
        old(reader).position() + 4 > old(reader).source().len() ==> r == Err::<u32, E>(err)
            && final(reader).position() == old(reader).position(),
{
    let at = reader.offset();
    match get_u32_be(reader.buf, at) {
        Some(v) => {
            reader.advance(4);
            Ok(v)
        },
        None => Err(err),
    }
}

/// Reads a big-endian 48-bit value. With fewer than six bytes left the cursor
/// stays and `err` is returned.
pub fn read_u48_as_be<E: Copy>(reader: &mut ByteCursor, err: E) -> (r: Result<u64, E>)
    ensures
        final(reader).source() == old(reader).source(),
        0 <= final(reader).position() <= final(reader).source().len(),
        old(reader).position() + 6 <= old(reader).source().len() ==> r == Ok::<u64, E>(
            spec_u48_be(
                old(reader).source()[old(reader).position()],
                old(reader).source()[old(reader).position() + 1],
                old(reader).source()[old(reader).position() + 2],
                old(reader).source()[old(reader).position() + 3],
                old(reader).source()[old(reader).position() + 4],
                old(reader).source()[old(reader).position() + 5],
            ),
        ) && final(reader).position() == old(reader).position() + 6,
        old(reader).position() + 6 > old(reader).source().len() ==> r == Err::<u64, E>(err)
            && final(reader).position() == old(reader).position(),
{
    let at = reader.offset();
    match get_u48_be(reader.buf, at) {
        Some(v) => {
            reader.advance(6);
            Ok(v)
        },
        None => Err(err),
    }
}

/// Appends one byte. Appending to a vector cannot fail.
pub fn write_u8<E: Copy>(buf: &mut Vec<u8>, v: u8, err: E) -> (r: Result<(), E>)
    ensures
        r is Ok,
        final(buf)@ == old(buf)@.push(v),
{
    if put_u8(buf, v) {
        Ok(())
    } else {
        Err(err)
    }
}

/// Appends a 16-bit value, high byte first. Appending to a vector cannot fail.
pub fn write_u16_as_be<E: Copy>(buf: &mut Vec<u8>, bytes: u16, err: E) -> (r: Result<(), E>)
    ensures
        r is Ok,
        final(buf)@ == old(buf)@ + spec_u16_be_bytes(bytes),
{
    if put_u16_be(buf, bytes) {
        Ok(())
    } else {
        Err(err)
    }
}

/// Appends a 32-bit value, high byte first. Appending to a vector cannot fail.
pub fn write_u32_as_be<E: Copy>(buf: &mut Vec<u8>, bytes: u32, err: E) -> (r: Result<(), E>)
    ensures
        r is Ok,
        final(buf)@ == old(buf)@ + spec_u32_be_bytes(bytes),
{
    if put_u32_be(buf, bytes) {
        Ok(())
    } else {
        Err(err)
    }
}

/// Appends the six low bytes of a value, high byte first. A value that does
/// not fit in 48 bits is refused with `err` and nothing is appended.
pub fn write_u48_as_be<E: Copy>(buf: &mut Vec<u8>, bytes: u64, err: E) -> (r: Result<(), E>)
    ensures
        bytes < 0x1_0000_0000_0000 ==> r is Ok && final(buf)@ == old(buf)@ + spec_u48_be_bytes(
            bytes,
        ),
        bytes >= 0x1_0000_0000_0000 ==> r == Err::<(), E>(err) && final(buf)@ == old(buf)@,
{
    if bytes < 0x1_0000_0000_0000 && put_u48_be(buf, bytes) {
        Ok(())
    } else {
        Err(err)
    }
}

} // verus!
