//! The wire codec: an append-only `Sink` and a cursor-based `Source` over
//! little-endian fixed-width integers and length-prefixed byte strings.
use vstd::prelude::*;
use vstd::bytes::*;
use vstd::slice::slice_subrange;
use vstd::string::*;
use vstd::utf8::*;
use crate::text::{lemma_utf8_text, str_from_utf8};
use crate::types::Error;

verus! {

// Encodings.

pub open spec fn enc_bool(b: bool) -> Seq<u8> {
    seq![if b { 1u8 } else { 0u8 }]
}

pub open spec fn enc_u32(v: u32) -> Seq<u8> {
    spec_u32_to_le_bytes(v)
}

pub open spec fn enc_i32(v: i32) -> Seq<u8> {
    spec_u32_to_le_bytes(v as u32)
}

pub open spec fn enc_u64(v: u64) -> Seq<u8> {
    spec_u64_to_le_bytes(v)
}

pub open spec fn enc_i64(v: i64) -> Seq<u8> {
    spec_u64_to_le_bytes(v as u64)
}

pub open spec fn enc_u128(v: u128) -> Seq<u8> {
    spec_u128_to_le_bytes(v)
}

pub open spec fn enc_i128(v: i128) -> Seq<u8> {
    spec_u128_to_le_bytes(v as u128)
}

/// A byte string behind its length as four little-endian bytes.
pub open spec fn enc_bytes(d: Seq<u8>) -> Seq<u8> {
    enc_u32(d.len() as u32) + d
}

/// Text as its UTF-8 bytes, length-prefixed.
pub open spec fn enc_str(s: Seq<char>) -> Seq<u8> {
    enc_bytes(encode_utf8(s))
}

// Decodings: where a field that starts at `pos` ends, and what it holds.

pub open spec fn fixed_end(data: Seq<u8>, pos: int, n: int) -> Result<int, Error> {
    if 0 <= pos && pos + n <= data.len() {
        Ok(pos + n)
    } else {
        Err(Error::UnexpectedEOF)
    }
}

pub open spec fn u32_at(data: Seq<u8>, pos: int) -> u32 {
    spec_u32_from_le_bytes(data.subrange(pos, pos + 4))
}

pub open spec fn u64_at(data: Seq<u8>, pos: int) -> u64 {
    spec_u64_from_le_bytes(data.subrange(pos, pos + 8))
}

pub open spec fn u128_at(data: Seq<u8>, pos: int) -> u128 {
    spec_u128_from_le_bytes(data.subrange(pos, pos + 16))
}

pub open spec fn bytes_end(data: Seq<u8>, pos: int) -> Result<int, Error> {
    match fixed_end(data, pos, 4) {
        Ok(p) => fixed_end(data, p, u32_at(data, pos) as int),
        Err(e) => Err(e),
    }
}

/// The payload of the length-prefixed field at `pos`.
pub open spec fn bytes_at(data: Seq<u8>, pos: int) -> Seq<u8> {
    data.subrange(pos + 4, pos + 4 + u32_at(data, pos))
}

pub open spec fn str_end(data: Seq<u8>, pos: int) -> Result<int, Error> {
    match bytes_end(data, pos) {
        Ok(p) => if valid_utf8(bytes_at(data, pos)) {
            Ok(p)
        } else {
            Err(Error::InvalidUtf8)
        },
        Err(e) => Err(e),
    }
}

/// An append-only output buffer.
pub struct Sink {
    buf: Vec<u8>,
}

impl View for Sink {
    type V = Seq<u8>;

    closed spec fn view(&self) -> Seq<u8> {
        self.buf@
    }
}

impl Sink {
    pub fn new(cap: usize) -> (r: Sink)
        ensures
            r@ == Seq::<u8>::empty(),
    {
        Sink { buf: Vec::with_capacity(cap) }
    }

    pub(crate) fn write_byte(&mut self, b: u8)
        ensures
            final(self)@ == old(self)@.push(b),
    {
        self.buf.push(b)
    }

    pub fn write_bool(&mut self, b: bool)
        ensures
            final(self)@ == old(self)@ + enc_bool(b),
    {
        if b {
            self.write_byte(1)
        } else {
            self.write_byte(0)
        }
        assert(self@ =~= old(self)@ + enc_bool(b));
    }

    pub fn write_bytes(&mut self, data: &[u8])
        requires
            data@.len() <= u32::MAX,
        ensures
            final(self)@ == old(self)@ + enc_bytes(data@),
    {
        self.write_usize(data.len());
        self.write_raw_bytes(data);
        assert(self@ =~= old(self)@ + enc_bytes(data@));
    }

    /// Writes a length as the four-byte prefix of the wire format.
    pub(crate) fn write_usize(&mut self, val: usize)
        requires
            val <= u32::MAX,
        ensures
            final(self)@ == old(self)@ + enc_u32(val as u32),
    {
        self.write_u32(val as u32);
    }

    pub fn write_u32(&mut self, val: u32)
        ensures
            final(self)@ == old(self)@ + enc_u32(val),
    {
        let b = u32_to_le_bytes(val);
        self.write_raw_bytes(b.as_slice());
    }

    pub fn write_i32(&mut self, val: i32)
        ensures
            final(self)@ == old(self)@ + enc_i32(val),
    {
        let b = u32_to_le_bytes(val as u32);
        self.write_raw_bytes(b.as_slice());
    }

    pub fn write_u64(&mut self, val: u64)
        ensures
            final(self)@ == old(self)@ + enc_u64(val),
    {
        let b = u64_to_le_bytes(val);
        self.write_raw_bytes(b.as_slice());
    }

    pub fn write_i64(&mut self, val: i64)
        ensures
            final(self)@ == old(self)@ + enc_i64(val),
    {
        let b = u64_to_le_bytes(val as u64);
        self.write_raw_bytes(b.as_slice());
    }

    pub fn write_u128(&mut self, val: u128)
        ensures
            final(self)@ == old(self)@ + enc_u128(val),
    {
        let b = u128_to_le_bytes(val);
        self.write_raw_bytes(b.as_slice());
    }

    pub fn write_i128(&mut self, val: i128)
        ensures
            final(self)@ == old(self)@ + enc_i128(val),
    {
        let b = u128_to_le_bytes(val as u128);
        self.write_raw_bytes(b.as_slice());
    }

    pub fn write_str(&mut self, string: &str)
        requires
            string.spec_bytes().len() <= u32::MAX,
        ensures
            final(self)@ == old(self)@ + enc_str(string@),
    {
        self.write_bytes(string.as_bytes());
    }

    pub(crate) fn write_raw_bytes(&mut self, data: &[u8])
        ensures
            final(self)@ == old(self)@ + data@,
    {
        self.buf.extend_from_slice(data);
    }

    pub fn as_bytes(&self) -> (r: &[u8])
        ensures
            r@ == self@,
    {
        self.buf.as_slice()
    }

    pub fn into(self) -> (r: Vec<u8>)
        ensures
            r@ == self@,
    {
        self.buf
    }
}

/// A read cursor over an immutable byte buffer.
pub struct Source<'a> {
    buf: &'a [u8],
    pos: usize,
}

impl<'a> Source<'a> {
    /// The bytes being read.
    pub closed spec fn data(&self) -> Seq<u8> {
        self.buf@
    }

    /// How many bytes have been consumed.
    pub closed spec fn pos(&self) -> int {
        self.pos as int
    }

    /// The cursor never passes the end of the buffer.
    pub closed spec fn wf(&self) -> bool {
        self.pos <= self.buf@.len()
    }

    pub fn new(data: &'a [u8]) -> (r: Source<'a>)
        ensures
            r.wf(),
            r.data() == data@,
            r.pos() == 0,
    {
        Source { buf: data, pos: 0 }
    }

    pub fn is_empty(&self) -> (r: bool)
        ensures
            r == (self.data().len() == 0),
    {
        self.buf.len() == 0
    }

    pub fn is_eof(&self) -> (r: bool)
        ensures
            r == (self.pos() >= self.data().len()),
    {
        self.pos >= self.buf.len()
    }

    /// Decodes one value of type `T`.
    pub fn read<T: Decoder<'a>>(&mut self) -> (r: Result<T, Error>)
        requires
            old(self).wf(),
        ensures
            final(self).wf(),
            final(self).data() == old(self).data(),
            r matches Ok(v) ==> T::decode_end(old(self).data(), old(self).pos()) == Ok::<
                int,
                Error,
            >(final(self).pos()) && T::decodes_to(old(self).data(), old(self).pos(), v),
            r matches Err(e) ==> T::decode_end(old(self).data(), old(self).pos()) == Err::<
                int,
                Error,
            >(e),
    {
        T::decode(self)
    }

    /// Takes the next `len` bytes.
    pub(crate) fn read_raw_bytes(&mut self, len: usize) -> (r: Result<&'a [u8], Error>)
        requires
            old(self).wf(),
        ensures
            final(self).wf(),
            final(self).data() == old(self).data(),
            r matches Ok(b) ==> fixed_end(old(self).data(), old(self).pos(), len as int) == Ok::<
                int,
                Error,
            >(final(self).pos()) && b@ == old(self).data().subrange(
                old(self).pos(),
                final(self).pos(),
            ),
            r matches Err(e) ==> fixed_end(old(self).data(), old(self).pos(), len as int) == Err::<
                int,
                Error,
            >(e),
    {
        if len > self.buf.len() - self.pos {
            return Err(Error::UnexpectedEOF);
        }
        let old_pos = self.pos;
        self.pos = old_pos + len;
        Ok(slice_subrange(self.buf, old_pos, self.pos))
    }

    pub(crate) fn read_byte(&mut self) -> (r: Result<u8, Error>)
        requires
            old(self).wf(),
        ensures
            final(self).wf(),
            final(self).data() == old(self).data(),
            r matches Ok(b) ==> fixed_end(old(self).data(), old(self).pos(), 1) == Ok::<int, Error>(
                final(self).pos(),
            ) && b == old(self).data()[old(self).pos()],
            r matches Err(e) ==> fixed_end(old(self).data(), old(self).pos(), 1) == Err::<
                int,
                Error,
            >(e),
    {
        if self.pos >= self.buf.len() {
            return Err(Error::UnexpectedEOF);
        }
        let b = self.buf[self.pos];
        self.pos = self.pos + 1;
        Ok(b)
    }

    /// Any byte but zero reads as `true`.
    pub(crate) fn read_bool(&mut self) -> (r: Result<bool, Error>)
        requires
            old(self).wf(),
        ensures
            final(self).wf(),
            final(self).data() == old(self).data(),
            r matches Ok(b) ==> fixed_end(old(self).data(), old(self).pos(), 1) == Ok::<int, Error>(
                final(self).pos(),
            ) && b == (old(self).data()[old(self).pos()] != 0),
            r matches Err(e) ==> fixed_end(old(self).data(), old(self).pos(), 1) == Err::<
                int,
                Error,
            >(e),
    {
        let b = self.read_byte()?;
        Ok(b != 0)
    }

    pub(crate) fn read_u32(&mut self) -> (r: Result<u32, Error>)
        requires
            old(self).wf(),
        ensures
            final(self).wf(),
            final(self).data() == old(self).data(),
            r matches Ok(v) ==> fixed_end(old(self).data(), old(self).pos(), 4) == Ok::<int, Error>(
                final(self).pos(),
            ) && v == u32_at(old(self).data(), old(self).pos()),
            r matches Err(e) ==> fixed_end(old(self).data(), old(self).pos(), 4) == Err::<
                int,
                Error,
            >(e),
    {
        let b = self.read_raw_bytes(4)?;
        Ok(u32_from_le_bytes(b))
    }

    pub(crate) fn read_usize(&mut self) -> (r: Result<usize, Error>)
        requires
            old(self).wf(),
        ensures
            final(self).wf(),
            final(self).data() == old(self).data(),
            r matches Ok(v) ==> fixed_end(old(self).data(), old(self).pos(), 4) == Ok::<int, Error>(
                final(self).pos(),
            ) && v == u32_at(old(self).data(), old(self).pos()),
            r matches Err(e) ==> fixed_end(old(self).data(), old(self).pos(), 4) == Err::<
                int,
                Error,
            >(e),
    {
        let v = self.read_u32()?;
        Ok(v as usize)
    }

    pub(crate) fn read_i32(&mut self) -> (r: Result<i32, Error>)
        requires
            old(self).wf(),
        ensures
            final(self).wf(),
            final(self).data() == old(self).data(),
            r matches Ok(v) ==> fixed_end(old(self).data(), old(self).pos(), 4) == Ok::<int, Error>(
                final(self).pos(),
            ) && v == u32_at(old(self).data(), old(self).pos()) as i32,
            r matches Err(e) ==> fixed_end(old(self).data(), old(self).pos(), 4) == Err::<
                int,
                Error,
            >(e),
    {
        let b = self.read_raw_bytes(4)?;
        Ok(u32_from_le_bytes(b) as i32)
    }

    pub(crate) fn read_u64(&mut self) -> (r: Result<u64, Error>)
        requires
            old(self).wf(),
        ensures
            final(self).wf(),
            final(self).data() == old(self).data(),
            r matches Ok(v) ==> fixed_end(old(self).data(), old(self).pos(), 8) == Ok::<int, Error>(
                final(self).pos(),
            ) && v == u64_at(old(self).data(), old(self).pos()),
            r matches Err(e) ==> fixed_end(old(self).data(), old(self).pos(), 8) == Err::<
                int,
                Error,
            >(e),
    {
        let b = self.read_raw_bytes(8)?;
        Ok(u64_from_le_bytes(b))
    }

    pub(crate) fn read_i64(&mut self) -> (r: Result<i64, Error>)
        requires
            old(self).wf(),
        ensures
            final(self).wf(),
            final(self).data() == old(self).data(),
            r matches Ok(v) ==> fixed_end(old(self).data(), old(self).pos(), 8) == Ok::<int, Error>(
                final(self).pos(),
            ) && v == u64_at(old(self).data(), old(self).pos()) as i64,
            r matches Err(e) ==> fixed_end(old(self).data(), old(self).pos(), 8) == Err::<
                int,
                Error,
            >(e),
    {
        let b = self.read_raw_bytes(8)?;
        Ok(u64_from_le_bytes(b) as i64)
    }

    pub(crate) fn read_u128(&mut self) -> (r: Result<u128, Error>)
        requires
            old(self).wf(),
        ensures
            final(self).wf(),
            final(self).data() == old(self).data(),
            r matches Ok(v) ==> fixed_end(old(self).data(), old(self).pos(), 16) == Ok::<
                int,
                Error,
            >(final(self).pos()) && v == u128_at(old(self).data(), old(self).pos()),
            r matches Err(e) ==> fixed_end(old(self).data(), old(self).pos(), 16) == Err::<
                int,
                Error,
            >(e),
    {
        let b = self.read_raw_bytes(16)?;
        Ok(u128_from_le_bytes(b))
    }

    pub(crate) fn read_i128(&mut self) -> (r: Result<i128, Error>)
        requires
            old(self).wf(),
        ensures
            final(self).wf(),
            final(self).data() == old(self).data(),
            r matches Ok(v) ==> fixed_end(old(self).data(), old(self).pos(), 16) == Ok::<
                int,
                Error,
            >(final(self).pos()) && v == u128_at(old(self).data(), old(self).pos()) as i128,
            r matches Err(e) ==> fixed_end(old(self).data(), old(self).pos(), 16) == Err::<
                int,
                Error,
            >(e),
    {
        let b = self.read_raw_bytes(16)?;
        Ok(u128_from_le_bytes(b) as i128)
    }

    /// Reads a length-prefixed byte string.
    pub(crate) fn read_bytes(&mut self) -> (r: Result<&'a [u8], Error>)
        requires
            old(self).wf(),
        ensures
            final(self).wf(),
            final(self).data() == old(self).data(),
            r matches Ok(b) ==> bytes_end(old(self).data(), old(self).pos()) == Ok::<int, Error>(
                final(self).pos(),
            ) && b@ == bytes_at(old(self).data(), old(self).pos()),
            r matches Err(e) ==> bytes_end(old(self).data(), old(self).pos()) == Err::<int, Error>(
                e,
            ),
    {
        let len = self.read_usize()?;
        self.read_raw_bytes(len)
    }

    /// Reads length-prefixed UTF-8 text.
    pub(crate) fn read_str(&mut self) -> (r: Result<&'a str, Error>)
        requires
            old(self).wf(),
        ensures
            final(self).wf(),
            final(self).data() == old(self).data(),
            r matches Ok(s) ==> str_end(old(self).data(), old(self).pos()) == Ok::<int, Error>(
                final(self).pos(),
            ) && s@ == decode_utf8(bytes_at(old(self).data(), old(self).pos())),
            r matches Err(e) ==> str_end(old(self).data(), old(self).pos()) == Err::<int, Error>(
                e,
            ),
    {
        let bytes = self.read_bytes()?;
        match str_from_utf8(bytes) {
            Some(s) => {
                proof {
                    lemma_utf8_text(s, bytes@);
                }
                Ok(s)
            },
            None => Err(Error::InvalidUtf8),
        }
    }

    pub(crate) fn read_string(&mut self) -> (r: Result<String, Error>)
        requires
            old(self).wf(),
        ensures
            final(self).wf(),
            final(self).data() == old(self).data(),
            r matches Ok(s) ==> str_end(old(self).data(), old(self).pos()) == Ok::<int, Error>(
                final(self).pos(),
            ) && s@ == decode_utf8(bytes_at(old(self).data(), old(self).pos())),
            r matches Err(e) ==> str_end(old(self).data(), old(self).pos()) == Err::<int, Error>(
                e,
            ),
    {
        let s = self.read_str()?;
        Ok(String::from_str(s))
    }
}

/// A type that can be read from a `Source`.
pub trait Decoder<'a>: Sized {
    /// Where this type's encoding that starts at `pos` ends, or why it cannot be read.
    spec fn decode_end(data: Seq<u8>, pos: int) -> Result<int, Error>;

    /// Whether `v` is the value read from the encoding that starts at `pos`.
    spec fn decodes_to(data: Seq<u8>, pos: int, v: Self) -> bool;

    fn decode(source: &mut Source<'a>) -> (r: Result<Self, Error>)
        requires
            old(source).wf(),
        ensures
            final(source).wf(),
            final(source).data() == old(source).data(),
            r matches Ok(v) ==> Self::decode_end(old(source).data(), old(source).pos()) == Ok::<
                int,
                Error,
            >(final(source).pos()) && Self::decodes_to(old(source).data(), old(source).pos(), v),
            r matches Err(e) ==> Self::decode_end(old(source).data(), old(source).pos()) == Err::<
                int,
                Error,
            >(e),
    ;
}

impl<'a> Decoder<'a> for bool {
    open spec fn decode_end(data: Seq<u8>, pos: int) -> Result<int, Error> {
        fixed_end(data, pos, 1)
    }

    open spec fn decodes_to(data: Seq<u8>, pos: int, v: bool) -> bool {
        v == (data[pos] != 0)
    }

    fn decode(source: &mut Source<'a>) -> (r: Result<bool, Error>) {
        source.read_bool()
    }
}

impl<'a> Decoder<'a> for &'a [u8] {
    open spec fn decode_end(data: Seq<u8>, pos: int) -> Result<int, Error> {
        bytes_end(data, pos)
    }

    open spec fn decodes_to(data: Seq<u8>, pos: int, v: &'a [u8]) -> bool {
        v@ == bytes_at(data, pos)
    }

    fn decode(source: &mut Source<'a>) -> (r: Result<&'a [u8], Error>) {
        source.read_bytes()
    }
}

impl<'a> Decoder<'a> for &'a str {
    open spec fn decode_end(data: Seq<u8>, pos: int) -> Result<int, Error> {
        str_end(data, pos)
    }

    open spec fn decodes_to(data: Seq<u8>, pos: int, v: &'a str) -> bool {
        v@ == decode_utf8(bytes_at(data, pos))
    }

    fn decode(source: &mut Source<'a>) -> (r: Result<&'a str, Error>) {
        source.read_str()
    }
}

impl<'a> Decoder<'a> for String {
    open spec fn decode_end(data: Seq<u8>, pos: int) -> Result<int, Error> {
        str_end(data, pos)
    }

    open spec fn decodes_to(data: Seq<u8>, pos: int, v: String) -> bool {
        v@ == decode_utf8(bytes_at(data, pos))
    }

    fn decode(source: &mut Source<'a>) -> (r: Result<String, Error>) {
        source.read_string()
    }
}

impl<'a> Decoder<'a> for u32 {
    open spec fn decode_end(data: Seq<u8>, pos: int) -> Result<int, Error> {
        fixed_end(data, pos, 4)
    }

    open spec fn decodes_to(data: Seq<u8>, pos: int, v: u32) -> bool {
        v == u32_at(data, pos)
    }

    fn decode(source: &mut Source<'a>) -> (r: Result<u32, Error>) {
        source.read_u32()
    }
}

impl<'a> Decoder<'a> for i32 {
    open spec fn decode_end(data: Seq<u8>, pos: int) -> Result<int, Error> {
        fixed_end(data, pos, 4)
    }

    open spec fn decodes_to(data: Seq<u8>, pos: int, v: i32) -> bool {
        v == u32_at(data, pos) as i32
    }

    fn decode(source: &mut Source<'a>) -> (r: Result<i32, Error>) {
        source.read_i32()
    }
}

impl<'a> Decoder<'a> for u64 {
    open spec fn decode_end(data: Seq<u8>, pos: int) -> Result<int, Error> {
        fixed_end(data, pos, 8)
    }

    open spec fn decodes_to(data: Seq<u8>, pos: int, v: u64) -> bool {
        v == u64_at(data, pos)
    }

    fn decode(source: &mut Source<'a>) -> (r: Result<u64, Error>) {
        source.read_u64()
    }
}

impl<'a> Decoder<'a> for i64 {
    open spec fn decode_end(data: Seq<u8>, pos: int) -> Result<int, Error> {
        fixed_end(data, pos, 8)
    }

    open spec fn decodes_to(data: Seq<u8>, pos: int, v: i64) -> bool {
        v == u64_at(data, pos) as i64
    }

    fn decode(source: &mut Source<'a>) -> (r: Result<i64, Error>) {
        source.read_i64()
    }
}

impl<'a> Decoder<'a> for u128 {
    open spec fn decode_end(data: Seq<u8>, pos: int) -> Result<int, Error> {
        fixed_end(data, pos, 16)
    }

    open spec fn decodes_to(data: Seq<u8>, pos: int, v: u128) -> bool {
        v == u128_at(data, pos)
    }

    fn decode(source: &mut Source<'a>) -> (r: Result<u128, Error>) {
        source.read_u128()
    }
}

impl<'a> Decoder<'a> for i128 {
    open spec fn decode_end(data: Seq<u8>, pos: int) -> Result<int, Error> {
        fixed_end(data, pos, 16)
    }

    open spec fn decodes_to(data: Seq<u8>, pos: int, v: i128) -> bool {
        v == u128_at(data, pos) as i128
    }

    fn decode(source: &mut Source<'a>) -> (r: Result<i128, Error>) {
        source.read_i128()
    }
}

impl<'a, A: Decoder<'a>> Decoder<'a> for (A,) {
    open spec fn decode_end(data: Seq<u8>, pos: int) -> Result<int, Error> {
        A::decode_end(data, pos)
    }

    open spec fn decodes_to(data: Seq<u8>, pos: int, v: (A,)) -> bool {
        A::decodes_to(data, pos, v.0)
    }

    fn decode(source: &mut Source<'a>) -> (r: Result<(A,), Error>) {
        let v0 = source.read::<A>()?;
        Ok((v0,))
    }
}

impl<'a, A: Decoder<'a>, B: Decoder<'a>> Decoder<'a> for (A, B) {
    open spec fn decode_end(data: Seq<u8>, pos: int) -> Result<int, Error> {
        match A::decode_end(data, pos) {
            Ok(p1) => B::decode_end(data, p1),
            Err(e) => Err(e),
        }
    }

    open spec fn decodes_to(data: Seq<u8>, pos: int, v: (A, B)) -> bool {
        match A::decode_end(data, pos) {
            Ok(p1) => A::decodes_to(data, pos, v.0) && B::decodes_to(data, p1, v.1),
            Err(_) => false,
        }
    }

    fn decode(source: &mut Source<'a>) -> (r: Result<(A, B), Error>) {
        let v0 = source.read::<A>()?;
        let v1 = source.read::<B>()?;
        Ok((v0, v1))
    }
}

impl<'a, A: Decoder<'a>, B: Decoder<'a>, C: Decoder<'a>> Decoder<'a> for (A, B, C) {
    open spec fn decode_end(data: Seq<u8>, pos: int) -> Result<int, Error> {
        match A::decode_end(data, pos) {
            Ok(p1) => match B::decode_end(data, p1) {
                Ok(p2) => C::decode_end(data, p2),
                Err(e) => Err(e),
            },
            Err(e) => Err(e),
        }
    }

    open spec fn decodes_to(data: Seq<u8>, pos: int, v: (A, B, C)) -> bool {
        match A::decode_end(data, pos) {
            Ok(p1) => A::decodes_to(data, pos, v.0) && match B::decode_end(data, p1) {
                Ok(p2) => B::decodes_to(data, p1, v.1) && C::decodes_to(data, p2, v.2),
                Err(_) => false,
            },
            Err(_) => false,
        }
    }

    fn decode(source: &mut Source<'a>) -> (r: Result<(A, B, C), Error>) {
        let v0 = source.read::<A>()?;
        let v1 = source.read::<B>()?;
        let v2 = source.read::<C>()?;
        Ok((v0, v1, v2))
    }
}

impl<'a, A: Decoder<'a>, B: Decoder<'a>, C: Decoder<'a>, D: Decoder<'a>> Decoder<'a> for (A, B, C, D) {
    open spec fn decode_end(data: Seq<u8>, pos: int) -> Result<int, Error> {
        match A::decode_end(data, pos) {
            Ok(p1) => match B::decode_end(data, p1) {
                Ok(p2) => match C::decode_end(data, p2) {
                    Ok(p3) => D::decode_end(data, p3),
                    Err(e) => Err(e),
                },
                Err(e) => Err(e),
            },
            Err(e) => Err(e),
        }
    }

    open spec fn decodes_to(data: Seq<u8>, pos: int, v: (A, B, C, D)) -> bool {
        match A::decode_end(data, pos) {
            Ok(p1) => A::decodes_to(data, pos, v.0) && match B::decode_end(data, p1) {
                Ok(p2) => B::decodes_to(data, p1, v.1) && match C::decode_end(data, p2) {
                    Ok(p3) => C::decodes_to(data, p2, v.2) && D::decodes_to(data, p3, v.3),
                    Err(_) => false,
                },
                Err(_) => false,
            },
            Err(_) => false,
        }
    }

    fn decode(source: &mut Source<'a>) -> (r: Result<(A, B, C, D), Error>) {
        let v0 = source.read::<A>()?;
        let v1 = source.read::<B>()?;
        let v2 = source.read::<C>()?;
        let v3 = source.read::<D>()?;
        Ok((v0, v1, v2, v3))
    }
}

impl<'a, A: Decoder<'a>, B: Decoder<'a>, C: Decoder<'a>, D: Decoder<'a>, E: Decoder<'a>> Decoder<'a> for (A, B, C, D, E) {
    open spec fn decode_end(data: Seq<u8>, pos: int) -> Result<int, Error> {
        match A::decode_end(data, pos) {
            Ok(p1) => match B::decode_end(data, p1) {
                Ok(p2) => match C::decode_end(data, p2) {
                    Ok(p3) => match D::decode_end(data, p3) {
                        Ok(p4) => E::decode_end(data, p4),
                        Err(e) => Err(e),
                    },
                    Err(e) => Err(e),
                },
                Err(e) => Err(e),
            },
            Err(e) => Err(e),
        }
    }

    open spec fn decodes_to(data: Seq<u8>, pos: int, v: (A, B, C, D, E)) -> bool {
        match A::decode_end(data, pos) {
            Ok(p1) => A::decodes_to(data, pos, v.0) && match B::decode_end(data, p1) {
                Ok(p2) => B::decodes_to(data, p1, v.1) && match C::decode_end(data, p2) {
                    Ok(p3) => C::decodes_to(data, p2, v.2) && match D::decode_end(data, p3) {
                        Ok(p4) => D::decodes_to(data, p3, v.3) && E::decodes_to(data, p4, v.4),
                        Err(_) => false,
                    },
                    Err(_) => false,
                },
                Err(_) => false,
            },
            Err(_) => false,
        }
    }

    fn decode(source: &mut Source<'a>) -> (r: Result<(A, B, C, D, E), Error>) {
        let v0 = source.read::<A>()?;
        let v1 = source.read::<B>()?;
        let v2 = source.read::<C>()?;
        let v3 = source.read::<D>()?;
        let v4 = source.read::<E>()?;
        Ok((v0, v1, v2, v3, v4))
    }
}

impl<'a, A: Decoder<'a>, B: Decoder<'a>, C: Decoder<'a>, D: Decoder<'a>, E: Decoder<'a>, F: Decoder<'a>> Decoder<'a> for (A, B, C, D, E, F) {
    open spec fn decode_end(data: Seq<u8>, pos: int) -> Result<int, Error> {
        match A::decode_end(data, pos) {
            Ok(p1) => match B::decode_end(data, p1) {
                Ok(p2) => match C::decode_end(data, p2) {
                    Ok(p3) => match D::decode_end(data, p3) {
                        Ok(p4) => match E::decode_end(data, p4) {
                            Ok(p5) => F::decode_end(data, p5),
                            Err(e) => Err(e),
                        },
                        Err(e) => Err(e),
                    },
                    Err(e) => Err(e),
                },
                Err(e) => Err(e),
            },
            Err(e) => Err(e),
        }
    }

    open spec fn decodes_to(data: Seq<u8>, pos: int, v: (A, B, C, D, E, F)) -> bool {
        match A::decode_end(data, pos) {
            Ok(p1) => A::decodes_to(data, pos, v.0) && match B::decode_end(data, p1) {
                Ok(p2) => B::decodes_to(data, p1, v.1) && match C::decode_end(data, p2) {
                    Ok(p3) => C::decodes_to(data, p2, v.2) && match D::decode_end(data, p3) {
                        Ok(p4) => D::decodes_to(data, p3, v.3) && match E::decode_end(data, p4) {
                            Ok(p5) => E::decodes_to(data, p4, v.4) && F::decodes_to(data, p5, v.5),
                            Err(_) => false,
                        },
                        Err(_) => false,
                    },
                    Err(_) => false,
                },
                Err(_) => false,
            },
            Err(_) => false,
        }
    }

    fn decode(source: &mut Source<'a>) -> (r: Result<(A, B, C, D, E, F), Error>) {
        let v0 = source.read::<A>()?;
        let v1 = source.read::<B>()?;
        let v2 = source.read::<C>()?;
        let v3 = source.read::<D>()?;
        let v4 = source.read::<E>()?;
        let v5 = source.read::<F>()?;
        Ok((v0, v1, v2, v3, v4, v5))
    }
}

impl<'a, A: Decoder<'a>, B: Decoder<'a>, C: Decoder<'a>, D: Decoder<'a>, E: Decoder<'a>, F: Decoder<'a>, G: Decoder<'a>> Decoder<'a> for (A, B, C, D, E, F, G) {
    open spec fn decode_end(data: Seq<u8>, pos: int) -> Result<int, Error> {
        match A::decode_end(data, pos) {
            Ok(p1) => match B::decode_end(data, p1) {
                Ok(p2) => match C::decode_end(data, p2) {
                    Ok(p3) => match D::decode_end(data, p3) {
                        Ok(p4) => match E::decode_end(data, p4) {
                            Ok(p5) => match F::decode_end(data, p5) {
                                Ok(p6) => G::decode_end(data, p6),
                                Err(e) => Err(e),
                            },
                            Err(e) => Err(e),
                        },
                        Err(e) => Err(e),
                    },
                    Err(e) => Err(e),
                },
                Err(e) => Err(e),
            },
            Err(e) => Err(e),
        }
    }

    open spec fn decodes_to(data: Seq<u8>, pos: int, v: (A, B, C, D, E, F, G)) -> bool {
        match A::decode_end(data, pos) {
            Ok(p1) => A::decodes_to(data, pos, v.0) && match B::decode_end(data, p1) {
                Ok(p2) => B::decodes_to(data, p1, v.1) && match C::decode_end(data, p2) {
                    Ok(p3) => C::decodes_to(data, p2, v.2) && match D::decode_end(data, p3) {
                        Ok(p4) => D::decodes_to(data, p3, v.3) && match E::decode_end(data, p4) {
                            Ok(p5) => E::decodes_to(data, p4, v.4) && match F::decode_end(data, p5) {
                                Ok(p6) => F::decodes_to(data, p5, v.5) && G::decodes_to(data, p6, v.6),
                                Err(_) => false,
                            },
                            Err(_) => false,
                        },
                        Err(_) => false,
                    },
                    Err(_) => false,
                },
                Err(_) => false,
            },
            Err(_) => false,
        }
    }

    fn decode(source: &mut Source<'a>) -> (r: Result<(A, B, C, D, E, F, G), Error>) {
        let v0 = source.read::<A>()?;
        let v1 = source.read::<B>()?;
        let v2 = source.read::<C>()?;
        let v3 = source.read::<D>()?;
        let v4 = source.read::<E>()?;
        let v5 = source.read::<F>()?;
        let v6 = source.read::<G>()?;
        Ok((v0, v1, v2, v3, v4, v5, v6))
    }
}

impl<'a, A: Decoder<'a>, B: Decoder<'a>, C: Decoder<'a>, D: Decoder<'a>, E: Decoder<'a>, F: Decoder<'a>, G: Decoder<'a>, H: Decoder<'a>> Decoder<'a> for (A, B, C, D, E, F, G, H) {
    open spec fn decode_end(data: Seq<u8>, pos: int) -> Result<int, Error> {
        match A::decode_end(data, pos) {
            Ok(p1) => match B::decode_end(data, p1) {
                Ok(p2) => match C::decode_end(data, p2) {
                    Ok(p3) => match D::decode_end(data, p3) {
                        Ok(p4) => match E::decode_end(data, p4) {
                            Ok(p5) => match F::decode_end(data, p5) {
                                Ok(p6) => match G::decode_end(data, p6) {
                                    Ok(p7) => H::decode_end(data, p7),
                                    Err(e) => Err(e),
                                },
                                Err(e) => Err(e),
                            },
                            Err(e) => Err(e),
                        },
                        Err(e) => Err(e),
                    },
                    Err(e) => Err(e),
                },
                Err(e) => Err(e),
            },
            Err(e) => Err(e),
        }
    }

    open spec fn decodes_to(data: Seq<u8>, pos: int, v: (A, B, C, D, E, F, G, H)) -> bool {
        match A::decode_end(data, pos) {
            Ok(p1) => A::decodes_to(data, pos, v.0) && match B::decode_end(data, p1) {
                Ok(p2) => B::decodes_to(data, p1, v.1) && match C::decode_end(data, p2) {
                    Ok(p3) => C::decodes_to(data, p2, v.2) && match D::decode_end(data, p3) {
                        Ok(p4) => D::decodes_to(data, p3, v.3) && match E::decode_end(data, p4) {
                            Ok(p5) => E::decodes_to(data, p4, v.4) && match F::decode_end(data, p5) {
                                Ok(p6) => F::decodes_to(data, p5, v.5) && match G::decode_end(data, p6) {
                                    Ok(p7) => G::decodes_to(data, p6, v.6) && H::decodes_to(data, p7, v.7),
                                    Err(_) => false,
                                },
                                Err(_) => false,
                            },
                            Err(_) => false,
                        },
                        Err(_) => false,
                    },
                    Err(_) => false,
                },
                Err(_) => false,
            },
            Err(_) => false,
        }
    }

    fn decode(source: &mut Source<'a>) -> (r: Result<(A, B, C, D, E, F, G, H), Error>) {
        let v0 = source.read::<A>()?;
        let v1 = source.read::<B>()?;
        let v2 = source.read::<C>()?;
        let v3 = source.read::<D>()?;
        let v4 = source.read::<E>()?;
        let v5 = source.read::<F>()?;
        let v6 = source.read::<G>()?;
        let v7 = source.read::<H>()?;
        Ok((v0, v1, v2, v3, v4, v5, v6, v7))
    }
}

impl<'a, A: Decoder<'a>, B: Decoder<'a>, C: Decoder<'a>, D: Decoder<'a>, E: Decoder<'a>, F: Decoder<'a>, G: Decoder<'a>, H: Decoder<'a>, I: Decoder<'a>> Decoder<'a> for (A, B, C, D, E, F, G, H, I) {
    open spec fn decode_end(data: Seq<u8>, pos: int) -> Result<int, Error> {
        match A::decode_end(data, pos) {
            Ok(p1) => match B::decode_end(data, p1) {
                Ok(p2) => match C::decode_end(data, p2) {
                    Ok(p3) => match D::decode_end(data, p3) {
                        Ok(p4) => match E::decode_end(data, p4) {
                            Ok(p5) => match F::decode_end(data, p5) {
                                Ok(p6) => match G::decode_end(data, p6) {
                                    Ok(p7) => match H::decode_end(data, p7) {
                                        Ok(p8) => I::decode_end(data, p8),
                                        Err(e) => Err(e),
                                    },
                                    Err(e) => Err(e),
                                },
                                Err(e) => Err(e),
                            },
                            Err(e) => Err(e),
                        },
                        Err(e) => Err(e),
                    },
                    Err(e) => Err(e),
                },
                Err(e) => Err(e),
            },
            Err(e) => Err(e),
        }
    }

    open spec fn decodes_to(data: Seq<u8>, pos: int, v: (A, B, C, D, E, F, G, H, I)) -> bool {
        match A::decode_end(data, pos) {
            Ok(p1) => A::decodes_to(data, pos, v.0) && match B::decode_end(data, p1) {
                Ok(p2) => B::decodes_to(data, p1, v.1) && match C::decode_end(data, p2) {
                    Ok(p3) => C::decodes_to(data, p2, v.2) && match D::decode_end(data, p3) {
                        Ok(p4) => D::decodes_to(data, p3, v.3) && match E::decode_end(data, p4) {
                            Ok(p5) => E::decodes_to(data, p4, v.4) && match F::decode_end(data, p5) {
                                Ok(p6) => F::decodes_to(data, p5, v.5) && match G::decode_end(data, p6) {
                                    Ok(p7) => G::decodes_to(data, p6, v.6) && match H::decode_end(data, p7) {
                                        Ok(p8) => H::decodes_to(data, p7, v.7) && I::decodes_to(data, p8, v.8),
                                        Err(_) => false,
                                    },
                                    Err(_) => false,
                                },
                                Err(_) => false,
                            },
                            Err(_) => false,
                        },
                        Err(_) => false,
                    },
                    Err(_) => false,
                },
                Err(_) => false,
            },
            Err(_) => false,
        }
    }

    fn decode(source: &mut Source<'a>) -> (r: Result<(A, B, C, D, E, F, G, H, I), Error>) {
        let v0 = source.read::<A>()?;
        let v1 = source.read::<B>()?;
        let v2 = source.read::<C>()?;
        let v3 = source.read::<D>()?;
        let v4 = source.read::<E>()?;
        let v5 = source.read::<F>()?;
        let v6 = source.read::<G>()?;
        let v7 = source.read::<H>()?;
        let v8 = source.read::<I>()?;
        Ok((v0, v1, v2, v3, v4, v5, v6, v7, v8))
    }
}

impl<'a, A: Decoder<'a>, B: Decoder<'a>, C: Decoder<'a>, D: Decoder<'a>, E: Decoder<'a>, F: Decoder<'a>, G: Decoder<'a>, H: Decoder<'a>, I: Decoder<'a>, J: Decoder<'a>> Decoder<'a> for (A, B, C, D, E, F, G, H, I, J) {
    open spec fn decode_end(data: Seq<u8>, pos: int) -> Result<int, Error> {
        match A::decode_end(data, pos) {
            Ok(p1) => match B::decode_end(data, p1) {
                Ok(p2) => match C::decode_end(data, p2) {
                    Ok(p3) => match D::decode_end(data, p3) {
                        Ok(p4) => match E::decode_end(data, p4) {
                            Ok(p5) => match F::decode_end(data, p5) {
                                Ok(p6) => match G::decode_end(data, p6) {
                                    Ok(p7) => match H::decode_end(data, p7) {
                                        Ok(p8) => match I::decode_end(data, p8) {
                                            Ok(p9) => J::decode_end(data, p9),
                                            Err(e) => Err(e),
                                        },
                                        Err(e) => Err(e),
                                    },
                                    Err(e) => Err(e),
                                },
                                Err(e) => Err(e),
                            },
                            Err(e) => Err(e),
                        },
                        Err(e) => Err(e),
                    },
                    Err(e) => Err(e),
                },
                Err(e) => Err(e),
            },
            Err(e) => Err(e),
        }
    }

    open spec fn decodes_to(data: Seq<u8>, pos: int, v: (A, B, C, D, E, F, G, H, I, J)) -> bool {
        match A::decode_end(data, pos) {
            Ok(p1) => A::decodes_to(data, pos, v.0) && match B::decode_end(data, p1) {
                Ok(p2) => B::decodes_to(data, p1, v.1) && match C::decode_end(data, p2) {
                    Ok(p3) => C::decodes_to(data, p2, v.2) && match D::decode_end(data, p3) {
                        Ok(p4) => D::decodes_to(data, p3, v.3) && match E::decode_end(data, p4) {
                            Ok(p5) => E::decodes_to(data, p4, v.4) && match F::decode_end(data, p5) {
                                Ok(p6) => F::decodes_to(data, p5, v.5) && match G::decode_end(data, p6) {
                                    Ok(p7) => G::decodes_to(data, p6, v.6) && match H::decode_end(data, p7) {
                                        Ok(p8) => H::decodes_to(data, p7, v.7) && match I::decode_end(data, p8) {
                                            Ok(p9) => I::decodes_to(data, p8, v.8) && J::decodes_to(data, p9, v.9),
                                            Err(_) => false,
                                        },
                                        Err(_) => false,
                                    },
                                    Err(_) => false,
                                },
                                Err(_) => false,
                            },
                            Err(_) => false,
                        },
                        Err(_) => false,
                    },
                    Err(_) => false,
                },
                Err(_) => false,
            },
            Err(_) => false,
        }
    }

    fn decode(source: &mut Source<'a>) -> (r: Result<(A, B, C, D, E, F, G, H, I, J), Error>) {
        let v0 = source.read::<A>()?;
        let v1 = source.read::<B>()?;
        let v2 = source.read::<C>()?;
        let v3 = source.read::<D>()?;
        let v4 = source.read::<E>()?;
        let v5 = source.read::<F>()?;
        let v6 = source.read::<G>()?;
        let v7 = source.read::<H>()?;
        let v8 = source.read::<I>()?;
        let v9 = source.read::<J>()?;
        Ok((v0, v1, v2, v3, v4, v5, v6, v7, v8, v9))
    }
}

impl<'a, A: Decoder<'a>, B: Decoder<'a>, C: Decoder<'a>, D: Decoder<'a>, E: Decoder<'a>, F: Decoder<'a>, G: Decoder<'a>, H: Decoder<'a>, I: Decoder<'a>, J: Decoder<'a>, K: Decoder<'a>> Decoder<'a> for (A, B, C, D, E, F, G, H, I, J, K) {
    open spec fn decode_end(data: Seq<u8>, pos: int) -> Result<int, Error> {
        match A::decode_end(data, pos) {
            Ok(p1) => match B::decode_end(data, p1) {
                Ok(p2) => match C::decode_end(data, p2) {
                    Ok(p3) => match D::decode_end(data, p3) {
                        Ok(p4) => match E::decode_end(data, p4) {
                            Ok(p5) => match F::decode_end(data, p5) {
                                Ok(p6) => match G::decode_end(data, p6) {
                                    Ok(p7) => match H::decode_end(data, p7) {
                                        Ok(p8) => match I::decode_end(data, p8) {
                                            Ok(p9) => match J::decode_end(data, p9) {
                                                Ok(p10) => K::decode_end(data, p10),
                                                Err(e) => Err(e),
                                            },
                                            Err(e) => Err(e),
                                        },
                                        Err(e) => Err(e),
                                    },
                                    Err(e) => Err(e),
                                },
                                Err(e) => Err(e),
                            },
                            Err(e) => Err(e),
                        },
                        Err(e) => Err(e),
                    },
                    Err(e) => Err(e),
                },
                Err(e) => Err(e),
            },
            Err(e) => Err(e),
        }
    }

    open spec fn decodes_to(data: Seq<u8>, pos: int, v: (A, B, C, D, E, F, G, H, I, J, K)) -> bool {
        match A::decode_end(data, pos) {
            Ok(p1) => A::decodes_to(data, pos, v.0) && match B::decode_end(data, p1) {
                Ok(p2) => B::decodes_to(data, p1, v.1) && match C::decode_end(data, p2) {
                    Ok(p3) => C::decodes_to(data, p2, v.2) && match D::decode_end(data, p3) {
                        Ok(p4) => D::decodes_to(data, p3, v.3) && match E::decode_end(data, p4) {
                            Ok(p5) => E::decodes_to(data, p4, v.4) && match F::decode_end(data, p5) {
                                Ok(p6) => F::decodes_to(data, p5, v.5) && match G::decode_end(data, p6) {
                                    Ok(p7) => G::decodes_to(data, p6, v.6) && match H::decode_end(data, p7) {
                                        Ok(p8) => H::decodes_to(data, p7, v.7) && match I::decode_end(data, p8) {
                                            Ok(p9) => I::decodes_to(data, p8, v.8) && match J::decode_end(data, p9) {
                                                Ok(p10) => J::decodes_to(data, p9, v.9) && K::decodes_to(data, p10, v.10),
                                                Err(_) => false,
                                            },
                                            Err(_) => false,
                                        },
                                        Err(_) => false,
                                    },
                                    Err(_) => false,
                                },
                                Err(_) => false,
                            },
                            Err(_) => false,
                        },
                        Err(_) => false,
                    },
                    Err(_) => false,
                },
                Err(_) => false,
            },
            Err(_) => false,
        }
    }

    fn decode(source: &mut Source<'a>) -> (r: Result<(A, B, C, D, E, F, G, H, I, J, K), Error>) {
        let v0 = source.read::<A>()?;
        let v1 = source.read::<B>()?;
        let v2 = source.read::<C>()?;
        let v3 = source.read::<D>()?;
        let v4 = source.read::<E>()?;
        let v5 = source.read::<F>()?;
        let v6 = source.read::<G>()?;
        let v7 = source.read::<H>()?;
        let v8 = source.read::<I>()?;
        let v9 = source.read::<J>()?;
        let v10 = source.read::<K>()?;
        Ok((v0, v1, v2, v3, v4, v5, v6, v7, v8, v9, v10))
    }
}

impl<'a, A: Decoder<'a>, B: Decoder<'a>, C: Decoder<'a>, D: Decoder<'a>, E: Decoder<'a>, F: Decoder<'a>, G: Decoder<'a>, H: Decoder<'a>, I: Decoder<'a>, J: Decoder<'a>, K: Decoder<'a>, L: Decoder<'a>> Decoder<'a> for (A, B, C, D, E, F, G, H, I, J, K, L) {
    open spec fn decode_end(data: Seq<u8>, pos: int) -> Result<int, Error> {
        match A::decode_end(data, pos) {
            Ok(p1) => match B::decode_end(data, p1) {
                Ok(p2) => match C::decode_end(data, p2) {
                    Ok(p3) => match D::decode_end(data, p3) {
                        Ok(p4) => match E::decode_end(data, p4) {
                            Ok(p5) => match F::decode_end(data, p5) {
                                Ok(p6) => match G::decode_end(data, p6) {
                                    Ok(p7) => match H::decode_end(data, p7) {
                                        Ok(p8) => match I::decode_end(data, p8) {
                                            Ok(p9) => match J::decode_end(data, p9) {
                                                Ok(p10) => match K::decode_end(data, p10) {
                                                    Ok(p11) => L::decode_end(data, p11),
                                                    Err(e) => Err(e),
                                                },
                                                Err(e) => Err(e),
                                            },
                                            Err(e) => Err(e),
                                        },
                                        Err(e) => Err(e),
                                    },
                                    Err(e) => Err(e),
                                },
                                Err(e) => Err(e),
                            },
                            Err(e) => Err(e),
                        },
                        Err(e) => Err(e),
                    },
                    Err(e) => Err(e),
                },
                Err(e) => Err(e),
            },
            Err(e) => Err(e),
        }
    }

    open spec fn decodes_to(data: Seq<u8>, pos: int, v: (A, B, C, D, E, F, G, H, I, J, K, L)) -> bool {
        match A::decode_end(data, pos) {
            Ok(p1) => A::decodes_to(data, pos, v.0) && match B::decode_end(data, p1) {
                Ok(p2) => B::decodes_to(data, p1, v.1) && match C::decode_end(data, p2) {
                    Ok(p3) => C::decodes_to(data, p2, v.2) && match D::decode_end(data, p3) {
                        Ok(p4) => D::decodes_to(data, p3, v.3) && match E::decode_end(data, p4) {
                            Ok(p5) => E::decodes_to(data, p4, v.4) && match F::decode_end(data, p5) {
                                Ok(p6) => F::decodes_to(data, p5, v.5) && match G::decode_end(data, p6) {
                                    Ok(p7) => G::decodes_to(data, p6, v.6) && match H::decode_end(data, p7) {
                                        Ok(p8) => H::decodes_to(data, p7, v.7) && match I::decode_end(data, p8) {
                                            Ok(p9) => I::decodes_to(data, p8, v.8) && match J::decode_end(data, p9) {
                                                Ok(p10) => J::decodes_to(data, p9, v.9) && match K::decode_end(data, p10) {
                                                    Ok(p11) => K::decodes_to(data, p10, v.10) && L::decodes_to(data, p11, v.11),
                                                    Err(_) => false,
                                                },
                                                Err(_) => false,
                                            },
                                            Err(_) => false,
                                        },
                                        Err(_) => false,
                                    },
                                    Err(_) => false,
                                },
                                Err(_) => false,
                            },
                            Err(_) => false,
                        },
                        Err(_) => false,
                    },
                    Err(_) => false,
                },
                Err(_) => false,
            },
            Err(_) => false,
        }
    }

    fn decode(source: &mut Source<'a>) -> (r: Result<(A, B, C, D, E, F, G, H, I, J, K, L), Error>) {
        let v0 = source.read::<A>()?;
        let v1 = source.read::<B>()?;
        let v2 = source.read::<C>()?;
        let v3 = source.read::<D>()?;
        let v4 = source.read::<E>()?;
        let v5 = source.read::<F>()?;
        let v6 = source.read::<G>()?;
        let v7 = source.read::<H>()?;
        let v8 = source.read::<I>()?;
        let v9 = source.read::<J>()?;
        let v10 = source.read::<K>()?;
        let v11 = source.read::<L>()?;
        Ok((v0, v1, v2, v3, v4, v5, v6, v7, v8, v9, v10, v11))
    }
}

// Laws of the codec.

proof fn lemma_field(pre: Seq<u8>, f: Seq<u8>, post: Seq<u8>)
    ensures
        (pre + f + post).subrange(pre.len() as int, (pre.len() + f.len()) as int) == f,
        (pre + f + post).len() == pre.len() + f.len() + post.len(),
{
    assert((pre + f + post).subrange(pre.len() as int, (pre.len() + f.len()) as int) =~= f);
}

/// A boolean written by the sink reads back unchanged, wherever it stands.
pub proof fn lemma_round_trip_bool(pre: Seq<u8>, v: bool, post: Seq<u8>)
    ensures
        <bool as Decoder>::decode_end(pre + enc_bool(v) + post, pre.len() as int) == Ok::<
            int,
            Error,
        >(pre.len() + 1 as int),
        <bool as Decoder>::decodes_to(pre + enc_bool(v) + post, pre.len() as int, v),
        enc_bool(v).len() == 1,
{
    lemma_field(pre, enc_bool(v), post);
    assert((pre + enc_bool(v) + post)[pre.len() as int] == enc_bool(v)[0]);
}

/// A `u32` written by the sink reads back unchanged, wherever it stands.
pub proof fn lemma_round_trip_u32(pre: Seq<u8>, v: u32, post: Seq<u8>)
    ensures
        <u32 as Decoder>::decode_end(pre + enc_u32(v) + post, pre.len() as int) == Ok::<
            int,
            Error,
        >(pre.len() + 4 as int),
        <u32 as Decoder>::decodes_to(pre + enc_u32(v) + post, pre.len() as int, v),
        enc_u32(v).len() == 4,
{
    lemma_auto_spec_u32_to_from_le_bytes();
    lemma_field(pre, enc_u32(v), post);
}

/// An `i32` written by the sink reads back unchanged, wherever it stands.
pub proof fn lemma_round_trip_i32(pre: Seq<u8>, v: i32, post: Seq<u8>)
    ensures
        <i32 as Decoder>::decode_end(pre + enc_i32(v) + post, pre.len() as int) == Ok::<
            int,
            Error,
        >(pre.len() + 4 as int),
        <i32 as Decoder>::decodes_to(pre + enc_i32(v) + post, pre.len() as int, v),
        enc_i32(v).len() == 4,
{
    lemma_auto_spec_u32_to_from_le_bytes();
    lemma_field(pre, enc_i32(v), post);
    assert(((v as u32) as i32) == v) by (bit_vector);
}

/// A `u64` written by the sink reads back unchanged, wherever it stands.
pub proof fn lemma_round_trip_u64(pre: Seq<u8>, v: u64, post: Seq<u8>)
    ensures
        <u64 as Decoder>::decode_end(pre + enc_u64(v) + post, pre.len() as int) == Ok::<
            int,
            Error,
        >(pre.len() + 8 as int),
        <u64 as Decoder>::decodes_to(pre + enc_u64(v) + post, pre.len() as int, v),
        enc_u64(v).len() == 8,
{
    lemma_auto_spec_u64_to_from_le_bytes();
    lemma_field(pre, enc_u64(v), post);
}

/// An `i64` written by the sink reads back unchanged, wherever it stands.
pub proof fn lemma_round_trip_i64(pre: Seq<u8>, v: i64, post: Seq<u8>)
    ensures
        <i64 as Decoder>::decode_end(pre + enc_i64(v) + post, pre.len() as int) == Ok::<
            int,
            Error,
        >(pre.len() + 8 as int),
        <i64 as Decoder>::decodes_to(pre + enc_i64(v) + post, pre.len() as int, v),
        enc_i64(v).len() == 8,
{
    lemma_auto_spec_u64_to_from_le_bytes();
    lemma_field(pre, enc_i64(v), post);
    assert(((v as u64) as i64) == v) by (bit_vector);
}

/// A `u128` written by the sink reads back unchanged, wherever it stands.
pub proof fn lemma_round_trip_u128(pre: Seq<u8>, v: u128, post: Seq<u8>)
    ensures
        <u128 as Decoder>::decode_end(pre + enc_u128(v) + post, pre.len() as int) == Ok::<
            int,
            Error,
        >(pre.len() + 16 as int),
        <u128 as Decoder>::decodes_to(pre + enc_u128(v) + post, pre.len() as int, v),
        enc_u128(v).len() == 16,
{
    lemma_auto_spec_u128_to_from_le_bytes();
    lemma_field(pre, enc_u128(v), post);
}

/// An `i128` written by the sink reads back unchanged, wherever it stands.
pub proof fn lemma_round_trip_i128(pre: Seq<u8>, v: i128, post: Seq<u8>)
    ensures
        <i128 as Decoder>::decode_end(pre + enc_i128(v) + post, pre.len() as int) == Ok::<
            int,
            Error,
        >(pre.len() + 16 as int),
        <i128 as Decoder>::decodes_to(pre + enc_i128(v) + post, pre.len() as int, v),
        enc_i128(v).len() == 16,
{
    lemma_auto_spec_u128_to_from_le_bytes();
    lemma_field(pre, enc_i128(v), post);
    assert(((v as u128) as i128) == v) by (bit_vector);
}

/// A length-prefixed byte string written by the sink reads back unchanged,
/// wherever it stands.
pub proof fn lemma_round_trip_bytes(pre: Seq<u8>, d: Seq<u8>, post: Seq<u8>)
    requires
        d.len() <= u32::MAX,
    ensures
        bytes_end(pre + enc_bytes(d) + post, pre.len() as int) == Ok::<int, Error>(
            (pre.len() + 4 + d.len()) as int,
        ),
        bytes_at(pre + enc_bytes(d) + post, pre.len() as int) == d,
        enc_bytes(d).len() == 4 + d.len(),
{
    lemma_auto_spec_u32_to_from_le_bytes();
    let data = pre + enc_bytes(d) + post;
    let p = pre.len() as int;
    assert(data.subrange(p, p + 4) =~= enc_u32(d.len() as u32));
    assert(data.subrange(p + 4, p + 4 + d.len()) =~= d);
}

/// Text written by the sink reads back unchanged, wherever it stands.
pub proof fn lemma_round_trip_str(pre: Seq<u8>, s: Seq<char>, post: Seq<u8>)
    requires
        encode_utf8(s).len() <= u32::MAX,
    ensures
        str_end(pre + enc_str(s) + post, pre.len() as int) == Ok::<int, Error>(
            (pre.len() + 4 + encode_utf8(s).len()) as int,
        ),
        decode_utf8(bytes_at(pre + enc_str(s) + post, pre.len() as int)) == s,
        enc_str(s).len() == 4 + encode_utf8(s).len(),
{
    lemma_round_trip_bytes(pre, encode_utf8(s), post);
    encode_utf8_valid_utf8(s);
    encode_utf8_decode_utf8(s);
}

/// A length-prefixed field whose declared length passes the end of the
/// buffer is refused as a truncation.
pub proof fn lemma_truncated_field(data: Seq<u8>, pos: int)
    requires
        0 <= pos,
        pos + 4 <= data.len(),
        pos + 4 + u32_at(data, pos) > data.len(),
    ensures
        bytes_end(data, pos) == Err::<int, Error>(Error::UnexpectedEOF),
        str_end(data, pos) == Err::<int, Error>(Error::UnexpectedEOF),
{
}

} // verus!
