//! The channel layer: `PacketSerializer` frames primitive values and
//! length-prefixed strings over byte buffers. Inbound bytes are consumed from
//! `input` at `pos`; outbound bytes accumulate in `output`, which the caller
//! drains onto the transport. A read past the end of `input` fails with an
//! unexpected-end-of-stream error and leaves the serializer unchanged.

use vstd::prelude::*;

use crate::codec::{
    be_u16_at, be_u16_bytes, be_u32_at, be_u64_at, read_be_u16_at, read_be_u32_at, read_be_u64_at,
    read_u8_at, write_be_i16, write_be_i32, write_be_u16, write_be_u32, write_be_u64, write_u8,
};
use crate::error::Error;
use vstd::utf8::{decode_utf8, encode_utf8, valid_utf8};

verus! {

/// The characters that a lossy UTF-8 decode yields for the given bytes:
/// invalid sequences are replaced, never rejected.
pub uninterp spec fn lossy_of(bytes: Seq<u8>) -> Seq<char>;

/// Relies on `irox_bits::Bits::read_str_sized_lossy` on a byte slice, which
/// takes exactly `len` bytes and decodes them with `String::from_utf8_lossy`:
/// the characters are a function of the bytes alone, and bytes that are valid
/// UTF-8 decode to exactly their own characters. With `len` equal to the
/// slice's length the read cannot fall short, so the error arm is unreachable.
#[verifier::external_body]
fn lossy_string(bytes: &[u8]) -> (r: String)
    ensures
        r@ == lossy_of(bytes@),
        valid_utf8(bytes@) ==> r@ == decode_utf8(bytes@),
{
    let mut cursor: &[u8] = bytes;
    match <&[u8] as irox_bits::Bits>::read_str_sized_lossy(&mut cursor, bytes.len()) {
        Ok(s) => s,
        Err(_) => String::new(),
    }
}

/// The wire form of a string: a big-endian u16 byte-length prefix followed by
/// the UTF-8 bytes.
pub open spec fn string_wire(s: Seq<char>) -> Seq<u8> {
    be_u16_bytes(encode_utf8(s).len() as u16) + encode_utf8(s)
}

/// Writing a string and reading it back yields the same string: the length
/// prefix recovers the byte count, the payload is the UTF-8 encoding, and
/// that encoding decodes to exactly the original characters.
pub proof fn lemma_string_round_trip(s: Seq<char>)
    requires
        encode_utf8(s).len() <= 0xffff,
    ensures
        ({
            let w = string_wire(s);
            &&& w.len() == 2 + encode_utf8(s).len()
            &&& be_u16_at(w, 0) as int == encode_utf8(s).len()
            &&& w.subrange(2, w.len() as int) == encode_utf8(s)
            &&& valid_utf8(encode_utf8(s))
            &&& decode_utf8(encode_utf8(s)) == s
        }),
{
    let w = string_wire(s);
    let n = encode_utf8(s).len() as u16;
    crate::codec::lemma_u16_round_trip(n);
    assert(w.subrange(0, 2) =~= be_u16_bytes(n));
    assert(be_u16_at(w, 0) == be_u16_at(be_u16_bytes(n), 0));
    assert(w.subrange(2, w.len() as int) =~= encode_utf8(s));
    vstd::utf8::encode_utf8_valid_utf8(s);
    vstd::utf8::encode_utf8_decode_utf8(s);
}

/// Appends every byte of `bytes` to `out`, in order.
pub fn append_bytes(out: &mut Vec<u8>, bytes: &[u8])
    ensures
        final(out)@ == old(out)@ + bytes@,
{
    let mut i: usize = 0;
    while i < bytes.len()
        invariant
            i <= bytes@.len(),
            out@ == old(out)@ + bytes@.subrange(0, i as int),
        decreases bytes@.len() - i,
    {
        let b: u8 = *vstd::slice::slice_index_get(bytes, i);
        out.push(b);
        assert(out@ =~= old(out)@ + bytes@.subrange(0, i + 1));
        i = i + 1;
    }
    assert(out@ =~= old(out)@ + bytes@);
}

/// The error a read past the end of the stream fails with.
fn eof_error() -> (r: Error)
    ensures
        r is BitsError,
{
    Error::BitsError { message: "unexpected end of stream".to_owned() }
}

/// Frames packets over a duplex byte stream held as plain buffers: `input`
/// is what the transport has delivered, `pos` is how far it has been
/// consumed, and `output` is what awaits sending.
pub struct PacketSerializer {
    pub input: Vec<u8>,
    pub pos: usize,
    pub output: Vec<u8>,
}

/// True when `new` is `old` with exactly `n` more input bytes consumed.
pub open spec fn consumed(o: PacketSerializer, n2: PacketSerializer, n: int) -> bool {
    &&& n2.input == o.input
    &&& n2.output == o.output
    &&& n2.pos == o.pos + n
    &&& n2.pos <= o.input@.len()
}

impl PacketSerializer {
    /// A serializer over the given inbound bytes, nothing yet consumed and
    /// nothing yet written.
    pub fn new(input: Vec<u8>) -> (r: Self)
        ensures
            r.input == input,
            r.pos == 0,
            r.output@ == Seq::<u8>::empty(),
    {
        PacketSerializer { input, pos: 0, output: Vec::new() }
    }

    /// Reads one byte.
    pub fn read_u8(&mut self) -> (r: Result<u8, Error>)
        ensures
            match r {
                Ok(v) => consumed(*old(self), *final(self), 1) && v == old(self).input@[old(
                    self,
                ).pos as int],
                Err(e) => *final(self) == *old(self) && old(self).pos + 1 > old(self).input@.len()
                    && e is BitsError,
            },
    {
        match read_u8_at(&self.input, self.pos) {
            Some((v, p)) => {
                self.pos = p;
                Ok(v)
            },
            None => Err(eof_error()),
        }
    }

    /// Reads a big-endian 16-bit value.
    pub fn read_be_u16(&mut self) -> (r: Result<u16, Error>)
        ensures
            match r {
                Ok(v) => consumed(*old(self), *final(self), 2) && v == be_u16_at(
                    old(self).input@,
                    old(self).pos as int,
                ),
                Err(e) => *final(self) == *old(self) && old(self).pos + 2 > old(self).input@.len()
                    && e is BitsError,
            },
    {
        match read_be_u16_at(&self.input, self.pos) {
            Some((v, p)) => {
                self.pos = p;
                Ok(v)
            },
            None => Err(eof_error()),
        }
    }

    /// Reads a big-endian 32-bit value.
    pub fn read_be_u32(&mut self) -> (r: Result<u32, Error>)
        ensures
            match r {
                Ok(v) => consumed(*old(self), *final(self), 4) && v == be_u32_at(
                    old(self).input@,
                    old(self).pos as int,
                ),
                Err(e) => *final(self) == *old(self) && old(self).pos + 4 > old(self).input@.len()
                    && e is BitsError,
            },
    {
        match read_be_u32_at(&self.input, self.pos) {
            Some((v, p)) => {
                self.pos = p;
                Ok(v)
            },
            None => Err(eof_error()),
        }
    }

    /// Reads a big-endian 64-bit value.
    pub fn read_be_u64(&mut self) -> (r: Result<u64, Error>)
        ensures
            match r {
                Ok(v) => consumed(*old(self), *final(self), 8) && v == be_u64_at(
                    old(self).input@,
                    old(self).pos as int,
                ),
                Err(e) => *final(self) == *old(self) && old(self).pos + 8 > old(self).input@.len()
                    && e is BitsError,
            },
    {
        match read_be_u64_at(&self.input, self.pos) {
            Some((v, p)) => {
                self.pos = p;
                Ok(v)
            },
            None => Err(eof_error()),
        }
    }

    /// Reads a length-prefixed string: a big-endian u16 byte length, then
    /// that many bytes, decoded lossily as UTF-8.
    pub fn read_string(&mut self) -> (r: Result<String, Error>)
        ensures
            match r {
                Ok(s) => {
                    let b = old(self).input@;
                    let start = old(self).pos as int;
                    &&& start + 2 <= b.len()
                    &&& ({
                        let n = be_u16_at(b, start) as int;
                        let payload = b.subrange(start + 2, start + 2 + n);
                        &&& start + 2 + n <= b.len()
                        &&& consumed(*old(self), *final(self), 2 + n)
                        &&& s@ == lossy_of(payload)
                        &&& (valid_utf8(payload) ==> s@ == decode_utf8(payload))
                    })
                },
                Err(e) => {
                    let b = old(self).input@;
                    let start = old(self).pos as int;
                    &&& *final(self) == *old(self)
                    &&& e is BitsError
                    &&& (start + 2 > b.len() || start + 2 + be_u16_at(b, start) as int > b.len())
                },
            },
    {
        let length = match read_be_u16_at(&self.input, self.pos) {
            Some((v, _)) => v,
            None => {
                return Err(eof_error());
            },
        };
        let n = length as usize;
        let start = self.pos + 2;
        if self.input.len() - start < n {
            return Err(eof_error());
        }
        let payload = vstd::slice::slice_subrange(self.input.as_slice(), start, start + n);
        let s = lossy_string(payload);
        self.pos = start + n;
        Ok(s)
    }

    /// Appends one byte to the outbound buffer.
    pub fn write_u8(&mut self, v: u8)
        ensures
            final(self).input == old(self).input,
            final(self).pos == old(self).pos,
            final(self).output@ == old(self).output@ + seq![v],
    {
        write_u8(&mut self.output, v);
    }

    /// Appends a big-endian 16-bit value to the outbound buffer.
    pub fn write_be_u16(&mut self, v: u16)
        ensures
            final(self).input == old(self).input,
            final(self).pos == old(self).pos,
            final(self).output@ == old(self).output@ + be_u16_bytes(v),
    {
        write_be_u16(&mut self.output, v);
    }

    /// Appends a big-endian 32-bit value to the outbound buffer.
    pub fn write_be_u32(&mut self, v: u32)
        ensures
            final(self).input == old(self).input,
            final(self).pos == old(self).pos,
            final(self).output@ == old(self).output@ + crate::codec::be_u32_bytes(v),
    {
        write_be_u32(&mut self.output, v);
    }

    /// Appends a big-endian 64-bit value to the outbound buffer.
    pub fn write_be_u64(&mut self, v: u64)
        ensures
            final(self).input == old(self).input,
            final(self).pos == old(self).pos,
            final(self).output@ == old(self).output@ + crate::codec::be_u64_bytes(v),
    {
        write_be_u64(&mut self.output, v);
    }

    /// Appends a big-endian signed 16-bit value to the outbound buffer.
    pub fn write_be_i16(&mut self, v: i16)
        ensures
            final(self).input == old(self).input,
            final(self).pos == old(self).pos,
            final(self).output@ == old(self).output@ + crate::codec::be_i16_bytes(v),
    {
        write_be_i16(&mut self.output, v);
    }

    /// Appends a big-endian signed 32-bit value to the outbound buffer.
    pub fn write_be_i32(&mut self, v: i32)
        ensures
            final(self).input == old(self).input,
            final(self).pos == old(self).pos,
            final(self).output@ == old(self).output@ + crate::codec::be_i32_bytes(v),
    {
        write_be_i32(&mut self.output, v);
    }

    /// Appends raw bytes to the outbound buffer.
    pub fn write_all_bytes(&mut self, bytes: &[u8])
        ensures
            final(self).input == old(self).input,
            final(self).pos == old(self).pos,
            final(self).output@ == old(self).output@ + bytes@,
    {
        append_bytes(&mut self.output, bytes);
    }

    /// Appends a string in wire form: a big-endian u16 byte-length prefix,
    /// then the UTF-8 bytes. A string whose encoding exceeds 65535 bytes
    /// does not fit the prefix and is rejected, with nothing written.
    pub fn write_string(&mut self, s: &str) -> (r: Result<(), Error>)
        ensures
            match r {
                Ok(()) => {
                    &&& encode_utf8(s@).len() <= 0xffff
                    &&& final(self).input == old(self).input
                    &&& final(self).pos == old(self).pos
                    &&& final(self).output@ == old(self).output@ + string_wire(s@)
                },
                Err(e) => *final(self) == *old(self) && encode_utf8(s@).len() > 0xffff
                    && e is BitsError,
            },
    {
        let bytes = s.as_bytes();
        if bytes.len() > 0xffff {
            return Err(Error::BitsError { message: "string exceeds the u16 length prefix".to_owned() });
        }
        write_be_u16(&mut self.output, bytes.len() as u16);
        append_bytes(&mut self.output, bytes);
        assert(self.output@ =~= old(self).output@ + string_wire(s@));
        Ok(())
    }
}

} // verus!
