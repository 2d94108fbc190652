//! Byte-buffer cursors and the encode/decode traits shared by all UUID sizes.

use vstd::prelude::*;

verus! {

/// Errors reported by the byte codec.
#[derive(PartialEq, Eq, Structural, Copy, Clone, Debug)]
pub enum Error {
    /// Decoding needed more bytes than remained in the input cursor.
    Eof,
    /// Encoding needed more capacity than remained in the output cursor.
    BufferTooSmall,
}

/// An output cursor: a byte buffer of fixed capacity filled front to back.
///
/// Writes are all-or-nothing: a write that does not fit fails and leaves the
/// buffer untouched.
pub struct ByteWriter {
    buf: Vec<u8>,
    cap: usize,
}

impl ByteWriter {
    /// The bytes written so far, in order.
    pub closed spec fn written(&self) -> Seq<u8> {
        self.buf@
    }

    /// The fixed total capacity of the buffer.
    pub closed spec fn capacity(&self) -> nat {
        self.cap as nat
    }

    /// Well-formed: never holds more bytes than its capacity.
    pub open spec fn wf(&self) -> bool {
        self.written().len() <= self.capacity()
    }

    /// How many more bytes fit.
    pub open spec fn remaining(&self) -> nat
        recommends
            self.wf(),
    {
        (self.capacity() - self.written().len()) as nat
    }

    /// A fresh, empty writer over a buffer of `capacity` bytes.
    pub fn new(capacity: usize) -> (w: ByteWriter)
        ensures
            w.wf(),
            w.written() == Seq::<u8>::empty(),
            w.capacity() == capacity as nat,
    {
        ByteWriter { buf: Vec::new(), cap: capacity }
    }

    /// How many more bytes fit.
    pub fn remaining_len(&self) -> (n: usize)
        requires
            self.wf(),
        ensures
            n as nat == self.remaining(),
    {
        self.cap - self.buf.len()
    }

    /// Append one byte.
    pub fn write_byte(&mut self, b: u8)
        requires
            old(self).wf(),
            old(self).remaining() >= 1,
        ensures
            final(self).wf(),
            final(self).capacity() == old(self).capacity(),
            final(self).written() == old(self).written().push(b),
    {
        self.buf.push(b);
    }

    /// Hand back the written bytes, consuming the writer.
    pub fn into_bytes(self) -> (r: Vec<u8>)
        ensures
            r@ == self.written(),
    {
        self.buf
    }
}

/// An input cursor: a byte buffer read front to back.
pub struct ByteReader {
    buf: Vec<u8>,
    pos: usize,
}

impl ByteReader {
    /// The whole underlying buffer; reading never changes it.
    pub closed spec fn data(&self) -> Seq<u8> {
        self.buf@
    }

    /// The current read position.
    pub closed spec fn pos(&self) -> nat {
        self.pos as nat
    }

    /// Well-formed: the position stays inside the buffer.
    pub open spec fn wf(&self) -> bool {
        self.pos() <= self.data().len()
    }

    /// How many bytes remain to be read.
    pub open spec fn remaining(&self) -> nat
        recommends
            self.wf(),
    {
        (self.data().len() - self.pos()) as nat
    }

    /// A fresh reader positioned at the front of `buf`.
    pub fn new(buf: Vec<u8>) -> (r: ByteReader)
        ensures
            r.wf(),
            r.data() == buf@,
            r.pos() == 0,
    {
        ByteReader { buf, pos: 0 }
    }

    /// How many bytes remain to be read.
    pub fn remaining_len(&self) -> (n: usize)
        requires
            self.wf(),
        ensures
            n as nat == self.remaining(),
    {
        self.buf.len() - self.pos
    }

    /// Read one byte and advance.
    pub fn read_byte(&mut self) -> (b: u8)
        requires
            old(self).wf(),
            old(self).remaining() >= 1,
        ensures
            final(self).wf(),
            final(self).data() == old(self).data(),
            final(self).pos() == old(self).pos() + 1,
            b == old(self).data()[old(self).pos() as int],
    {
        proof {
            vstd::std_specs::vec::axiom_spec_len(&self.buf);
        }
        let b = self.buf[self.pos];
        self.pos = self.pos + 1;
        b
    }
}

/// The ability to encode a value into an output cursor.
pub trait ToBytes: Sized {
    /// The exact wire encoding of this value, most-significant byte first.
    spec fn wire(&self) -> Seq<u8>;

    /// How many bytes `to_bytes` writes: the length of the wire encoding.
    fn space_needed(&self) -> (n: usize)
        ensures
            n as nat == self.wire().len(),
    ;

    /// Encode into `buffer`. All-or-nothing: succeeds exactly when the
    /// encoding fits in the remaining capacity, appending it whole; otherwise
    /// fails with `BufferTooSmall` and leaves the buffer untouched.
    fn to_bytes(&self, buffer: &mut ByteWriter) -> (r: Result<(), Error>)
        requires
            old(buffer).wf(),
        ensures
            final(buffer).wf(),
            final(buffer).capacity() == old(buffer).capacity(),
            r is Ok <==> old(buffer).remaining() >= self.wire().len(),
            r is Ok ==> final(buffer).written() == old(buffer).written() + self.wire(),
            r is Err ==> final(buffer).written() == old(buffer).written()
                && r == Err::<(), Error>(Error::BufferTooSmall),
    ;
}

/// The ability to decode a value from an input cursor.
pub trait FromBytes: ToBytes {
    /// How many bytes `from_bytes` consumes: fixed per type.
    spec fn wire_size() -> nat;

    /// Law: every value's encoding has exactly `wire_size()` bytes.
    proof fn wire_size_matches(&self)
        ensures
            self.wire().len() == Self::wire_size(),
    ;

    /// Law: the wire encoding is injective, so the bytes read pin the
    /// decoded value down completely.
    proof fn wire_injective(self, other: Self)
        ensures
            self.wire() == other.wire() ==> self == other,
    ;

    /// Decode from the front of `buffer`. Succeeds exactly when at least
    /// `wire_size()` bytes remain, consuming them and returning the value
    /// they encode; otherwise fails with `Eof`, in which case the cursor
    /// position is unspecified. The buffer contents are never changed.
    fn from_bytes(buffer: &mut ByteReader) -> (r: Result<Self, Error>)
        requires
            old(buffer).wf(),
        ensures
            final(buffer).wf(),
            final(buffer).data() == old(buffer).data(),
            r is Ok <==> old(buffer).remaining() >= Self::wire_size(),
            r is Ok ==> final(buffer).pos() == old(buffer).pos() + Self::wire_size()
                && r->Ok_0.wire() == old(buffer).data().subrange(
                    old(buffer).pos() as int,
                    (old(buffer).pos() + Self::wire_size()) as int,
                ),
            r is Err ==> r == Err::<Self, Error>(Error::Eof),
    ;
}

/// Encode `v` into a fresh buffer of exactly the right size, then decode the
/// bytes back. The result is always the original value: the round-trip
/// identity, proved once for every codec type.
pub fn wire_roundtrip<T: FromBytes>(v: &T) -> (r: T)
    ensures
        r == *v,
{
    proof {
        v.wire_size_matches();
    }
    let n = v.space_needed();
    let mut w = ByteWriter::new(n);
    let res = v.to_bytes(&mut w);
    assert(res is Ok);
    let mut rd = ByteReader::new(w.into_bytes());
    let out = T::from_bytes(&mut rd);
    match out {
        Ok(u) => {
            proof {
                assert(rd.data().subrange(0, T::wire_size() as int) =~= v.wire());
                u.wire_injective(*v);
            }
            u
        },
        Err(_) => {
            proof {
                assert(false);
            }
            vstd::pervasive::unreached()
        },
    }
}

} // verus!
