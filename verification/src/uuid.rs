//! The three BLE UUID representations and their widening conversions.
//!
//! A 16-bit alias zero-extends to a 32-bit alias, and a 32-bit alias expands
//! to a full 128-bit UUID by overwriting the first 4 bytes of the Bluetooth
//! Base UUID `00000000-0000-1000-8000-00805F9B34FB`. Each representation
//! also encodes to and decodes from its big-endian wire form.

use vstd::prelude::*;

use crate::codec::{ByteReader, ByteWriter, Error, FromBytes, ToBytes};

verus! {

broadcast use vstd::array::group_array_axioms;

/// A 16-bit UUID alias.
///
/// Can be widened to its 32- and 128-bit equivalents, which never fails.
#[derive(PartialEq, Eq, Structural, Debug, Copy, Clone)]
pub struct Uuid16(pub u16);

/// The big-endian byte encoding of a 16-bit value.
pub open spec fn u16_be_bytes(v: u16) -> Seq<u8> {
    seq![((v >> 8) & 0xff) as u8, (v & 0xff) as u8]
}

/// The big-endian byte encoding of a 32-bit value.
pub open spec fn u32_be_bytes(v: u32) -> Seq<u8> {
    seq![
        ((v >> 24) & 0xff) as u8,
        ((v >> 16) & 0xff) as u8,
        ((v >> 8) & 0xff) as u8,
        (v & 0xff) as u8,
    ]
}

impl ToBytes for Uuid16 {
    open spec fn wire(&self) -> Seq<u8> {
        u16_be_bytes(self.0)
    }

    fn space_needed(&self) -> (n: usize)
        ensures
            n as nat == self.wire().len(),
    {
        2
    }

    fn to_bytes(&self, buffer: &mut ByteWriter) -> (r: Result<(), Error>) {
        if buffer.remaining_len() < 2 {
            return Err(Error::BufferTooSmall);
        }
        let v = self.0;
        assert((v >> 8) & 0xff < 256 && v & 0xff < 256) by (bit_vector);
        buffer.write_byte(((v >> 8) & 0xff) as u8);
        buffer.write_byte((v & 0xff) as u8);
        proof {
            assert(final(buffer).written() =~= old(buffer).written() + self.wire());
        }
        Ok(())
    }
}

impl FromBytes for Uuid16 {
    open spec fn wire_size() -> nat {
        2
    }

    proof fn wire_size_matches(&self) {
    }

    proof fn wire_injective(self, other: Self) {
        let a = self.0;
        let b = other.0;
        assert(((a >> 8) & 0xff) as u8 == ((b >> 8) & 0xff) as u8 && (a & 0xff) as u8 == (b
            & 0xff) as u8 ==> a == b) by (bit_vector);
    }

    fn from_bytes(buffer: &mut ByteReader) -> (r: Result<Self, Error>) {
        if buffer.remaining_len() < 2 {
            return Err(Error::Eof);
        }
        let b0 = buffer.read_byte();
        let b1 = buffer.read_byte();
        let v = ((b0 as u16) << 8) | (b1 as u16);
        proof {
            assert((((((b0 as u16) << 8) | (b1 as u16)) >> 8) & 0xff) as u8 == b0 && ((((b0
                as u16) << 8) | (b1 as u16)) & 0xff) as u8 == b1) by (bit_vector);
            assert(u16_be_bytes(v) =~= old(buffer).data().subrange(
                old(buffer).pos() as int,
                old(buffer).pos() as int + 2,
            ));
        }
        Ok(Uuid16(v))
    }
}

/// A 32-bit UUID alias.
///
/// Either the zero-extension of a 16-bit alias or a standalone 32-bit
/// assigned alias. Can be widened to its 128-bit equivalent, which never
/// fails.
#[derive(PartialEq, Eq, Structural, Debug, Copy, Clone)]
pub struct Uuid32(pub u32);

impl Uuid16 {
    /// Widen to the equivalent 32-bit alias by zero-extension: the low 16
    /// bits are this alias, the high 16 bits are zero.
    pub fn widen_to_32(self) -> (r: Uuid32)
        ensures
            r.0 == self.0 as u32,
    {
        Uuid32(self.0 as u32)
    }
}

impl From<Uuid16> for Uuid32 {
    /// Widen a 16-bit alias by zero-extension, as `widen_to_32` does.
    fn from(smol: Uuid16) -> (r: Uuid32)
        ensures
            r.0 == smol.0 as u32,
    {
        smol.widen_to_32()
    }
}

impl vstd::std_specs::convert::FromSpecImpl<Uuid16> for Uuid32 {
    open spec fn obeys_from_spec() -> bool {
        true
    }

    open spec fn from_spec(smol: Uuid16) -> Uuid32 {
        Uuid32(smol.0 as u32)
    }
}

impl ToBytes for Uuid32 {
    open spec fn wire(&self) -> Seq<u8> {
        u32_be_bytes(self.0)
    }

    fn space_needed(&self) -> (n: usize)
        ensures
            n as nat == self.wire().len(),
    {
        4
    }

    fn to_bytes(&self, buffer: &mut ByteWriter) -> (r: Result<(), Error>) {
        if buffer.remaining_len() < 4 {
            return Err(Error::BufferTooSmall);
        }
        let v = self.0;
        assert((v >> 24) & 0xff < 256 && (v >> 16) & 0xff < 256 && (v >> 8) & 0xff < 256 && v
            & 0xff < 256) by (bit_vector);
        buffer.write_byte(((v >> 24) & 0xff) as u8);
        buffer.write_byte(((v >> 16) & 0xff) as u8);
        buffer.write_byte(((v >> 8) & 0xff) as u8);
        buffer.write_byte((v & 0xff) as u8);
        proof {
            assert(final(buffer).written() =~= old(buffer).written() + self.wire());
        }
        Ok(())
    }
}

impl FromBytes for Uuid32 {
    open spec fn wire_size() -> nat {
        4
    }

    proof fn wire_size_matches(&self) {
    }

    proof fn wire_injective(self, other: Self) {
        let a = self.0;
        let b = other.0;
        assert(((a >> 24) & 0xff) as u8 == ((b >> 24) & 0xff) as u8 && ((a >> 16) & 0xff) as u8 == (
        (b >> 16) & 0xff) as u8 && ((a >> 8) & 0xff) as u8 == ((b >> 8) & 0xff) as u8 && (a
            & 0xff) as u8 == (b & 0xff) as u8 ==> a == b) by (bit_vector);
    }

    fn from_bytes(buffer: &mut ByteReader) -> (r: Result<Self, Error>) {
        if buffer.remaining_len() < 4 {
            return Err(Error::Eof);
        }
        let b0 = buffer.read_byte();
        let b1 = buffer.read_byte();
        let b2 = buffer.read_byte();
        let b3 = buffer.read_byte();
        let v = ((b0 as u32) << 24) | ((b1 as u32) << 16) | ((b2 as u32) << 8) | (b3 as u32);
        proof {
            assert({
                let w = ((b0 as u32) << 24) | ((b1 as u32) << 16) | ((b2 as u32) << 8) | (
                b3 as u32);
                ((w >> 24) & 0xff) as u8 == b0 && ((w >> 16) & 0xff) as u8 == b1 && ((w >> 8)
                    & 0xff) as u8 == b2 && (w & 0xff) as u8 == b3
            }) by (bit_vector);
            assert(u32_be_bytes(v) =~= old(buffer).data().subrange(
                old(buffer).pos() as int,
                old(buffer).pos() as int + 4,
            ));
        }
        Ok(Uuid32(v))
    }
}

/// A full 128-bit Bluetooth UUID, as 16 bytes in RFC 4122 order: the same
/// order in which the canonical hyphenated hex string spells them.
#[derive(PartialEq, Eq, Debug, Copy, Clone)]
pub struct Uuid128(pub [u8; 16]);

/// Bytes 4 to 15 of the Bluetooth Base UUID: the tail that every UUID
/// widened from a short alias shares.
pub open spec fn base_uuid_tail() -> Seq<u8> {
    seq![0x00u8, 0x00, 0x10, 0x00, 0x80, 0x00, 0x00, 0x80, 0x5F, 0x9B, 0x34, 0xFB]
}

/// The bytes of the Bluetooth Base UUID `00000000-0000-1000-8000-00805F9B34FB`.
pub open spec fn base_uuid_bytes() -> Seq<u8> {
    seq![0x00u8, 0x00, 0x00, 0x00] + base_uuid_tail()
}

/// The bytes of the 128-bit UUID that a 32-bit alias widens to: the alias in
/// big-endian order, followed by the Base UUID's tail.
pub open spec fn wide_bytes_of_32(v: u32) -> Seq<u8> {
    u32_be_bytes(v) + base_uuid_tail()
}

/// The bytes of the 128-bit UUID that a 16-bit alias widens to: those of its
/// zero-extension.
pub open spec fn wide_bytes_of_16(v: u16) -> Seq<u8> {
    wide_bytes_of_32(v as u32)
}

/// The Bluetooth Base UUID `00000000-0000-1000-8000-00805F9B34FB` as a value.
pub fn base_uuid() -> (r: Uuid128)
    ensures
        r.0@ == base_uuid_bytes(),
{
    let r = Uuid128(
        [
            0x00,
            0x00,
            0x00,
            0x00,
            0x00,
            0x00,
            0x10,
            0x00,
            0x80,
            0x00,
            0x00,
            0x80,
            0x5F,
            0x9B,
            0x34,
            0xFB,
        ],
    );
    proof {
        assert(r.0@ =~= base_uuid_bytes());
    }
    r
}

impl Uuid32 {
    /// Widen to the full 128-bit UUID: the first 4 bytes of the result are
    /// this alias in big-endian order, the remaining 12 bytes come unchanged
    /// from the Base UUID.
    pub fn widen_to_128(self) -> (r: Uuid128)
        ensures
            r.0@ == wide_bytes_of_32(self.0),
    {
        let v = self.0;
        assert((v >> 24) & 0xff < 256 && (v >> 16) & 0xff < 256 && (v >> 8) & 0xff < 256 && v
            & 0xff < 256) by (bit_vector);
        let r = Uuid128(
            [
                ((v >> 24) & 0xff) as u8,
                ((v >> 16) & 0xff) as u8,
                ((v >> 8) & 0xff) as u8,
                (v & 0xff) as u8,
                0x00,
                0x00,
                0x10,
                0x00,
                0x80,
                0x00,
                0x00,
                0x80,
                0x5F,
                0x9B,
                0x34,
                0xFB,
            ],
        );
        proof {
            assert(r.0@ =~= wide_bytes_of_32(self.0));
        }
        r
    }
}

impl Uuid16 {
    /// Widen directly to the full 128-bit UUID. Identical to widening to the
    /// 32-bit alias first and then to 128 bits.
    pub fn widen_to_128(self) -> (r: Uuid128)
        ensures
            r.0@ == wide_bytes_of_16(self.0),
    {
        self.widen_to_32().widen_to_128()
    }
}

impl ToBytes for Uuid128 {
    open spec fn wire(&self) -> Seq<u8> {
        self.0@
    }

    fn space_needed(&self) -> (n: usize)
        ensures
            n as nat == self.wire().len(),
    {
        16
    }

    fn to_bytes(&self, buffer: &mut ByteWriter) -> (r: Result<(), Error>) {
        if buffer.remaining_len() < 16 {
            return Err(Error::BufferTooSmall);
        }
        let ghost w0 = *buffer;
        let mut i: usize = 0;
        while i < 16
            invariant
                i <= 16,
                buffer.wf(),
                buffer.capacity() == w0.capacity(),
                w0.wf(),
                w0.remaining() >= 16,
                buffer.written() == w0.written() + self.0@.take(i as int),
            decreases 16 - i,
        {
            buffer.write_byte(self.0[i]);
            i = i + 1;
            proof {
                assert(w0.written() + self.0@.take(i as int) =~= (w0.written() + self.0@.take(
                    i as int - 1,
                )).push(self.0@[i as int - 1]));
            }
        }
        proof {
            assert(self.0@.take(16) =~= self.wire());
        }
        Ok(())
    }
}

impl FromBytes for Uuid128 {
    open spec fn wire_size() -> nat {
        16
    }

    proof fn wire_size_matches(&self) {
    }

    proof fn wire_injective(self, other: Self) {
        if self.0@ == other.0@ {
            assert(self.0 =~= other.0);
        }
    }

    fn from_bytes(buffer: &mut ByteReader) -> (r: Result<Self, Error>) {
        if buffer.remaining_len() < 16 {
            return Err(Error::Eof);
        }
        let b0 = buffer.read_byte();
        let b1 = buffer.read_byte();
        let b2 = buffer.read_byte();
        let b3 = buffer.read_byte();
        let b4 = buffer.read_byte();
        let b5 = buffer.read_byte();
        let b6 = buffer.read_byte();
        let b7 = buffer.read_byte();
        let b8 = buffer.read_byte();
        let b9 = buffer.read_byte();
        let b10 = buffer.read_byte();
        let b11 = buffer.read_byte();
        let b12 = buffer.read_byte();
        let b13 = buffer.read_byte();
        let b14 = buffer.read_byte();
        let b15 = buffer.read_byte();
        let r = Uuid128(
            [b0, b1, b2, b3, b4, b5, b6, b7, b8, b9, b10, b11, b12, b13, b14, b15],
        );
        proof {
            assert(r.0@ =~= old(buffer).data().subrange(
                old(buffer).pos() as int,
                old(buffer).pos() as int + 16,
            ));
        }
        Ok(r)
    }
}

/// Marker for UUID types.
///
/// This is useful when being generic over the specific size of UUID used. It
/// also brings in the `ToBytes` and `FromBytes` bounds that generic codec
/// code is likely to need.
pub trait IsUuid: ToBytes + FromBytes + Copy {}

impl IsUuid for Uuid16 {}

impl IsUuid for Uuid32 {}

impl IsUuid for Uuid128 {}

/// The character for one hex digit, upper case.
pub open spec fn hex_digit(n: u8) -> char
    recommends
        n < 16,
{
    match n {
        0 => '0',
        1 => '1',
        2 => '2',
        3 => '3',
        4 => '4',
        5 => '5',
        6 => '6',
        7 => '7',
        8 => '8',
        9 => '9',
        10 => 'A',
        11 => 'B',
        12 => 'C',
        13 => 'D',
        14 => 'E',
        _ => 'F',
    }
}

/// The canonical hyphenated spelling of the first `n` of 16 UUID bytes: two
/// upper-case hex digits per byte, with a hyphen before bytes 4, 6, 8 and
/// 10 (the 8-4-4-4-12 grouping).
pub open spec fn canonical_prefix(b: Seq<u8>, n: int) -> Seq<char>
    decreases n,
{
    if n <= 0 {
        Seq::empty()
    } else {
        canonical_prefix(b, n - 1) + (if n - 1 == 4 || n - 1 == 6 || n - 1 == 8 || n - 1 == 10 {
            seq!['-']
        } else {
            Seq::empty()
        }) + seq![hex_digit((b[n - 1] >> 4) & 0xf), hex_digit(b[n - 1] & 0xf)]
    }
}

/// The canonical hyphenated spelling of a full 16-byte UUID.
pub open spec fn canonical_chars_of(b: Seq<u8>) -> Seq<char> {
    canonical_prefix(b, 16)
}

/// The character for one hex digit, upper case.
fn hex_digit_char(n: u8) -> (c: char)
    requires
        n < 16,
    ensures
        c == hex_digit(n),
{
    match n {
        0 => '0',
        1 => '1',
        2 => '2',
        3 => '3',
        4 => '4',
        5 => '5',
        6 => '6',
        7 => '7',
        8 => '8',
        9 => '9',
        10 => 'A',
        11 => 'B',
        12 => 'C',
        13 => 'D',
        14 => 'E',
        _ => 'F',
    }
}

/// Relies on `String`'s `FromIterator` impl: collecting characters yields
/// the string holding exactly those characters, in order.
#[verifier::external_body]
fn chars_to_string(chars: &Vec<char>) -> (s: String)
    ensures
        s@ == chars@,
{
    chars.iter().collect()
}

impl Uuid128 {
    /// The canonical hyphenated spelling of this UUID, with upper-case hex
    /// digits: for example `1234ABCD-0000-1000-8000-00805F9B34FB`.
    pub fn canonical_string(&self) -> (s: String)
        ensures
            s@ == canonical_chars_of(self.0@),
    {
        let mut out: Vec<char> = Vec::new();
        let mut i: usize = 0;
        while i < 16
            invariant
                i <= 16,
                out@ == canonical_prefix(self.0@, i as int),
            decreases 16 - i,
        {
            if i == 4 || i == 6 || i == 8 || i == 10 {
                out.push('-');
            }
            let b = self.0[i];
            assert((b >> 4) & 0xf < 16 && b & 0xf < 16) by (bit_vector);
            out.push(hex_digit_char((b >> 4) & 0xf));
            out.push(hex_digit_char(b & 0xf));
            i = i + 1;
            proof {
                assert(out@ =~= canonical_prefix(self.0@, i as int));
            }
        }
        chars_to_string(&out)
    }
}

/// Law: widening a 16-bit alias to 32 bits zero-extends it. The result
/// still fits in 16 bits, narrows back to the alias, and its upper 16 bits
/// are zero.
pub proof fn lemma_zero_extension(v: Uuid16, wide: Uuid32)
    requires
        wide.0 == v.0 as u32,
    ensures
        wide.0 as u16 == v.0,
        wide.0 >> 16 == 0,
        wide.0 < 0x10000,
{
    let x = v.0;
    assert((x as u32) as u16 == x && (x as u32) >> 16 == 0 && (x as u32) < 0x10000) by (bit_vector);
}

/// Law: the 128-bit UUID widened from a 32-bit alias keeps bytes 4 to 15 of
/// the Base UUID unchanged and carries the alias, big-endian, in bytes 0 to
/// 3.
pub proof fn lemma_base_substitution(v: Uuid32, wide: Uuid128)
    requires
        wide.0@ == wide_bytes_of_32(v.0),
    ensures
        wide.0@.subrange(4, 16) == base_uuid_bytes().subrange(4, 16),
        wide.0@.subrange(0, 4) == u32_be_bytes(v.0),
{
    assert(wide.0@.subrange(4, 16) =~= base_uuid_bytes().subrange(4, 16));
    assert(wide.0@.subrange(0, 4) =~= u32_be_bytes(v.0));
}

/// Law: widening a 16-bit alias directly to 128 bits gives the same UUID as
/// widening it to 32 bits first and then to 128 bits.
pub proof fn lemma_widen_composition(v: Uuid16, direct: Uuid128, stepped: Uuid128)
    requires
        direct.0@ == wide_bytes_of_16(v.0),
        stepped.0@ == wide_bytes_of_32(v.0 as u32),
    ensures
        direct == stepped,
{
    assert(direct.0 =~= stepped.0);
}

/// Law: encoded sizes are fixed per representation, whatever the value: 2
/// bytes for 16-bit, 4 for 32-bit, 16 for 128-bit.
pub proof fn lemma_wire_sizes(a: Uuid16, b: Uuid32, c: Uuid128)
    ensures
        a.wire().len() == 2,
        b.wire().len() == 4,
        c.wire().len() == 16,
{
}

} // verus!
