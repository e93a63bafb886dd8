//! The primitive field reader: fixed-width little-endian scalars and
//! fixed-length byte runs, read from a cursor over a byte buffer.
//!
//! The scalars and the byte runs are read by `nom`; the cursor keeps count of
//! how far into the buffer it has come, so that a failure names the offset of
//! the field that did not fit. A 32-bit floating-point number is read as the
//! 32-bit integer that its four bytes spell, which is its bit pattern.
use vstd::prelude::*;
use crate::error::{ErrorKind, ParseError};
use crate::frame::Float32;

verus! {

/// `nom::Err`, the error side of every `nom` result. Nothing is read from it.
#[verifier::external_type_specification]
#[verifier::external_body]
#[verifier::reject_recursive_types(E)]
pub struct ExNomErr<E>(nom::Err<E>);

/// `nom::error::VerboseError`, the error that the readers below ask `nom`
/// for. Nothing is read from it.
#[verifier::external_type_specification]
#[verifier::external_body]
#[verifier::reject_recursive_types(I)]
pub struct ExVerboseError<I>(nom::error::VerboseError<I>);

/// The value of the two bytes at `at`, least significant byte first.
pub open spec fn le16(bytes: Seq<u8>, at: int) -> int {
    bytes[at] + 0x100 * bytes[at + 1]
}

/// The value of the four bytes at `at`, least significant byte first.
pub open spec fn le32(bytes: Seq<u8>, at: int) -> int {
    bytes[at] + 0x100 * bytes[at + 1] + 0x1_0000 * bytes[at + 2] + 0x100_0000 * bytes[at + 3]
}

/// The value of the eight bytes at `at`, least significant byte first.
pub open spec fn le64(bytes: Seq<u8>, at: int) -> int {
    le32(bytes, at) + 0x1_0000_0000 * le32(bytes, at + 4)
}

/// The number that the four bytes at `at` hold.
pub open spec fn float_at(bytes: Seq<u8>, at: int) -> Float32 {
    Float32 { bits: le32(bytes, at) as u32 }
}

/// The two bytes that spell `value` in little-endian order.
pub open spec fn le_bytes2(value: int) -> Seq<u8> {
    seq![(value % 0x100) as u8, (value / 0x100 % 0x100) as u8]
}

/// The four bytes that spell `value` in little-endian order.
pub open spec fn le_bytes4(value: int) -> Seq<u8> {
    le_bytes2(value % 0x1_0000) + le_bytes2(value / 0x1_0000)
}

/// The eight bytes that spell `value` in little-endian order.
pub open spec fn le_bytes8(value: int) -> Seq<u8> {
    le_bytes4(value % 0x1_0000_0000) + le_bytes4(value / 0x1_0000_0000)
}

/// A number under 65536 is made of its remainder by 256 and its quotient by
/// 256, and of no other two digits.
proof fn lemma_digits2(value: int, d0: int, d1: int)
    requires
        0 <= value < 0x1_0000,
        0 <= d0 < 0x100,
        0 <= d1 < 0x100,
    ensures
        d0 + 0x100 * d1 == value <==> d0 == value % 0x100 && d1 == value / 0x100 % 0x100,
{
}

/// A number is made of its remainder and its quotient by 65536, and of no
/// other two parts of which the lower one is under 65536.
proof fn lemma_halves4(value: int, low: int, high: int)
    requires
        0 <= value,
        0 <= low < 0x1_0000,
        0 <= high,
    ensures
        low + 0x1_0000 * high == value <==> low == value % 0x1_0000 && high == value / 0x1_0000,
{
}

/// The same, by 4294967296.
proof fn lemma_halves8(value: int, low: int, high: int)
    requires
        0 <= value,
        0 <= low < 0x1_0000_0000,
        0 <= high,
    ensures
        low + 0x1_0000_0000 * high == value <==> low == value % 0x1_0000_0000 && high == value
            / 0x1_0000_0000,
{
}

/// Two bytes spell a 16-bit value, and no other two bytes spell it.
pub proof fn lemma_le16(bytes: Seq<u8>, at: int, value: int)
    requires
        0 <= at,
        at + 2 <= bytes.len(),
        0 <= value < 0x1_0000,
    ensures
        le16(bytes, at) == value <==> bytes.subrange(at, at + 2) == le_bytes2(value),
        0 <= le16(bytes, at) < 0x1_0000,
{
    let run = bytes.subrange(at, at + 2);
    let spelt = le_bytes2(value);
    lemma_digits2(value, bytes[at] as int, bytes[at + 1] as int);
    assert(run[0] == bytes[at] && run[1] == bytes[at + 1]);
    assert(spelt[0] == value % 0x100 && spelt[1] == value / 0x100 % 0x100);
    if le16(bytes, at) == value {
        assert(run =~= spelt);
    }
}

/// Four bytes spell a 32-bit value, and no other four bytes spell it.
pub proof fn lemma_le32(bytes: Seq<u8>, at: int, value: int)
    requires
        0 <= at,
        at + 4 <= bytes.len(),
        0 <= value < 0x1_0000_0000,
    ensures
        le32(bytes, at) == value <==> bytes.subrange(at, at + 4) == le_bytes4(value),
        0 <= le32(bytes, at) < 0x1_0000_0000,
{
    let low = value % 0x1_0000;
    let high = value / 0x1_0000;
    lemma_le16(bytes, at, low);
    lemma_le16(bytes, at + 2, high);
    lemma_halves4(value, le16(bytes, at), le16(bytes, at + 2));
    lemma_joined(bytes, at, 2, le_bytes2(low), le_bytes2(high));
}

/// Eight bytes spell a 64-bit value, and no other eight bytes spell it.
pub proof fn lemma_le64(bytes: Seq<u8>, at: int, value: int)
    requires
        0 <= at,
        at + 8 <= bytes.len(),
        0 <= value < 0x1_0000_0000_0000_0000,
    ensures
        le64(bytes, at) == value <==> bytes.subrange(at, at + 8) == le_bytes8(value),
        0 <= le64(bytes, at) < 0x1_0000_0000_0000_0000,
{
    let low = value % 0x1_0000_0000;
    let high = value / 0x1_0000_0000;
    lemma_le32(bytes, at, low);
    lemma_le32(bytes, at + 4, high);
    lemma_halves8(value, le32(bytes, at), le32(bytes, at + 4));
    lemma_joined(bytes, at, 4, le_bytes4(low), le_bytes4(high));
}

/// A run of bytes is two given halves one behind the other exactly when
/// each half of the run is the given half.
proof fn lemma_joined(bytes: Seq<u8>, at: int, half: int, first: Seq<u8>, second: Seq<u8>)
    requires
        0 <= at,
        0 <= half,
        at + 2 * half <= bytes.len(),
        first.len() == half,
        second.len() == half,
    ensures
        bytes.subrange(at, at + 2 * half) == first + second <==> bytes.subrange(at, at + half)
            == first && bytes.subrange(at + half, at + 2 * half) == second,
{
    let run = bytes.subrange(at, at + 2 * half);
    assert(run.subrange(0, half) =~= bytes.subrange(at, at + half));
    assert(run.subrange(half, 2 * half) =~= bytes.subrange(at + half, at + 2 * half));
    assert((first + second).subrange(0, half) =~= first);
    assert((first + second).subrange(half, 2 * half) =~= second);
    if bytes.subrange(at, at + half) == first && bytes.subrange(at + half, at + 2 * half)
        == second {
        assert(run =~= first + second);
    }
}

/// `nom::number::complete::le_u8`: fails on an empty input, and otherwise
/// yields the first byte and the input behind it.
#[verifier::external_body]
fn nom_le_u8<'a>(input: &'a [u8]) -> (r: Result<
    (&'a [u8], u8),
    nom::Err<nom::error::VerboseError<&'a [u8]>>,
>)
    ensures
        r is Ok <==> input@.len() >= 1,
        r matches Ok((rest, value)) ==> rest@ == input@.skip(1) && value == input@[0],
{
    nom::number::complete::le_u8(input)
}

/// `nom::number::complete::le_u16`: fails on an input of fewer than two
/// bytes, and otherwise yields the little-endian value of the first two and
/// the input behind them.
#[verifier::external_body]
fn nom_le_u16<'a>(input: &'a [u8]) -> (r: Result<
    (&'a [u8], u16),
    nom::Err<nom::error::VerboseError<&'a [u8]>>,
>)
    ensures
        r is Ok <==> input@.len() >= 2,
        r matches Ok((rest, value)) ==> rest@ == input@.skip(2) && value == le16(input@, 0),
{
    nom::number::complete::le_u16(input)
}

/// `nom::number::complete::le_u32`: fails on an input of fewer than four
/// bytes, and otherwise yields the little-endian value of the first four and
/// the input behind them.
#[verifier::external_body]
fn nom_le_u32<'a>(input: &'a [u8]) -> (r: Result<
    (&'a [u8], u32),
    nom::Err<nom::error::VerboseError<&'a [u8]>>,
>)
    ensures
        r is Ok <==> input@.len() >= 4,
        r matches Ok((rest, value)) ==> rest@ == input@.skip(4) && value == le32(input@, 0),
{
    nom::number::complete::le_u32(input)
}

/// `nom::number::complete::le_u64`: fails on an input of fewer than eight
/// bytes, and otherwise yields the little-endian value of the first eight and
/// the input behind them.
#[verifier::external_body]
fn nom_le_u64<'a>(input: &'a [u8]) -> (r: Result<
    (&'a [u8], u64),
    nom::Err<nom::error::VerboseError<&'a [u8]>>,
>)
    ensures
        r is Ok <==> input@.len() >= 8,
        r matches Ok((rest, value)) ==> rest@ == input@.skip(8) && value == le64(input@, 0),
{
    nom::number::complete::le_u64(input)
}

/// `nom::bytes::complete::take`: fails on an input of fewer than `count`
/// bytes, and otherwise yields the input behind the first `count` bytes,
/// and those bytes.
#[verifier::external_body]
fn nom_take<'a>(input: &'a [u8], count: usize) -> (r: Result<
    (&'a [u8], &'a [u8]),
    nom::Err<nom::error::VerboseError<&'a [u8]>>,
>)
    ensures
        r is Ok <==> input@.len() >= count,
        r matches Ok((rest, taken)) ==> rest@ == input@.skip(count as int) && taken@
            == input@.take(count as int),
{
    nom::bytes::complete::take(count)(input)
}

/// A cursor over a byte buffer.
///
/// Every read either succeeds and moves the cursor past the field, or fails
/// with [`ErrorKind::UnexpectedEnd`] at the cursor's offset and leaves the
/// cursor where it was.
pub struct Reader<'a> {
    input: &'a [u8],
    rest: &'a [u8],
    pos: usize,
}

impl<'a> Reader<'a> {
    #[verifier::type_invariant]
    spec fn inv(self) -> bool {
        &&& self.pos <= self.input@.len()
        &&& self.rest@ =~= self.input@.skip(self.pos as int)
    }

    /// The whole buffer that the cursor was made over.
    pub closed spec fn source(self) -> Seq<u8> {
        self.input@
    }

    /// The number of bytes that have been read.
    pub closed spec fn offset(self) -> int {
        self.pos as int
    }

    /// Whether `width` more bytes can be read.
    pub open spec fn has(self, width: int) -> bool {
        self.offset() + width <= self.source().len()
    }

    /// The error of a read that does not fit.
    pub open spec fn short(self) -> ParseError {
        ParseError { kind: ErrorKind::UnexpectedEnd, offset: self.offset() as usize }
    }

    /// A cursor at the start of `input`.
    pub fn new(input: &'a [u8]) -> (r: Self)
        ensures
            r.source() == input@,
            r.offset() == 0,
    {
        Reader { input, rest: input, pos: 0 }
    }

    /// The number of bytes that have been read.
    pub fn position(&self) -> (pos: usize)
        ensures
            pos == self.offset(),
            pos <= self.source().len(),
    {
        proof {
            use_type_invariant(self);
        }
        self.pos
    }

    /// The bytes that have not been read.
    pub fn remaining(&self) -> (rest: &'a [u8])
        ensures
            rest@ == self.source().skip(self.offset()),
            self.offset() <= self.source().len(),
    {
        proof {
            use_type_invariant(self);
        }
        self.rest
    }

    /// Reads one byte.
    pub fn u8(&mut self) -> (r: Result<u8, ParseError>)
        ensures
            final(self).source() == old(self).source(),
            old(self).has(1) ==> {
                &&& r == Ok::<u8, ParseError>(old(self).source()[old(self).offset()])
                &&& final(self).offset() == old(self).offset() + 1
            },
            !old(self).has(1) ==> {
                &&& r == Err::<u8, ParseError>(old(self).short())
                &&& final(self).offset() == old(self).offset()
            },
    {
        proof {
            use_type_invariant(&*self);
        }
        let total = self.input.len();
        match nom_le_u8(self.rest) {
            Ok((rest, value)) => {
                assert(self.pos + 1 <= total);
                *self = Reader { input: self.input, rest, pos: self.pos + 1 };
                Ok(value)
            },
            Err(_) => Err(ParseError::at(ErrorKind::UnexpectedEnd, self.pos)),
        }
    }

    /// Reads a little-endian 16-bit integer.
    pub fn u16(&mut self) -> (r: Result<u16, ParseError>)
        ensures
            final(self).source() == old(self).source(),
            old(self).has(2) ==> {
                &&& r matches Ok(value)
                &&& value == le16(old(self).source(), old(self).offset())
                &&& final(self).offset() == old(self).offset() + 2
            },
            !old(self).has(2) ==> {
                &&& r == Err::<u16, ParseError>(old(self).short())
                &&& final(self).offset() == old(self).offset()
            },
    {
        proof {
            use_type_invariant(&*self);
        }
        let total = self.input.len();
        match nom_le_u16(self.rest) {
            Ok((rest, value)) => {
                assert(self.pos + 2 <= total);
                *self = Reader { input: self.input, rest, pos: self.pos + 2 };
                Ok(value)
            },
            Err(_) => Err(ParseError::at(ErrorKind::UnexpectedEnd, self.pos)),
        }
    }

    /// Reads a little-endian 32-bit integer.
    pub fn u32(&mut self) -> (r: Result<u32, ParseError>)
        ensures
            final(self).source() == old(self).source(),
            old(self).has(4) ==> {
                &&& r matches Ok(value)
                &&& value == le32(old(self).source(), old(self).offset())
                &&& final(self).offset() == old(self).offset() + 4
            },
            !old(self).has(4) ==> {
                &&& r == Err::<u32, ParseError>(old(self).short())
                &&& final(self).offset() == old(self).offset()
            },
    {
        proof {
            use_type_invariant(&*self);
        }
        let total = self.input.len();
        match nom_le_u32(self.rest) {
            Ok((rest, value)) => {
                assert(self.pos + 4 <= total);
                *self = Reader { input: self.input, rest, pos: self.pos + 4 };
                Ok(value)
            },
            Err(_) => Err(ParseError::at(ErrorKind::UnexpectedEnd, self.pos)),
        }
    }

    /// Reads a little-endian 64-bit integer.
    pub fn u64(&mut self) -> (r: Result<u64, ParseError>)
        ensures
            final(self).source() == old(self).source(),
            old(self).has(8) ==> {
                &&& r matches Ok(value)
                &&& value == le64(old(self).source(), old(self).offset())
                &&& final(self).offset() == old(self).offset() + 8
            },
            !old(self).has(8) ==> {
                &&& r == Err::<u64, ParseError>(old(self).short())
                &&& final(self).offset() == old(self).offset()
            },
    {
        proof {
            use_type_invariant(&*self);
        }
        let total = self.input.len();
        match nom_le_u64(self.rest) {
            Ok((rest, value)) => {
                assert(self.pos + 8 <= total);
                *self = Reader { input: self.input, rest, pos: self.pos + 8 };
                Ok(value)
            },
            Err(_) => Err(ParseError::at(ErrorKind::UnexpectedEnd, self.pos)),
        }
    }

    /// Reads a 32-bit floating-point number.
    pub fn float32(&mut self) -> (r: Result<Float32, ParseError>)
        ensures
            final(self).source() == old(self).source(),
            old(self).has(4) ==> {
                &&& r == Ok::<Float32, ParseError>(
                    float_at(old(self).source(), old(self).offset()),
                )
                &&& final(self).offset() == old(self).offset() + 4
            },
            !old(self).has(4) ==> {
                &&& r == Err::<Float32, ParseError>(old(self).short())
                &&& final(self).offset() == old(self).offset()
            },
    {
        let bits = self.u32()?;
        Ok(Float32::from_bits(bits))
    }

    /// Reads a run of `count` bytes.
    pub fn bytes(&mut self, count: usize) -> (r: Result<&'a [u8], ParseError>)
        ensures
            final(self).source() == old(self).source(),
            old(self).has(count as int) ==> {
                &&& r matches Ok(run)
                &&& run@ == old(self).source().subrange(
                    old(self).offset(),
                    old(self).offset() + count,
                )
                &&& final(self).offset() == old(self).offset() + count
            },
            !old(self).has(count as int) ==> {
                &&& r == Err::<&[u8], ParseError>(old(self).short())
                &&& final(self).offset() == old(self).offset()
            },
    {
        proof {
            use_type_invariant(&*self);
        }
        let total = self.input.len();
        match nom_take(self.rest, count) {
            Ok((rest, run)) => {
                assert(self.pos + count <= total);
                *self = Reader { input: self.input, rest, pos: self.pos + count };
                Ok(run)
            },
            Err(_) => Err(ParseError::at(ErrorKind::UnexpectedEnd, self.pos)),
        }
    }
}

} // verus!
