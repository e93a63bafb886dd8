//! Error values of the decoder, the ingestion pipeline and the aggregator.
use vstd::prelude::*;
use vstd::std_specs::convert::FromSpecImpl;
use vstd::string::StringExecFns;
use crate::wire::HEADER_LEN;

verus! {

/// `std::io::Error`, the failure of a datagram source. Nothing is read from
/// it.
#[verifier::external_type_specification]
#[verifier::external_body]
pub struct ExIoError(std::io::Error);

/// The reason a decode failed.
///
/// The variants that name an enumeration carry the byte that is not one of
/// its wire codes.
#[derive(Debug, Clone, Copy, PartialEq, Eq)]
pub enum ErrorKind {
    InvalidPenaltyType(u8),
    InvalidPacketType(u8),
    InvalidInfringementType(u8),
    InvalidTeam(u8),
    InvalidDriver(u8),
    /// The participants body announces more active cars than it has slots.
    InvalidParticipantCount(u8),
    /// The buffer ends before the field that starts at the error's offset.
    UnexpectedEnd,
    /// The four bytes of an event code are none of the defined codes.
    UnknownEventCode(u8, u8, u8, u8),
    /// The packet type is a valid one that has no body decoder; the byte is
    /// its wire code.
    UnsupportedPacketType(u8),
}

/// The part of a datagram that a decode failure lies in.
#[derive(Debug, Clone, Copy, PartialEq, Eq, Structural)]
pub enum Stage {
    /// A field of the header is missing.
    HeaderField,
    /// The packet type is no wire code, or has no body decoder.
    TagValidation,
    /// A field of the body is missing or invalid.
    BodyField,
}

/// A decode failure: what failed, and the offset of the field it failed at.
///
/// The offset counts from the start of the buffer that was handed to the
/// decoder that returned the error.
#[derive(Debug, Clone, Copy, PartialEq, Eq)]
pub struct ParseError {
    pub kind: ErrorKind,
    pub offset: usize,
}

/// The character of a decimal digit.
pub open spec fn digit(d: nat) -> char {
    ('0' as u8 + d) as char
}

/// A number in decimal notation.
pub open spec fn decimal(n: nat) -> Seq<char>
    decreases n,
{
    if n < 10 {
        seq![digit(n)]
    } else {
        decimal(n / 10).push(digit(n % 10))
    }
}

/// The text of a byte that is no wire code of the enumeration `name`.
pub open spec fn invalid_text(value: u8, name: Seq<char>) -> Seq<char> {
    decimal(value as nat) + " is not a valid "@ + name
}

/// The text of a decimal digit.
fn digit_text(d: usize) -> (s: &'static str)
    requires
        d < 10,
    ensures
        s@ == seq![digit(d as nat)],
{
    proof {
        reveal_strlit("0");
        reveal_strlit("1");
        reveal_strlit("2");
        reveal_strlit("3");
        reveal_strlit("4");
        reveal_strlit("5");
        reveal_strlit("6");
        reveal_strlit("7");
        reveal_strlit("8");
        reveal_strlit("9");
    }
    let s = if d == 0 {
        "0"
    } else if d == 1 {
        "1"
    } else if d == 2 {
        "2"
    } else if d == 3 {
        "3"
    } else if d == 4 {
        "4"
    } else if d == 5 {
        "5"
    } else if d == 6 {
        "6"
    } else if d == 7 {
        "7"
    } else if d == 8 {
        "8"
    } else {
        "9"
    };
    assert(s@ =~= seq![digit(d as nat)]);
    s
}

/// Writes a number in decimal notation.
fn decimal_text(value: usize) -> (s: String)
    ensures
        s@ == decimal(value as nat),
    decreases value,
{
    if value < 10 {
        String::from_str(digit_text(value))
    } else {
        let mut s = decimal_text(value / 10);
        s.append(digit_text(value % 10));
        assert(s@ =~= decimal(value as nat));
        s
    }
}

/// Says that a byte is no wire code of the enumeration `name`.
fn invalid_message(value: u8, name: &str) -> (s: String)
    ensures
        s@ == invalid_text(value, name@),
{
    let mut s = decimal_text(value as usize);
    s.append(" is not a valid ");
    s.append(name);
    s
}

impl ParseError {
    /// What [`ParseError::message`] says.
    pub open spec fn spec_message(self) -> Seq<char> {
        match self.kind {
            ErrorKind::InvalidPenaltyType(v) => invalid_text(v, "PenaltyType"@),
            ErrorKind::InvalidPacketType(v) => invalid_text(v, "PacketType"@),
            ErrorKind::InvalidInfringementType(v) => invalid_text(v, "InfringementType"@),
            ErrorKind::InvalidTeam(v) => invalid_text(v, "Team"@),
            ErrorKind::InvalidDriver(v) => invalid_text(v, "Driver"@),
            ErrorKind::InvalidParticipantCount(v) => invalid_text(v, "number of participants"@),
            ErrorKind::UnexpectedEnd => "the buffer ends before the field at offset "@ + decimal(
                self.offset as nat,
            ),
            ErrorKind::UnknownEventCode(a, b, c, d) => decimal(a as nat) + " "@ + decimal(
                b as nat,
            ) + " "@ + decimal(c as nat) + " "@ + invalid_text(d, "event code"@),
            ErrorKind::UnsupportedPacketType(v) => decimal(v as nat)
                + " is a PacketType without a decoder"@,
        }
    }

    /// The stage of an error that the frame decoder returned.
    pub open spec fn spec_stage(self) -> Stage {
        if self.kind is InvalidPacketType || self.kind is UnsupportedPacketType {
            Stage::TagValidation
        } else if self.offset < HEADER_LEN {
            Stage::HeaderField
        } else {
            Stage::BodyField
        }
    }

    /// The stage at which the frame decoder failed, of an error that it
    /// returned: an error of the packet type belongs to the validation of
    /// the tag, and any other to the header or the body by its offset.
    pub fn stage(&self) -> (stage: Stage)
        ensures
            stage == self.spec_stage(),
    {
        match self.kind {
            ErrorKind::InvalidPacketType(_) => Stage::TagValidation,
            ErrorKind::UnsupportedPacketType(_) => Stage::TagValidation,
            _ => if self.offset < HEADER_LEN {
                Stage::HeaderField
            } else {
                Stage::BodyField
            },
        }
    }

    /// Says in words what went wrong. Every number is in decimal notation.
    pub fn message(&self) -> (s: String)
        ensures
            s@ == self.spec_message(),
    {
        match self.kind {
            ErrorKind::InvalidPenaltyType(v) => invalid_message(v, "PenaltyType"),
            ErrorKind::InvalidPacketType(v) => invalid_message(v, "PacketType"),
            ErrorKind::InvalidInfringementType(v) => invalid_message(v, "InfringementType"),
            ErrorKind::InvalidTeam(v) => invalid_message(v, "Team"),
            ErrorKind::InvalidDriver(v) => invalid_message(v, "Driver"),
            ErrorKind::InvalidParticipantCount(v) => invalid_message(v, "number of participants"),
            ErrorKind::UnexpectedEnd => {
                let mut s = String::from_str("the buffer ends before the field at offset ");
                let offset = decimal_text(self.offset);
                s.append(offset.as_str());
                s
            },
            ErrorKind::UnknownEventCode(a, b, c, d) => {
                let mut s = decimal_text(a as usize);
                s.append(" ");
                let second = decimal_text(b as usize);
                s.append(second.as_str());
                s.append(" ");
                let third = decimal_text(c as usize);
                s.append(third.as_str());
                s.append(" ");
                let last = invalid_message(d, "event code");
                s.append(last.as_str());
                s
            },
            ErrorKind::UnsupportedPacketType(v) => {
                let mut s = decimal_text(v as usize);
                s.append(" is a PacketType without a decoder");
                s
            },
        }
    }

    /// An error of the given kind at offset 0.
    pub fn new(kind: ErrorKind) -> (e: ParseError)
        ensures
            e == (ParseError { kind, offset: 0 }),
    {
        ParseError { kind, offset: 0 }
    }

    /// An error of the given kind at the given offset.
    pub fn at(kind: ErrorKind, offset: usize) -> (e: ParseError)
        ensures
            e == (ParseError { kind, offset }),
    {
        ParseError { kind, offset }
    }
}

/// Why the ingestion pipeline stopped, or could not take a frame.
#[derive(Debug)]
pub enum AppError {
    /// The datagram source failed.
    IOError(std::io::Error),
    /// A datagram could not be decoded.
    ParseError(ParseError),
    /// A frame could not be published: nobody is left to receive it.
    PublishError,
}

impl FromSpecImpl<std::io::Error> for AppError {
    open spec fn obeys_from_spec() -> bool {
        true
    }

    open spec fn from_spec(e: std::io::Error) -> Self {
        AppError::IOError(e)
    }
}

impl From<std::io::Error> for AppError {
    fn from(e: std::io::Error) -> (r: Self) {
        AppError::IOError(e)
    }
}

impl FromSpecImpl<ParseError> for AppError {
    open spec fn obeys_from_spec() -> bool {
        true
    }

    open spec fn from_spec(e: ParseError) -> Self {
        AppError::ParseError(e)
    }
}

impl From<ParseError> for AppError {
    fn from(e: ParseError) -> (r: Self) {
        AppError::ParseError(e)
    }
}

/// Why the aggregator did not take a frame.
#[derive(Debug, Clone, Copy, PartialEq, Eq, Structural)]
pub enum PreconditionError {
    /// A motion frame came before any participants frame: there is nobody
    /// yet to whom the positions could belong.
    MotionBeforeParticipants,
}

} // verus!
