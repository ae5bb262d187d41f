//! Denials returned by the decoder and by the retype state machine.

use vstd::prelude::*;

use crate::dispatch::GxfDomain;
use crate::frames::SptmFrameKind;

verus! {

/// Why a call descriptor was rejected: the first field, in the order domain,
/// table, endpoint, that holds no known identifier.
#[derive(Debug, Clone, Copy, PartialEq, Eq, Structural)]
pub enum GxfDispatchError {
    UnknownDomain,
    UnknownEndpoint,
    UnknownTable,
}

impl GxfDispatchError {
    /// The sentence that names the field which did not decode.
    pub open spec fn spec_message(self) -> Seq<char> {
        match self {
            GxfDispatchError::UnknownDomain => "Error decoding GxfDispatcher: Unknown domain"@,
            GxfDispatchError::UnknownEndpoint => "Error decoding GxfDispatcher: Unknown endpoint"@,
            GxfDispatchError::UnknownTable => "Error decoding GxfDispatcher: Unknown dispatch table"@,
        }
    }

    /// The text to show for this error.
    pub fn message(&self) -> (text: &'static str)
        ensures
            text@ == self.spec_message(),
    {
        match self {
            GxfDispatchError::UnknownDomain => "Error decoding GxfDispatcher: Unknown domain",
            GxfDispatchError::UnknownEndpoint => "Error decoding GxfDispatcher: Unknown endpoint",
            GxfDispatchError::UnknownTable => "Error decoding GxfDispatcher: Unknown dispatch table",
        }
    }
}

/// Why a retype was denied.
#[derive(Debug, Clone, Copy, PartialEq, Eq, Structural)]
pub enum SptmRetypeErrorKind {
    /// The requesting domain has no authority over a frame of this kind.
    InvalidDomain(GxfDomain, SptmFrameKind),
    /// The kind the caller claimed the frame had is not the kind it has.
    InvalidFromKind(SptmFrameKind),
    /// A frame of the second kind may not become a frame of the first kind.
    InvalidRetype(SptmFrameKind, SptmFrameKind),
}

impl SptmRetypeErrorKind {
    /// The sentence that says why the retype was denied. The kinds stand
    /// in it in the order in which the variant holds them.
    pub open spec fn spec_message(self) -> Seq<char> {
        match self {
            SptmRetypeErrorKind::InvalidDomain(domain, frame) => "Domain '"@ + domain.spec_name()
                + "' is invalid for current frame type '"@ + frame.spec_name() + "'."@,
            SptmRetypeErrorKind::InvalidFromKind(frame) => "Specified \"from\" type '"@
                + frame.spec_name() + "' does not match FTE."@,
            SptmRetypeErrorKind::InvalidRetype(first, second) => "Cannot retype frame from type '"@
                + first.spec_name() + "' to '"@ + second.spec_name() + "'."@,
        }
    }

    /// The text to show for this denial.
    pub fn message(&self) -> (text: String)
        ensures
            text@ == self.spec_message(),
    {
        let mut text = String::new();
        match self {
            SptmRetypeErrorKind::InvalidDomain(domain, frame) => {
                text.push_str("Domain '");
                text.push_str(domain.name());
                text.push_str("' is invalid for current frame type '");
                text.push_str(frame.name());
                text.push_str("'.");
            },
            SptmRetypeErrorKind::InvalidFromKind(frame) => {
                text.push_str("Specified \"from\" type '");
                text.push_str(frame.name());
                text.push_str("' does not match FTE.");
            },
            SptmRetypeErrorKind::InvalidRetype(first, second) => {
                text.push_str("Cannot retype frame from type '");
                text.push_str(first.name());
                text.push_str("' to '");
                text.push_str(second.name());
                text.push_str("'.");
            },
        }
        text
    }
}

/// A denied retype, with the address of the frame it was asked for.
#[derive(Debug, Clone, Copy, PartialEq, Eq, Structural)]
pub struct SptmRetypeError {
    pub address: u64,
    pub kind: SptmRetypeErrorKind,
}

impl SptmRetypeError {
    /// The denial of a retype of the frame at `address` for the reason `kind`.
    pub fn new(address: u64, kind: SptmRetypeErrorKind) -> (error: Self)
        ensures
            error.address == address,
            error.kind == kind,
    {
        Self { address, kind }
    }

    /// The address with its place in the sentence, and then the reason.
    pub open spec fn spec_message(self) -> Seq<char> {
        "Error retyping frame at 0x"@ + spec_hex16(self.address) + ": "@ + self.kind.spec_message()
    }

    /// The text to show for this error.
    pub fn message(&self) -> (text: String)
        ensures
            text@ == self.spec_message(),
    {
        let mut text = String::new();
        text.push_str("Error retyping frame at 0x");
        push_hex16(&mut text, self.address);
        text.push_str(": ");
        let reason = self.kind.message();
        text.push_str(reason.as_str());
        text
    }
}

/// `String::push_str` puts the characters of `string` behind those that the
/// text holds, as its documentation says.
pub assume_specification[ String::push_str ](text: &mut String, string: &str)
    ensures
        final(text)@ == old(text)@ + string@,
;

/// `String::push` puts `ch` behind the characters that the text holds, as
/// its documentation says.
pub assume_specification[ String::push ](text: &mut String, ch: char)
    ensures
        final(text)@ == old(text)@.push(ch),
;

/// The lower-case hexadecimal digit for the low four bits of `nibble`.
pub open spec fn spec_hex_digit(nibble: u8) -> char {
    "0123456789abcdef"@[(nibble % 16) as int]
}

/// The sixteen hexadecimal digits of `value`, the highest first.
pub open spec fn spec_hex16(value: u64) -> Seq<char> {
    Seq::new(16, |i: int| spec_hex_digit(((value >> (((15 - i) * 4) as u64)) & 0xf) as u8))
}

/// Computes the lower-case hexadecimal digit for the low four bits of
/// `nibble`.
#[verifier::when_used_as_spec(spec_hex_digit)]
pub fn hex_digit(nibble: u8) -> (digit: char)
    ensures
        digit == spec_hex_digit(nibble),
{
    proof {
        reveal_strlit("0123456789abcdef");
    }
    let low: u8 = nibble % 16;
    if low < 10 {
        (48 + low) as char
    } else {
        (87 + low) as char
    }
}

/// Appends the sixteen hexadecimal digits of `value` to `text`.
pub fn push_hex16(text: &mut String, value: u64)
    ensures
        final(text)@ == old(text)@ + spec_hex16(value),
{
    let mut done: u64 = 0;
    while done < 16
        invariant
            done <= 16,
            text@ == old(text)@ + spec_hex16(value).take(done as int),
        decreases 16 - done,
    {
        let shift: u64 = (15 - done) * 4;
        let nibble: u64 = (value >> shift) & 0xf;
        assert(nibble < 16) by (bit_vector)
            requires
                nibble == (value >> shift) & 0xf,
        ;
        text.push(hex_digit(nibble as u8));
        proof {
            assert(spec_hex16(value).take(done + 1) =~= spec_hex16(value).take(done as int).push(
                spec_hex16(value)[done as int],
            ));
        }
        done = done + 1;
    }
    proof {
        assert(spec_hex16(value).take(16) =~= spec_hex16(value));
    }
}

} // verus!
