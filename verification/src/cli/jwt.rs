//! Options of the token subcommands, and the lifetimes they accept.

use vstd::prelude::*;
use vstd::slice::slice_subrange;
use vstd::string::*;

use crate::decimal::{parse_number, parsed_number, NumberError};
use crate::process::jwt::Claims;
use crate::strings::{joined, owned};

verus! {

/// The token subcommands.
#[derive(Debug, Clone, PartialEq, Eq)]
pub enum JwtSubCommand {
    /// Issue a token.
    Sign(SignOpts),
    /// Check a token.
    Verify(VerifyOpts),
}

/// The algorithm that signs a token.
#[derive(Clone, Copy, Debug, PartialEq, Eq, Structural)]
pub enum JwtAlgorithm {
    /// HMAC with SHA-256.
    HS256,
    /// HMAC with SHA-384.
    HS384,
    /// HMAC with SHA-512.
    HS512,
    /// ECDSA with SHA-256.
    ES256,
    /// ECDSA with SHA-384.
    ES384,
    /// RSASSA-PKCS1-v1_5 with SHA-256.
    RS256,
    /// RSASSA-PKCS1-v1_5 with SHA-384.
    RS384,
    /// RSASSA-PKCS1-v1_5 with SHA-512.
    RS512,
    /// RSASSA-PSS with SHA-256.
    PS256,
    /// RSASSA-PSS with SHA-384.
    PS384,
    /// RSASSA-PSS with SHA-512.
    PS512,
    /// Edwards-curve signatures.
    EdDSA,
}

/// Whom to issue a token about and for, and for how long.
#[derive(Debug, Clone, PartialEq, Eq)]
pub struct SignOpts {
    /// The subject of the token.
    pub sub: String,
    /// The algorithm that signs it.
    pub alg: JwtAlgorithm,
    /// The lifetime of the token, in seconds.
    pub exp: usize,
    /// The audience of the token.
    pub aud: String,
}

/// Which token to check, and for which audience.
#[derive(Debug, Clone, PartialEq, Eq)]
pub struct VerifyOpts {
    /// The token.
    pub token: String,
    /// The algorithm that signed it.
    pub alg: JwtAlgorithm,
    /// The audience that it must be for.
    pub aud: String,
}

impl SignOpts {
    /// The claims of a token issued at the second `now`: they expire `exp`
    /// seconds later. Nothing if that second lies beyond `usize`.
    pub fn claims(&self, now: usize) -> (claims: Option<Claims>)
        ensures
            match claims {
                Some(c) => c@.sub == self.sub@ && c@.aud == self.aud@ && c@.exp == now + self.exp,
                None => now + self.exp > usize::MAX,
            },
    {
        Claims::issue(self.sub.clone(), self.aud.clone(), now, self.exp)
    }
}

impl VerifyOpts {
    /// The line that reports how a verification went: the verdict, or the
    /// reason why the token could not be checked.
    pub open spec fn report_spec(outcome: Result<bool, String>) -> Seq<char> {
        match outcome {
            Ok(true) => "JWT token is valid"@,
            Ok(false) => "JWT token is invalid"@,
            Err(reason) => "JWT token is invalid, Error: "@ + reason@,
        }
    }

    /// The line that reports how a verification went.
    pub fn report(outcome: &Result<bool, String>) -> (line: String)
        ensures
            line@ == VerifyOpts::report_spec(*outcome),
    {
        match outcome {
            Ok(true) => owned("JWT token is valid"),
            Ok(false) => owned("JWT token is invalid"),
            Err(reason) => joined("JWT token is invalid, Error: ", reason.as_str()),
        }
    }
}

/// Whether `byte` is one of the unit letters `s`, `m`, `h`, `d`.
pub open spec fn is_unit(byte: u8) -> bool {
    byte == 115 || byte == 109 || byte == 104 || byte == 100
}

/// The seconds in one unit: second, minute, hour or day.
pub open spec fn unit_seconds(unit: u8) -> nat {
    if unit == 109 {
        60
    } else if unit == 104 {
        3600
    } else if unit == 100 {
        86400
    } else {
        1
    }
}

/// Whether `text` ends in a unit letter.
pub open spec fn has_unit(text: Seq<u8>) -> bool {
    text.len() > 0 && is_unit(text.last())
}

/// The part of a duration that holds the number.
pub open spec fn duration_number(text: Seq<u8>) -> Seq<u8> {
    if has_unit(text) {
        text.drop_last()
    } else {
        text
    }
}

/// The unit of a duration: its last letter if that is a unit, else seconds.
pub open spec fn duration_unit(text: Seq<u8>) -> u8 {
    if has_unit(text) {
        text.last()
    } else {
        115
    }
}

/// The seconds that a duration such as `90`, `15m`, `12h` or `1d` stands
/// for. The number fails as `parsed_number` says; a product beyond `usize`
/// is `TooLarge`.
pub open spec fn parsed_duration(text: Seq<u8>) -> Result<usize, NumberError> {
    match parsed_number(duration_number(text)) {
        Ok(count) => if count * unit_seconds(duration_unit(text)) > usize::MAX {
            Err(NumberError::TooLarge)
        } else {
            Ok((count * unit_seconds(duration_unit(text))) as usize)
        },
        Err(e) => Err(e),
    }
}

/// The message for a duration that cannot be read.
pub open spec fn duration_error_text(e: NumberError) -> Seq<char> {
    "Invalid duration number: "@ + e.text()
}

/// Reads a duration in seconds from the UTF-8 bytes of its text.
pub fn parse_duration_bytes(text: &[u8]) -> (result: Result<usize, NumberError>)
    ensures
        result == parsed_duration(text@),
{
    let len = text.len();
    let mut number = text;
    let mut seconds: usize = 1;
    if len > 0 {
        let last: u8 = text[len - 1];
        if last == 115 || last == 109 || last == 104 || last == 100 {
            number = slice_subrange(text, 0, len - 1);
            assert(number@ =~= text@.drop_last());
            seconds = if last == 109 {
                60
            } else if last == 104 {
                3600
            } else if last == 100 {
                86400
            } else {
                1
            };
        }
    }
    match parse_number(number) {
        Ok(count) => {
            if count > usize::MAX / seconds {
                assert(count * seconds > usize::MAX) by (nonlinear_arith)
                    requires
                        count > usize::MAX / seconds,
                        seconds > 0,
                ;
                Err(NumberError::TooLarge)
            } else {
                assert(count * seconds <= usize::MAX) by (nonlinear_arith)
                    requires
                        count <= usize::MAX / seconds,
                        seconds > 0,
                ;
                Ok(count * seconds)
            }
        },
        Err(e) => Err(e),
    }
}

/// Reads a token lifetime: a decimal number of seconds, or a number followed
/// by `s`, `m`, `h` or `d` for seconds, minutes, hours or days.
pub fn parse_duration(s: &str) -> (result: Result<usize, String>)
    ensures
        match parsed_duration(s.spec_bytes()) {
            Ok(seconds) => result == Ok::<usize, String>(seconds),
            Err(e) => result matches Err(message) && message@ == duration_error_text(e),
        },
{
    match parse_duration_bytes(s.as_bytes()) {
        Ok(seconds) => Ok(seconds),
        Err(e) => Err(joined("Invalid duration number: ", e.as_str())),
    }
}

} // verus!
