//! Options of the password generator.

use vstd::prelude::*;

use crate::process::gen_pass::{
    ascii_bytes, is_ascii_text, process_genpass, Classes, GenPassError,
};

verus! {

/// How long a password to generate, and from which classes of characters.
#[derive(Debug, Clone, PartialEq, Eq)]
pub struct GenPassOpts {
    /// The number of characters.
    pub length: u8,
    /// Whether upper-case letters may occur.
    pub uppercase: bool,
    /// Whether lower-case letters may occur.
    pub lowercase: bool,
    /// Whether digits may occur.
    pub number: bool,
    /// Whether symbols may occur.
    pub symbol: bool,
}

/// A password with the estimate of its strength.
#[derive(Debug, Clone, PartialEq, Eq)]
pub struct GeneratedPassword {
    /// The password.
    pub password: String,
    /// Its strength from 0, weakest, to 4, or nothing where none was
    /// estimated.
    pub strength: Option<u8>,
}

/// Calls `zxcvbn::zxcvbn` with no user inputs, and `Entropy::score` on what
/// it returns. Trusted: a blank password gets no score, and a score is at
/// most 4. Nothing more is said of it: the estimate looks at the current
/// year.
#[verifier::external_body]
fn strength(password: &str) -> (score: Option<u8>)
    ensures
        password@.len() == 0 ==> score is None,
        score matches Some(s) ==> s <= 4,
{
    match zxcvbn::zxcvbn(password, &[]) {
        Ok(estimate) => Some(estimate.score()),
        Err(_) => None,
    }
}

impl GenPassOpts {
    /// The classes that the options choose.
    pub open spec fn classes(&self) -> Classes {
        Classes {
            upper: self.uppercase,
            lower: self.lowercase,
            number: self.number,
            symbol: self.symbol,
        }
    }

    /// Generates a password as the options ask, and estimates its strength.
    ///
    /// Fails as `process_genpass` does. An empty password has no estimate.
    pub fn execute(&self) -> (result: Result<GeneratedPassword, GenPassError>)
        ensures
            match result {
                Ok(generated) => {
                    &&& self.classes().refusal(self.length) is None
                    &&& generated.password@.len() == self.length
                    &&& is_ascii_text(generated.password@)
                    &&& self.classes().accepts(ascii_bytes(generated.password@))
                    &&& generated.strength matches Some(score) ==> score <= 4
                    &&& self.length == 0 ==> generated.strength is None
                },
                Err(e) => self.classes().refusal(self.length) == Some(e),
            },
    {
        match process_genpass(
            self.length,
            self.uppercase,
            self.lowercase,
            self.number,
            self.symbol,
        ) {
            Ok(password) => {
                let strength = strength(password.as_str());
                Ok(GeneratedPassword { password, strength })
            },
            Err(e) => Err(e),
        }
    }
}

} // verus!
