//! The claims that a token carries, and when they expire.

use vstd::prelude::*;

verus! {

/// The claims of a token: whom it is about, whom it is for, and the second at
/// which it expires.
#[derive(Debug, Clone, PartialEq, Eq)]
pub struct Claims {
    sub: String,
    aud: String,
    exp: usize,
}

/// What a set of claims says, as plain values.
pub struct ClaimsView {
    /// The subject.
    pub sub: Seq<char>,
    /// The audience.
    pub aud: Seq<char>,
    /// The expiry, in seconds since the epoch.
    pub exp: nat,
}

impl View for Claims {
    type V = ClaimsView;

    closed spec fn view(&self) -> ClaimsView {
        ClaimsView { sub: self.sub@, aud: self.aud@, exp: self.exp as nat }
    }
}

impl Claims {
    /// Claims with the expiry given.
    pub fn new(sub: String, aud: String, exp: usize) -> (claims: Claims)
        ensures
            claims@.sub == sub@,
            claims@.aud == aud@,
            claims@.exp == exp,
    {
        Claims { sub, aud, exp }
    }

    /// Claims that expire `lifetime` seconds after `now`, or nothing if that
    /// second lies beyond `usize`.
    pub fn issue(sub: String, aud: String, now: usize, lifetime: usize) -> (claims: Option<Claims>)
        ensures
            match claims {
                Some(c) => c@.sub == sub@ && c@.aud == aud@ && c@.exp == now + lifetime,
                None => now + lifetime > usize::MAX,
            },
    {
        if lifetime > usize::MAX - now {
            None
        } else {
            Some(Claims { sub, aud, exp: now + lifetime })
        }
    }

    /// The subject of the token.
    pub fn sub(&self) -> (sub: &str)
        ensures
            sub@ == self@.sub,
    {
        self.sub.as_str()
    }

    /// The audience of the token.
    pub fn aud(&self) -> (aud: &str)
        ensures
            aud@ == self@.aud,
    {
        self.aud.as_str()
    }

    /// The second at which the token expires.
    pub fn exp(&self) -> (exp: usize)
        ensures
            exp == self@.exp,
    {
        self.exp
    }
}

} // verus!
