//! Random passwords over chosen classes of characters.

use rand::seq::SliceRandom;
use vstd::prelude::*;

verus! {

/// The upper-case letters that a password may hold: all but `I` and `O`.
pub const UPPER: [u8; 24] = [
    65, 66, 67, 68, 69, 70, 71, 72, 74, 75, 76, 77, 78, 80, 81, 82, 83, 84, 85, 86, 87, 88, 89, 90,
];

/// The lower-case letters that a password may hold: all but `l`.
pub const LOWER: [u8; 25] = [
    97, 98, 99, 100, 101, 102, 103, 104, 105, 106, 107, 109, 110, 111, 112, 113, 114, 115, 116, 117,
    118, 119, 120, 121, 122,
];

/// The digits that a password may hold: all but `0`.
pub const NUMBER: [u8; 9] = [49, 50, 51, 52, 53, 54, 55, 56, 57];

/// The symbols that a password may hold: `!@#$%^&*_`.
pub const SYMBOL: [u8; 9] = [33, 64, 35, 36, 37, 94, 38, 42, 95];

/// Why no password was generated.
#[derive(Clone, Copy, Debug, PartialEq, Eq, Structural)]
pub enum GenPassError {
    /// A password of one character or more was asked for, from no class.
    NoCharacterClass,
    /// The length is smaller than the number of classes to draw from.
    TooShort,
}

/// Whether `byte` is an upper-case letter of the pool.
pub open spec fn is_upper(byte: u8) -> bool {
    65 <= byte <= 90 && byte != 73 && byte != 79
}

/// Whether `byte` is a lower-case letter of the pool.
pub open spec fn is_lower(byte: u8) -> bool {
    97 <= byte <= 122 && byte != 108
}

/// Whether `byte` is a digit of the pool.
pub open spec fn is_number(byte: u8) -> bool {
    49 <= byte <= 57
}

/// Whether `byte` is a symbol of the pool.
pub open spec fn is_symbol(byte: u8) -> bool {
    byte == 33 || byte == 64 || byte == 35 || byte == 36 || byte == 37 || byte == 94 || byte == 38
        || byte == 42 || byte == 95
}

/// Which classes a password draws from.
#[derive(Clone, Copy, Debug, PartialEq, Eq, Structural)]
pub struct Classes {
    /// Upper-case letters.
    pub upper: bool,
    /// Lower-case letters.
    pub lower: bool,
    /// Digits.
    pub number: bool,
    /// Symbols.
    pub symbol: bool,
}

impl Classes {
    /// How many classes are chosen.
    pub open spec fn count(self) -> nat {
        let upper: nat = if self.upper { 1 } else { 0 };
        let lower: nat = if self.lower { 1 } else { 0 };
        let number: nat = if self.number { 1 } else { 0 };
        let symbol: nat = if self.symbol { 1 } else { 0 };
        upper + lower + number + symbol
    }

    /// Whether `byte` belongs to one of the chosen classes.
    pub open spec fn allows(self, byte: u8) -> bool {
        ||| self.upper && is_upper(byte)
        ||| self.lower && is_lower(byte)
        ||| self.number && is_number(byte)
        ||| self.symbol && is_symbol(byte)
    }

    /// Whether `bytes` holds a character of each chosen class.
    pub open spec fn covered_by(self, bytes: Seq<u8>) -> bool {
        &&& self.upper ==> exists|i: int| 0 <= i < bytes.len() && is_upper(#[trigger] bytes[i])
        &&& self.lower ==> exists|i: int| 0 <= i < bytes.len() && is_lower(#[trigger] bytes[i])
        &&& self.number ==> exists|i: int| 0 <= i < bytes.len() && is_number(#[trigger] bytes[i])
        &&& self.symbol ==> exists|i: int| 0 <= i < bytes.len() && is_symbol(#[trigger] bytes[i])
    }

    /// Whether `bytes` is a password over the chosen classes: every byte
    /// belongs to one of them, and each of them occurs.
    pub open spec fn accepts(self, bytes: Seq<u8>) -> bool {
        &&& forall|i: int| 0 <= i < bytes.len() ==> self.allows(#[trigger] bytes[i])
        &&& self.covered_by(bytes)
    }

    /// Why a password of `length` characters cannot be generated, if it cannot.
    pub open spec fn refusal(self, length: u8) -> Option<GenPassError> {
        if self.count() == 0 && length > 0 {
            Some(GenPassError::NoCharacterClass)
        } else if length < self.count() {
            Some(GenPassError::TooShort)
        } else {
            None
        }
    }
}

/// The text whose characters have the numbers of `bytes`.
pub open spec fn ascii_chars(bytes: Seq<u8>) -> Seq<char> {
    Seq::new(bytes.len(), |i: int| bytes[i] as char)
}

/// The bytes that the characters of an ASCII text have as their numbers.
pub open spec fn ascii_bytes(text: Seq<char>) -> Seq<u8> {
    Seq::new(text.len(), |i: int| text[i] as u8)
}

/// Whether every character of `text` is an ASCII character.
pub open spec fn is_ascii_text(text: Seq<char>) -> bool {
    forall|i: int| 0 <= i < text.len() ==> (#[trigger] text[i] as u32) < 128
}

/// Calls `SliceRandom::choose` of rand on its thread-local generator.
/// Trusted: an empty pool gives nothing, any other pool one of its bytes.
/// Nothing is said of which.
#[verifier::external_body]
fn pick_one(pool: &[u8]) -> (picked: Option<u8>)
    ensures
        picked is None <==> pool@.len() == 0,
        picked matches Some(byte) ==> pool@.contains(byte),
{
    pool.choose(&mut rand::thread_rng()).copied()
}

/// Calls `SliceRandom::shuffle` of rand on its thread-local generator.
/// Trusted: the bytes are the same as before, each as often as before.
/// Nothing is said of their order.
#[verifier::external_body]
fn shuffle(bytes: &mut Vec<u8>)
    ensures
        final(bytes)@.to_multiset() == old(bytes)@.to_multiset(),
{
    bytes.shuffle(&mut rand::thread_rng());
}

/// Whether every byte is below 128.
pub open spec fn all_ascii(bytes: Seq<u8>) -> bool {
    forall|i: int| 0 <= i < bytes.len() ==> #[trigger] bytes[i] < 128
}

/// Calls `String::from_utf8`. Trusted: bytes that are all below 128 are
/// accepted, and the text that comes back for them has the characters of the
/// same numbers.
#[verifier::external_body]
fn ascii_text(bytes: Vec<u8>) -> (text: Option<String>)
    ensures
        text is None ==> !all_ascii(bytes@),
        text matches Some(t) ==> all_ascii(bytes@) ==> t@ == ascii_chars(bytes@),
{
    String::from_utf8(bytes).ok()
}

/// Every byte of the pools belongs to its class, and is ASCII.
proof fn lemma_pools()
    ensures
        forall|i: int| 0 <= i < UPPER@.len() ==> is_upper(#[trigger] UPPER@[i]),
        forall|i: int| 0 <= i < LOWER@.len() ==> is_lower(#[trigger] LOWER@[i]),
        forall|i: int| 0 <= i < NUMBER@.len() ==> is_number(#[trigger] NUMBER@[i]),
        forall|i: int| 0 <= i < SYMBOL@.len() ==> is_symbol(#[trigger] SYMBOL@[i]),
{
}

/// Adds one random byte of `pool` to `password`, and the whole pool to
/// `chars`.
fn draw_from(pool: &[u8], password: &mut Vec<u8>, chars: &mut Vec<u8>) -> (drawn: u8)
    requires
        pool@.len() > 0,
    ensures
        pool@.contains(drawn),
        final(password)@ == old(password)@.push(drawn),
        final(chars)@ == old(chars)@ + pool@,
{
    chars.extend_from_slice(pool);
    let byte = match pick_one(pool) {
        Some(byte) => byte,
        None => unreached(),
    };
    password.push(byte);
    byte
}

/// What occurs among bytes occurs among them however they are rearranged.
proof fn lemma_member_stays(before: Seq<u8>, after: Seq<u8>, byte: u8)
    requires
        after.to_multiset() == before.to_multiset(),
        before.contains(byte),
    ensures
        after.contains(byte),
{
    before.to_multiset_ensures();
    after.to_multiset_ensures();
    assert(before.to_multiset().count(byte) > 0);
    assert(after.to_multiset().count(byte) > 0);
}

/// A rearrangement of bytes leaves their number, and whether a password over
/// `classes` is made of them, as they were.
proof fn lemma_rearranged(classes: Classes, before: Seq<u8>, after: Seq<u8>)
    requires
        after.to_multiset() == before.to_multiset(),
        classes.accepts(before),
    ensures
        after.len() == before.len(),
        classes.accepts(after),
{
    before.to_multiset_ensures();
    after.to_multiset_ensures();
    assert forall|i: int| 0 <= i < after.len() implies classes.allows(#[trigger] after[i]) by {
        assert(after.contains(after[i]));
        lemma_member_stays(after, before, after[i]);
    }
    if classes.upper {
        let i = choose|i: int| 0 <= i < before.len() && is_upper(#[trigger] before[i]);
        assert(before.contains(before[i]));
        lemma_member_stays(before, after, before[i]);
    }
    if classes.lower {
        let i = choose|i: int| 0 <= i < before.len() && is_lower(#[trigger] before[i]);
        assert(before.contains(before[i]));
        lemma_member_stays(before, after, before[i]);
    }
    if classes.number {
        let i = choose|i: int| 0 <= i < before.len() && is_number(#[trigger] before[i]);
        assert(before.contains(before[i]));
        lemma_member_stays(before, after, before[i]);
    }
    if classes.symbol {
        let i = choose|i: int| 0 <= i < before.len() && is_symbol(#[trigger] before[i]);
        assert(before.contains(before[i]));
        lemma_member_stays(before, after, before[i]);
    }
}

/// Generates a password of `length` characters over the chosen classes: one
/// random character of each class, the rest drawn from all of them together,
/// and the whole shuffled.
///
/// Fails with `NoCharacterClass` when characters are asked for and no class
/// is chosen, and with `TooShort` when `length` is smaller than the number of
/// classes.
pub fn process_genpass(length: u8, upper: bool, lower: bool, number: bool, symbol: bool) -> (result:
    Result<String, GenPassError>)
    ensures
        match result {
            Ok(password) => {
                &&& (Classes { upper, lower, number, symbol }).refusal(length) is None
                &&& password@.len() == length
                &&& is_ascii_text(password@)
                &&& (Classes { upper, lower, number, symbol }).accepts(ascii_bytes(password@))
            },
            Err(e) => (Classes { upper, lower, number, symbol }).refusal(length) == Some(e),
        },
{
    let ghost classes = Classes { upper, lower, number, symbol };
    let mut count: u8 = 0;
    if upper {
        count = count + 1;
    }
    if lower {
        count = count + 1;
    }
    if number {
        count = count + 1;
    }
    if symbol {
        count = count + 1;
    }
    assert(count == classes.count());
    if count == 0 && length > 0 {
        return Err(GenPassError::NoCharacterClass);
    }
    if length < count {
        return Err(GenPassError::TooShort);
    }
    let mut password: Vec<u8> = Vec::new();
    let mut chars: Vec<u8> = Vec::new();
    proof {
        lemma_pools();
    }
    if upper {
        let drawn = draw_from(UPPER.as_slice(), &mut password, &mut chars);
        assert(password@[password@.len() - 1] == drawn && is_upper(drawn));
    }
    if lower {
        let ghost earlier = password@;
        let drawn = draw_from(LOWER.as_slice(), &mut password, &mut chars);
        assert(password@[password@.len() - 1] == drawn && is_lower(drawn));
        assert(forall|i: int| 0 <= i < earlier.len() ==> password@[i] == earlier[i]);
    }
    if number {
        let ghost earlier = password@;
        let drawn = draw_from(NUMBER.as_slice(), &mut password, &mut chars);
        assert(password@[password@.len() - 1] == drawn && is_number(drawn));
        assert(forall|i: int| 0 <= i < earlier.len() ==> password@[i] == earlier[i]);
    }
    if symbol {
        let ghost earlier = password@;
        let drawn = draw_from(SYMBOL.as_slice(), &mut password, &mut chars);
        assert(password@[password@.len() - 1] == drawn && is_symbol(drawn));
        assert(forall|i: int| 0 <= i < earlier.len() ==> password@[i] == earlier[i]);
    }
    assert(classes.covered_by(password@));
    while password.len() < length as usize
        invariant
            password@.len() <= length,
            classes.accepts(password@),
            classes.count() > 0 ==> chars@.len() > 0,
            length > 0 ==> classes.count() > 0,
            forall|i: int| 0 <= i < chars@.len() ==> classes.allows(#[trigger] chars@[i]),
        decreases length - password@.len(),
    {
        let ghost earlier = password@;
        let byte = match pick_one(chars.as_slice()) {
            Some(byte) => byte,
            None => unreached(),
        };
        password.push(byte);
        assert(forall|i: int| 0 <= i < earlier.len() ==> password@[i] == earlier[i]);
    }
    let ghost before = password@;
    shuffle(&mut password);
    proof {
        lemma_rearranged(classes, before, password@);
        assert forall|i: int| 0 <= i < password@.len() implies #[trigger] password@[i] < 128 by {
            assert(classes.allows(password@[i]));
        }
        assert(all_ascii(password@));
    }
    let ghost bytes = password@;
    let text = match ascii_text(password) {
        Some(text) => text,
        None => unreached(),
    };
    assert(ascii_bytes(text@) =~= bytes);
    Ok(text)
}

} // verus!
