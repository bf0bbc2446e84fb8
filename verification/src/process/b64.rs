//! Base64 text for binary data: what the two dialects look like, and the
//! proof that no two byte strings share a text.

use base64::engine::general_purpose::{STANDARD, URL_SAFE_NO_PAD};
use base64::Engine;
use vstd::prelude::*;

use crate::cli::Base64Format;
use crate::error::ErrorKind;

verus! {

/// The character that stands for the six-bit value `v`, `0 <= v < 64`.
pub open spec fn symbol(format: Base64Format, v: int) -> char {
    if v < 26 {
        ((v + 65) as u8) as char
    } else if v < 52 {
        ((v + 71) as u8) as char
    } else if v < 62 {
        ((v - 4) as u8) as char
    } else if v == 62 {
        match format {
            Base64Format::Standard => '+',
            Base64Format::UrlSafe => '-',
        }
    } else {
        match format {
            Base64Format::Standard => '/',
            Base64Format::UrlSafe => '_',
        }
    }
}

/// The `=` signs that close a final group lacking `missing` characters.
pub open spec fn padding(format: Base64Format, missing: nat) -> Seq<char> {
    match format {
        Base64Format::Standard => Seq::new(missing, |i: int| '='),
        Base64Format::UrlSafe => Seq::empty(),
    }
}

/// The base64 text of `data`: each three bytes become four characters, and a
/// last group of one or two bytes becomes two or three, padded where the
/// dialect pads.
pub open spec fn encoded(format: Base64Format, data: Seq<u8>) -> Seq<char>
    decreases data.len(),
{
    if data.len() == 0 {
        Seq::empty()
    } else if data.len() == 1 {
        seq![
            symbol(format, data[0] as int / 4),
            symbol(format, (data[0] as int % 4) * 16),
        ] + padding(format, 2)
    } else if data.len() == 2 {
        seq![
            symbol(format, data[0] as int / 4),
            symbol(format, (data[0] as int % 4) * 16 + data[1] as int / 16),
            symbol(format, (data[1] as int % 16) * 4),
        ] + padding(format, 1)
    } else {
        seq![
            symbol(format, data[0] as int / 4),
            symbol(format, (data[0] as int % 4) * 16 + data[1] as int / 16),
            symbol(format, (data[1] as int % 16) * 4 + data[2] as int / 64),
            symbol(format, data[2] as int % 64),
        ] + encoded(format, data.subrange(3, data.len() as int))
    }
}

/// The bytes that `text` stands for, if it is the base64 text of any.
pub open spec fn decoded(format: Base64Format, text: Seq<char>) -> Option<Seq<u8>> {
    if exists|data: Seq<u8>| encoded(format, data) == text {
        Some(choose|data: Seq<u8>| encoded(format, data) == text)
    } else {
        None
    }
}

/// How many characters the text of `n` bytes has.
pub open spec fn encoded_len(format: Base64Format, n: nat) -> nat {
    match format {
        Base64Format::Standard => 4 * ((n + 2) / 3),
        Base64Format::UrlSafe => 4 * (n / 3) + if n % 3 == 0 {
            0nat
        } else {
            n % 3 + 1
        },
    }
}

proof fn lemma_symbol_injective(format: Base64Format, v: int, w: int)
    requires
        0 <= v < 64,
        0 <= w < 64,
        symbol(format, v) == symbol(format, w),
    ensures
        v == w,
{
}

proof fn lemma_symbol_not_pad(format: Base64Format, v: int)
    requires
        0 <= v < 64,
    ensures
        symbol(format, v) != '=',
{
}

/// The length of a text depends on the number of bytes alone.
pub proof fn lemma_encoded_len(format: Base64Format, data: Seq<u8>)
    ensures
        encoded(format, data).len() == encoded_len(format, data.len()),
    decreases data.len(),
{
    if data.len() >= 3 {
        lemma_encoded_len(format, data.subrange(3, data.len() as int));
    }
}

/// A text of fewer than three bytes differs from every text of three or more.
proof fn lemma_tail_differs_from_group(format: Base64Format, short: Seq<u8>, long: Seq<u8>)
    requires
        short.len() < 3,
        long.len() >= 3,
    ensures
        encoded(format, short) != encoded(format, long),
{
    lemma_encoded_len(format, short);
    lemma_encoded_len(format, long);
    if short.len() > 0 && format == Base64Format::Standard {
        lemma_symbol_not_pad(format, long[2] as int % 64);
        assert(encoded(format, long)[3] == symbol(format, long[2] as int % 64));
        assert(encoded(format, short)[3] == '=');
    }
}

/// Two byte strings with the same text are the same byte string.
pub proof fn lemma_encoded_injective(format: Base64Format, a: Seq<u8>, b: Seq<u8>)
    requires
        encoded(format, a) == encoded(format, b),
    ensures
        a == b,
    decreases a.len(),
{
    let ea = encoded(format, a);
    let eb = encoded(format, b);
    lemma_encoded_len(format, a);
    lemma_encoded_len(format, b);
    if a.len() >= 3 && b.len() >= 3 {
        let ra = a.subrange(3, a.len() as int);
        let rb = b.subrange(3, b.len() as int);
        assert(ea[0] == eb[0] && ea[1] == eb[1] && ea[2] == eb[2] && ea[3] == eb[3]);
        lemma_symbol_injective(format, a[0] as int / 4, b[0] as int / 4);
        lemma_symbol_injective(
            format,
            (a[0] as int % 4) * 16 + a[1] as int / 16,
            (b[0] as int % 4) * 16 + b[1] as int / 16,
        );
        lemma_symbol_injective(
            format,
            (a[1] as int % 16) * 4 + a[2] as int / 64,
            (b[1] as int % 16) * 4 + b[2] as int / 64,
        );
        lemma_symbol_injective(format, a[2] as int % 64, b[2] as int % 64);
        assert(encoded(format, ra) =~= ea.subrange(4, ea.len() as int));
        assert(encoded(format, rb) =~= eb.subrange(4, eb.len() as int));
        lemma_encoded_injective(format, ra, rb);
        assert(a =~= a.subrange(0, 3) + ra);
        assert(b =~= b.subrange(0, 3) + rb);
        assert(a.subrange(0, 3) =~= b.subrange(0, 3));
    } else if a.len() >= 3 {
        lemma_tail_differs_from_group(format, b, a);
    } else if b.len() >= 3 {
        lemma_tail_differs_from_group(format, a, b);
    } else if a.len() == 0 || b.len() == 0 {
        assert(a =~= b);
    } else if a.len() == 1 && b.len() == 1 {
        assert(ea[0] == eb[0] && ea[1] == eb[1]);
        lemma_symbol_injective(format, a[0] as int / 4, b[0] as int / 4);
        lemma_symbol_injective(format, (a[0] as int % 4) * 16, (b[0] as int % 4) * 16);
        assert(a =~= b);
    } else if a.len() == 2 && b.len() == 2 {
        assert(ea[0] == eb[0] && ea[1] == eb[1] && ea[2] == eb[2]);
        lemma_symbol_injective(format, a[0] as int / 4, b[0] as int / 4);
        lemma_symbol_injective(
            format,
            (a[0] as int % 4) * 16 + a[1] as int / 16,
            (b[0] as int % 4) * 16 + b[1] as int / 16,
        );
        lemma_symbol_injective(format, (a[1] as int % 16) * 4, (b[1] as int % 16) * 4);
        assert(a =~= b);
    } else {
        let one = if a.len() == 1 { a } else { b };
        let two = if a.len() == 1 { b } else { a };
        if format == Base64Format::Standard {
            lemma_symbol_not_pad(format, (two[1] as int % 16) * 4);
            assert(encoded(format, two)[2] == symbol(format, (two[1] as int % 16) * 4));
            assert(encoded(format, one)[2] == '=');
        }
    }
}

/// Decoding the text of `data` gives `data` back.
pub proof fn lemma_decoded_encoded(format: Base64Format, data: Seq<u8>)
    ensures
        decoded(format, encoded(format, data)) == Some(data),
{
    let text = encoded(format, data);
    let found = choose|d: Seq<u8>| encoded(format, d) == text;
    lemma_encoded_injective(format, found, data);
}

/// A text that decodes is the text of what it decodes to, and of nothing else.
pub proof fn lemma_decoded_is_inverse(format: Base64Format, text: Seq<char>, data: Seq<u8>)
    ensures
        decoded(format, text) == Some(data) <==> encoded(format, data) == text,
{
    if encoded(format, data) == text {
        lemma_decoded_encoded(format, data);
    }
}

/// Calls `Engine::encode` on base64's `STANDARD` engine. Trusted: the text it
/// returns is `encoded` in the standard dialect. The call does not panic on a
/// slice: its length arithmetic overflows only beyond `isize::MAX` bytes.
#[verifier::external_body]
fn standard_encode(data: &[u8]) -> (text: String)
    ensures
        text@ == encoded(Base64Format::Standard, data@),
{
    STANDARD.encode(data)
}

/// Calls `Engine::encode` on base64's `URL_SAFE_NO_PAD` engine. Trusted: the
/// text it returns is `encoded` in the URL-safe dialect. The call does not
/// panic on a slice, as for the standard engine.
#[verifier::external_body]
fn url_safe_encode(data: &[u8]) -> (text: String)
    ensures
        text@ == encoded(Base64Format::UrlSafe, data@),
{
    URL_SAFE_NO_PAD.encode(data)
}

/// Calls `Engine::decode` on base64's `STANDARD` engine, which demands
/// canonical padding and refuses stray trailing bits. Trusted: bytes come back
/// only for a text that is their standard encoding, and every such text is
/// accepted.
#[verifier::external_body]
fn standard_decode(text: &str) -> (data: Option<Vec<u8>>)
    ensures
        data matches Some(d) ==> encoded(Base64Format::Standard, d@) == text@,
        data is None ==> forall|d: Seq<u8>| encoded(Base64Format::Standard, d) != text@,
{
    STANDARD.decode(text).ok()
}

/// Calls `Engine::decode` on base64's `URL_SAFE_NO_PAD` engine, which refuses
/// padding and stray trailing bits. Trusted: bytes come back only for a text
/// that is their URL-safe encoding, and every such text is accepted.
#[verifier::external_body]
fn url_safe_decode(text: &str) -> (data: Option<Vec<u8>>)
    ensures
        data matches Some(d) ==> encoded(Base64Format::UrlSafe, d@) == text@,
        data is None ==> forall|d: Seq<u8>| encoded(Base64Format::UrlSafe, d) != text@,
{
    URL_SAFE_NO_PAD.decode(text).ok()
}

/// What `process_decode` answers for `text`.
pub open spec fn decode_outcome(
    format: Base64Format,
    text: Seq<char>,
) -> Result<Seq<u8>, ErrorKind> {
    match decoded(format, text) {
        Some(data) => Ok(data),
        None => Err(ErrorKind::EncodingError),
    }
}

/// The view of a result that carries bytes.
pub open spec fn bytes_outcome(result: Result<Vec<u8>, ErrorKind>) -> Result<Seq<u8>, ErrorKind> {
    match result {
        Ok(bytes) => Ok(bytes@),
        Err(e) => Err(e),
    }
}

/// The base64 text of `input` in the chosen dialect.
pub fn process_encode(input: &[u8], format: Base64Format) -> (text: String)
    ensures
        text@ == encoded(format, input@),
{
    match format {
        Base64Format::Standard => standard_encode(input),
        Base64Format::UrlSafe => url_safe_encode(input),
    }
}

/// The bytes that `input` stands for in the chosen dialect, or
/// `EncodingError` if it is the base64 text of none.
pub fn process_decode(input: &str, format: Base64Format) -> (result: Result<Vec<u8>, ErrorKind>)
    ensures
        bytes_outcome(result) == decode_outcome(format, input@),
{
    let data = match format {
        Base64Format::Standard => standard_decode(input),
        Base64Format::UrlSafe => url_safe_decode(input),
    };
    match data {
        Some(bytes) => {
            proof {
                lemma_decoded_encoded(format, bytes@);
            }
            Ok(bytes)
        },
        None => Err(ErrorKind::EncodingError),
    }
}

} // verus!
