//! Reading an unsigned decimal number, with the failures told apart.

use vstd::prelude::*;

verus! {

/// Why a text is not a number that fits.
#[derive(Clone, Copy, Debug, PartialEq, Eq, Structural)]
pub enum NumberError {
    /// The text is empty.
    Empty,
    /// A byte that is not a decimal digit occurs, or a sign stands alone.
    InvalidDigit,
    /// The digits read so far already exceed the largest `usize`.
    TooLarge,
}

impl NumberError {
    /// The words that describe the failure.
    pub open spec fn text(self) -> Seq<char> {
        match self {
            NumberError::Empty => "cannot parse integer from empty string"@,
            NumberError::InvalidDigit => "invalid digit found in string"@,
            NumberError::TooLarge => "number too large to fit in target type"@,
        }
    }

    /// The words that describe the failure.
    pub fn as_str(self) -> (text: &'static str)
        ensures
            text@ == self.text(),
    {
        match self {
            NumberError::Empty => "cannot parse integer from empty string",
            NumberError::InvalidDigit => "invalid digit found in string",
            NumberError::TooLarge => "number too large to fit in target type",
        }
    }
}

/// Whether `byte` is one of the ASCII digits `0` to `9`.
pub open spec fn is_digit(byte: u8) -> bool {
    48 <= byte <= 57
}

/// Whether every byte of `text` is a digit.
pub open spec fn all_digits(text: Seq<u8>) -> bool {
    forall|i: int| 0 <= i < text.len() ==> is_digit(#[trigger] text[i])
}

/// The number that a string of digits denotes in base ten.
pub open spec fn decimal_value(digits: Seq<u8>) -> nat
    decreases digits.len(),
{
    if digits.len() == 0 {
        0
    } else {
        decimal_value(digits.drop_last()) * 10 + (digits.last() - 48) as nat
    }
}

/// What reading `digits` from left to right gives: `TooLarge` as soon as the
/// digits read exceed the largest `usize`, `InvalidDigit` at a byte that is no
/// digit, and otherwise their value.
pub open spec fn parsed_digits(digits: Seq<u8>) -> Result<usize, NumberError> {
    if exists|k: int|
        0 <= k <= digits.len() && all_digits(#[trigger] digits.take(k)) && decimal_value(
            digits.take(k),
        ) > usize::MAX {
        Err(NumberError::TooLarge)
    } else if !all_digits(digits) {
        Err(NumberError::InvalidDigit)
    } else {
        Ok(decimal_value(digits) as usize)
    }
}

/// The digits of `text`: all of it but for one leading `+`.
pub open spec fn unsigned_part(text: Seq<u8>) -> Seq<u8> {
    if text.len() > 0 && text[0] == 43 {
        text.drop_first()
    } else {
        text
    }
}

/// What `parse_number` answers for `text`.
pub open spec fn parsed_number(text: Seq<u8>) -> Result<usize, NumberError> {
    if text.len() == 0 {
        Err(NumberError::Empty)
    } else if unsigned_part(text).len() == 0 {
        Err(NumberError::InvalidDigit)
    } else {
        parsed_digits(unsigned_part(text))
    }
}

/// One more digit multiplies the value by ten and adds the digit.
proof fn lemma_decimal_value_step(digits: Seq<u8>, k: int)
    requires
        0 <= k < digits.len(),
    ensures
        decimal_value(digits.take(k + 1)) == decimal_value(digits.take(k)) * 10 + (digits[k]
            - 48) as nat,
{
    assert(digits.take(k + 1).drop_last() =~= digits.take(k));
}

/// Reads an unsigned decimal number from ASCII bytes. One leading `+` is
/// allowed; an empty text, a byte that is no digit and a value beyond `usize`
/// are told apart, whichever comes first from the left.
pub fn parse_number(text: &[u8]) -> (result: Result<usize, NumberError>)
    ensures
        result == parsed_number(text@),
{
    if text.len() == 0 {
        return Err(NumberError::Empty);
    }
    let start: usize = if text[0] == 43 {
        1
    } else {
        0
    };
    if start == text.len() {
        assert(unsigned_part(text@).len() == 0);
        return Err(NumberError::InvalidDigit);
    }
    let ghost digits = unsigned_part(text@);
    assert(digits =~= text@.subrange(start as int, text@.len() as int));
    let mut value: usize = 0;
    let mut i: usize = start;
    assert(digits.take(0) =~= Seq::<u8>::empty());
    while i < text.len()
        invariant
            start <= i <= text.len(),
            start <= 1,
            text@.len() > 0,
            digits == unsigned_part(text@),
            digits == text@.subrange(start as int, text@.len() as int),
            digits.len() > 0,
            all_digits(digits.take(i - start)),
            value == decimal_value(digits.take(i - start)),
            forall|k: int|
                0 <= k <= i - start && all_digits(#[trigger] digits.take(k)) ==> decimal_value(
                    digits.take(k),
                ) <= usize::MAX,
        decreases text.len() - i,
    {
        let byte: u8 = text[i];
        let ghost n = i - start;
        proof {
            lemma_decimal_value_step(digits, n);
        }
        if byte < 48 || byte > 57 {
            proof {
                assert(digits[n] == byte);
                assert forall|k: int| n < k <= digits.len() implies !all_digits(
                    #[trigger] digits.take(k),
                ) by {
                    assert(digits.take(k)[n] == byte);
                }
                assert(!all_digits(digits));
            }
            return Err(NumberError::InvalidDigit);
        }
        let digit: usize = (byte - 48) as usize;
        assert(all_digits(digits.take(n + 1))) by {
            assert forall|j: int| 0 <= j < n + 1 implies is_digit(
                #[trigger] digits.take(n + 1)[j],
            ) by {
                if j < n {
                    assert(digits.take(n)[j] == digits.take(n + 1)[j]);
                }
            }
        }
        if value > (usize::MAX - digit) / 10 {
            assert(decimal_value(digits.take(n + 1)) > usize::MAX);
            return Err(NumberError::TooLarge);
        }
        value = value * 10 + digit;
        i = i + 1;
    }
    assert(digits.take(digits.len() as int) =~= digits);
    Ok(value)
}

} // verus!
