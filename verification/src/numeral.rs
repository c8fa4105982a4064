//! Parsing a numeral written in one of the four bases into a 128-bit
//! unsigned magnitude.
//!
//! The text holds digits only: no sign, no prefix, no blanks. A character
//! that is no digit of the base is an error, and so is a value that does not
//! fit in 128 bits; nothing is ever wrapped or cut off.

use vstd::prelude::*;
use vstd::arithmetic::power::{lemma_pow0, lemma_pow1, lemma_pow_adds, pow};
use crate::selection::InputFormat;

verus! {

/// Why a numeral could not be parsed.
#[derive(Debug, Clone, Copy, PartialEq, Eq, Structural)]
pub enum ParseError {
    /// Some character is no digit of the base.
    InvalidDigit,
    /// Every character is a digit, but the value needs more than 128 bits.
    Overflow,
}

/// Whether `c` is one of the characters `0`-`9`, `a`-`f`, `A`-`F`.
pub open spec fn is_hex_digit(c: char) -> bool {
    '0' <= c <= '9' || 'a' <= c <= 'f' || 'A' <= c <= 'F'
}

/// The value of a digit character: `0`-`9` count 0 to 9, and the letters
/// `a`-`f`, in either case, 10 to 15. Other characters count 0.
pub open spec fn digit_value(c: char) -> nat {
    if '0' <= c <= '9' {
        (c as int - '0' as int) as nat
    } else if 'a' <= c <= 'f' {
        (c as int - 'a' as int + 10) as nat
    } else if 'A' <= c <= 'F' {
        (c as int - 'A' as int + 10) as nat
    } else {
        0
    }
}

/// The number that `digits` denote in positional notation with the given
/// radix, most significant digit first. The empty text denotes 0.
pub open spec fn numeral_value(digits: Seq<char>, radix: nat) -> nat
    decreases digits.len(),
{
    if digits.len() == 0 {
        0
    } else {
        numeral_value(digits.drop_last(), radix) * radix + digit_value(digits.last())
    }
}

/// A base accepts exactly the digit characters whose value is below its
/// radix.
pub proof fn lemma_accepts_digits_below_radix(base: InputFormat, c: char)
    ensures
        base.accepts(c) <==> is_hex_digit(c) && digit_value(c) < base.base(),
{
}

/// Positional notation: the value of two texts written one after the other
/// is the value of the first, shifted left by as many places as the second
/// has digits, plus the value of the second.
pub proof fn lemma_numeral_value_concat(front: Seq<char>, back: Seq<char>, radix: nat)
    ensures
        numeral_value(front + back, radix) == numeral_value(front, radix) * pow(
            radix as int,
            back.len(),
        ) + numeral_value(back, radix),
    decreases back.len(),
{
    let r: int = radix as int;
    if back.len() == 0 {
        lemma_pow0(r);
    } else {
        let shorter = back.drop_last();
        assert((front + back).drop_last() =~= front + shorter);
        lemma_numeral_value_concat(front, shorter, radix);
        lemma_pow_adds(r, shorter.len(), 1);
        lemma_pow1(r);
        let a: int = numeral_value(front, radix) as int;
        let b: int = numeral_value(shorter, radix) as int;
        let p: int = pow(r, shorter.len());
        assert((a * p + b) * r == a * (p * r) + b * r) by (nonlinear_arith);
    }
}

/// Reading more digits never makes the value smaller: the value of the first
/// `n` digits is at most the value of the whole text.
pub proof fn lemma_prefix_value_bounded(digits: Seq<char>, radix: nat, n: int)
    requires
        radix >= 1,
        0 <= n <= digits.len(),
    ensures
        numeral_value(digits.take(n), radix) <= numeral_value(digits, radix),
    decreases digits.len() - n,
{
    if n == digits.len() {
        assert(digits.take(n) =~= digits);
    } else {
        let front = digits.drop_last();
        assert(front.take(n) =~= digits.take(n));
        lemma_prefix_value_bounded(front, radix, n);
        assert(numeral_value(front, radix) * radix >= numeral_value(front, radix))
            by (nonlinear_arith)
            requires
                radix >= 1,
        ;
    }
}

impl InputFormat {
    /// The value of `c` as a digit of this base, or `None` if it is none.
    pub fn digit(&self, c: char) -> (value: Option<u32>)
        ensures
            match value {
                Some(d) => self.accepts(c) && d == digit_value(c),
                None => !self.accepts(c),
            },
    {
        if !self.is_valid_char(c) {
            None
        } else if c >= '0' && c <= '9' {
            Some(c as u32 - '0' as u32)
        } else if c >= 'a' && c <= 'f' {
            Some(c as u32 - 'a' as u32 + 10)
        } else {
            Some(c as u32 - 'A' as u32 + 10)
        }
    }
}

/// What parsing `text` as a numeral of `base` gives: `InvalidDigit` if any
/// character is no digit of the base, wherever it stands; else `Overflow` if
/// the value of the digits needs more than 128 bits; else the value.
pub open spec fn parsed(text: Seq<char>, base: InputFormat) -> Result<u128, ParseError> {
    if !base.accepts_all(text) {
        Err(ParseError::InvalidDigit)
    } else if numeral_value(text, base.base()) > u128::MAX {
        Err(ParseError::Overflow)
    } else {
        Ok(numeral_value(text, base.base()) as u128)
    }
}

/// A text of digits of the base whose value fits in 128 bits parses to that
/// value.
pub proof fn lemma_digits_parse_to_their_value(text: Seq<char>, base: InputFormat)
    requires
        base.accepts_all(text),
        numeral_value(text, base.base()) <= u128::MAX,
    ensures
        parsed(text, base) == Ok::<u128, ParseError>(numeral_value(text, base.base()) as u128),
{
}

/// A text with a character that is no digit of the base fails with
/// `InvalidDigit`, whatever else it holds.
pub proof fn lemma_rejected_character_fails(text: Seq<char>, base: InputFormat, at: int)
    requires
        0 <= at < text.len(),
        !base.accepts(text[at]),
    ensures
        parsed(text, base) == Err::<u128, ParseError>(ParseError::InvalidDigit),
{
}

/// Parses `text` as a numeral of the given base.
///
/// The result is the value of the digits if all characters are digits of the
/// base and the value fits in 128 bits. Any character that is no digit of the
/// base gives `InvalidDigit`, wherever it stands; digits alone whose value
/// does not fit give `Overflow`.
///
/// An empty text is no numeral: the caller tells "nothing typed" apart
/// before it asks for a parse.
pub fn parse_numeral(text: &str, base: InputFormat) -> (result: Result<u128, ParseError>)
    requires
        text@.len() > 0,
    ensures
        result == parsed(text@, base),
{
    let radix: u128 = base.radix() as u128;
    let mut value: u128 = 0;
    let mut fits: bool = true;
    let ghost mut excess: int = 0;
    for c in it: text.chars()
        invariant
            it.seq() == text@,
            radix == base.base(),
            forall|j: int| 0 <= j < it.index() ==> base.accepts(#[trigger] text@[j]),
            fits ==> value == numeral_value(text@.take(it.index() as int), radix as nat),
            !fits ==> 0 <= excess <= it.index() && numeral_value(text@.take(excess), radix as nat)
                > u128::MAX,
    {
        let ghost at: int = it.index() as int;
        match base.digit(c) {
            None => {
                return Err(ParseError::InvalidDigit);
            },
            Some(d) => {
                if fits {
                    proof {
                        assert(text@.take(at + 1).drop_last() =~= text@.take(at));
                    }
                    let next: Option<u128> = match value.checked_mul(radix) {
                        Some(shifted) => shifted.checked_add(d as u128),
                        None => None,
                    };
                    match next {
                        Some(n) => {
                            value = n;
                        },
                        None => {
                            fits = false;
                            proof {
                                excess = at + 1;
                            }
                        },
                    }
                }
            },
        }
    }
    proof {
        assert(text@.take(text@.len() as int) =~= text@);
        if !fits {
            lemma_prefix_value_bounded(text@, radix as nat, excess);
        }
    }
    if fits {
        Ok(value)
    } else {
        Err(ParseError::Overflow)
    }
}

} // verus!
