//! Non-negative decimal numbers in fixed point, read from plain decimal text.

use vstd::prelude::*;
use vstd::string::*;

verus! {

/// A non-negative decimal number: `units` divided by ten to the power `scale`.
#[derive(Debug, Clone, Copy, PartialEq, Eq, Structural)]
pub struct Decimal {
    pub units: u64,
    pub scale: u32,
}

/// The exact product of two [`Decimal`]s, in the same representation with
/// room for every product.
#[derive(Debug, Clone, Copy, PartialEq, Eq, Structural)]
pub struct Notional {
    pub units: u128,
    pub scale: u64,
}

pub open spec fn is_digit(c: char) -> bool {
    '0' <= c && c <= '9'
}

pub open spec fn digit_value(c: char) -> nat {
    (c as u32 - '0' as u32) as nat
}

/// How many digits `text` holds.
pub open spec fn digit_count(text: Seq<char>) -> nat
    decreases text.len(),
{
    if text.len() == 0 {
        0
    } else {
        digit_count(text.drop_last()) + if is_digit(text.last()) {
            1nat
        } else {
            0nat
        }
    }
}

/// How many decimal points `text` holds.
pub open spec fn point_count(text: Seq<char>) -> nat
    decreases text.len(),
{
    if text.len() == 0 {
        0
    } else {
        point_count(text.drop_last()) + if text.last() == '.' {
            1nat
        } else {
            0nat
        }
    }
}

/// The number that the digits of `text` spell, read left to right; any
/// other character is passed over.
pub open spec fn digits_value(text: Seq<char>) -> nat
    decreases text.len(),
{
    if text.len() == 0 {
        0
    } else if is_digit(text.last()) {
        digits_value(text.drop_last()) * 10 + digit_value(text.last())
    } else {
        digits_value(text.drop_last())
    }
}

/// How many digits follow the first decimal point of `text`; 0 without one.
pub open spec fn fraction_digits(text: Seq<char>) -> nat
    decreases text.len(),
{
    if text.len() == 0 {
        0
    } else if point_count(text.drop_last()) > 0 && is_digit(text.last()) {
        fraction_digits(text.drop_last()) + 1
    } else {
        fraction_digits(text.drop_last())
    }
}

/// `text` is a plain decimal numeral: digits with at most one decimal point
/// among them, at least one digit, no sign and no exponent.
pub open spec fn is_plain_decimal(text: Seq<char>) -> bool {
    &&& forall|i: int| 0 <= i < text.len() ==> is_digit(#[trigger] text[i]) || text[i] == '.'
    &&& point_count(text) <= 1
    &&& digit_count(text) >= 1
}

/// The number that `text` denotes, where it is a plain decimal numeral whose
/// digits fit the representation.
pub open spec fn decimal_of_text(text: Seq<char>) -> Option<Decimal> {
    if is_plain_decimal(text) && digits_value(text) <= u64::MAX && fraction_digits(text)
        <= u32::MAX {
        Some(Decimal { units: digits_value(text) as u64, scale: fraction_digits(text) as u32 })
    } else {
        None
    }
}

proof fn lemma_counts_of_prefix(text: Seq<char>, k: int)
    requires
        0 <= k <= text.len(),
    ensures
        point_count(text.take(k)) <= point_count(text),
        digit_count(text.take(k)) <= digit_count(text),
        digits_value(text.take(k)) <= digits_value(text),
        fraction_digits(text.take(k)) <= fraction_digits(text),
    decreases text.len() - k,
{
    if k < text.len() {
        lemma_counts_of_prefix(text, k + 1);
        assert(text.take(k + 1).drop_last() =~= text.take(k));
        assert(digits_value(text.take(k)) * 10 >= digits_value(text.take(k))) by (nonlinear_arith);
    } else {
        assert(text.take(k) =~= text);
    }
}

impl Decimal {
    /// Reads a plain decimal numeral such as `"43250.5"`, `"7"`, `".25"` or
    /// `"3."`. `None` for any other text, and for a numeral whose digits
    /// do not fit 64 bits.
    pub fn parse(text: &str) -> (parsed: Option<Decimal>)
        ensures
            parsed == decimal_of_text(text@),
    {
        if !text.is_ascii() {
            proof {
                if is_plain_decimal(text@) {
                    assert forall|i: int| 0 <= i < text@.len() implies '\0' <= #[trigger] text@[i]
                        <= '\u{7f}' by {
                        assert(is_digit(text@[i]) || text@[i] == '.');
                    }
                }
            }
            return None;
        }
        let bytes = text.as_bytes();
        proof {
            is_ascii_spec_bytes(text);
        }
        let n: usize = bytes.len();
        let ghost chars = text@;
        let mut units: u64 = 0;
        let mut scale: u32 = 0;
        let mut points: u8 = 0;
        let mut digits: bool = false;
        let mut i: usize = 0;
        while i < n
            invariant
                i <= n,
                chars == text@,
                n == chars.len(),
                bytes@.len() == n,
                forall|k: int| 0 <= k < n ==> bytes@[k] == chars[k] as u8,
                forall|k: int| 0 <= k < n ==> '\0' <= #[trigger] chars[k] <= '\u{7f}',
                forall|k: int| 0 <= k < i ==> is_digit(#[trigger] chars[k]) || chars[k] == '.',
                points <= 1,
                points == point_count(chars.take(i as int)),
                digits == (digit_count(chars.take(i as int)) >= 1),
                units == digits_value(chars.take(i as int)),
                scale == fraction_digits(chars.take(i as int)),
            decreases n - i,
        {
            let b: u8 = bytes[i];
            let ghost c = chars[i as int];
            proof {
                assert(chars.take(i + 1).drop_last() =~= chars.take(i as int));
                assert(chars.take(i + 1).last() == c);
                lemma_counts_of_prefix(chars, i + 1);
                assert(b == c as u8);
                assert('\0' <= c <= '\u{7f}');
            }
            if b == 46 {
                assert(c == '.');
                if points == 1 {
                    return None;
                }
                points = 1;
            } else if 48 <= b && b <= 57 {
                assert(is_digit(c));
                assert(digit_value(c) == (b - 48) as nat);
                let d: u64 = (b - 48) as u64;
                if units > (u64::MAX - d) / 10 {
                    return None;
                }
                units = units * 10 + d;
                if points == 1 {
                    if scale == u32::MAX {
                        return None;
                    }
                    scale = scale + 1;
                }
                digits = true;
            } else {
                assert(!is_digit(c) && c != '.');
                return None;
            }
            i += 1;
        }
        proof {
            assert(chars.take(n as int) =~= chars);
        }
        if digits {
            Some(Decimal { units, scale })
        } else {
            None
        }
    }

    /// The exact product of two decimals.
    pub fn times(&self, other: &Decimal) -> (product: Notional)
        ensures
            product.units == self.units * other.units,
            product.scale == self.scale + other.scale,
    {
        let a: u128 = self.units as u128;
        let b: u128 = other.units as u128;
        assert(a * b <= u128::MAX) by (nonlinear_arith)
            requires
                a <= u64::MAX,
                b <= u64::MAX,
        ;
        Notional { units: a * b, scale: self.scale as u64 + other.scale as u64 }
    }
}

} // verus!
