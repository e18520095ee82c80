//! Reading an unsigned integer that the exchange sent as text.

use vstd::prelude::*;
use vstd::string::*;
use crate::error::{APIError, BianResult, Failure};
use crate::text::decimal;

verus! {

/// Whether a character is a decimal digit.
pub open spec fn is_digit(c: char) -> bool {
    '0' <= c <= '9'
}

/// The value of a string of decimal digits.
pub open spec fn digits_value(s: Seq<char>) -> nat
    decreases s.len(),
{
    if s.len() == 0 {
        0
    } else {
        digits_value(s.drop_last()) * 10 + (s.last() as nat - '0' as nat) as nat
    }
}

/// The digits of a numeral: the text without one leading `+`, if it has one.
pub open spec fn numeral_digits(s: Seq<char>) -> Seq<char> {
    if s.len() > 0 && s[0] == '+' {
        s.subrange(1, s.len() as int)
    } else {
        s
    }
}

/// The number that a text denotes: at least one decimal digit, after at most
/// one leading `+`, and nothing else. `None` for any other text.
pub open spec fn numeral_value(s: Seq<char>) -> Option<nat> {
    let digits = numeral_digits(s);
    if digits.len() > 0 && (forall|i: int|
        0 <= i < digits.len() ==> is_digit(#[trigger] digits[i])) {
        Some(digits_value(digits))
    } else {
        None
    }
}

/// The machine integer that a text denotes; `None` when the text is no
/// numeral or its value does not fit.
pub open spec fn parsed_usize(s: Seq<char>) -> Option<usize> {
    match numeral_value(s) {
        Some(n) => if n <= usize::MAX {
            Some(n as usize)
        } else {
            None
        },
        None => None,
    }
}

/// The message of the failure for a text that is no `usize`.
pub open spec fn not_usize_text(s: Seq<char>) -> Seq<char> {
    "invalid value: string \""@ + s + "\", expected a string representation as usize"@
}

/// A longer string of digits is worth at least as much as any of its
/// prefixes.
pub proof fn lemma_digits_value_grows(s: Seq<char>, k: int)
    requires
        0 <= k <= s.len(),
    ensures
        digits_value(s.take(k)) <= digits_value(s),
    decreases s.len(),
{
    if k == s.len() {
        assert(s.take(k) =~= s);
    } else {
        assert(s.drop_last().take(k) =~= s.take(k));
        lemma_digits_value_grows(s.drop_last(), k);
    }
}

/// Reads an unsigned integer from its decimal text, as the exchange sends
/// some of its counters. Fails with a decode failure that quotes the text
/// when it is no numeral or does not fit the machine's integers.
pub fn string_as_usize(text: &str) -> (res: BianResult<usize>)
    ensures
        match res {
            Ok(n) => parsed_usize(text@) == Some(n),
            Err(e) => parsed_usize(text@) is None && e@ == Failure::Decode(not_usize_text(text@)),
        },
{
    let len = text.unicode_len();
    let start: usize = if len > 0 && text.get_char(0) == '+' {
        1
    } else {
        0
    };
    let ghost digits = numeral_digits(text@);
    let mut ok = start < len;
    let mut value: usize = 0;
    let mut i: usize = start;
    while ok && i < len
        invariant
            start <= i <= len,
            len == text@.len(),
            digits == text@.subrange(start as int, len as int),
            digits == numeral_digits(text@),
            ok ==> forall|j: int| 0 <= j < i - start ==> is_digit(#[trigger] digits[j]),
            ok ==> value == digits_value(digits.take(i - start)),
            !ok ==> parsed_usize(text@) is None,
            ok ==> start < len,
        decreases len - i + if ok { 1int } else { 0int },
    {
        let c = text.get_char(i);
        proof {
            assert(digits.take(i - start + 1).drop_last() =~= digits.take(i - start));
        }
        if c < '0' || c > '9' {
            ok = false;
        } else {
            let d: usize = (c as u32 - 48) as usize;
            if value > (usize::MAX - d) / 10 {
                proof {
                    lemma_digits_value_grows(digits, i - start + 1);
                }
                ok = false;
            } else {
                value = value * 10 + d;
                i += 1;
            }
        }
    }
    if ok {
        proof {
            assert(digits.take(i - start) =~= digits);
        }
        Ok(value)
    } else {
        let mut message = String::from_str("invalid value: string \"");
        message.append(text);
        message.append("\", expected a string representation as usize");
        Err(APIError::DecodeError(message))
    }
}

/// The decimal numeral of a number has only digits, and their value is the
/// number.
pub proof fn lemma_decimal_digits(n: nat)
    ensures
        decimal(n).len() > 0,
        forall|i: int| 0 <= i < decimal(n).len() ==> is_digit(#[trigger] decimal(n)[i]),
        digits_value(decimal(n)) == n,
    decreases n,
{
    if n < 10 {
        assert(decimal(n).drop_last() =~= Seq::<char>::empty());
        assert(digits_value(Seq::<char>::empty()) == 0);
    } else {
        lemma_decimal_digits(n / 10);
        assert(decimal(n).drop_last() =~= decimal(n / 10));
    }
}

/// Reading undoes writing: the decimal numeral of a number denotes that
/// number.
pub proof fn lemma_numeral_round_trip(n: nat)
    ensures
        numeral_value(decimal(n)) == Some(n),
{
    lemma_decimal_digits(n);
}

} // verus!
