//! Natural numbers written in decimal, as ASCII bytes.

use vstd::prelude::*;

verus! {

/// The byte is one of the ASCII digits `0` to `9`.
pub open spec fn is_digit(b: u8) -> bool {
    48 <= b <= 57
}

/// Every byte of `s` is an ASCII digit.
pub open spec fn all_digits(s: Seq<u8>) -> bool {
    forall|i: int| 0 <= i < s.len() ==> is_digit(#[trigger] s[i])
}

/// The number that the digits `s` write, the most significant first; zero for
/// no digit at all.
pub open spec fn digits_value(s: Seq<u8>) -> nat
    decreases s.len(),
{
    if s.len() == 0 {
        0
    } else {
        (digits_value(s.drop_last()) * 10 + (s.last() - 48)) as nat
    }
}

/// The number that `s` writes as an unsigned decimal: an optional `+`, then
/// one digit or more and nothing else.
pub open spec fn unsigned_value(s: Seq<u8>) -> Option<nat> {
    let body = if s.len() > 0 && s[0] == 43 {
        s.skip(1)
    } else {
        s
    };
    if body.len() > 0 && all_digits(body) {
        Some(digits_value(body))
    } else {
        None
    }
}

/// The number, where there is one and a `usize` can hold it.
pub open spec fn as_usize(value: Option<nat>) -> Option<usize> {
    match value {
        Some(n) => if n <= usize::MAX {
            Some(n as usize)
        } else {
            None
        },
        None => None,
    }
}

/// The digits of `n`, the most significant first and without leading zeros.
pub open spec fn decimal(n: nat) -> Seq<u8>
    decreases n,
{
    if n < 10 {
        seq![(48 + n) as u8]
    } else {
        decimal(n / 10).push((48 + n % 10) as u8)
    }
}

/// Digits that are followed by more digits write a number that is no larger.
pub proof fn prefix_value_is_smaller(s: Seq<u8>, k: int)
    requires
        0 <= k <= s.len(),
        all_digits(s),
    ensures
        digits_value(s.take(k)) <= digits_value(s),
    decreases s.len(),
{
    if k == s.len() {
        assert(s.take(k) == s);
    } else {
        assert(s.drop_last().take(k) == s.take(k));
        assert(is_digit(s[s.len() - 1]));
        assert forall|i: int| 0 <= i < s.drop_last().len() implies is_digit(
            #[trigger] s.drop_last()[i],
        ) by {
            assert(s.drop_last()[i] == s[i]);
        }
        prefix_value_is_smaller(s.drop_last(), k);
    }
}

/// What is written with `decimal` is read back by `unsigned_value`.
pub proof fn decimal_round_trip(n: nat)
    ensures
        decimal(n).len() > 0,
        all_digits(decimal(n)),
        digits_value(decimal(n)) == n,
        unsigned_value(decimal(n)) == Some(n),
    decreases n,
{
    if n < 10 {
        let s = decimal(n);
        assert(s.drop_last().len() == 0);
        assert(digits_value(s.drop_last()) == 0);
    } else {
        decimal_round_trip(n / 10);
        let s = decimal(n);
        assert(s.drop_last() == decimal(n / 10));
        assert(s[0] == decimal(n / 10)[0]);
    }
}

/// Reads the bytes of `text` from index `from` up to `to` as one run of
/// digits.
pub(crate) fn parse_digits(text: &[u8], from: usize, to: usize) -> (value: Option<usize>)
    requires
        from <= to <= text@.len(),
    ensures
        value == (if from < to && all_digits(text@.subrange(from as int, to as int)) {
            as_usize(Some(digits_value(text@.subrange(from as int, to as int))))
        } else {
            None
        }),
{
    if from == to {
        return None;
    }
    let ghost whole = text@.subrange(from as int, to as int);
    let mut acc: usize = 0;
    let mut i: usize = from;
    while i < to
        invariant
            from <= i <= to <= text@.len(),
            whole == text@.subrange(from as int, to as int),
            all_digits(text@.subrange(from as int, i as int)),
            acc == digits_value(text@.subrange(from as int, i as int)),
        decreases to - i,
    {
        let b: u8 = text[i];
        if b < 48 || b > 57 {
            assert(whole[i - from] == b);
            return None;
        }
        let ghost read = text@.subrange(from as int, i + 1);
        proof {
            assert(read.drop_last() == text@.subrange(from as int, i as int));
            assert(read.last() == b);
            assert forall|j: int| 0 <= j < read.len() implies is_digit(#[trigger] read[j]) by {
                if j < read.len() - 1 {
                    assert(read[j] == text@.subrange(from as int, i as int)[j]);
                }
            }
            assert(whole.take(i + 1 - from) == read);
            if all_digits(whole) {
                prefix_value_is_smaller(whole, i + 1 - from);
            }
        }
        let digit: usize = (b - 48) as usize;
        let tens: usize = match acc.checked_mul(10) {
            Some(tens) => tens,
            None => {
                return None;
            },
        };
        acc = match tens.checked_add(digit) {
            Some(sum) => sum,
            None => {
                return None;
            },
        };
        i += 1;
    }
    Some(acc)
}

/// Reads `text` as an unsigned decimal number: an optional `+`, then one
/// digit or more. The answer is `None` where `text` is anything else, and
/// where the number is too large for a `usize`.
pub fn parse_usize(text: &[u8]) -> (value: Option<usize>)
    ensures
        value == as_usize(unsigned_value(text@)),
{
    let from: usize = if text.len() > 0 && text[0] == 43 {
        1
    } else {
        0
    };
    assert(text@.subrange(from as int, text@.len() as int) == if from == 1 {
        text@.skip(1)
    } else {
        text@
    });
    parse_digits(text, from, text.len())
}

/// Appends the decimal digits of `n` to `out`.
pub fn push_decimal(out: &mut Vec<u8>, n: usize)
    ensures
        final(out)@ == old(out)@ + decimal(n as nat),
    decreases n,
{
    if n >= 10 {
        push_decimal(out, n / 10);
    }
    let digit: u8 = (n % 10) as u8;
    out.push(48 + digit);
    assert(final(out)@ == old(out)@ + decimal(n as nat));
}

} // verus!
