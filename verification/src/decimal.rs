//! Decimal integers as text: the reading that `str::parse::<i32>` performs,
//! stated and proved here.

use vstd::prelude::*;

verus! {

/// A character among `0` to `9`.
pub open spec fn is_decimal_digit(c: char) -> bool {
    '0' <= c && c <= '9'
}

/// The value of a decimal digit.
pub open spec fn digit_value(c: char) -> int {
    (c as int) - ('0' as int)
}

/// Every character is a decimal digit.
pub open spec fn all_decimal_digits(s: Seq<char>) -> bool {
    forall|i: int| 0 <= i < s.len() ==> is_decimal_digit(#[trigger] s[i])
}

/// The number that a string of decimal digits writes, most significant digit first.
pub open spec fn digits_value(s: Seq<char>) -> int
    decreases s.len(),
{
    if s.len() == 0 {
        0
    } else {
        digits_value(s.drop_last()) * 10 + digit_value(s.last())
    }
}

/// Splits an optional leading sign off a text: whether it was `-`, and what follows it.
pub open spec fn sign_and_digits(s: Seq<char>) -> (bool, Seq<char>) {
    if s.len() > 0 && s[0] == '-' {
        (true, s.drop_first())
    } else if s.len() > 0 && s[0] == '+' {
        (false, s.drop_first())
    } else {
        (false, s)
    }
}

/// The `i32` that a text writes: an optional `+` or `-` sign followed by one
/// or more decimal digits and nothing else, whose value lies in the range of
/// `i32`. Any other text writes none.
pub open spec fn decimal_i32(s: Seq<char>) -> Option<i32> {
    let (negative, digits) = sign_and_digits(s);
    let magnitude = digits_value(digits);
    let value = if negative {
        -magnitude
    } else {
        magnitude
    };
    if digits.len() == 0 || !all_decimal_digits(digits) || value < i32::MIN || value > i32::MAX {
        None
    } else {
        Some(value as i32)
    }
}

/// The number a text writes, or zero where it writes none.
pub open spec fn decimal_i32_or_zero(s: Seq<char>) -> i32 {
    match decimal_i32(s) {
        Some(v) => v,
        None => 0,
    }
}

proof fn lemma_digits_value_nonnegative(s: Seq<char>)
    requires
        all_decimal_digits(s),
    ensures
        digits_value(s) >= 0,
    decreases s.len(),
{
    if s.len() > 0 {
        assert(is_decimal_digit(s[s.len() - 1]));
        lemma_digits_value_nonnegative(s.drop_last());
    }
}

/// A string of digits writes at least what any of its prefixes writes.
proof fn lemma_digits_value_of_prefix(s: Seq<char>, k: int)
    requires
        all_decimal_digits(s),
        0 <= k <= s.len(),
    ensures
        digits_value(s.subrange(0, k)) <= digits_value(s),
    decreases s.len(),
{
    if k < s.len() {
        let rest = s.drop_last();
        assert(all_decimal_digits(rest)) by {
            assert forall|i: int| 0 <= i < rest.len() implies is_decimal_digit(#[trigger] rest[i]) by {
                assert(rest[i] == s[i]);
            }
        }
        lemma_digits_value_of_prefix(rest, k);
        assert(rest.subrange(0, k) =~= s.subrange(0, k));
        lemma_digits_value_nonnegative(rest);
        assert(is_decimal_digit(s[s.len() - 1]));
    } else {
        assert(s.subrange(0, k) =~= s);
    }
}

/// A single digit reads as its value.
pub proof fn law_single_digit(c: char)
    requires
        is_decimal_digit(c),
    ensures
        decimal_i32(seq![c]) == Some(((c as int) - ('0' as int)) as i32),
{
    let t = seq![c];
    assert(t[0] == c);
    assert(t.drop_last() =~= Seq::<char>::empty());
    assert(sign_and_digits(t).1 =~= t);
    assert(all_decimal_digits(t)) by {
        assert forall|i: int| 0 <= i < t.len() implies is_decimal_digit(#[trigger] t[i]) by {
            assert(i == 0);
        }
    }
    assert(digits_value(t.drop_last()) == 0);
    assert(t.last() == c);
    assert(digits_value(t) == digit_value(c));
}

/// Appending a digit to an unsigned number multiplies it by ten and adds the
/// digit, as long as the result fits in an `i32`; once it does not, the text
/// reads as no number.
pub proof fn law_appending_a_digit(s: Seq<char>, c: char)
    requires
        s.len() > 0,
        is_decimal_digit(s[0]),
        decimal_i32(s) is Some,
        is_decimal_digit(c),
    ensures
        ({
            let value = decimal_i32(s)->0 * 10 + ((c as int) - ('0' as int));
            if value <= i32::MAX {
                decimal_i32(s.push(c)) == Some(value as i32)
            } else {
                decimal_i32(s.push(c)) is None
            }
        }),
{
    let t = s.push(c);
    assert(sign_and_digits(s).1 =~= s);
    assert(sign_and_digits(t).1 =~= t);
    assert(t.drop_last() =~= s);
    assert(all_decimal_digits(t)) by {
        assert forall|i: int| 0 <= i < t.len() implies is_decimal_digit(#[trigger] t[i]) by {
            if i < s.len() {
                assert(t[i] == s[i]);
            }
        }
    }
    lemma_digits_value_nonnegative(s);
}

/// A leading `-` negates the number that follows it, and a leading `+` keeps
/// it, for every unsigned number below the largest `i32`.
pub proof fn law_sign(s: Seq<char>)
    requires
        s.len() > 0,
        is_decimal_digit(s[0]),
        decimal_i32(s) is Some,
    ensures
        decimal_i32(seq!['-'] + s) == Some((-(decimal_i32(s)->0 as int)) as i32),
        decimal_i32(seq!['+'] + s) == decimal_i32(s),
{
    assert(sign_and_digits(s).1 =~= s);
    assert((seq!['-'] + s).drop_first() =~= s);
    assert((seq!['+'] + s).drop_first() =~= s);
    assert((seq!['-'] + s)[0] == '-');
    assert((seq!['+'] + s)[0] == '+');
    lemma_digits_value_nonnegative(s);
}

/// Text that holds any character other than a digit, past an optional leading
/// sign, reads as no number; so does a bare sign or no text at all.
pub proof fn law_only_digits_read(s: Seq<char>, i: int)
    requires
        0 <= i < s.len(),
        !is_decimal_digit(s[i]),
        i > 0 || (s[0] != '-' && s[0] != '+'),
    ensures
        decimal_i32(s) is None,
        decimal_i32(Seq::<char>::empty()) is None,
        decimal_i32(seq!['-']) is None,
        decimal_i32(seq!['+']) is None,
{
    let digits = sign_and_digits(s).1;
    if s[0] == '-' || s[0] == '+' {
        assert(digits[i - 1] == s[i]);
    } else {
        assert(digits[i] == s[i]);
    }
    assert(seq!['-'].drop_first().len() == 0);
    assert(seq!['+'].drop_first().len() == 0);
}

/// Reads an `i32` written in decimal, as `str::parse::<i32>` does.
pub fn parse_i32(s: &str) -> (parsed: Option<i32>)
    ensures
        parsed == decimal_i32(s@),
{
    let n = s.unicode_len();
    let mut start: usize = 0;
    let mut negative = false;
    if n > 0 {
        let c = s.get_char(0);
        if c == '-' {
            negative = true;
            start = 1;
        } else if c == '+' {
            start = 1;
        }
    }
    let ghost digits = sign_and_digits(s@).1;
    assert(digits =~= s@.subrange(start as int, n as int));
    assert(negative == sign_and_digits(s@).0);
    if start == n {
        return None;
    }
    let mut magnitude: u64 = 0;
    let mut i: usize = start;
    while i < n
        invariant
            n == s@.len(),
            start <= i <= n,
            start < n,
            digits == s@.subrange(start as int, n as int),
            negative == sign_and_digits(s@).0,
            digits == sign_and_digits(s@).1,
            all_decimal_digits(s@.subrange(start as int, i as int)),
            magnitude == digits_value(s@.subrange(start as int, i as int)),
            magnitude <= 0x8000_0000,
        decreases n - i,
    {
        let c = s.get_char(i);
        let ghost done = s@.subrange(start as int, i as int);
        let ghost next = s@.subrange(start as int, i + 1);
        assert(next.drop_last() =~= done);
        assert(next.last() == c);
        if c < '0' || c > '9' {
            assert(digits[i - start] == c);
            assert(!all_decimal_digits(digits));
            return None;
        }
        let d = (c as u32 - '0' as u32) as u64;
        assert(d == digit_value(c));
        magnitude = magnitude * 10 + d;
        assert(all_decimal_digits(next)) by {
            assert forall|j: int| 0 <= j < next.len() implies is_decimal_digit(#[trigger] next[j]) by {
                if j < done.len() {
                    assert(next[j] == done[j]);
                }
            }
        }
        if magnitude > 0x8000_0000 {
            proof {
                if all_decimal_digits(digits) {
                    assert(next =~= digits.subrange(0, i + 1 - start));
                    lemma_digits_value_of_prefix(digits, i + 1 - start);
                }
            }
            return None;
        }
        i = i + 1;
    }
    assert(s@.subrange(start as int, n as int) =~= digits);
    if negative {
        let v: i64 = 0 - (magnitude as i64);
        Some(v as i32)
    } else if magnitude > 0x7fff_ffff {
        None
    } else {
        Some(magnitude as i32)
    }
}

} // verus!
