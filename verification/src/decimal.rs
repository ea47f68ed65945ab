//! Unsigned decimal numbers as text: reading and writing.

use vstd::prelude::*;
use crate::candidate::{all_numeric, is_decimal_digit};
use crate::text::chars_of;

verus! {

/// The value of the decimal digit `c`.
pub open spec fn digit_value(c: char) -> nat {
    (c as int - '0' as int) as nat
}

/// The decimal digit of value `d`, for `d < 10`.
pub open spec fn digit_char(d: nat) -> char {
    ('0' as int + d) as char
}

/// The number that the digits `s` write, the most significant first.
pub open spec fn digits_value(s: Seq<char>) -> nat
    decreases s.len(),
{
    if s.len() == 0 {
        0
    } else {
        digits_value(s.drop_last()) * 10 + digit_value(s.last())
    }
}

/// `s` without the one `+` that may stand in front of a number.
pub open spec fn unsigned_part(s: Seq<char>) -> Seq<char> {
    if s.len() > 0 && s[0] == '+' {
        s.drop_first()
    } else {
        s
    }
}

/// What `s` says as a `u32`: an optional `+`, then one or more decimal
/// digits and nothing else, writing a number that fits.
pub open spec fn parsed_u32(s: Seq<char>) -> Option<u32> {
    let digits = unsigned_part(s);
    if digits.len() > 0 && all_numeric(digits) && digits_value(digits) <= u32::MAX {
        Some(digits_value(digits) as u32)
    } else {
        None
    }
}

/// The digits of `n`, the most significant first; none for zero.
pub open spec fn digits_of(n: nat) -> Seq<char>
    decreases n,
{
    if n == 0 {
        Seq::empty()
    } else {
        digits_of(n / 10).push(digit_char(n % 10))
    }
}

/// `n` written in decimal, without leading zeros.
pub open spec fn decimal(n: nat) -> Seq<char> {
    if n == 0 {
        seq!['0']
    } else {
        digits_of(n)
    }
}

/// A prefix of a digit string writes no larger a number than the whole.
pub proof fn lemma_prefix_value(s: Seq<char>, k: int)
    requires
        0 <= k <= s.len(),
    ensures
        digits_value(s.take(k)) <= digits_value(s),
    decreases s.len() - k,
{
    if k == s.len() {
        assert(s.take(k) =~= s);
    } else {
        lemma_prefix_value(s.drop_last(), k);
        assert(s.drop_last().take(k) =~= s.take(k));
    }
}

/// Reading what was written gives the number back.
pub proof fn lemma_digits_round_trip(n: nat)
    ensures
        all_numeric(digits_of(n)),
        digits_value(digits_of(n)) == n,
        all_numeric(decimal(n)),
        decimal(n).len() > 0,
        digits_value(decimal(n)) == n,
    decreases n,
{
    if n == 0 {
        assert(seq!['0'].drop_last() =~= Seq::<char>::empty());
        assert(digits_value(seq!['0']) == digits_value(Seq::<char>::empty()) * 10 + digit_value(
            '0',
        ));
    } else {
        lemma_digits_round_trip(n / 10);
        let front = digits_of(n / 10);
        let all = front.push(digit_char(n % 10));
        assert(all.drop_last() =~= front);
        assert(all.last() == digit_char(n % 10));
        assert(is_decimal_digit(digit_char(n % 10)));
        assert(digit_value(digit_char(n % 10)) == n % 10);
        assert forall|i: int| 0 <= i < all.len() implies is_decimal_digit(#[trigger] all[i]) by {
            if i < front.len() {
                assert(all[i] == front[i]);
            }
        }
    }
}

/// Reads `s` as a `u32`.
pub fn parse_u32(s: &str) -> (value: Option<u32>)
    ensures
        value == parsed_u32(s@),
{
    let chars = chars_of(s);
    let n: usize = chars.len();
    let start: usize = if n > 0 && chars[0] == '+' {
        1
    } else {
        0
    };
    if start == n {
        return None;
    }
    let ghost digits = unsigned_part(s@);
    assert(digits =~= chars@.subrange(start as int, n as int));
    let mut value: u64 = 0;
    let mut k: usize = start;
    while k < n
        invariant
            start <= k <= n == chars@.len(),
            digits == unsigned_part(s@),
            digits == chars@.subrange(start as int, n as int),
            all_numeric(digits.take(k - start)),
            value == digits_value(digits.take(k - start)),
            value <= u32::MAX,
        decreases n - k,
    {
        let c = chars[k];
        let ghost before = digits.take(k - start);
        let ghost after = digits.take(k - start + 1);
        proof {
            assert(digits[k - start] == c);
            assert(after.drop_last() =~= before);
            assert(after.last() == c);
        }
        if !('0' <= c && c <= '9') {
            assert(!all_numeric(digits));
            return None;
        }
        let d: u64 = (c as u32 - '0' as u32) as u64;
        assert(d == digit_value(c));
        value = value * 10 + d;
        proof {
            assert forall|i: int| 0 <= i < after.len() implies is_decimal_digit(
                #[trigger] after[i],
            ) by {
                if i < before.len() {
                    assert(after[i] == before[i]);
                }
            }
            lemma_prefix_value(digits, k - start + 1);
        }
        if value > 0xffff_ffff {
            return None;
        }
        k = k + 1;
    }
    assert(digits.take(n - start) =~= digits);
    Some(value as u32)
}

/// Writes `n` in decimal.
pub fn decimal_string(n: u64) -> (s: String)
    ensures
        s@ == decimal(n as nat),
{
    if n == 0 {
        let mut zero = String::new();
        zero.push('0');
        assert(zero@ =~= seq!['0']);
        return zero;
    }
    let mut low_first: Vec<char> = Vec::new();
    let mut rest: u64 = n;
    while rest > 0
        invariant
            digits_of(n as nat) == digits_of(rest as nat) + low_first@.reverse(),
        decreases rest,
    {
        let d: u8 = (rest % 10) as u8;
        let c: char = (48u8 + d) as char;
        assert(c == digit_char((rest % 10) as nat));
        proof {
            let grown = low_first@.push(c);
            assert(grown.reverse() =~= seq![c] + low_first@.reverse());
            assert(digits_of(rest as nat) == digits_of((rest / 10) as nat).push(c));
            assert(digits_of((rest / 10) as nat).push(c) + low_first@.reverse() =~= digits_of(
                (rest / 10) as nat,
            ) + grown.reverse());
        }
        low_first.push(c);
        rest = rest / 10;
    }
    assert(digits_of(0) + low_first@.reverse() =~= low_first@.reverse());
    let mut s = String::new();
    let mut k: usize = low_first.len();
    while k > 0
        invariant
            k <= low_first@.len(),
            s@ =~= low_first@.reverse().take(low_first@.len() - k),
        decreases k,
    {
        k = k - 1;
        s.push(low_first[k]);
    }
    assert(low_first@.reverse().take(low_first@.len() as int) =~= low_first@.reverse());
    s
}

} // verus!
