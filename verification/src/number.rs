//! Decimal numbers: writing and reading them.
use vstd::prelude::*;
use vstd::string::*;

use crate::text::chars_of;

verus! {

/// The character of a decimal digit.
pub open spec fn digit_char(d: nat) -> char {
    ('0' as u32 + d) as char
}

/// Whether a character is a decimal digit.
pub open spec fn is_digit(c: char) -> bool {
    '0' <= c <= '9'
}

/// The value of a decimal digit.
pub open spec fn digit_value(c: char) -> nat {
    (c as u32 - '0' as u32) as nat
}

/// The decimal form of a number, without leading zeros.
pub open spec fn decimal(n: nat) -> Seq<char>
    decreases n,
{
    if n < 10 {
        seq![digit_char(n)]
    } else {
        decimal(n / 10).push(digit_char(n % 10))
    }
}

/// Whether a text consists of decimal digits.
pub open spec fn all_digits(s: Seq<char>) -> bool {
    forall|i: int| 0 <= i < s.len() ==> is_digit(#[trigger] s[i])
}

/// The number that a text of decimal digits stands for.
pub open spec fn digits_value(s: Seq<char>) -> nat
    decreases s.len(),
{
    if s.len() == 0 {
        0
    } else {
        digits_value(s.drop_last()) * 10 + digit_value(s.last())
    }
}

/// A text without one leading plus sign.
pub open spec fn without_plus(s: Seq<char>) -> Seq<char> {
    if s.len() > 0 && s[0] == '+' {
        s.skip(1)
    } else {
        s
    }
}

/// The number written in `s`: digits with an optional plus sign before them,
/// and a value of at most 64 bits.
pub open spec fn number_in(s: Seq<char>) -> Option<u64> {
    let body = without_plus(s);
    if body.len() > 0 && all_digits(body) && digits_value(body) <= u64::MAX {
        Some(digits_value(body) as u64)
    } else {
        None
    }
}

proof fn lemma_digits_value_grows(s: Seq<char>, k: int)
    requires
        0 <= k <= s.len(),
    ensures
        digits_value(s.take(k)) <= digits_value(s),
    decreases s.len() - k,
{
    if k == s.len() {
        assert(s.take(k) =~= s);
    } else {
        assert(s.take(k + 1).drop_last() =~= s.take(k));
        lemma_digits_value_grows(s, k + 1);
    }
}

/// Reads a decimal number.
pub fn parse_u64(s: &str) -> (r: Option<u64>)
    ensures
        r == number_in(s@),
{
    let chars = chars_of(s);
    let mut i: usize = 0;
    if chars.len() > 0 && chars[0] == '+' {
        i = 1;
    }
    let ghost body = without_plus(s@);
    let ghost start = i as int;
    assert(body =~= s@.skip(start));
    if i == chars.len() {
        return None;
    }
    let mut value: u64 = 0;
    assert(body.take(0) =~= Seq::<char>::empty());
    while i < chars.len()
        invariant
            0 <= start <= i <= chars@.len(),
            chars@ == s@,
            body == s@.skip(start),
            body == without_plus(s@),
            body.len() > 0,
            value == digits_value(body.take(i - start)),
            forall|j: int| 0 <= j < i - start ==> is_digit(#[trigger] body[j]),
        decreases chars.len() - i,
    {
        let c = chars[i];
        assert(c == body[i - start]);
        if !('0' <= c && c <= '9') {
            assert(!is_digit(body[i - start]));
            return None;
        }
        let d: u64 = (c as u32 - '0' as u32) as u64;
        proof {
            assert(body.take(i - start + 1).drop_last() =~= body.take(i - start));
            lemma_digits_value_grows(body, i - start + 1);
        }
        if value > (u64::MAX - d) / 10 {
            return None;
        }
        value = value * 10 + d;
        i += 1;
    }
    assert(body.take(body.len() as int) =~= body);
    Some(value)
}

/// Writes a number in decimal.
pub fn format_u128(n: u128) -> (r: String)
    ensures
        r@ == decimal(n as nat),
{
    let mut digits: Vec<char> = Vec::new();
    let mut rest: u128 = n;
    while rest >= 10
        invariant
            decimal(n as nat) == decimal(rest as nat) + digits@.reverse(),
        decreases rest,
    {
        let d: u8 = (rest % 10) as u8;
        let c: char = ('0' as u8 + d) as char;
        let ghost before = digits@;
        digits.push(c);
        proof {
            let n2 = rest as nat;
            assert(decimal(n2) == decimal(n2 / 10).push(digit_char(n2 % 10)));
            assert(digits@.reverse() =~= seq![c] + before.reverse());
            assert(decimal(n2) + before.reverse() =~= decimal(n2 / 10) + digits@.reverse());
        }
        rest = rest / 10;
    }
    let d: u8 = rest as u8;
    let c: char = ('0' as u8 + d) as char;
    let mut r = String::new();
    r.push(c);
    let mut i: usize = digits.len();
    assert(digits@.reverse().take(0) =~= Seq::<char>::empty());
    while i > 0
        invariant
            i <= digits@.len(),
            r@ == seq![c] + digits@.reverse().take(digits@.len() - i),
        decreases i,
    {
        i -= 1;
        r.push(digits[i]);
        assert(digits@.reverse()[digits@.len() - i - 1] == digits@[i as int]);
        assert(r@ =~= seq![c] + digits@.reverse().take(digits@.len() - i));
    }
    assert(digits@.reverse().take(digits@.len() as int) =~= digits@.reverse());
    r
}

/// Writes a 64-bit number in decimal.
pub fn format_u64(n: u64) -> (r: String)
    ensures
        r@ == decimal(n as nat),
{
    format_u128(n as u128)
}

pub proof fn lemma_decimal_digits(n: nat)
    ensures
        decimal(n).len() > 0,
        all_digits(decimal(n)),
        digits_value(decimal(n)) == n,
    decreases n,
{
    if n < 10 {
        assert(decimal(n).drop_last() =~= Seq::<char>::empty());
        assert(digits_value(decimal(n).drop_last()) == 0);
    } else {
        lemma_decimal_digits(n / 10);
        assert(decimal(n).drop_last() =~= decimal(n / 10));
    }
}

/// Reading the decimal form of a number gives the number back.
pub proof fn law_decimal_reads_back(n: u64)
    ensures
        number_in(decimal(n as nat)) == Some(n),
{
    lemma_decimal_digits(n as nat);
    assert(is_digit(decimal(n as nat)[0]));
    assert(without_plus(decimal(n as nat)) == decimal(n as nat));
}

} // verus!
