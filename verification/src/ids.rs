//! Payment identifiers: the text `payment_` followed by a counter in decimal.

use crate::text::{chars_of, matches_at};
use vstd::prelude::*;

verus! {

/// The character that stands for the decimal digit `d`.
pub open spec fn digit_char(d: nat) -> char {
    if d == 0 {
        '0'
    } else if d == 1 {
        '1'
    } else if d == 2 {
        '2'
    } else if d == 3 {
        '3'
    } else if d == 4 {
        '4'
    } else if d == 5 {
        '5'
    } else if d == 6 {
        '6'
    } else if d == 7 {
        '7'
    } else if d == 8 {
        '8'
    } else {
        '9'
    }
}

/// The decimal digit that `c` stands for; 0 for any other character.
pub open spec fn digit_value(c: char) -> nat {
    if c == '1' {
        1
    } else if c == '2' {
        2
    } else if c == '3' {
        3
    } else if c == '4' {
        4
    } else if c == '5' {
        5
    } else if c == '6' {
        6
    } else if c == '7' {
        7
    } else if c == '8' {
        8
    } else if c == '9' {
        9
    } else {
        0
    }
}

/// `n` written in decimal, without leading zeros.
pub open spec fn decimal(n: nat) -> Seq<char>
    decreases n,
{
    if n < 10 {
        seq![digit_char(n)]
    } else {
        decimal(n / 10).push(digit_char(n % 10))
    }
}

/// The number that a run of decimal digits stands for.
pub open spec fn decimal_value(s: Seq<char>) -> nat
    decreases s.len(),
{
    if s.len() == 0 {
        0
    } else {
        decimal_value(s.drop_last()) * 10 + digit_value(s.last())
    }
}

/// The text before the number in every payment identifier.
pub open spec fn id_prefix() -> Seq<char> {
    "payment_"@
}

/// The identifier of the `n`-th payment.
pub open spec fn payment_id(n: nat) -> Seq<char> {
    id_prefix() + decimal(n)
}

/// Reading back the decimal form of a number gives that number.
pub proof fn lemma_decimal_value(n: nat)
    ensures
        decimal_value(decimal(n)) == n,
        decimal(n).len() >= 1,
    decreases n,
{
    if n < 10 {
        assert(decimal_value(decimal(n).drop_last()) == 0);
    } else {
        lemma_decimal_value(n / 10);
        assert(decimal(n).drop_last() =~= decimal(n / 10));
    }
}

/// Two numbers with the same decimal form are equal.
pub proof fn lemma_decimal_injective(a: nat, b: nat)
    requires
        decimal(a) == decimal(b),
    ensures
        a == b,
{
    lemma_decimal_value(a);
    lemma_decimal_value(b);
}

/// Two payments with the same identifier are the same payment.
pub proof fn lemma_payment_id_injective(a: nat, b: nat)
    requires
        payment_id(a) == payment_id(b),
    ensures
        a == b,
{
    let p = id_prefix();
    assert(payment_id(a).subrange(p.len() as int, payment_id(a).len() as int) =~= decimal(a));
    assert(payment_id(b).subrange(p.len() as int, payment_id(b).len() as int) =~= decimal(b));
    lemma_decimal_injective(a, b);
}

/// `c` is one of the ten decimal digits.
pub open spec fn is_digit(c: char) -> bool {
    digit_char(digit_value(c)) == c
}

/// `s` is a number in decimal as `decimal` writes it: at least one digit,
/// digits only, and no zero in front of another digit.
pub open spec fn canonical(s: Seq<char>) -> bool {
    &&& s.len() >= 1
    &&& forall|i: int| 0 <= i < s.len() ==> is_digit(#[trigger] s[i])
    &&& s.len() > 1 ==> s[0] != '0'
}

/// The decimal form of a number is canonical.
pub proof fn lemma_decimal_canonical(n: nat)
    ensures
        canonical(decimal(n)),
        n >= 10 ==> decimal(n).len() > 1,
    decreases n,
{
    if n >= 10 {
        lemma_decimal_canonical(n / 10);
    }
}

/// A run of digits that does not start with a zero stands for a positive number.
proof fn lemma_value_positive(s: Seq<char>)
    requires
        s.len() >= 1,
        forall|i: int| 0 <= i < s.len() ==> is_digit(#[trigger] s[i]),
        s[0] != '0',
    ensures
        decimal_value(s) >= 1,
    decreases s.len(),
{
    if s.len() > 1 {
        let head = s.drop_last();
        assert(forall|i: int| 0 <= i < head.len() ==> is_digit(#[trigger] head[i]));
        lemma_value_positive(head);
    }
}

/// A canonical run of digits is the decimal form of the number it stands for.
pub proof fn lemma_canonical_is_decimal(s: Seq<char>)
    requires
        canonical(s),
    ensures
        decimal(decimal_value(s)) == s,
    decreases s.len(),
{
    let head = s.drop_last();
    let v = decimal_value(s);
    assert(is_digit(s.last()));
    if s.len() == 1 {
        assert(decimal_value(head) == 0);
    } else {
        assert(forall|i: int| 0 <= i < head.len() ==> is_digit(#[trigger] head[i]));
        lemma_value_positive(head);
        lemma_canonical_is_decimal(head);
        assert(v / 10 == decimal_value(head) && v % 10 == digit_value(s.last()));
    }
    assert(decimal(v) =~= s);
}

/// The number that a run of digits stands for is no less than the number that
/// any of its beginnings stands for.
proof fn lemma_value_grows(s: Seq<char>, k: int)
    requires
        0 <= k <= s.len(),
    ensures
        decimal_value(s.take(k)) <= decimal_value(s),
    decreases s.len() - k,
{
    if k < s.len() {
        lemma_value_grows(s, k + 1);
        assert(s.take(k + 1).drop_last() =~= s.take(k));
    } else {
        assert(s.take(k) =~= s);
    }
}

/// An identifier is the prefix followed by the decimal form of its number.
pub proof fn lemma_payment_id_parts(n: nat)
    ensures
        payment_id(n).len() == id_prefix().len() + decimal(n).len(),
        payment_id(n).subrange(0, id_prefix().len() as int) == id_prefix(),
        payment_id(n).subrange(id_prefix().len() as int, payment_id(n).len() as int) == decimal(n),
{
}

/// The decimal digit that a character stands for, if it is one.
fn digit_of(c: char) -> (d: Option<u64>)
    ensures
        match d {
            Some(v) => is_digit(c) && v == digit_value(c),
            None => !is_digit(c),
        },
{
    if c == '0' {
        Some(0)
    } else if c == '1' {
        Some(1)
    } else if c == '2' {
        Some(2)
    } else if c == '3' {
        Some(3)
    } else if c == '4' {
        Some(4)
    } else if c == '5' {
        Some(5)
    } else if c == '6' {
        Some(6)
    } else if c == '7' {
        Some(7)
    } else if c == '8' {
        Some(8)
    } else if c == '9' {
        Some(9)
    } else {
        None
    }
}

/// Reads a payment identifier back: the number `n` with `id == payment_id(n)`,
/// or none where `id` is the identifier of no payment that a counter can reach.
pub fn parse_payment_id(id: &str) -> (r: Option<u64>)
    ensures
        match r {
            Some(n) => id@ == payment_id(n as nat),
            None => forall|n: nat| n <= u64::MAX ==> payment_id(n) != id@,
        },
{
    let chars = chars_of(id);
    let prefix = chars_of("payment_");
    let len = chars.len();
    let start = prefix.len();
    if !matches_at(&chars, &prefix, 0) || len == start {
        assert forall|n: nat| payment_id(n) != id@ by {
            lemma_payment_id_parts(n);
            lemma_decimal_value(n);
        }
        return None;
    }
    let ghost digits = chars@.subrange(start as int, len as int);
    if chars[start] == '0' && len > start + 1 {
        assert forall|n: nat| payment_id(n) != id@ by {
            lemma_payment_id_parts(n);
            lemma_decimal_canonical(n);
        }
        return None;
    }
    let mut n: u64 = 0;
    let mut i: usize = start;
    while i < len
        invariant
            start <= i <= len,
            len == chars.len(),
            chars@ == id@,
            start == id_prefix().len(),
            digits == chars@.subrange(start as int, len as int),
            n == decimal_value(digits.take(i - start)),
            forall|k: int| 0 <= k < i - start ==> is_digit(#[trigger] digits[k]),
        decreases len - i,
    {
        assert(digits.take(i - start + 1).drop_last() =~= digits.take(i - start));
        let step = match digit_of(chars[i]) {
            None => None,
            Some(d) => match n.checked_mul(10) {
                None => None,
                Some(tens) => tens.checked_add(d),
            },
        };
        match step {
            Some(value) => {
                n = value;
            },
            None => {
                assert forall|m: nat| m <= u64::MAX implies payment_id(m) != id@ by {
                    lemma_payment_id_parts(m);
                    lemma_decimal_canonical(m);
                    lemma_decimal_value(m);
                    if payment_id(m) == id@ {
                        lemma_value_grows(digits, i - start + 1);
                    }
                }
                return None;
            },
        }
        i += 1;
    }
    proof {
        assert(digits.take(len - start) =~= digits);
        lemma_canonical_is_decimal(digits);
    }
    Some(n)
}

/// The character of one decimal digit.
fn digit(d: u64) -> (c: char)
    requires
        d < 10,
    ensures
        c == digit_char(d as nat),
{
    if d == 0 {
        '0'
    } else if d == 1 {
        '1'
    } else if d == 2 {
        '2'
    } else if d == 3 {
        '3'
    } else if d == 4 {
        '4'
    } else if d == 5 {
        '5'
    } else if d == 6 {
        '6'
    } else if d == 7 {
        '7'
    } else if d == 8 {
        '8'
    } else {
        '9'
    }
}

/// Appends `n` in decimal to `s`.
pub fn push_decimal(s: &mut String, n: u64)
    ensures
        final(s)@ == old(s)@ + decimal(n as nat),
    decreases n,
{
    if n >= 10 {
        push_decimal(s, n / 10);
    }
    s.push(digit(n % 10));
}

/// Takes the next number from the counter and returns its identifier.
///
/// Identifiers are numbered from 1 and never repeat: each call moves the
/// counter on by one.
pub fn generate_id(counter: &mut u64) -> (id: String)
    requires
        *old(counter) < u64::MAX,
    ensures
        *final(counter) == *old(counter) + 1,
        id@ == payment_id(*final(counter) as nat),
{
    *counter = *counter + 1;
    let mut id = "payment_".to_owned();
    push_decimal(&mut id, *counter);
    id
}

} // verus!
