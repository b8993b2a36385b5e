//! Decimal notation of natural numbers, as written by the counter display.
use vstd::prelude::*;

verus! {

/// The ASCII character of the decimal digit `d`.
pub open spec fn digit_char(d: nat) -> char
    recommends
        d < 10,
{
    ((d + 48) as u32) as char
}

/// The canonical decimal notation of `n`: no sign, no leading zeros, and the
/// single digit `0` for zero.
pub open spec fn decimal(n: nat) -> Seq<char>
    decreases n,
{
    if n < 10 {
        seq![digit_char(n)]
    } else {
        decimal(n / 10).push(digit_char(n % 10))
    }
}

/// Whether `c` is one of the characters `0` to `9`.
pub open spec fn is_digit(c: char) -> bool {
    '0' <= c <= '9'
}

/// The number that a string of decimal digits denotes.
pub open spec fn value_of(s: Seq<char>) -> nat
    decreases s.len(),
{
    if s.len() == 0 {
        0
    } else {
        10 * value_of(s.drop_last()) + ((s.last() as u32) - 48) as nat
    }
}

/// The number of decimal digits of `n`.
pub open spec fn digit_count(n: nat) -> nat
    decreases n,
{
    if n < 10 {
        1
    } else {
        1 + digit_count(n / 10)
    }
}

proof fn lemma_digit_char(d: nat)
    requires
        d < 10,
    ensures
        is_digit(digit_char(d)),
        ((digit_char(d) as u32) - 48) as nat == d,
        d > 0 ==> digit_char(d) != '0',
{
}

/// The notation of `n` has `digit_count(n)` characters, all of them digits.
pub proof fn lemma_decimal_digits(n: nat)
    ensures
        decimal(n).len() == digit_count(n),
        forall|i: int| 0 <= i < decimal(n).len() ==> is_digit(#[trigger] decimal(n)[i]),
        vstd::utf8::is_ascii_chars(decimal(n)),
    decreases n,
{
    if n < 10 {
        lemma_digit_char(n);
    } else {
        lemma_decimal_digits(n / 10);
        lemma_digit_char(n % 10);
        let d = decimal(n);
        assert forall|i: int| 0 <= i < d.len() implies is_digit(#[trigger] d[i]) by {
            if i < d.len() - 1 {
                assert(d[i] == decimal(n / 10)[i]);
            }
        }
    }
}

/// A number below 2^32 has at most ten digits.
pub proof fn lemma_digit_count_u32(n: nat)
    requires
        n <= u32::MAX,
    ensures
        1 <= digit_count(n) <= 10,
{
    reveal_with_fuel(digit_count, 11);
}

/// The decimal notation is canonical: it reads back as the number itself, and
/// it starts with `0` only when it is the notation of zero.
pub proof fn decimal_is_canonical(n: nat)
    ensures
        decimal(n).len() >= 1,
        forall|i: int| 0 <= i < decimal(n).len() ==> is_digit(#[trigger] decimal(n)[i]),
        value_of(decimal(n)) == n,
        decimal(n)[0] == '0' <==> n == 0,
        n <= u32::MAX ==> decimal(n).len() <= 10,
    decreases n,
{
    lemma_decimal_digits(n);
    if n <= u32::MAX {
        lemma_digit_count_u32(n);
    }
    if n < 10 {
        lemma_digit_char(n);
        let s = decimal(n);
        assert(s.drop_last() =~= Seq::<char>::empty());
        assert(value_of(s) == 10 * value_of(s.drop_last()) + ((s.last() as u32) - 48) as nat);
    } else {
        decimal_is_canonical(n / 10);
        lemma_digit_char(n % 10);
        let s = decimal(n);
        assert(s.drop_last() =~= decimal(n / 10));
        assert(s[0] == decimal(n / 10)[0]);
        assert(s.last() == digit_char(n % 10));
        assert(value_of(s) == 10 * value_of(s.drop_last()) + ((s.last() as u32) - 48) as nat);
        assert(10 * (n / 10) + n % 10 == n);
    }
}

} // verus!
