//! Decimal rendering of unsigned numbers, as it appears in endpoint paths and
//! in the messages of the service.

use vstd::prelude::*;

verus! {

/// The character of a decimal digit.
pub open spec fn digit_char(d: nat) -> char {
    if d == 0 { '0' }
    else if d == 1 { '1' }
    else if d == 2 { '2' }
    else if d == 3 { '3' }
    else if d == 4 { '4' }
    else if d == 5 { '5' }
    else if d == 6 { '6' }
    else if d == 7 { '7' }
    else if d == 8 { '8' }
    else { '9' }
}

/// Whether a character is one of `0` to `9`.
pub open spec fn is_digit(c: char) -> bool {
    '0' <= c && c <= '9'
}

/// The decimal rendering of `n`, most significant digit first, with no
/// leading zero.
pub open spec fn decimal(n: nat) -> Seq<char>
    decreases n,
{
    if n < 10 {
        seq![digit_char(n)]
    } else {
        decimal(n / 10).push(digit_char(n % 10))
    }
}

/// The value of a digit character: its distance from `0`.
pub open spec fn digit_value(c: char) -> int {
    c as int - '0' as int
}

/// The number a run of digits denotes in base ten, most significant first.
pub open spec fn digits_value(s: Seq<char>) -> int
    decreases s.len(),
{
    if s.len() == 0 {
        0
    } else {
        digits_value(s.drop_last()) * 10 + digit_value(s.last())
    }
}

/// `s` is how `n` is written in base ten: a non-empty run of digits whose
/// positional value is `n`, with no leading zero.
pub open spec fn is_decimal_text(s: Seq<char>, n: nat) -> bool {
    &&& s.len() >= 1
    &&& forall|i: int| 0 <= i < s.len() ==> is_digit(#[trigger] s[i])
    &&& digits_value(s) == n
    &&& (s[0] == '0' ==> s.len() == 1)
}

fn digit_str(d: u32) -> (s: &'static str)
    requires
        d < 10,
    ensures
        s@ == seq![digit_char(d as nat)],
{
    proof {
        reveal_strlit("0");
        reveal_strlit("1");
        reveal_strlit("2");
        reveal_strlit("3");
        reveal_strlit("4");
        reveal_strlit("5");
        reveal_strlit("6");
        reveal_strlit("7");
        reveal_strlit("8");
        reveal_strlit("9");
    }
    if d == 0 { "0" }
    else if d == 1 { "1" }
    else if d == 2 { "2" }
    else if d == 3 { "3" }
    else if d == 4 { "4" }
    else if d == 5 { "5" }
    else if d == 6 { "6" }
    else if d == 7 { "7" }
    else if d == 8 { "8" }
    else { "9" }
}

/// Renders `n` in decimal, as `{}` formats a `u32`.
pub fn u32_to_decimal(n: u32) -> (s: String)
    ensures
        s@ == decimal(n as nat),
        is_decimal_text(s@, n as nat),
    decreases n,
{
    proof {
        lemma_decimal_reads_back(n as nat);
    }
    if n < 10 {
        String::from_str(digit_str(n))
    } else {
        let mut s = u32_to_decimal(n / 10);
        s.append(digit_str(n % 10));
        s
    }
}

/// The rendering of `n` is `n` written in base ten: its digits read back as
/// `n` by place value, and it starts with `0` only for zero itself.
pub proof fn lemma_decimal_reads_back(n: nat)
    ensures
        is_decimal_text(decimal(n), n),
        n > 0 ==> decimal(n)[0] != '0',
    decreases n,
{
    lemma_decimal_digits(n);
    let d = decimal(n);
    if n < 10 {
        assert(d.drop_last() =~= Seq::<char>::empty());
        assert(digits_value(d.drop_last()) == 0);
        assert(digit_value(digit_char(n)) == n);
    } else {
        lemma_decimal_reads_back(n / 10);
        assert(d.drop_last() =~= decimal(n / 10));
        assert(d.last() == digit_char(n % 10));
        assert(digit_value(digit_char(n % 10)) == n % 10);
        assert(d[0] == decimal(n / 10)[0]);
        assert(n / 10 > 0);
    }
}

/// Every rendering is a non-empty run of digits.
pub proof fn lemma_decimal_digits(n: nat)
    ensures
        decimal(n).len() >= 1,
        forall|i: int| 0 <= i < decimal(n).len() ==> is_digit(#[trigger] decimal(n)[i]),
    decreases n,
{
    if n >= 10 {
        lemma_decimal_digits(n / 10);
    }
}

/// Two numbers with the same rendering are equal.
pub proof fn lemma_decimal_injective(a: nat, b: nat)
    ensures
        decimal(a) == decimal(b) ==> a == b,
    decreases a,
{
    if decimal(a) == decimal(b) {
        lemma_decimal_digits(a / 10);
        lemma_decimal_digits(b / 10);
        if a < 10 && b < 10 {
            assert(decimal(a)[0] == decimal(b)[0]);
        } else if a >= 10 && b >= 10 {
            assert(decimal(a).last() == decimal(b).last());
            assert(a % 10 == b % 10);
            assert(decimal(a).drop_last() =~= decimal(a / 10));
            assert(decimal(b).drop_last() =~= decimal(b / 10));
            lemma_decimal_injective(a / 10, b / 10);
        } else if a >= 10 {
            assert(decimal(a).len() >= 2);
        } else if b >= 10 {
            assert(decimal(b).len() >= 2);
        }
    }
}

/// A rendering followed by text that starts with a non-digit determines the
/// number: `decimal(a) + s == decimal(b) + t` with `s` and `t` starting with
/// non-digits implies `a == b` (and then `s == t`).
pub proof fn lemma_decimal_prefix_determines(a: nat, b: nat, s: Seq<char>, t: Seq<char>)
    requires
        s.len() >= 1,
        t.len() >= 1,
        !is_digit(s[0]),
        !is_digit(t[0]),
        decimal(a) + s == decimal(b) + t,
    ensures
        a == b,
        s == t,
{
    lemma_decimal_digits(a);
    lemma_decimal_digits(b);
    let la = decimal(a).len();
    let lb = decimal(b).len();
    if la < lb {
        assert((decimal(a) + s)[la as int] == s[0]);
        assert((decimal(b) + t)[la as int] == decimal(b)[la as int]);
    } else if lb < la {
        assert((decimal(b) + t)[lb as int] == t[0]);
        assert((decimal(a) + s)[lb as int] == decimal(a)[lb as int]);
    } else {
        assert(decimal(a) =~= (decimal(a) + s).subrange(0, la as int));
        assert(decimal(b) =~= (decimal(b) + t).subrange(0, lb as int));
        lemma_decimal_injective(a, b);
        assert(s =~= (decimal(a) + s).subrange(la as int, (decimal(a) + s).len() as int));
        assert(t =~= (decimal(b) + t).subrange(lb as int, (decimal(b) + t).len() as int));
    }
}

} // verus!
