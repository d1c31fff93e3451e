use vstd::prelude::*;
use vstd::string::*;

verus! {

/// The character of a decimal digit `d` (for `0 <= d < 10`).
pub open spec fn digit_char(d: nat) -> char {
    if d == 0 { '0' }
    else if d == 1 { '1' }
    else if d == 2 { '2' }
    else if d == 3 { '3' }
    else if d == 4 { '4' }
    else if d == 5 { '5' }
    else if d == 6 { '6' }
    else if d == 7 { '7' }
    else if d == 8 { '8' }
    else { '9' }
}

/// The decimal notation of a natural number, most significant digit first,
/// without leading zeros (zero is written `0`).
pub open spec fn decimal(n: nat) -> Seq<char>
    decreases n,
{
    if n < 10 {
        seq![digit_char(n)]
    } else {
        decimal(n / 10) + seq![digit_char(n % 10)]
    }
}

/// The decimal notation of an integer: a `-` before the digits of its
/// magnitude when it is negative.
pub open spec fn signed_decimal(n: int) -> Seq<char> {
    if n < 0 {
        seq!['-'] + decimal((-n) as nat)
    } else {
        decimal(n as nat)
    }
}

fn digit_str(d: u64) -> (s: &'static str)
    requires
        d < 10,
    ensures
        s@ == seq![digit_char(d as nat)],
{
    proof {
        reveal_strlit("0");
        reveal_strlit("1");
        reveal_strlit("2");
        reveal_strlit("3");
        reveal_strlit("4");
        reveal_strlit("5");
        reveal_strlit("6");
        reveal_strlit("7");
        reveal_strlit("8");
        reveal_strlit("9");
    }
    if d == 0 { "0" }
    else if d == 1 { "1" }
    else if d == 2 { "2" }
    else if d == 3 { "3" }
    else if d == 4 { "4" }
    else if d == 5 { "5" }
    else if d == 6 { "6" }
    else if d == 7 { "7" }
    else if d == 8 { "8" }
    else { "9" }
}

/// Writes `n` in decimal, as `Display` does for unsigned integers.
pub fn u64_to_decimal(n: u64) -> (s: String)
    ensures
        s@ == decimal(n as nat),
    decreases n,
{
    if n < 10 {
        String::from_str(digit_str(n))
    } else {
        let mut s = u64_to_decimal(n / 10);
        s.append(digit_str(n % 10));
        s
    }
}

/// Writes `n` in decimal, as `Display` does for `usize`.
pub fn usize_to_decimal(n: usize) -> (s: String)
    ensures
        s@ == decimal(n as nat),
{
    u64_to_decimal(n as u64)
}

/// Writes `n` in decimal with a leading `-` when negative, as `Display`
/// does for `i32`.
pub fn i32_to_decimal(n: i32) -> (s: String)
    ensures
        s@ == signed_decimal(n as int),
{
    if n < 0 {
        let magnitude: u64 = (0i64 - (n as i64)) as u64;
        let digits = u64_to_decimal(magnitude);
        proof {
            reveal_strlit("-");
        }
        let s = String::from_str("-").concat(digits.as_str());
        s
    } else {
        u64_to_decimal(n as u64)
    }
}

/// `c` is a decimal digit.
pub open spec fn is_digit(c: char) -> bool {
    '0' <= c && c <= '9'
}

proof fn digit_char_injective(d: nat, e: nat)
    requires
        d < 10,
        e < 10,
    ensures
        is_digit(digit_char(d)),
        digit_char(d) == digit_char(e) ==> d == e,
{
}

/// The decimal notation of a number is a non-empty run of digits, of
/// length one exactly for numbers below ten.
pub proof fn decimal_is_digits(n: nat)
    ensures
        decimal(n).len() >= 1,
        n >= 10 ==> decimal(n).len() >= 2,
        forall|i: int| 0 <= i < decimal(n).len() ==> is_digit(#[trigger] decimal(n)[i]),
    decreases n,
{
    if n < 10 {
        digit_char_injective(n, n);
    } else {
        decimal_is_digits(n / 10);
        digit_char_injective(n % 10, n % 10);
        assert forall|i: int| 0 <= i < decimal(n).len() implies is_digit(#[trigger] decimal(n)[i]) by {
            if i < decimal(n / 10).len() {
                assert(decimal(n)[i] == decimal(n / 10)[i]);
            }
        }
    }
}

/// Different numbers have different decimal notations.
pub proof fn decimal_injective(m: nat, n: nat)
    requires
        decimal(m) == decimal(n),
    ensures
        m == n,
    decreases m,
{
    decimal_is_digits(m);
    decimal_is_digits(n);
    if m < 10 && n < 10 {
        assert(decimal(m)[0] == digit_char(m));
        assert(decimal(n)[0] == digit_char(n));
        digit_char_injective(m, n);
    } else if m >= 10 && n >= 10 {
        let dm = decimal(m);
        let k = dm.len() - 1;
        assert(dm[k] == digit_char(m % 10));
        assert(decimal(n)[k] == digit_char(n % 10));
        digit_char_injective(m % 10, n % 10);
        assert(decimal(m / 10) =~= dm.subrange(0, k));
        assert(decimal(n / 10) =~= decimal(n).subrange(0, k));
        decimal_injective(m / 10, n / 10);
        assert(m / 10 == n / 10);
        assert(m % 10 == n % 10);
        assert(m == 10 * (m / 10) + m % 10);
        assert(n == 10 * (n / 10) + n % 10);
    } else {
        assert(decimal(m).len() != decimal(n).len());
    }
}

/// Different integers have different signed decimal notations; the
/// notation of a negative number starts with `-`, that of any other with a
/// digit.
pub proof fn signed_decimal_injective(a: int, b: int)
    ensures
        signed_decimal(a).len() >= 1,
        a < 0 ==> signed_decimal(a)[0] == '-',
        a >= 0 ==> is_digit(signed_decimal(a)[0]),
        signed_decimal(a) == signed_decimal(b) ==> a == b,
{
    if a < 0 {
        decimal_is_digits((-a) as nat);
    } else {
        decimal_is_digits(a as nat);
    }
    if b < 0 {
        decimal_is_digits((-b) as nat);
    } else {
        decimal_is_digits(b as nat);
    }
    if signed_decimal(a) == signed_decimal(b) {
        let sa = signed_decimal(a);
        if a < 0 && b < 0 {
            assert(decimal((-a) as nat) =~= sa.subrange(1, sa.len() as int));
            assert(decimal((-b) as nat) =~= signed_decimal(b).subrange(1, sa.len() as int));
            decimal_injective((-a) as nat, (-b) as nat);
        } else if a >= 0 && b >= 0 {
            decimal_injective(a as nat, b as nat);
        } else if a < 0 {
            assert(sa[0] == '-');
            assert(is_digit(signed_decimal(b)[0]));
        } else {
            assert(signed_decimal(b)[0] == '-');
            assert(is_digit(sa[0]));
        }
    }
}

/// The number that a run of decimal digits denotes, most significant digit
/// first.
pub open spec fn digits_value(s: Seq<char>) -> int
    decreases s.len(),
{
    if s.len() == 0 {
        0
    } else {
        10 * digits_value(s.drop_last()) + (s.last() as int - '0' as int)
    }
}

/// The decimal notation of `n` denotes `n`.
pub proof fn decimal_value(n: nat)
    ensures
        digits_value(decimal(n)) == n,
    decreases n,
{
    if n < 10 {
        assert(decimal(n).drop_last() =~= Seq::<char>::empty());
        assert(digits_value(Seq::<char>::empty()) == 0);
    } else {
        decimal_value(n / 10);
        assert(decimal(n).drop_last() =~= decimal(n / 10));
        assert(decimal(n).last() == digit_char(n % 10));
        assert(n == 10 * (n / 10) + n % 10);
    }
}

/// The signed decimal notation of `a` is a `-` and the digits of `-a` when
/// `a` is negative, and the digits of `a` otherwise.
pub proof fn signed_decimal_value(a: int)
    ensures
        a < 0 ==> signed_decimal(a)[0] == '-' && digits_value(signed_decimal(a).drop_first()) == -a,
        a >= 0 ==> digits_value(signed_decimal(a)) == a,
{
    if a < 0 {
        decimal_value((-a) as nat);
        assert(signed_decimal(a).drop_first() =~= decimal((-a) as nat));
    } else {
        decimal_value(a as nat);
    }
}

} // verus!
