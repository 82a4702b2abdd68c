//! Decimal rendering of unsigned integers, as written into MQTT payloads.

use vstd::prelude::*;
use vstd::string::StringExecFns;

verus! {

/// The ASCII character of the decimal digit `d` (for `0 <= d < 10`).
pub open spec fn digit_char(d: int) -> char {
    (d + 48) as char
}

/// Whether `c` is one of the ASCII characters `0` to `9`.
pub open spec fn is_digit_char(c: char) -> bool {
    48 <= c as int <= 57
}

/// The value of a decimal digit character.
pub open spec fn digit_value(c: char) -> int {
    c as int - 48
}

/// The shortest decimal representation of `n`, most significant digit first.
pub open spec fn decimal_chars(n: nat) -> Seq<char>
    decreases n,
{
    if n < 10 {
        seq![digit_char(n as int)]
    } else {
        decimal_chars(n / 10).push(digit_char((n % 10) as int))
    }
}

/// The number that a string of decimal digits denotes.
pub open spec fn digits_value(s: Seq<char>) -> int
    decreases s.len(),
{
    if s.len() == 0 {
        0
    } else {
        digits_value(s.drop_last()) * 10 + digit_value(s.last())
    }
}

/// The string of a single decimal digit.
fn digit_str(d: u64) -> (s: &'static str)
    requires
        d < 10,
    ensures
        s@ == seq![digit_char(d as int)],
{
    proof {
        reveal_strlit("0");
        reveal_strlit("1");
        reveal_strlit("2");
        reveal_strlit("3");
        reveal_strlit("4");
        reveal_strlit("5");
        reveal_strlit("6");
        reveal_strlit("7");
        reveal_strlit("8");
        reveal_strlit("9");
    }
    if d == 0 {
        "0"
    } else if d == 1 {
        "1"
    } else if d == 2 {
        "2"
    } else if d == 3 {
        "3"
    } else if d == 4 {
        "4"
    } else if d == 5 {
        "5"
    } else if d == 6 {
        "6"
    } else if d == 7 {
        "7"
    } else if d == 8 {
        "8"
    } else {
        "9"
    }
}

/// Renders `n` in decimal, without leading zeros.
pub fn u64_to_decimal(n: u64) -> (s: String)
    ensures
        s@ == decimal_chars(n as nat),
    decreases n,
{
    if n < 10 {
        String::from_str(digit_str(n))
    } else {
        let mut s = u64_to_decimal(n / 10);
        let d = digit_str(n % 10);
        s.append(d);
        assert(s@ =~= decimal_chars(n as nat));
        s
    }
}

/// Every rendering is a nonempty string of decimal digits without a
/// superfluous leading zero, and it denotes exactly the rendered number.
pub proof fn lemma_decimal_chars_denotes(n: nat)
    ensures
        decimal_chars(n).len() >= 1,
        (decimal_chars(n).len() == 1) == (n < 10),
        forall|i: int|
            0 <= i < decimal_chars(n).len() ==> is_digit_char(#[trigger] decimal_chars(n)[i]),
        decimal_chars(n).len() > 1 ==> decimal_chars(n)[0] != digit_char(0),
        digits_value(decimal_chars(n)) == n,
    decreases n,
{
    if n < 10 {
        let s = decimal_chars(n);
        assert(s.drop_last() =~= Seq::<char>::empty());
        assert(digits_value(s.drop_last()) == 0);
        assert((n as int + 48) as char as int == n + 48);
        assert(digit_value(s.last()) == n);
    } else {
        let q = n / 10;
        let r = n % 10;
        lemma_decimal_chars_denotes(q);
        let s = decimal_chars(n);
        assert(s.drop_last() =~= decimal_chars(q));
        assert((r as int + 48) as char as int == r + 48);
        assert(q * 10 + r == n);
        assert(s.last() == digit_char(r as int));
        assert(digit_value(s.last()) == r);
        assert(digits_value(s) == digits_value(s.drop_last()) * 10 + digit_value(s.last()));
        if decimal_chars(q).len() == 1 {
            assert(q >= 1);
            assert((q as int + 48) as char as int == q + 48);
            assert(s[0] == decimal_chars(q)[0]);
        } else {
            assert(s[0] == decimal_chars(q)[0]);
        }
        assert forall|i: int| 0 <= i < s.len() implies is_digit_char(#[trigger] s[i]) by {
            if i < s.len() - 1 {
                assert(s[i] == decimal_chars(q)[i]);
            }
        }
    }
}

/// Distinct numbers have distinct decimal renderings.
pub proof fn lemma_decimal_chars_injective(a: nat, b: nat)
    requires
        decimal_chars(a) == decimal_chars(b),
    ensures
        a == b,
{
    lemma_decimal_chars_denotes(a);
    lemma_decimal_chars_denotes(b);
}

} // verus!
