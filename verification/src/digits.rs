use vstd::prelude::*;
use vstd::string::*;

verus! {

/// The character for one decimal digit.
pub open spec fn dec_digit(d: int) -> char {
    if d == 0 {
        '0'
    } else if d == 1 {
        '1'
    } else if d == 2 {
        '2'
    } else if d == 3 {
        '3'
    } else if d == 4 {
        '4'
    } else if d == 5 {
        '5'
    } else if d == 6 {
        '6'
    } else if d == 7 {
        '7'
    } else if d == 8 {
        '8'
    } else {
        '9'
    }
}

/// The decimal digits of a non-negative integer, most significant first,
/// with no leading zero except for zero itself.
pub open spec fn dec_nat(n: int) -> Seq<char>
    decreases n,
{
    if n < 10 {
        seq![dec_digit(n)]
    } else {
        dec_nat(n / 10).push(dec_digit(n % 10))
    }
}

/// The canonical decimal rendering of an integer: a minus sign before the
/// digits of the magnitude when it is negative.
pub open spec fn decimal_chars(n: int) -> Seq<char> {
    if n < 0 {
        seq!['-'] + dec_nat(-n)
    } else {
        dec_nat(n)
    }
}

/// The one-character string for a decimal digit.
fn digit_str(d: u64) -> (r: &'static str)
    requires
        d < 10,
    ensures
        r@ == seq![dec_digit(d as int)],
{
    let r: &'static str = if d == 0 {
        "0"
    } else if d == 1 {
        "1"
    } else if d == 2 {
        "2"
    } else if d == 3 {
        "3"
    } else if d == 4 {
        "4"
    } else if d == 5 {
        "5"
    } else if d == 6 {
        "6"
    } else if d == 7 {
        "7"
    } else if d == 8 {
        "8"
    } else {
        "9"
    };
    proof {
        reveal_strlit("0");
        reveal_strlit("1");
        reveal_strlit("2");
        reveal_strlit("3");
        reveal_strlit("4");
        reveal_strlit("5");
        reveal_strlit("6");
        reveal_strlit("7");
        reveal_strlit("8");
        reveal_strlit("9");
        assert(r@ =~= seq![dec_digit(d as int)]);
    }
    r
}

/// Appends the decimal digits of `n` to `s`.
fn append_dec_u64(s: &mut String, n: u64)
    ensures
        final(s)@ == old(s)@ + dec_nat(n as int),
    decreases n,
{
    let ghost s0 = s@;
    if n >= 10 {
        append_dec_u64(s, n / 10);
        s.append(digit_str(n % 10));
        proof {
            assert((n / 10) as int == n as int / 10);
            assert((n % 10) as int == n as int % 10);
            assert(s@ =~= s0 + dec_nat(n as int));
        }
    } else {
        s.append(digit_str(n));
        proof {
            assert(s@ =~= s0 + dec_nat(n as int));
        }
    }
}

/// The canonical decimal string of a signed 32-bit integer.
pub fn i32_decimal(n: i32) -> (s: String)
    ensures
        s@ == decimal_chars(n as int),
{
    let mut s = String::new();
    if n < 0 {
        s.append("-");
        let m: u64 = (-(n as i64)) as u64;
        append_dec_u64(&mut s, m);
        proof {
            reveal_strlit("-");
            assert(m as int == -(n as int));
            assert(s@ =~= decimal_chars(n as int));
        }
    } else {
        append_dec_u64(&mut s, n as u64);
        proof {
            assert(s@ =~= decimal_chars(n as int));
        }
    }
    s
}

} // verus!
