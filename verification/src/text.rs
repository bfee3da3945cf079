use vstd::prelude::*;
use vstd::string::StringExecFns;

verus! {

/// The character of a decimal digit.
pub open spec fn digit_char(d: int) -> char {
    if d == 0 {
        '0'
    } else if d == 1 {
        '1'
    } else if d == 2 {
        '2'
    } else if d == 3 {
        '3'
    } else if d == 4 {
        '4'
    } else if d == 5 {
        '5'
    } else if d == 6 {
        '6'
    } else if d == 7 {
        '7'
    } else if d == 8 {
        '8'
    } else {
        '9'
    }
}

/// A natural number in decimal digits, without leading zeros.
pub open spec fn decimal(n: nat) -> Seq<char>
    decreases n,
{
    if n < 10 {
        seq![digit_char(n as int)]
    } else {
        decimal(n / 10).push(digit_char((n % 10) as int))
    }
}

/// A whole number in decimal digits, with a minus sign where it is negative.
pub open spec fn signed_decimal(n: int) -> Seq<char> {
    if n < 0 {
        seq!['-'] + decimal((-n) as nat)
    } else {
        decimal(n as nat)
    }
}

/// The digits of the fraction `f / (10 * unit)`, without trailing zeros; `unit`
/// is a power of ten and `f` is below `10 * unit`.
pub open spec fn fraction(f: nat, unit: nat) -> Seq<char>
    decreases unit,
{
    if f == 0 || unit == 0 {
        Seq::empty()
    } else {
        seq![digit_char((f / unit) as int)] + fraction(f % unit, unit / 10)
    }
}

/// A fixed-point number of millionths in decimal notation: a minus sign where it
/// is negative, the whole part, and, where the rest is not 0, a point and the
/// digits of the rest without trailing zeros.
pub open spec fn fixed_decimal(m: int) -> Seq<char> {
    let magnitude = if m < 0 {
        -m
    } else {
        m
    };
    let sign = if m < 0 {
        seq!['-']
    } else {
        Seq::empty()
    };
    let whole = decimal((magnitude / 1_000_000) as nat);
    let rest = (magnitude % 1_000_000) as nat;
    if rest == 0 {
        sign + whole
    } else {
        sign + whole + seq!['.'] + fraction(rest, 100_000)
    }
}

/// Returns the text of a decimal digit.
fn digit_text(d: u64) -> (text: &'static str)
    requires
        d < 10,
    ensures
        text@ == seq![digit_char(d as int)],
{
    proof {
        reveal_strlit("0");
        reveal_strlit("1");
        reveal_strlit("2");
        reveal_strlit("3");
        reveal_strlit("4");
        reveal_strlit("5");
        reveal_strlit("6");
        reveal_strlit("7");
        reveal_strlit("8");
        reveal_strlit("9");
    }
    let text = if d == 0 {
        "0"
    } else if d == 1 {
        "1"
    } else if d == 2 {
        "2"
    } else if d == 3 {
        "3"
    } else if d == 4 {
        "4"
    } else if d == 5 {
        "5"
    } else if d == 6 {
        "6"
    } else if d == 7 {
        "7"
    } else if d == 8 {
        "8"
    } else {
        "9"
    };
    text
}

/// Appends a natural number in decimal digits.
pub fn push_decimal(out: &mut String, n: u64)
    ensures
        final(out)@ == old(out)@ + decimal(n as nat),
    decreases n,
{
    if n < 10 {
        out.append(digit_text(n));
    } else {
        push_decimal(out, n / 10);
        out.append(digit_text(n % 10));
    }
}

/// Appends a whole number in decimal digits.
pub fn push_signed_decimal(out: &mut String, n: i64)
    ensures
        final(out)@ == old(out)@ + signed_decimal(n as int),
{
    if n < 0 {
        proof {
            reveal_strlit("-");
        }
        out.append("-");
        let magnitude: u64 = (-(n as i128)) as u64;
        push_decimal(out, magnitude);
    } else {
        push_decimal(out, n as u64);
    }
}

/// Whether a number is a power of ten.
pub open spec fn power_of_ten(unit: nat) -> bool
    decreases unit,
{
    unit == 1 || (unit >= 10 && unit % 10 == 0 && power_of_ten(unit / 10))
}

/// Appends the digits of a fraction, without trailing zeros.
fn push_fraction(out: &mut String, f: u64, unit: u64)
    requires
        f == 0 || f < 10 * unit,
        f == 0 || power_of_ten(unit as nat),
    ensures
        final(out)@ == old(out)@ + fraction(f as nat, unit as nat),
    decreases unit,
{
    if f != 0 && unit != 0 {
        assert(f / unit < 10) by (nonlinear_arith)
            requires
                unit > 0,
                f < 10 * unit,
        ;
        out.append(digit_text(f / unit));
        push_fraction(out, f % unit, unit / 10);
    }
}

/// Appends a fixed-point number of millionths in decimal notation.
pub fn push_fixed_decimal(out: &mut String, m: i64)
    ensures
        final(out)@ == old(out)@ + fixed_decimal(m as int),
{
    let magnitude: u64 = if m < 0 {
        (-(m as i128)) as u64
    } else {
        m as u64
    };
    if m < 0 {
        proof {
            reveal_strlit("-");
        }
        out.append("-");
    }
    push_decimal(out, magnitude / 1_000_000);
    let rest: u64 = magnitude % 1_000_000;
    if rest != 0 {
        proof {
            reveal_strlit(".");
        }
        out.append(".");
        assert(power_of_ten(100_000)) by {
            reveal_with_fuel(power_of_ten, 7);
        }
        push_fraction(out, rest, 100_000);
    }
}

} // verus!
