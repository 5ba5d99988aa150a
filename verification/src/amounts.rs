//! Verified formatting of amounts in cents as European-style decimals:
//! thousands separated by `.`, two fractional digits after `,`, a leading
//! `-` for negative values and no currency symbol (`-1.234,56`).

use vstd::prelude::*;
use vstd::string::StringExecFns;

verus! {

/// The decimal digit character for `d` in `0..=9`.
pub open spec fn digit_char(d: int) -> char {
    if d == 0 {
        '0'
    } else if d == 1 {
        '1'
    } else if d == 2 {
        '2'
    } else if d == 3 {
        '3'
    } else if d == 4 {
        '4'
    } else if d == 5 {
        '5'
    } else if d == 6 {
        '6'
    } else if d == 7 {
        '7'
    } else if d == 8 {
        '8'
    } else {
        '9'
    }
}

/// The decimal digits of `n`, most significant first, no leading zeros
/// (a single `0` for zero).
pub open spec fn spec_digits(n: nat) -> Seq<char>
    decreases n,
{
    if n < 10 {
        seq![digit_char(n as int)]
    } else {
        spec_digits(n / 10).push(digit_char((n % 10) as int))
    }
}

/// Exactly three digits, zero-padded, for `n` in `0..1000`.
pub open spec fn spec_pad3(n: int) -> Seq<char> {
    seq![digit_char(n / 100), digit_char((n / 10) % 10), digit_char(n % 10)]
}

/// The digits of `n` with a `.` between each group of three.
pub open spec fn spec_grouped(n: nat) -> Seq<char>
    decreases n,
{
    if n < 1000 {
        spec_digits(n)
    } else {
        spec_grouped(n / 1000) + seq!['.'] + spec_pad3((n % 1000) as int)
    }
}

/// An amount of `v` cents formatted as a signed decimal with grouped euros,
/// a `,` and two cent digits.
pub open spec fn spec_format_amount(v: int) -> Seq<char> {
    let a = if v < 0 {
        -v
    } else {
        v
    };
    let sign: Seq<char> = if v < 0 {
        seq!['-']
    } else {
        Seq::empty()
    };
    sign + spec_grouped((a / 100) as nat) + seq![','] + seq![
        digit_char((a % 100) / 10),
        digit_char(a % 100 % 10),
    ]
}

pub(crate) fn digit_str(d: u64) -> (r: &'static str)
    requires
        d < 10,
    ensures
        r@ =~= seq![digit_char(d as int)],
{
    if d == 0 {
        proof {
            reveal_strlit("0");
        }
        "0"
    } else if d == 1 {
        proof {
            reveal_strlit("1");
        }
        "1"
    } else if d == 2 {
        proof {
            reveal_strlit("2");
        }
        "2"
    } else if d == 3 {
        proof {
            reveal_strlit("3");
        }
        "3"
    } else if d == 4 {
        proof {
            reveal_strlit("4");
        }
        "4"
    } else if d == 5 {
        proof {
            reveal_strlit("5");
        }
        "5"
    } else if d == 6 {
        proof {
            reveal_strlit("6");
        }
        "6"
    } else if d == 7 {
        proof {
            reveal_strlit("7");
        }
        "7"
    } else if d == 8 {
        proof {
            reveal_strlit("8");
        }
        "8"
    } else {
        proof {
            reveal_strlit("9");
        }
        "9"
    }
}

pub(crate) fn digits_str(n: u64) -> (r: String)
    ensures
        r@ == spec_digits(n as nat),
    decreases n,
{
    if n < 10 {
        let r = digit_str(n).to_owned();
        proof {
            assert(r@ =~= spec_digits(n as nat));
        }
        r
    } else {
        let mut s = digits_str(n / 10);
        s.append(digit_str(n % 10));
        proof {
            assert(s@ =~= spec_digits(n as nat));
        }
        s
    }
}

fn grouped_str(n: u64) -> (r: String)
    ensures
        r@ == spec_grouped(n as nat),
    decreases n,
{
    if n < 1000 {
        digits_str(n)
    } else {
        let mut s = grouped_str(n / 1000);
        proof {
            reveal_strlit(".");
        }
        s.append(".");
        let rem = n % 1000;
        s.append(digit_str(rem / 100));
        s.append(digit_str((rem / 10) % 10));
        s.append(digit_str(rem % 10));
        proof {
            assert(s@ =~= spec_grouped(n as nat));
        }
        s
    }
}

/// The decimal digits of a signed integer, `-` first when negative.
pub open spec fn spec_int_digits(v: int) -> Seq<char> {
    if v < 0 {
        seq!['-'] + spec_digits((-v) as nat)
    } else {
        spec_digits(v as nat)
    }
}

/// Formats a signed integer in plain decimal.
pub fn int_str(v: i64) -> (r: String)
    ensures
        r@ == spec_int_digits(v as int),
{
    if v < 0 {
        let a: u64 = (-(v as i128)) as u64;
        proof {
            reveal_strlit("-");
        }
        let mut s = String::from_str("-");
        let ds = digits_str(a);
        s.append(ds.as_str());
        proof {
            assert(s@ =~= spec_int_digits(v as int));
        }
        s
    } else {
        digits_str(v as u64)
    }
}

/// Formats a magnitude of `a` cents (no sign).
pub(crate) fn format_abs_cents(a: u64) -> (r: String)
    ensures
        r@ == spec_format_amount(a as int),
{
    let mut s = grouped_str(a / 100);
    proof {
        reveal_strlit(",");
    }
    s.append(",");
    let cents = a % 100;
    s.append(digit_str(cents / 10));
    s.append(digit_str(cents % 10));
    proof {
        assert(s@ =~= spec_format_amount(a as int));
    }
    s
}

/// Formats `v` cents as `spec_format_amount` describes, e.g. `-1.234,56`.
pub fn format_amount_eu(v: i64) -> (r: String)
    ensures
        r@ == spec_format_amount(v as int),
{
    if v < 0 {
        let a: u64 = (-(v as i128)) as u64;
        proof {
            reveal_strlit("-");
        }
        let mut s = String::from_str("-");
        let abs = format_abs_cents(a);
        s.append(abs.as_str());
        proof {
            assert(s@ =~= spec_format_amount(v as int));
        }
        s
    } else {
        format_abs_cents(v as u64)
    }
}

} // verus!
