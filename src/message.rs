use vstd::prelude::*;
use vstd::string::*;

use crate::ratio::Ratio;

verus! {

/// The title that every low-space alert carries.
pub const ALERT_TITLE: &'static str = "Low disk space";

/// The character of a decimal digit.
pub open spec fn digit_char(d: nat) -> char {
    if d == 0 {
        '0'
    } else if d == 1 {
        '1'
    } else if d == 2 {
        '2'
    } else if d == 3 {
        '3'
    } else if d == 4 {
        '4'
    } else if d == 5 {
        '5'
    } else if d == 6 {
        '6'
    } else if d == 7 {
        '7'
    } else if d == 8 {
        '8'
    } else {
        '9'
    }
}

/// The decimal digits of `n`, most significant first, without leading zeros.
pub open spec fn decimal(n: nat) -> Seq<char>
    decreases n,
{
    if n < 10 {
        seq![digit_char(n)]
    } else {
        decimal(n / 10).push(digit_char(n % 10))
    }
}

/// The ratio as a percentage in hundredths of a percent, rounded to the
/// nearest one, halves upwards.
pub open spec fn hundredths(r: Ratio) -> nat {
    ((20000 * r.part + r.whole) / (2 * r.whole as int)) as nat
}

/// The body of the alert for a free-space ratio: the percentage left, with
/// two decimals.
pub open spec fn alert_text(r: Ratio) -> Seq<char> {
    let h = hundredths(r);
    "Only "@ + decimal(h / 100) + "."@ + seq![digit_char((h / 10) % 10)] + seq![digit_char(
        h % 10,
    )] + "% left!"@
}

fn digit_str(d: u64) -> (r: &'static str)
    requires
        d < 10,
    ensures
        r@ == seq![digit_char(d as nat)],
{
    proof {
        reveal_strlit("0");
        reveal_strlit("1");
        reveal_strlit("2");
        reveal_strlit("3");
        reveal_strlit("4");
        reveal_strlit("5");
        reveal_strlit("6");
        reveal_strlit("7");
        reveal_strlit("8");
        reveal_strlit("9");
    }
    if d == 0 {
        "0"
    } else if d == 1 {
        "1"
    } else if d == 2 {
        "2"
    } else if d == 3 {
        "3"
    } else if d == 4 {
        "4"
    } else if d == 5 {
        "5"
    } else if d == 6 {
        "6"
    } else if d == 7 {
        "7"
    } else if d == 8 {
        "8"
    } else {
        "9"
    }
}

/// Appends the decimal digits of `n` to `s`.
pub fn push_decimal(s: &mut String, n: u64)
    ensures
        final(s)@ == old(s)@ + decimal(n as nat),
    decreases n,
{
    let ghost start = s@;
    if n >= 10 {
        push_decimal(s, n / 10);
    }
    s.append(digit_str(n % 10));
    proof {
        if n >= 10 {
            assert(start + decimal(n as nat / 10) + seq![digit_char(n as nat % 10)] =~= start
                + decimal(n as nat));
        } else {
            assert(start + seq![digit_char(n as nat % 10)] =~= start + decimal(n as nat));
        }
    }
}

/// The body of the alert for a free-space ratio, such as `Only 9.23% left!`.
pub fn alert_message(percentage: Ratio) -> (r: String)
    requires
        percentage.wf(),
    ensures
        r@ == alert_text(percentage),
{
    let (p, w) = (percentage.part as u128, percentage.whole as u128);
    let h: u128 = (20000 * p + w) / (2 * w);
    assert(h <= 10000) by (nonlinear_arith)
        requires
            h == (20000 * p + w) / (2 * w),
            p <= w,
            0 < w,
    {
        assert(20000 * p + w < 10001 * (2 * w));
    }
    let h = h as u64;
    let mut s = String::from_str("Only ");
    push_decimal(&mut s, h / 100);
    s.append(".");
    s.append(digit_str((h / 10) % 10));
    s.append(digit_str(h % 10));
    s.append("% left!");
    s
}

} // verus!
