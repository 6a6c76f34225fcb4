//! Decimal numerals and the compact single-unit duration labels.

use vstd::prelude::*;
use vstd::string::*;
use crate::time::{DAY_MS, HOUR_MS, MINUTE_MS};

verus! {

/// The numeral of a decimal digit.
pub open spec fn digit_char(d: nat) -> char {
    if d == 0 { '0' }
    else if d == 1 { '1' }
    else if d == 2 { '2' }
    else if d == 3 { '3' }
    else if d == 4 { '4' }
    else if d == 5 { '5' }
    else if d == 6 { '6' }
    else if d == 7 { '7' }
    else if d == 8 { '8' }
    else { '9' }
}

/// The decimal numeral of a natural number, without leading zeros.
pub open spec fn digits_of(n: nat) -> Seq<char>
    decreases n,
{
    if n < 10 {
        seq![digit_char(n)]
    } else {
        digits_of(n / 10) + seq![digit_char(n % 10)]
    }
}

/// The decimal numeral of an integer, with a leading `-` when negative.
pub open spec fn decimal_of(n: int) -> Seq<char> {
    if n < 0 {
        seq!['-'] + digits_of((-n) as nat)
    } else {
        digits_of(n as nat)
    }
}

/// Integer division truncated toward zero, as chrono's `num_minutes` and
/// its kin compute whole units.
pub open spec fn div_trunc(a: int, b: int) -> int {
    if a >= 0 {
        a / b
    } else {
        -((-a) / b)
    }
}

/// The label of a span in milliseconds: whole minutes below an hour, whole
/// hours below a day, whole days otherwise, each truncated toward zero.
pub open spec fn duration_label(delta: int) -> Seq<char> {
    if delta < HOUR_MS {
        decimal_of(div_trunc(delta, MINUTE_MS as int)) + seq!['m']
    } else if delta < DAY_MS {
        decimal_of(div_trunc(delta, HOUR_MS as int)) + seq!['h']
    } else {
        decimal_of(div_trunc(delta, DAY_MS as int)) + seq!['d']
    }
}

fn digit_str(d: u64) -> (r: &'static str)
    requires
        d < 10,
    ensures
        r@ == seq![digit_char(d as nat)],
{
    proof {
        reveal_strlit("0");
        reveal_strlit("1");
        reveal_strlit("2");
        reveal_strlit("3");
        reveal_strlit("4");
        reveal_strlit("5");
        reveal_strlit("6");
        reveal_strlit("7");
        reveal_strlit("8");
        reveal_strlit("9");
    }
    let r = match d {
        0 => "0",
        1 => "1",
        2 => "2",
        3 => "3",
        4 => "4",
        5 => "5",
        6 => "6",
        7 => "7",
        8 => "8",
        _ => "9",
    };
    assert(r@ =~= seq![digit_char(d as nat)]);
    r
}

/// Appends the decimal numeral of `n` to `out`.
pub fn push_digits(out: &mut String, n: u64)
    ensures
        final(out)@ == old(out)@ + digits_of(n as nat),
    decreases n,
{
    if n >= 10 {
        push_digits(out, n / 10);
    }
    out.append(digit_str(n % 10));
    proof {
        assert(old(out)@ + digits_of(n as nat) =~= final(out)@);
    }
}

/// The decimal numeral of `n`, with a leading `-` when negative.
pub fn decimal(n: i64) -> (r: String)
    ensures
        r@ == decimal_of(n as int),
{
    let mut out = String::new();
    if n < 0 {
        proof { reveal_strlit("-"); }
        out.append("-");
        let m: u64 = if n == i64::MIN {
            9_223_372_036_854_775_808u64
        } else {
            (-n) as u64
        };
        push_digits(&mut out, m);
        assert(out@ =~= decimal_of(n as int));
    } else {
        push_digits(&mut out, n as u64);
        assert(out@ =~= decimal_of(n as int));
    }
    out
}

fn trunc_div(a: i64, b: i64) -> (r: i64)
    requires
        b > 0,
        a > i64::MIN,
    ensures
        r == div_trunc(a as int, b as int),
{
    if a >= 0 {
        a / b
    } else {
        -((-a) / b)
    }
}

/// The compact label of a span given in milliseconds: `"59m"`, `"1h"`, `"1d"`.
pub fn format_duration(delta: i64) -> (r: String)
    requires
        delta > i64::MIN,
    ensures
        r@ == duration_label(delta as int),
{
    let (n, unit) = if delta < HOUR_MS {
        (trunc_div(delta, MINUTE_MS), "m")
    } else if delta < DAY_MS {
        (trunc_div(delta, HOUR_MS), "h")
    } else {
        (trunc_div(delta, DAY_MS), "d")
    };
    let mut out = decimal(n);
    proof {
        reveal_strlit("m");
        reveal_strlit("h");
        reveal_strlit("d");
    }
    out.append(unit);
    assert(out@ =~= duration_label(delta as int));
    out
}

} // verus!
