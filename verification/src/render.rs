//! Fixed-point decimal rendering.
//!
//! Every money and percentage quantity in this crate is carried as an
//! integer number of hundredths, and every user-visible number is rendered
//! with exactly two digits after the decimal point.  The functions here
//! turn such fixed-point values into their decimal text, and the spec
//! functions say exactly which character sequence comes out.

use vstd::prelude::*;

verus! {

/// The decimal digit character for `d` (`0 <= d <= 9`).
pub open spec fn spec_digit(d: int) -> char {
    if d == 0 {
        '0'
    } else if d == 1 {
        '1'
    } else if d == 2 {
        '2'
    } else if d == 3 {
        '3'
    } else if d == 4 {
        '4'
    } else if d == 5 {
        '5'
    } else if d == 6 {
        '6'
    } else if d == 7 {
        '7'
    } else if d == 8 {
        '8'
    } else {
        '9'
    }
}

/// Decimal rendering of a natural number, most significant digit first,
/// with no leading zeros (`0` renders as `"0"`).
pub open spec fn spec_decimal(n: nat) -> Seq<char>
    decreases n,
{
    if n < 10 {
        seq![spec_digit(n as int)]
    } else {
        spec_decimal(n / 10).push(spec_digit((n % 10) as int))
    }
}

/// Absolute value.
pub open spec fn spec_abs_int(v: int) -> int {
    if v < 0 {
        -v
    } else {
        v
    }
}

/// Rendering of a signed number of hundredths with exactly two digits
/// after the decimal point; a minus sign appears exactly when the value
/// is strictly negative.
pub open spec fn spec_fixed2(h: int) -> Seq<char> {
    (if h < 0 {
        seq!['-']
    } else {
        Seq::<char>::empty()
    }) + spec_decimal((spec_abs_int(h) / 100) as nat) + seq![
        '.',
        spec_digit((spec_abs_int(h) / 10) % 10),
        spec_digit(spec_abs_int(h) % 10),
    ]
}

/// Integer division that truncates toward zero, for a positive divisor.
pub open spec fn spec_trunc_div(v: int, d: int) -> int
    recommends
        d > 0,
{
    if v >= 0 {
        v / d
    } else {
        -((-v) / d)
    }
}

/// The volume-to-market-cap ratio, as hundredths of a percent, of a volume
/// and a market cap both given in hundredths of a dollar.  A market cap
/// that is zero (or negative) yields the fallback ratio `0` rather than a
/// division fault.
pub open spec fn spec_ratio_hundredths(volume: int, market_cap: int) -> int {
    if market_cap <= 0 {
        0
    } else {
        spec_trunc_div(volume * 10000, market_cap)
    }
}

fn digit_str(d: u128) -> (r: &'static str)
    requires
        d < 10,
    ensures
        r@ == seq![spec_digit(d as int)],
{
    proof {
        reveal_strlit("0");
        reveal_strlit("1");
        reveal_strlit("2");
        reveal_strlit("3");
        reveal_strlit("4");
        reveal_strlit("5");
        reveal_strlit("6");
        reveal_strlit("7");
        reveal_strlit("8");
        reveal_strlit("9");
    }
    let r = if d == 0 {
        "0"
    } else if d == 1 {
        "1"
    } else if d == 2 {
        "2"
    } else if d == 3 {
        "3"
    } else if d == 4 {
        "4"
    } else if d == 5 {
        "5"
    } else if d == 6 {
        "6"
    } else if d == 7 {
        "7"
    } else if d == 8 {
        "8"
    } else {
        "9"
    };
    proof {
        assert(r@ =~= seq![spec_digit(d as int)]);
    }
    r
}

/// Renders a natural number in decimal.
pub fn format_u128(n: u128) -> (r: String)
    ensures
        r@ == spec_decimal(n as nat),
    decreases n,
{
    if n < 10 {
        String::from_str(digit_str(n))
    } else {
        let mut s = format_u128(n / 10);
        let last = digit_str(n % 10);
        s.append(last);
        proof {
            assert(s@ =~= spec_decimal((n / 10) as nat).push(spec_digit((n % 10) as int)));
        }
        s
    }
}

/// Renders a fixed-point value given as a sign and a magnitude in
/// hundredths, with exactly two digits after the decimal point.
pub fn format_fixed2(neg: bool, mag: u128) -> (r: String)
    ensures
        r@ == spec_fixed2(
            if neg {
                -(mag as int)
            } else {
                mag as int
            },
        ),
{
    let mut s = if neg && mag > 0 {
        proof {
            reveal_strlit("-");
        }
        String::from_str("-")
    } else {
        String::new()
    };
    let int_part = format_u128(mag / 100);
    s.append(int_part.as_str());
    proof {
        reveal_strlit(".");
    }
    s.append(".");
    s.append(digit_str((mag / 10) % 10));
    s.append(digit_str(mag % 10));
    proof {
        let h: int = if neg {
            -(mag as int)
        } else {
            mag as int
        };
        assert(spec_abs_int(h) == mag as int);
        if neg && mag > 0 {
            assert("-"@ =~= seq!['-']);
        }
        assert(s@ =~= spec_fixed2(h));
    }
    s
}

/// Renders `v / d` (in hundredths, truncating toward zero) with two
/// digits after the decimal point: `d == 100` renders `v` itself,
/// `d == 1_000_000` renders a value in hundredths of a dollar as a
/// number of millions of dollars, and so on.
pub fn format_scaled2(v: i64, d: u128) -> (r: String)
    requires
        d > 0,
    ensures
        r@ == spec_fixed2(spec_trunc_div(v as int, d as int)),
{
    let neg = v < 0;
    let mag: u128 = if v < 0 {
        (-(v as i128)) as u128
    } else {
        v as u128
    };
    format_fixed2(neg, mag / d)
}

/// Renders the volume-to-market-cap ratio as a percentage with two
/// digits after the decimal point, falling back to `"0.00"` when the
/// market cap is zero or negative.
pub fn format_ratio2(volume: i64, market_cap: i64) -> (r: String)
    ensures
        r@ == spec_fixed2(spec_ratio_hundredths(volume as int, market_cap as int)),
{
    if market_cap <= 0 {
        format_fixed2(false, 0)
    } else {
        let neg = volume < 0;
        let mag: u128 = if volume < 0 {
            (-(volume as i128)) as u128
        } else {
            volume as u128
        };
        let h = (mag * 10000) / (market_cap as u128);
        proof {
            if volume < 0 {
                assert((mag * 10000) as int == -((volume as int) * 10000));
            }
        }
        format_fixed2(neg, h)
    }
}

} // verus!
