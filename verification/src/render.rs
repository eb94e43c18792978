//! Rendering byte counts as decimal strings, in pure integer arithmetic.
//!
//! Sizes at or above a unit boundary are shown with two decimal places,
//! rounded half away from zero; smaller sizes are shown as plain bytes.

use vstd::prelude::*;
use vstd::string::StringExecFns;

verus! {

pub const KIB: u64 = 1024;

pub const MIB: u64 = 1024 * 1024;

pub const GIB: u64 = 1024 * 1024 * 1024;

/// The character for one decimal digit.
pub open spec fn spec_digit(d: int) -> char {
    if d == 0 {
        '0'
    } else if d == 1 {
        '1'
    } else if d == 2 {
        '2'
    } else if d == 3 {
        '3'
    } else if d == 4 {
        '4'
    } else if d == 5 {
        '5'
    } else if d == 6 {
        '6'
    } else if d == 7 {
        '7'
    } else if d == 8 {
        '8'
    } else {
        '9'
    }
}

/// The decimal digits of a non-negative integer, most significant first.
pub open spec fn spec_decimal(n: int) -> Seq<char>
    decreases n,
{
    if n < 10 {
        seq![spec_digit(n)]
    } else {
        spec_decimal(n / 10).push(spec_digit(n % 10))
    }
}

/// One decimal digit as a string slice.
fn digit_str(d: u64) -> (r: &'static str)
    requires
        d < 10,
    ensures
        r@ == seq![spec_digit(d as int)],
{
    proof {
        reveal_strlit("0");
        reveal_strlit("1");
        reveal_strlit("2");
        reveal_strlit("3");
        reveal_strlit("4");
        reveal_strlit("5");
        reveal_strlit("6");
        reveal_strlit("7");
        reveal_strlit("8");
        reveal_strlit("9");
    }
    let r = if d == 0 {
        "0"
    } else if d == 1 {
        "1"
    } else if d == 2 {
        "2"
    } else if d == 3 {
        "3"
    } else if d == 4 {
        "4"
    } else if d == 5 {
        "5"
    } else if d == 6 {
        "6"
    } else if d == 7 {
        "7"
    } else if d == 8 {
        "8"
    } else {
        "9"
    };
    proof {
        assert(r@ =~= seq![spec_digit(d as int)]);
    }
    r
}

/// Renders an unsigned integer in decimal.
pub fn u64_to_string(n: u64) -> (r: String)
    ensures
        r@ == spec_decimal(n as int),
    decreases n,
{
    if n < 10 {
        digit_str(n).to_owned()
    } else {
        let mut s = u64_to_string(n / 10);
        s.append(digit_str(n % 10));
        proof {
            assert(s@ =~= spec_decimal(n as int));
        }
        s
    }
}

/// A size scaled by a unit, rounded half away from zero to hundredths:
/// the whole part, a point, and exactly two fractional digits.
pub open spec fn spec_scaled(size: int, unit: int) -> Seq<char> {
    let q = size / unit;
    let hr = ((size % unit) * 100 + unit / 2) / unit;
    let whole = if hr == 100 {
        q + 1
    } else {
        q
    };
    let frac = if hr == 100 {
        0
    } else {
        hr
    };
    spec_decimal(whole) + seq!['.', spec_digit(frac / 10), spec_digit(frac % 10)]
}

/// Renders `size / unit` with two rounded decimal places.
fn scaled(size: u64, unit: u64) -> (r: String)
    requires
        1024 <= unit <= 1073741824,
    ensures
        r@ == spec_scaled(size as int, unit as int),
{
    let q = size / unit;
    let rem = size % unit;
    let hr = (rem * 100 + unit / 2) / unit;
    proof {
        let s = size as int;
        let u = unit as int;
        assert(q + 1 <= u64::MAX) by (nonlinear_arith)
            requires
                q == s / u,
                0 <= s <= u64::MAX,
                1024 <= u,
        ;
        assert(hr <= 100) by (nonlinear_arith)
            requires
                hr == (rem * 100 + u / 2) / u,
                0 <= rem < u,
                1024 <= u,
        ;
    }
    let whole: u64 = if hr == 100 {
        q + 1
    } else {
        q
    };
    let frac: u64 = if hr == 100 {
        0
    } else {
        hr
    };
    assert(frac < 100);
    let mut s = u64_to_string(whole);
    s.append(".");
    s.append(digit_str(frac / 10));
    s.append(digit_str(frac % 10));
    proof {
        reveal_strlit(".");
        assert(s@ =~= spec_scaled(size as int, unit as int));
    }
    s
}

/// A byte count as a human-readable string: two rounded decimal places of
/// gibibytes, mebibytes or kibibytes when the count reaches the unit, and
/// plain bytes below a kibibyte.
pub open spec fn spec_format_size(size: u64) -> Seq<char> {
    if size >= GIB {
        spec_scaled(size as int, GIB as int) + " GB"@
    } else if size >= MIB {
        spec_scaled(size as int, MIB as int) + " MB"@
    } else if size >= KIB {
        spec_scaled(size as int, KIB as int) + " KB"@
    } else {
        spec_decimal(size as int) + " B"@
    }
}

/// Renders a byte count for display.
pub fn format_size(size: u64) -> (r: String)
    ensures
        r@ == spec_format_size(size),
{
    if size >= GIB {
        scaled(size, GIB).concat(" GB")
    } else if size >= MIB {
        scaled(size, MIB).concat(" MB")
    } else if size >= KIB {
        scaled(size, KIB).concat(" KB")
    } else {
        u64_to_string(size).concat(" B")
    }
}

} // verus!
