//! Decimal text of a stored quantity.
//!
//! A stored number counts `10^-stored` of a unit.  Its text shows a fixed
//! number of decimal places; digits beyond them are rounded to the nearest
//! value, a tie going to the even neighbour.  A negative number keeps its
//! sign even where every shown digit is zero.

use vstd::prelude::*;
use vstd::string::StringExecFns;

verus! {

/// The character of one decimal digit.
pub open spec fn digit_char(d: int) -> char {
    if d == 0 {
        '0'
    } else if d == 1 {
        '1'
    } else if d == 2 {
        '2'
    } else if d == 3 {
        '3'
    } else if d == 4 {
        '4'
    } else if d == 5 {
        '5'
    } else if d == 6 {
        '6'
    } else if d == 7 {
        '7'
    } else if d == 8 {
        '8'
    } else {
        '9'
    }
}

/// The decimal digits of `n`, most significant first, without leading zeros.
pub open spec fn digits(n: nat) -> Seq<char>
    decreases n,
{
    if n < 10 {
        seq![digit_char(n as int)]
    } else {
        digits(n / 10).push(digit_char((n % 10) as int))
    }
}

/// The last `width` decimal digits of `n`, with leading zeros.
pub open spec fn padded_digits(n: nat, width: nat) -> Seq<char>
    decreases width,
{
    if width == 0 {
        Seq::empty()
    } else {
        padded_digits(n / 10, (width - 1) as nat).push(digit_char((n % 10) as int))
    }
}

/// Ten to the power `k`.
pub open spec fn pow10(k: nat) -> nat
    decreases k,
{
    if k == 0 {
        1
    } else {
        10 * pow10((k - 1) as nat)
    }
}

/// `n / unit` rounded to the nearest integer, a tie going to the even one.
pub open spec fn round_half_even(n: nat, unit: nat) -> nat {
    let q = n / unit;
    let r = n % unit;
    if 2 * r > unit || (2 * r == unit && q % 2 == 1) {
        q + 1
    } else {
        q
    }
}

/// The magnitude of `raw`, counted in `10^-places` after rounding.
pub open spec fn rounded_magnitude(raw: int, stored: nat, places: nat) -> nat {
    round_half_even(
        (if raw < 0 {
            -raw
        } else {
            raw
        }) as nat,
        pow10((stored - places) as nat),
    )
}

/// The text of a number that counts `10^-stored`, shown with `places`
/// decimal places.
pub open spec fn decimal_text(raw: int, stored: nat, places: nat) -> Seq<char> {
    let shown = rounded_magnitude(raw, stored, places);
    let sign = if raw < 0 {
        seq!['-']
    } else {
        Seq::empty()
    };
    let whole = digits(shown / pow10(places));
    if places == 0 {
        sign + whole
    } else {
        sign + whole + seq!['.'] + padded_digits(shown % pow10(places), places)
    }
}

/// Appends one decimal digit.
fn push_digit(s: &mut String, d: u8)
    requires
        d < 10,
    ensures
        final(s)@ == old(s)@.push(digit_char(d as int)),
{
    proof {
        reveal_strlit("0");
        reveal_strlit("1");
        reveal_strlit("2");
        reveal_strlit("3");
        reveal_strlit("4");
        reveal_strlit("5");
        reveal_strlit("6");
        reveal_strlit("7");
        reveal_strlit("8");
        reveal_strlit("9");
    }
    let text = if d == 0 {
        "0"
    } else if d == 1 {
        "1"
    } else if d == 2 {
        "2"
    } else if d == 3 {
        "3"
    } else if d == 4 {
        "4"
    } else if d == 5 {
        "5"
    } else if d == 6 {
        "6"
    } else if d == 7 {
        "7"
    } else if d == 8 {
        "8"
    } else {
        "9"
    };
    assert(text@ =~= seq![digit_char(d as int)]);
    s.append(text);
    assert(s@ =~= old(s)@.push(digit_char(d as int)));
}

/// Appends the digits of `n` without leading zeros.
fn push_digits(s: &mut String, n: u128)
    ensures
        final(s)@ == old(s)@ + digits(n as nat),
    decreases n,
{
    if n >= 10 {
        push_digits(s, n / 10);
    }
    push_digit(s, (n % 10) as u8);
    assert(s@ =~= old(s)@ + digits(n as nat));
}

/// Appends the last `width` digits of `n`.
fn push_padded_digits(s: &mut String, n: u128, width: u8)
    ensures
        final(s)@ == old(s)@ + padded_digits(n as nat, width as nat),
    decreases width,
{
    if width > 0 {
        push_padded_digits(s, n / 10, width - 1);
        push_digit(s, (n % 10) as u8);
    }
    assert(s@ =~= old(s)@ + padded_digits(n as nat, width as nat));
}

/// Ten to the power `k`.
pub fn power_of_ten(k: u8) -> (p: u128)
    requires
        k <= 38,
    ensures
        p == pow10(k as nat),
        1 <= p,
{
    let mut p: u128 = 1;
    let mut i: u8 = 0;
    proof {
        lemma_pow10_monotone(0, 38);
    }
    while i < k
        invariant
            i <= k <= 38,
            p == pow10(i as nat),
            1 <= p,
            p <= pow10(38),
        decreases k - i,
    {
        proof {
            lemma_pow10_monotone((i + 1) as nat, 38);
        }
        p = p * 10;
        i = i + 1;
    }
    p
}

/// `pow10` grows with its exponent, and `pow10(38)` fits 128 bits.
pub proof fn lemma_pow10_monotone(a: nat, b: nat)
    requires
        a <= b,
    ensures
        pow10(a) <= pow10(b),
        1 <= pow10(a),
        pow10(38) == 100_000_000_000_000_000_000_000_000_000_000_000_000,
    decreases b,
{
    reveal_with_fuel(pow10, 39);
    if a < b {
        lemma_pow10_monotone(a, (b - 1) as nat);
    } else if a > 0 {
        lemma_pow10_monotone((a - 1) as nat, (a - 1) as nat);
    }
}

/// The text of `raw`, which counts `10^-stored` of a unit, with `places`
/// decimal places.
pub fn format_decimal(raw: i128, stored: u8, places: u8) -> (text: String)
    requires
        places <= stored <= 38,
    ensures
        text@ == decimal_text(raw as int, stored as nat, places as nat),
{
    let magnitude: u128 = if raw < 0 {
        ((-(raw + 1)) as u128) + 1
    } else {
        raw as u128
    };
    let unit = power_of_ten(stored - places);
    let scale = power_of_ten(places);
    let q = magnitude / unit;
    let r = magnitude % unit;
    let shown = if r > unit - r || (r == unit - r && q % 2 == 1) {
        q + 1
    } else {
        q
    };
    assert(shown == rounded_magnitude(raw as int, stored as nat, places as nat));
    let mut text = String::new();
    if raw < 0 {
        text.append("-");
        proof {
            reveal_strlit("-");
        }
    }
    let ghost sign = text@;
    assert(sign =~= if raw < 0 {
        seq!['-']
    } else {
        Seq::empty()
    });
    push_digits(&mut text, shown / scale);
    if places > 0 {
        text.append(".");
        proof {
            reveal_strlit(".");
        }
        assert(text@ =~= sign + digits((shown / scale) as nat) + seq!['.']);
        push_padded_digits(&mut text, shown % scale, places);
    }
    text
}

} // verus!
