//! Decimal text rendering over milli-unit integers.
//!
//! Readings travel as integers (milli-degrees, millivolts), and the text the
//! consumers emit is rendered from them directly: a sign, the integer part,
//! and a fixed number of fraction digits.  Everything is ASCII bytes.

use vstd::prelude::*;

verus! {

/// ASCII space.
pub const SPACE: u8 = 32;

/// ASCII minus sign.
pub const MINUS: u8 = 45;

/// ASCII decimal point.
pub const POINT: u8 = 46;

/// ASCII zero digit.
pub const DIGIT_ZERO: u8 = 48;

/// The ASCII decimal digits of `n`, most significant first; `0` renders as
/// one digit.
pub open spec fn spec_decimal(n: nat) -> Seq<u8>
    decreases n,
{
    if n < 10 {
        seq![(DIGIT_ZERO + n) as u8]
    } else {
        spec_decimal(n / 10) + seq![(DIGIT_ZERO + n % 10) as u8]
    }
}

/// Exactly three fraction digits for a milli-unit remainder, zero-padded.
pub open spec fn spec_frac3(f: nat) -> Seq<u8> {
    seq![
        (DIGIT_ZERO + f / 100 % 10) as u8,
        (DIGIT_ZERO + f / 10 % 10) as u8,
        (DIGIT_ZERO + f % 10) as u8,
    ]
}

/// Exactly two fraction digits for a centi-unit remainder, zero-padded.
pub open spec fn spec_frac2(f: nat) -> Seq<u8> {
    seq![(DIGIT_ZERO + f / 10 % 10) as u8, (DIGIT_ZERO + f % 10) as u8]
}

/// A centi-unit magnitude with optional sign, rendered with exactly two
/// fraction digits: `1350` becomes `13.50`.
pub open spec fn spec_centi(negative: bool, magnitude_centi: nat) -> Seq<u8> {
    (if negative {
        seq![MINUS]
    } else {
        Seq::empty()
    }) + spec_decimal(magnitude_centi / 100) + seq![POINT] + spec_frac2(magnitude_centi % 100)
}

/// A milli-unit magnitude with optional sign, rendered with exactly three
/// fraction digits: `23500` becomes `23.500`, and a negative half degree
/// becomes `-0.500`.
pub open spec fn spec_milli(negative: bool, magnitude_milli: nat) -> Seq<u8> {
    (if negative {
        seq![MINUS]
    } else {
        Seq::empty()
    }) + spec_decimal(magnitude_milli / 1000) + seq![POINT] + spec_frac3(magnitude_milli % 1000)
}

/// A signed milli-unit value rendered as [`spec_milli`] of its sign and
/// magnitude.
pub open spec fn spec_milli_signed(v: int) -> Seq<u8> {
    if v < 0 {
        spec_milli(true, (-v) as nat)
    } else {
        spec_milli(false, v as nat)
    }
}

/// `n` spaces.
pub open spec fn spec_spaces(n: nat) -> Seq<u8>
    decreases n,
{
    if n == 0 {
        Seq::empty()
    } else {
        seq![SPACE] + spec_spaces((n - 1) as nat)
    }
}

/// `s` right-aligned in a field of `width`: space-padded on the left, or
/// unchanged when it already fills the field.
pub open spec fn spec_padded(s: Seq<u8>, width: nat) -> Seq<u8> {
    if s.len() >= width {
        s
    } else {
        spec_spaces((width - s.len()) as nat) + s
    }
}

/// Appends the decimal digits of `n`.
pub fn push_decimal(out: &mut Vec<u8>, n: u64)
    ensures
        final(out)@ == old(out)@ + spec_decimal(n as nat),
    decreases n,
{
    if n >= 10 {
        push_decimal(out, n / 10);
    }
    out.push(DIGIT_ZERO + (n % 10) as u8);
    proof {
        if n >= 10 {
            assert(old(out)@ + spec_decimal((n / 10) as nat) + seq![
                (DIGIT_ZERO + (n as nat) % 10) as u8,
            ] =~= old(out)@ + spec_decimal(n as nat));
        } else {
            assert(old(out)@.push((DIGIT_ZERO + (n as nat)) as u8) =~= old(out)@ + spec_decimal(
                n as nat,
            ));
        }
    }
}

/// Appends a signed centi-unit value with exactly two fraction digits.
pub fn push_centi(out: &mut Vec<u8>, negative: bool, magnitude_centi: u64)
    ensures
        final(out)@ == old(out)@ + spec_centi(negative, magnitude_centi as nat),
{
    if negative {
        out.push(MINUS);
    }
    push_decimal(out, magnitude_centi / 100);
    let f: u64 = magnitude_centi % 100;
    out.push(POINT);
    out.push(DIGIT_ZERO + (f / 10) as u8);
    out.push(DIGIT_ZERO + (f % 10) as u8);
    proof {
        assert(final(out)@ =~= old(out)@ + spec_centi(negative, magnitude_centi as nat));
    }
}

/// Appends a signed milli-unit value with exactly three fraction digits.
pub fn push_milli(out: &mut Vec<u8>, negative: bool, magnitude_milli: u64)
    ensures
        final(out)@ == old(out)@ + spec_milli(negative, magnitude_milli as nat),
{
    if negative {
        out.push(MINUS);
    }
    push_decimal(out, magnitude_milli / 1000);
    let f: u64 = magnitude_milli % 1000;
    out.push(POINT);
    out.push(DIGIT_ZERO + (f / 100) as u8);
    out.push(DIGIT_ZERO + ((f / 10) % 10) as u8);
    out.push(DIGIT_ZERO + (f % 10) as u8);
    proof {
        assert(final(out)@ =~= old(out)@ + spec_milli(negative, magnitude_milli as nat));
    }
}

/// Appends a milli-unit value carried as a signed machine integer.
pub fn push_milli_signed(out: &mut Vec<u8>, milli: i64)
    requires
        milli > i64::MIN,
    ensures
        final(out)@ == old(out)@ + spec_milli_signed(milli as int),
{
    if milli < 0 {
        push_milli(out, true, (-milli) as u64);
    } else {
        push_milli(out, false, milli as u64);
    }
}

/// Appends `n` spaces.
pub fn push_spaces(out: &mut Vec<u8>, n: usize)
    ensures
        final(out)@ == old(out)@ + spec_spaces(n as nat),
    decreases n,
{
    if n > 0 {
        out.push(SPACE);
        proof {
            assert(old(out)@.push(SPACE) =~= old(out)@ + seq![SPACE]);
        }
        push_spaces(out, n - 1);
        proof {
            assert(old(out)@ + seq![SPACE] + spec_spaces((n - 1) as nat) =~= old(out)@
                + spec_spaces(n as nat));
        }
    } else {
        proof {
            assert(old(out)@ + spec_spaces(0) =~= old(out)@);
        }
    }
}

} // verus!
