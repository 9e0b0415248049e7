//! Numbers written as text.

use vstd::prelude::*;

verus! {

/// The character of the digit `d`: `0` to `9`, then `A` to `F`.
pub open spec fn digit_char(d: nat) -> u8 {
    if d < 10 {
        (48 + d) as u8
    } else {
        (55 + d) as u8
    }
}

/// The digits of `n` in base `b`, most significant first, with no leading
/// zero (`0` itself is one digit).
pub open spec fn digits(n: nat, b: nat) -> Seq<u8>
    decreases n,
{
    if b < 2 {
        Seq::empty()
    } else if n < b {
        seq![digit_char(n)]
    } else {
        proof {
            vstd::arithmetic::div_mod::lemma_div_decreases(n as int, b as int);
        }
        digits(n / b, b).push(digit_char(n % b))
    }
}

/// `n` in decimal, with a minus sign when it is negative.
pub open spec fn decimal(n: int) -> Seq<u8> {
    if n < 0 {
        seq![45u8] + digits((-n) as nat, 10)
    } else {
        digits(n as nat, 10)
    }
}

/// `n` as its bit pattern would be written in base `b`: signed in decimal,
/// the bit pattern taken as unsigned in any other base.
pub open spec fn radix_text(n: isize, b: isize) -> Seq<u8> {
    if b == 10 {
        decimal(n as int)
    } else {
        digits((n as usize) as nat, b as nat)
    }
}

/// `text` right-aligned in a field `width` characters wide.
pub open spec fn right_aligned(text: Seq<u8>, width: isize) -> Seq<u8> {
    let pad = width - text.len();
    if pad > 0 {
        Seq::new(pad as nat, |i: int| 32u8) + text
    } else {
        text
    }
}

/// Append the digits of `n` in base `b` to `out`.
pub fn push_digits(out: &mut Vec<u8>, n: u64, b: u64)
    requires
        2 <= b <= 16,
    ensures
        final(out)@ == old(out)@ + digits(n as nat, b as nat),
    decreases n,
{
    if n < b {
        out.push(digit(n));
        assert(seq![digit_char(n as nat)] =~= digits(n as nat, b as nat));
    } else {
        proof {
            vstd::arithmetic::div_mod::lemma_div_decreases(n as int, b as int);
        }
        push_digits(out, n / b, b);
        out.push(digit(n % b));
    }
}

/// The character of the digit `d`.
fn digit(d: u64) -> (r: u8)
    requires
        d < 16,
    ensures
        r == digit_char(d as nat),
{
    if d < 10 {
        48 + d as u8
    } else {
        55 + d as u8
    }
}

/// Append `n` in decimal to `out`.
pub fn push_decimal(out: &mut Vec<u8>, n: isize)
    ensures
        final(out)@ == old(out)@ + decimal(n as int),
{
    if n < 0 {
        out.push(45u8);
        let m: i128 = -(n as i128);
        push_digits(out, m as u64, 10);
        assert(old(out)@.push(45u8) + digits((-(n as int)) as nat, 10) =~= old(out)@ + decimal(
            n as int,
        ));
    } else {
        push_digits(out, n as u64, 10);
    }
}

/// Append `n` written in base `b` to `out`: signed in decimal, as its
/// unsigned bit pattern in other bases.
pub fn push_radix(out: &mut Vec<u8>, n: isize, b: isize)
    requires
        2 <= b <= 16,
    ensures
        final(out)@ == old(out)@ + radix_text(n, b),
{
    if b == 10 {
        push_decimal(out, n);
    } else {
        push_digits(out, (n as usize) as u64, b as u64);
    }
}

/// Append `text` right-aligned in a field `width` characters wide.
pub fn push_right_aligned(out: &mut Vec<u8>, text: &[u8], width: isize)
    ensures
        final(out)@ == old(out)@ + right_aligned(text@, width),
{
    let pad: i128 = width as i128 - text.len() as i128;
    if pad > 0 {
        let mut i: i128 = 0;
        while i < pad
            invariant
                0 <= i <= pad,
                pad == width - text@.len(),
                out@ == old(out)@ + Seq::new(i as nat, |k: int| 32u8),
            decreases pad - i,
        {
            out.push(32u8);
            i = i + 1;
            assert(out@ =~= old(out)@ + Seq::new(i as nat, |k: int| 32u8));
        }
    }
    crate::memory_words::push_bytes(out, text);
    assert(out@ =~= old(out)@ + right_aligned(text@, width));
}

} // verus!
