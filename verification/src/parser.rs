//! Numeric parser.
//!
//! Each parser takes a byte string and, on success, hands back the bytes that
//! it did not consume together with the value that it recognised.

use vstd::prelude::*;
use vstd::slice::slice_subrange;

use crate::exception::{Exception, RESULT_OUT_OF_RANGE};

verus! {

/// The outcome of a parser: the rest of the input and a value, or an error.
#[derive(PartialEq, Debug)]
pub enum IResult<'l, T> {
    Done(&'l [u8], T),
    Error(Exception),
}

/// `r` is `Done` with the given rest and value.
pub open spec fn done_with<T>(r: IResult<T>, rest: Seq<u8>, value: T) -> bool {
    match r {
        IResult::Done(bytes, v) => bytes@ == rest && v == value,
        IResult::Error(_) => false,
    }
}

/// `r` is the error `e`.
pub open spec fn err_with<T>(r: IResult<T>, e: Exception) -> bool {
    match r {
        IResult::Done(_, _) => false,
        IResult::Error(x) => x == e,
    }
}

// ---------------------------------------------------------------------------
// Digits and positional values
// ---------------------------------------------------------------------------

/// `c` is one of the ASCII digits `0` to `9`.
pub open spec fn is_decimal_digit(c: u8) -> bool {
    48 <= c <= 57
}

/// The value of `c` read as a hexadecimal digit (either case), or -1 when `c`
/// is not one.
pub open spec fn digit_value(c: u8) -> int {
    if 48 <= c <= 57 {
        c - 48
    } else if 97 <= c <= 102 {
        c - 97 + 10
    } else if 65 <= c <= 70 {
        c - 65 + 10
    } else {
        -1
    }
}

/// `c` is a digit of base `base`.
pub open spec fn is_digit_in_base(c: u8, base: int) -> bool {
    0 <= digit_value(c) < base
}

/// Every byte of `s` is a digit of base `base`.
pub open spec fn all_digits_in_base(s: Seq<u8>, base: int) -> bool {
    forall|i: int| 0 <= i < s.len() ==> #[trigger] is_digit_in_base(s[i], base)
}

/// The mathematical value of the digits `s` in base `base`, most significant
/// digit first.
pub open spec fn positional_value(s: Seq<u8>, base: int) -> int
    decreases s.len(),
{
    if s.len() == 0 {
        0
    } else {
        positional_value(s.drop_last(), base) * base + digit_value(s.last())
    }
}

/// The value of the digits `s` in base `base`, computed with wrapping
/// multiplication and addition in `isize`.
pub open spec fn wrapping_positional_value(s: Seq<u8>, base: isize) -> isize
    decreases s.len(),
{
    if s.len() == 0 {
        0
    } else {
        wrapping_positional_value(s.drop_last(), base).wrapping_mul(base).wrapping_add(
            digit_value(s.last()) as isize,
        )
    }
}

/// The number of decimal digits at the start of `s`.
pub open spec fn decimal_run_len(s: Seq<u8>) -> nat
    decreases s.len(),
{
    if s.len() > 0 && is_decimal_digit(s[0]) {
        1 + decimal_run_len(s.drop_first())
    } else {
        0
    }
}

/// `n` is the length of the run of decimal digits that starts `s`.
pub open spec fn is_decimal_run(s: Seq<u8>, n: int) -> bool {
    &&& 0 <= n <= s.len()
    &&& forall|i: int| 0 <= i < n ==> #[trigger] is_decimal_digit(s[i])
    &&& (n == s.len() || !is_decimal_digit(s[n]))
}

pub proof fn lemma_decimal_run_len(s: Seq<u8>)
    ensures
        is_decimal_run(s, decimal_run_len(s) as int),
        forall|n: int| is_decimal_run(s, n) ==> n == decimal_run_len(s),
    decreases s.len(),
{
    if s.len() > 0 && is_decimal_digit(s[0]) {
        lemma_decimal_run_len(s.drop_first());
        let m = decimal_run_len(s.drop_first()) as int;
        assert forall|i: int| 0 <= i < m + 1 implies #[trigger] is_decimal_digit(s[i]) by {
            if i > 0 {
                assert(s[i] == s.drop_first()[i - 1]);
            }
        }
        assert forall|n: int| is_decimal_run(s, n) implies n == decimal_run_len(s) by {
            if n == 0 {
                assert(is_decimal_digit(s[0]));
            } else {
                assert forall|i: int| 0 <= i < n - 1 implies #[trigger] is_decimal_digit(
                    s.drop_first()[i],
                ) by {
                    assert(is_decimal_digit(s[i + 1]));
                }
                assert(is_decimal_run(s.drop_first(), n - 1));
            }
        }
    } else {
        assert forall|n: int| is_decimal_run(s, n) implies n == decimal_run_len(s) by {
            if n > 0 {
                assert(is_decimal_digit(s[0]));
            }
        }
    }
}

/// With digits of a positive base, a longer prefix never has a smaller value.
pub proof fn lemma_positional_value_monotone(s: Seq<u8>, base: int, i: int, j: int)
    requires
        base >= 1,
        0 <= i <= j <= s.len(),
        all_digits_in_base(s.take(j), base),
    ensures
        0 <= positional_value(s.take(i), base) <= positional_value(s.take(j), base),
    decreases j,
{
    if j > 0 {
        assert(s.take(j).drop_last() =~= s.take(j - 1));
        assert(is_digit_in_base(s.take(j)[j - 1], base));
        assert(all_digits_in_base(s.take(j - 1), base)) by {
            assert forall|k: int| 0 <= k < j - 1 implies #[trigger] is_digit_in_base(
                s.take(j - 1)[k],
                base,
            ) by {
                assert(is_digit_in_base(s.take(j)[k], base));
            }
        }
        if i < j {
            lemma_positional_value_monotone(s, base, i, j - 1);
        } else {
            lemma_positional_value_monotone(s, base, j - 1, j - 1);
        }
        let p = positional_value(s.take(j - 1), base);
        assert(p * base >= p) by (nonlinear_arith)
            requires
                p >= 0,
                base >= 1,
        ;
    }
}

// ---------------------------------------------------------------------------
// Parsers
// ---------------------------------------------------------------------------

/// What `sign` recognises: an optional `+` or `-`.
pub open spec fn sign_spec(s: Seq<u8>) -> (Seq<u8>, isize) {
    if s.len() >= 1 && s[0] == 43 {
        (s.drop_first(), 1isize)
    } else if s.len() >= 1 && s[0] == 45 {
        (s.drop_first(), -1isize)
    } else {
        (s, 1isize)
    }
}

/// Optional sign: `+` gives 1, `-` gives -1, and no sign gives 1.
pub fn sign(input: &[u8]) -> (r: IResult<isize>)
    ensures
        done_with(r, sign_spec(input@).0, sign_spec(input@).1),
{
    let mut sign: isize = 1;
    let mut bytes = input;
    if bytes.len() >= 1 {
        if bytes[0] == 43u8 {
            bytes = slice_subrange(bytes, 1, bytes.len());
        } else if bytes[0] == 45u8 {
            sign = -1;
            bytes = slice_subrange(bytes, 1, bytes.len());
        }
    }
    proof {
        assert(input@.subrange(1, input@.len() as int) =~= input@.drop_first());
    }
    IResult::Done(bytes, sign)
}

/// What `base` recognises: an optional base prefix `%` (2), `#` (10) or `$`
/// (16); without one the base is `default_base`.
pub open spec fn base_spec(s: Seq<u8>, default_base: isize) -> (Seq<u8>, isize) {
    if s.len() >= 1 && s[0] == 37 {
        (s.drop_first(), 2isize)
    } else if s.len() >= 1 && s[0] == 35 {
        (s.drop_first(), 10isize)
    } else if s.len() >= 1 && s[0] == 36 {
        (s.drop_first(), 16isize)
    } else {
        (s, default_base)
    }
}

/// Optional base prefix.
pub fn base(input: &[u8], default_base: isize) -> (r: IResult<isize>)
    ensures
        done_with(r, base_spec(input@, default_base).0, base_spec(input@, default_base).1),
{
    let mut base = default_base;
    let mut bytes = input;
    if bytes.len() >= 1 {
        if bytes[0] == 37u8 {
            base = 2;
            bytes = slice_subrange(bytes, 1, bytes.len());
        } else if bytes[0] == 35u8 {
            base = 10;
            bytes = slice_subrange(bytes, 1, bytes.len());
        } else if bytes[0] == 36u8 {
            base = 16;
            bytes = slice_subrange(bytes, 1, bytes.len());
        }
    }
    proof {
        assert(input@.subrange(1, input@.len() as int) =~= input@.drop_first());
    }
    IResult::Done(bytes, base)
}

/// What `ascii` recognises: the character `c` at the start of the input.
pub open spec fn ascii_spec(s: Seq<u8>, c: u8) -> (Seq<u8>, bool) {
    if s.len() >= 1 && s[0] == c {
        (s.drop_first(), true)
    } else {
        (s, false)
    }
}

/// Optional character `ascii`; the value tells whether it was there.
pub fn ascii(input: &[u8], c: u8) -> (r: IResult<bool>)
    ensures
        done_with(r, ascii_spec(input@, c).0, ascii_spec(input@, c).1),
{
    if input.len() >= 1 && input[0] == c {
        proof {
            assert(input@.subrange(1, input@.len() as int) =~= input@.drop_first());
        }
        IResult::Done(slice_subrange(input, 1, input.len()), true)
    } else {
        IResult::Done(input, false)
    }
}

/// The input is a character between single quotes, such as `'*'`.
pub open spec fn is_quoted_char(s: Seq<u8>) -> bool {
    s.len() == 3 && s[0] == 39 && s[2] == 39
}

/// Character in '': the whole input must be a quote, one byte and a quote.
pub fn quoted_char(input: &[u8]) -> (r: IResult<isize>)
    ensures
        is_quoted_char(input@) ==> done_with(r, Seq::<u8>::empty(), input@[1] as isize),
        !is_quoted_char(input@) ==> err_with(r, RESULT_OUT_OF_RANGE),
{
    if input.len() == 3 && input[0] == 39u8 && input[2] == 39u8 {
        let rest = slice_subrange(input, 3, 3);
        proof {
            assert(rest@ =~= Seq::<u8>::empty());
        }
        IResult::Done(rest, input[1] as isize)
    } else {
        IResult::Error(RESULT_OUT_OF_RANGE)
    }
}

/// Without overflow, the wrapping computation is the mathematical one.
pub proof fn lemma_wrapping_positional_value(s: Seq<u8>, base: isize)
    requires
        base >= 1,
        all_digits_in_base(s, base as int),
        positional_value(s, base as int) <= isize::MAX,
    ensures
        wrapping_positional_value(s, base) as int == positional_value(s, base as int),
    decreases s.len(),
{
    if s.len() > 0 {
        let t = s.drop_last();
        assert(s.take(s.len() as int) =~= s);
        assert(s.take(s.len() - 1) =~= t);
        lemma_positional_value_monotone(s, base as int, s.len() - 1, s.len() as int);
        assert(all_digits_in_base(t, base as int)) by {
            assert forall|k: int| 0 <= k < t.len() implies #[trigger] is_digit_in_base(t[k], base as int) by {
                assert(is_digit_in_base(s[k], base as int));
            }
        }
        lemma_wrapping_positional_value(t, base);
        let p = positional_value(t, base as int);
        assert(is_digit_in_base(s[s.len() - 1], base as int));
        let d = digit_value(s.last());
        assert(p * base + d == positional_value(s, base as int));
        assert(0 <= p * base) by (nonlinear_arith)
            requires p >= 0, base >= 1;
        let m = (usize::MAX - usize::MIN + 1) as int;
        assert(p * base < m);
        vstd::arithmetic::div_mod::lemma_small_mod((p * base) as nat, m as nat);
        assert(t.len() < s.len());
        let w = wrapping_positional_value(t, base);
        assert(w.wrapping_mul(base) == p * base);
        vstd::arithmetic::div_mod::lemma_small_mod((p * base + d) as nat, m as nat);
    }
}

/// Digits in base `base`, most significant first. The value is accumulated
/// with wrapping arithmetic, as integers are in Forth.
pub fn uint_in_base(input: &[u8], base: isize) -> (r: IResult<isize>)
    ensures
        all_digits_in_base(input@, base as int) ==> done_with(
            r,
            Seq::<u8>::empty(),
            wrapping_positional_value(input@, base),
        ),
        !all_digits_in_base(input@, base as int) ==> err_with(r, RESULT_OUT_OF_RANGE),
        all_digits_in_base(input@, base as int) && base >= 1 && positional_value(
            input@,
            base as int,
        ) <= isize::MAX ==> done_with(
            r,
            Seq::<u8>::empty(),
            positional_value(input@, base as int) as isize,
        ),
{
    let mut len: usize = 0;
    let mut value: isize = 0;
    while len < input.len()
        invariant
            len <= input.len(),
            all_digits_in_base(input@.take(len as int), base as int),
            value == wrapping_positional_value(input@.take(len as int), base),
        decreases input.len() - len,
    {
        let c = input[len];
        let d: isize;
        if 48u8 <= c && c <= 57u8 {
            d = (c - 48u8) as isize;
        } else if 97u8 <= c && c <= 102u8 {
            d = (c - 97u8) as isize + 10;
        } else if 65u8 <= c && c <= 70u8 {
            d = (c - 65u8) as isize + 10;
        } else {
            assert(!is_digit_in_base(input@[len as int], base as int));
            return IResult::Error(RESULT_OUT_OF_RANGE);
        }
        assert(d == digit_value(c));
        if d >= base {
            assert(!is_digit_in_base(input@[len as int], base as int));
            return IResult::Error(RESULT_OUT_OF_RANGE);
        }
        // Allow wrapping for integer.
        value = value.wrapping_mul(base).wrapping_add(d);
        proof {
            let next = input@.take(len + 1);
            assert(next.drop_last() =~= input@.take(len as int));
            assert forall|k: int| 0 <= k < next.len() implies #[trigger] is_digit_in_base(
                next[k],
                base as int,
            ) by {
                if k < len {
                    assert(is_digit_in_base(input@.take(len as int)[k], base as int));
                }
            }
        }
        len = len + 1;
    }
    assert(input@.take(len as int) =~= input@);
    let rest = slice_subrange(input, len, len);
    assert(rest@ =~= Seq::<u8>::empty());
    proof {
        if base >= 1 && positional_value(input@, base as int) <= isize::MAX {
            lemma_wrapping_positional_value(input@, base);
        }
    }
    IResult::Done(rest, value)
}

/// What `uint` recognises: the decimal digits at the start of the input; none
/// at all reads as 0. `None` when their value does not fit in `isize`.
pub open spec fn uint_spec(s: Seq<u8>) -> Option<(Seq<u8>, isize)> {
    let n = decimal_run_len(s) as int;
    let v = positional_value(s.take(n), 10);
    if v <= isize::MAX {
        Some((s.skip(n), v as isize))
    } else {
        None
    }
}

proof fn lemma_decimal_prefix_digits(s: Seq<u8>, n: int)
    requires
        0 <= n <= s.len(),
        forall|i: int| 0 <= i < n ==> #[trigger] is_decimal_digit(s[i]),
    ensures
        all_digits_in_base(s.take(n), 10),
{
    assert forall|k: int| 0 <= k < n implies #[trigger] is_digit_in_base(s.take(n)[k], 10) by {
        assert(is_decimal_digit(s[k]));
    }
}

/// Decimal digits, without wrapping: a value that does not fit in `isize` is
/// an error.
pub fn uint(input: &[u8]) -> (r: IResult<isize>)
    ensures
        match uint_spec(input@) {
            Some((rest, v)) => done_with(r, rest, v),
            None => err_with(r, RESULT_OUT_OF_RANGE),
        },
{
    let mut len: usize = 0;
    let mut value: isize = 0;
    proof {
        lemma_decimal_run_len(input@);
    }
    while len < input.len() && 48u8 <= input[len] && input[len] <= 57u8
        invariant
            len <= input.len(),
            forall|i: int| 0 <= i < len ==> #[trigger] is_decimal_digit(input@[i]),
            value as int == positional_value(input@.take(len as int), 10),
            is_decimal_run(input@, decimal_run_len(input@) as int),
            forall|n: int| is_decimal_run(input@, n) ==> n == decimal_run_len(input@),
        decreases input.len() - len,
    {
        let d = (input[len] - 48u8) as isize;
        let ghost next = input@.take(len + 1);
        proof {
            assert(next.drop_last() =~= input@.take(len as int));
            assert(positional_value(next, 10) == value * 10 + d);
        }
        // Do not allow wrapping for floating point.
        let v = match value.checked_mul(10) {
            Some(x) => x.checked_add(d),
            None => None,
        };
        match v {
            Some(v) => {
                value = v;
            },
            None => {
                proof {
                    let n = decimal_run_len(input@) as int;
                    if n <= len {
                        assert(is_decimal_digit(input@[n]));
                    }
                    assert(is_decimal_digit(input@[len as int]));
                    lemma_decimal_prefix_digits(input@, n);
                    lemma_positional_value_monotone(input@, 10, len + 1, n);
                }
                return IResult::Error(RESULT_OUT_OF_RANGE);
            },
        }
        len = len + 1;
    }
    proof {
        assert(is_decimal_run(input@, len as int));
    }
    IResult::Done(slice_subrange(input, len, input.len()), value)
}

/// What `fraction_parts` recognises: a `.` followed by decimal digits, read
/// as the integer they spell and their count; without a `.` nothing is read
/// and both are 0.
pub open spec fn fraction_spec(s: Seq<u8>) -> Option<(Seq<u8>, (isize, usize))> {
    if s.len() >= 1 && s[0] == 46 {
        let t = s.drop_first();
        match uint_spec(t) {
            Some((rest, v)) => Some((rest, (v, (t.len() - rest.len()) as usize))),
            None => None,
        }
    } else {
        Some((s, (0isize, 0usize)))
    }
}

/// The digits of a decimal fraction `.ddd`: their value as an integer and
/// their number, so that the fraction is the value divided by ten to that
/// power.
pub fn fraction_parts(input: &[u8]) -> (r: IResult<(isize, usize)>)
    ensures
        match fraction_spec(input@) {
            Some((rest, v)) => done_with(r, rest, v),
            None => err_with(r, RESULT_OUT_OF_RANGE),
        },
{
    if input.len() >= 1 && input[0] == 46u8 {
        let bytes = slice_subrange(input, 1, input.len());
        proof {
            assert(bytes@ =~= input@.drop_first());
        }
        proof {
            lemma_uint_spec(bytes@);
        }
        match uint(bytes) {
            IResult::Done(rest, value) => {
                let len = bytes.len() - rest.len();
                IResult::Done(rest, (value, len))
            },
            IResult::Error(e) => IResult::Error(e),
        }
    } else {
        IResult::Done(input, (0, 0))
    }
}

/// The parts of a floating-point literal: its value is
/// `sign * (integer + fraction / 10^fraction_digits) * 10^exponent`.
#[derive(PartialEq, Eq, Debug, Clone, Copy, Structural)]
pub struct FloatParts {
    pub significand_sign: isize,
    pub integer_part: isize,
    pub fraction_part: isize,
    pub fraction_digits: usize,
    pub exponent: isize,
}

/// What follows the significand: `E` or `e`, an optional sign and decimal
/// digits. `Ok(None)` when there is no exponent marker.
pub open spec fn exponent_spec(s: Seq<u8>) -> Result<Option<(Seq<u8>, isize)>, Exception> {
    if s.len() >= 1 && (s[0] == 69 || s[0] == 101) {
        let (t, es) = sign_spec(s.drop_first());
        match uint_spec(t) {
            Some((rest, ep)) => Ok(Some((rest, (es * ep) as isize))),
            None => Err(RESULT_OUT_OF_RANGE),
        }
    } else {
        Ok(None)
    }
}

/// The grammar of floating-point literals: an optional sign, at least one
/// integer digit, an optional fraction, and an exponent that must be there
/// though its digits may be empty, with nothing after it.
/// Digits that overflow give `RESULT_OUT_OF_RANGE`; any other mismatch gives
/// `UNSUPPORTED_OPERATION`.
pub open spec fn float_token_spec(s: Seq<u8>) -> Result<FloatParts, Exception> {
    let (s1, sgn) = sign_spec(s);
    match uint_spec(s1) {
        None => Err(RESULT_OUT_OF_RANGE),
        Some((s2, ip)) => if s2.len() == s1.len() {
            Err(Exception::UnsupportedOperation)
        } else {
            match fraction_spec(s2) {
                None => Err(RESULT_OUT_OF_RANGE),
                Some((s3, (fv, fd))) => match exponent_spec(s3) {
                    Err(e) => Err(e),
                    Ok(None) => Err(Exception::UnsupportedOperation),
                    Ok(Some((s4, ex))) => if s4.len() != 0 {
                        Err(Exception::UnsupportedOperation)
                    } else {
                        Ok(
                            FloatParts {
                                significand_sign: sgn,
                                integer_part: ip,
                                fraction_part: fv,
                                fraction_digits: fd,
                                exponent: ex,
                            },
                        )
                    },
                },
            }
        },
    }
}

/// What `uint` reads is never negative and never grows the input.
pub proof fn lemma_uint_spec(s: Seq<u8>)
    ensures
        uint_spec(s) matches Some((rest, v)) ==> rest.len() <= s.len() && v >= 0,
{
    lemma_decimal_run_len(s);
    let n = decimal_run_len(s) as int;
    lemma_decimal_prefix_digits(s, n);
    lemma_positional_value_monotone(s, 10, 0, n);
}

/// Parse a floating-point literal such as `-12.3E+2` into its parts.
pub fn float_parts(token: &[u8]) -> (r: Result<FloatParts, Exception>)
    ensures
        r == float_token_spec(token@),
{
    let (s1, sgn) = match sign(token) {
        IResult::Done(rest, v) => (rest, v),
        IResult::Error(e) => {
            return Err(e);
        },
    };
    let (s2, ip) = match uint(s1) {
        IResult::Done(rest, v) => (rest, v),
        IResult::Error(e) => {
            return Err(e);
        },
    };
    proof {
        lemma_uint_spec(s1@);
    }
    if s2.len() == s1.len() {
        return Err(Exception::UnsupportedOperation);
    }
    let (s3, fv, fd) = match fraction_parts(s2) {
        IResult::Done(rest, (v, d)) => (rest, v, d),
        IResult::Error(e) => {
            return Err(e);
        },
    };
    let (marker_rest, marker) = match ascii(s3, 69u8) {
        IResult::Done(rest, true) => (rest, true),
        _ => match ascii(s3, 101u8) {
            IResult::Done(rest, v) => (rest, v),
            IResult::Error(e) => {
                return Err(e);
            },
        },
    };
    if !marker {
        return Err(Exception::UnsupportedOperation);
    }
    let (s4, es) = match sign(marker_rest) {
        IResult::Done(rest, v) => (rest, v),
        IResult::Error(e) => {
            return Err(e);
        },
    };
    let (s5, ep) = match uint(s4) {
        IResult::Done(rest, v) => (rest, v),
        IResult::Error(e) => {
            return Err(e);
        },
    };
    proof {
        lemma_uint_spec(s4@);
    }
    if s5.len() != 0 {
        return Err(Exception::UnsupportedOperation);
    }
    let exponent = if es < 0 {
        -ep
    } else {
        ep
    };
    assert(exponent == es * ep) by (nonlinear_arith)
        requires
            es == 1 || es == -1,
            es < 0 ==> exponent == -ep,
            es >= 0 ==> exponent == ep,
    ;
    assert(exponent == (es * ep) as isize);
    let parts = FloatParts {
        significand_sign: sgn,
        integer_part: ip,
        fraction_part: fv,
        fraction_digits: fd,
        exponent,
    };
    assert(float_token_spec(token@) == Ok::<FloatParts, Exception>(parts));
    Ok(parts)
}

/// The sign, base and digits of an integer literal such as `-$FF`: the
/// base prefix comes first, then the sign.
pub open spec fn integer_digits(s: Seq<u8>, default_base: isize) -> (isize, isize, Seq<u8>) {
    let (s1, b) = base_spec(s, default_base);
    let (s2, sg) = sign_spec(s1);
    (sg, b, s2)
}

/// `v`, negated when `sg` is negative; negating `isize::MIN` wraps to
/// itself.
pub open spec fn signed_wrapping(sg: isize, v: isize) -> isize {
    if sg >= 0 {
        v
    } else if v == isize::MIN {
        v
    } else {
        (-v) as isize
    }
}

/// The value of an integer literal: a quoted character stands for its code;
/// otherwise an optional base prefix, an optional sign and digits of that
/// base, whose value wraps around. A byte that is not such a digit gives
/// `RESULT_OUT_OF_RANGE`.
pub open spec fn integer_token_spec(s: Seq<u8>, default_base: isize) -> Result<isize, Exception> {
    if is_quoted_char(s) {
        Ok(s[1] as isize)
    } else {
        let (sg, b, digits) = integer_digits(s, default_base);
        if all_digits_in_base(digits, b as int) {
            Ok(signed_wrapping(sg, wrapping_positional_value(digits, b)))
        } else {
            Err(RESULT_OUT_OF_RANGE)
        }
    }
}

/// Evaluate an integer literal in base `default_base` (unless the literal
/// names its own base).
pub fn integer_token(token: &[u8], default_base: isize) -> (r: Result<isize, Exception>)
    ensures
        r == integer_token_spec(token@, default_base),
{
    match quoted_char(token) {
        IResult::Done(_bytes, c) => {
            return Ok(c);
        },
        IResult::Error(_) => {},
    }
    let (bytes, base) = match base(token, default_base) {
        IResult::Done(rest, b) => (rest, b),
        IResult::Error(e) => {
            return Err(e);
        },
    };
    let (bytes, sign) = match sign(bytes) {
        IResult::Done(rest, v) => (rest, v),
        IResult::Error(e) => {
            return Err(e);
        },
    };
    match uint_in_base(bytes, base) {
        IResult::Done(rest, value) => {
            if rest.len() != 0 {
                Err(Exception::UnsupportedOperation)
            } else {
                assert(sign == 1 || sign == -1);
                let v = if sign >= 0 {
                    value
                } else if value == isize::MIN {
                    isize::MIN
                } else {
                    -value
                };
                Ok(v)
            }
        },
        IResult::Error(e) => Err(e),
    }
}

} // verus!
