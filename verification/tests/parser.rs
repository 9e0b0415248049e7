use rtforth::exception::{Exception, RESULT_OUT_OF_RANGE};
use rtforth::parser::{
    ascii, base, float_parts, fraction_parts, integer_token, quoted_char, sign, uint, uint_in_base,
    FloatParts, IResult,
};

#[test]
fn test_sign() {
    assert_eq!(sign(b"+"), IResult::Done(b"", 1));
    assert_eq!(sign(b"+x"), IResult::Done(b"x", 1));
    assert_eq!(sign(b"-"), IResult::Done(b"", -1));
    assert_eq!(sign(b"-6"), IResult::Done(b"6", -1));
    assert_eq!(sign(b""), IResult::Done(b"", 1));
    assert_eq!(sign(b"xyz"), IResult::Done(b"xyz", 1));
}

#[test]
fn test_base() {
    assert_eq!(base(b"", 7), IResult::Done(b"", 7));
    assert_eq!(base(b"-", 7), IResult::Done(b"-", 7));
    assert_eq!(base(b"'", 7), IResult::Done(b"'", 7));
    assert_eq!(base(b"%", 7), IResult::Done(b"", 2));
    assert_eq!(base(b"#", 7), IResult::Done(b"", 10));
    assert_eq!(base(b"$", 7), IResult::Done(b"", 16));
}

#[test]
fn test_uint() {
    assert_eq!(uint(b"123"), IResult::Done(b"", 123));
    assert_eq!(uint(b"45x6"), IResult::Done(b"x6", 45));
    assert_eq!(uint(b""), IResult::Done(b"", 0));
    assert_eq!(uint(b"xy"), IResult::Done(b"xy", 0));
}

#[test]
fn test_quoted_char() {
    assert_eq!(quoted_char(b"'''"), IResult::Done(b"", 39));
    assert_eq!(quoted_char(b"'*'"), IResult::Done(b"", 42));
    assert_eq!(quoted_char(b"''"), IResult::Error(RESULT_OUT_OF_RANGE));
    assert_eq!(quoted_char(b""), IResult::Error(RESULT_OUT_OF_RANGE));
}

#[test]
fn test_ascii() {
    assert_eq!(ascii(b".123", b'.'), IResult::Done(b"123", true));
    assert_eq!(ascii(b".123", b'x'), IResult::Done(b".123", false));
}

#[test]
fn uint_in_base_reads_hexadecimal_and_binary() {
    assert_eq!(uint_in_base(b"ff", 16), IResult::Done(b"", 255));
    assert_eq!(uint_in_base(b"FF", 16), IResult::Done(b"", 255));
    assert_eq!(uint_in_base(b"101", 2), IResult::Done(b"", 5));
    assert_eq!(uint_in_base(b"12", 2), IResult::Error(RESULT_OUT_OF_RANGE));
    assert_eq!(uint_in_base(b"", 10), IResult::Done(b"", 0));
}

#[test]
fn uint_in_base_wraps_around() {
    // 2^64 in hexadecimal wraps to 0; one more gives 1.
    assert_eq!(uint_in_base(b"10000000000000000", 16), IResult::Done(b"", 0));
    assert_eq!(uint_in_base(b"10000000000000001", 16), IResult::Done(b"", 1));
}

#[test]
fn fraction_parts_counts_digits() {
    assert_eq!(fraction_parts(b"."), IResult::Done(b"", (0, 0)));
    assert_eq!(fraction_parts(b".123"), IResult::Done(b"", (123, 3)));
    assert_eq!(fraction_parts(b".12x"), IResult::Done(b"x", (12, 2)));
    assert_eq!(fraction_parts(b"x."), IResult::Done(b"x.", (0, 0)));
}

#[test]
fn float_parts_of_literals() {
    assert_eq!(
        float_parts(b"-12.5E+3"),
        Ok(FloatParts {
            significand_sign: -1,
            integer_part: 12,
            fraction_part: 5,
            fraction_digits: 1,
            exponent: 3,
        })
    );
    assert_eq!(
        float_parts(b"1.E"),
        Ok(FloatParts {
            significand_sign: 1,
            integer_part: 1,
            fraction_part: 0,
            fraction_digits: 0,
            exponent: 0,
        })
    );
    assert_eq!(float_parts(b"1.0"), Err(Exception::UnsupportedOperation));
    assert_eq!(float_parts(b"E5"), Err(Exception::UnsupportedOperation));
    assert_eq!(float_parts(b"1.5E2x"), Err(Exception::UnsupportedOperation));
}

#[test]
fn integer_token_values() {
    assert_eq!(integer_token(b"123", 10), Ok(123));
    assert_eq!(integer_token(b"-123", 10), Ok(-123));
    assert_eq!(integer_token(b"$-ff", 10), Ok(-255));
    assert_eq!(integer_token(b"%101", 10), Ok(5));
    assert_eq!(integer_token(b"#99", 16), Ok(99));
    assert_eq!(integer_token(b"ff", 16), Ok(255));
    assert_eq!(integer_token(b"'A'", 10), Ok(65));
    assert_eq!(integer_token(b"12x", 10), Err(RESULT_OUT_OF_RANGE));
    assert_eq!(integer_token(b"-8000000000000000", 16), Ok(isize::MIN));
}
