use mini_obj::decimal::u64_to_dec_string;
use mini_obj::fp::demote_f64_bits;
use mini_obj::fp::format_f32_bits;
use mini_obj::ir::Token;
use mini_obj::synth::synthesize_code;
use mini_obj::synth::synthesize_token;
use mini_obj::ir::ObjMeshIR;

fn fmt(x: f32) -> String {
    format_f32_bits(x.to_bits())
}

#[test]
fn test_format_one() {
    assert_eq!(fmt(1.0), "1.00000000");
}

#[test]
fn test_format_zero() {
    assert_eq!(fmt(0.0), "0.00000000");
}

#[test]
fn test_format_minus_one() {
    assert_eq!(fmt(-1.0), "-1.00000000");
}

#[test]
fn test_format_negative_zero() {
    assert_eq!(fmt(-0.0), "-0.00000000");
}

#[test]
fn test_format_simple_fractions() {
    assert_eq!(fmt(0.5), "0.50000000");
    assert_eq!(fmt(-2.25), "-2.25000000");
    assert_eq!(fmt(123.125), "123.12500000");
}

#[test]
fn test_format_rounds_to_nearest() {
    // The single-precision value nearest 0.1 is
    // 0.100000001490116119384765625; its ninth fractional digit rounds away.
    assert_eq!(fmt(0.1), "0.10000000");
    // Likewise 0.7 is 0.699999988079071044921875.
    assert_eq!(fmt(0.7), "0.69999999");
}

#[test]
fn test_format_tie_rounds_to_even() {
    // 2^-9 is exactly 0.001953125: the scaled value ends in .5, and the
    // formatter rounds the tie to the even neighbour.
    assert_eq!(fmt(0.001953125), "0.00195312");
}

#[test]
fn test_format_tiny_subnormal() {
    // The smallest positive single-precision value is far below the eighth
    // fractional digit.
    assert_eq!(format_f32_bits(1), "0.00000000");
}

#[test]
fn test_format_large_values() {
    assert_eq!(fmt(1e10), "10000000000.00000000");
    assert_eq!(
        fmt(f32::MAX),
        "340282346638528859811704183484516925440.00000000",
    );
}

#[test]
fn test_format_non_finite() {
    assert_eq!(fmt(f32::INFINITY), "inf");
    assert_eq!(fmt(f32::NEG_INFINITY), "-inf");
    assert_eq!(fmt(f32::NAN), "NaN");
}

#[test]
fn test_format_matches_std_fixed_formatting() {
    let samples: [f32; 12] = [
        0.0, -0.0, 1.0, -1.0, 0.1, 0.7, 3.14159274, -123.456, 1e-4, 6.0e7, 1e10, f32::MAX,
    ];
    for x in samples {
        assert_eq!(fmt(x), format!("{:.8}", x), "formatting {}", x);
    }
}

#[test]
fn test_u64_to_dec_string() {
    assert_eq!(u64_to_dec_string(0), "0");
    assert_eq!(u64_to_dec_string(7), "7");
    assert_eq!(u64_to_dec_string(10), "10");
    assert_eq!(u64_to_dec_string(90210), "90210");
    assert_eq!(u64_to_dec_string(u64::MAX), "18446744073709551615");
}

#[test]
fn test_demote_matches_as_cast() {
    let samples: [f64; 14] = [
        0.0,
        -0.0,
        1.0,
        -1.0,
        0.1,
        -3.7e-12,
        16777217.0,
        1.0e300,
        -1.0e300,
        2.0e-45,
        1.0e-46,
        5.0e-324,
        f64::MAX,
        f64::MIN_POSITIVE,
    ];
    for x in samples {
        assert_eq!(
            demote_f64_bits(x.to_bits()),
            (x as f32).to_bits(),
            "demoting {}",
            x,
        );
    }
    assert_eq!(demote_f64_bits(f64::INFINITY.to_bits()), f32::INFINITY.to_bits());
    assert_eq!(demote_f64_bits(f64::NEG_INFINITY.to_bits()), f32::NEG_INFINITY.to_bits());
    // The canonical quiet NaN, sign preserved.
    assert_eq!(demote_f64_bits(f64::NAN.to_bits()), 0x7fc00000);
}

#[test]
fn test_synthesize_tokens() {
    assert_eq!(synthesize_token(Token::SymLet), "let");
    assert_eq!(synthesize_token(Token::SymMacroVec), "vec!");
    assert_eq!(synthesize_token(Token::Newline), "\n");
    assert_eq!(synthesize_token(Token::Whitespace(3)), "   ");
    assert_eq!(synthesize_token(Token::Whitespace(0)), "");
    assert_eq!(synthesize_token(Token::ArrayLength(12)), "12");
    assert_eq!(synthesize_token(Token::Float32(1.5f32.to_bits())), "1.50000000");
}

#[test]
fn test_synthesize_code_concatenates() {
    let ir = ObjMeshIR::new(vec![
        Token::SymLet,
        Token::Whitespace(1),
        Token::SymPoints,
        Token::Colon,
        Token::Whitespace(1),
        Token::ArrayLength(3),
        Token::Semicolon,
    ]);
    assert_eq!(synthesize_code(&ir), "let points: 3;");
}
