use sphere_runner::error::CoreError;
use sphere_runner::material::{
    code_text, color_from_code, parse_hex_color, Material, COLOR_CODES, COLOR_DIGITS,
};
use sphere_runner::units::ONE;

#[test]
fn colours_in_six_hexadecimal_digits() {
    assert_eq!(parse_hex_color("000000"), Ok(0));
    assert_eq!(parse_hex_color("ffffff"), Ok(0xff_ffff));
    assert_eq!(parse_hex_color("FFFFFF"), Ok(0xff_ffff));
    assert_eq!(parse_hex_color("444444"), Ok(0x44_4444));
    assert_eq!(parse_hex_color("272822"), Ok(0x27_2822));
    assert_eq!(parse_hex_color("12aBcD"), Ok(0x12_abcd));
    assert_eq!(parse_hex_color("00000f"), Ok(15));
    assert_eq!(parse_hex_color("100000"), Ok(0x10_0000));
    assert_eq!(parse_hex_color("09afAF"), Ok(0x09_afaf));
}

#[test]
fn anything_else_is_no_colour() {
    for text in [
        "", "0", "fff", "ffff", "12345", "1234567", "12345678", "------", "12345g", "g12345",
        "12 456", "0x1234", "#12345", "+12345", "12345@", "12345G", "12345`", "12345/", "12345:",
        "äö", "１２３４５６",
    ] {
        assert_eq!(parse_hex_color(text), Err(CoreError::InvalidColor), "{:?}", text);
    }
}

#[test]
fn a_code_is_written_in_six_digits() {
    assert_eq!(COLOR_DIGITS, 6);
    assert_eq!(code_text(0), "000000");
    assert_eq!(code_text(7), "000007");
    assert_eq!(code_text(42), "000042");
    assert_eq!(code_text(123_456), "123456");
    assert_eq!(code_text(999_998), "999998");
    assert_eq!(code_text(999_999), "999999");
    assert_eq!(code_text(1_000_000), "1000000");
    assert_eq!(code_text(u64::MAX), "18446744073709551615");
    for code in [0u64, 9, 10, 99, 100, 5_000, 99_999, 100_000, 999_999, 1_000_000, 12_345_678] {
        assert_eq!(code_text(code), format!("{:06}", code));
    }
}

#[test]
fn the_colour_of_a_code_is_its_decimal_digits_read_as_hexadecimal() {
    assert_eq!(COLOR_CODES, 999_999);
    assert_eq!(color_from_code(0), Ok(0));
    assert_eq!(color_from_code(9), Ok(9));
    assert_eq!(color_from_code(10), Ok(0x10));
    assert_eq!(color_from_code(42), Ok(0x42));
    assert_eq!(color_from_code(123_456), Ok(0x12_3456));
    assert_eq!(color_from_code(100_000), Ok(0x10_0000));
    assert_eq!(color_from_code(999_998), Ok(0x99_9998));
    assert_eq!(color_from_code(999_999), Ok(0x99_9999));
    for code in (0..1_000_000u64).step_by(7919) {
        assert_eq!(color_from_code(code), Ok(u32::from_str_radix(&code.to_string(), 16).unwrap()));
    }
}

#[test]
fn a_code_of_seven_digits_has_no_colour() {
    assert_eq!(color_from_code(1_000_000), Err(CoreError::InvalidColor));
    assert_eq!(color_from_code(1_000_001), Err(CoreError::InvalidColor));
    assert_eq!(color_from_code(12_345_678), Err(CoreError::InvalidColor));
    assert_eq!(color_from_code(u64::MAX), Err(CoreError::InvalidColor));
}

#[test]
fn a_material_of_three_draws() {
    assert_eq!(
        Material::from_draws(ONE / 2, ONE / 4, 123_456),
        Ok(Material { color: 0x12_3456, metallic: ONE / 2, perceptual_roughness: ONE / 4 })
    );
    assert_eq!(
        Material::from_draws(0, ONE - 1, 0),
        Ok(Material { color: 0, metallic: 0, perceptual_roughness: ONE - 1 })
    );
    assert_eq!(Material::from_draws(ONE, 0, 1), Err(CoreError::DrawOutOfRange));
    assert_eq!(Material::from_draws(-1, 0, 1), Err(CoreError::DrawOutOfRange));
    assert_eq!(Material::from_draws(0, ONE, 1), Err(CoreError::DrawOutOfRange));
    assert_eq!(Material::from_draws(0, -1, 1), Err(CoreError::DrawOutOfRange));
    assert_eq!(Material::from_draws(0, 0, 1_000_000), Err(CoreError::InvalidColor));
    // A scalar out of range is reported before a code without a colour.
    assert_eq!(Material::from_draws(ONE, 0, 1_000_000), Err(CoreError::DrawOutOfRange));
}
