//! The look of a sphere or a tile: a colour and two scalars of the unit interval.
//!
//! The core carries a material from the level to whoever draws it and never
//! reads it. Its colour comes from a code, a number below a million, in an
//! unusual way that a level's look depends on: the code is written in six
//! decimal digits, and the six digits are then read as a hexadecimal colour.

use crate::error::CoreError;
use crate::text::{glyph, numeral, write_numeral};
use crate::units::ONE;
use vstd::prelude::*;

verus! {

/// The number of colour codes: a code is drawn below this number.
pub const COLOR_CODES: u64 = 999_999;

/// The digits in the text of a colour.
pub const COLOR_DIGITS: usize = 6;

/// A surface: its colour as red, green and blue in 24 bits, and how metallic
/// and how rough it is, each at least nothing and less than [`ONE`].
#[derive(Clone, Copy, Debug, PartialEq, Eq, Structural)]
pub struct Material {
    pub color: u32,
    pub metallic: i64,
    pub perceptual_roughness: i64,
}

/// What the character is worth as a hexadecimal digit, in either case.
pub open spec fn hex_digit_value(c: char) -> Option<nat> {
    if '0' <= c <= '9' {
        Some((c as nat - 48) as nat)
    } else if 'a' <= c <= 'f' {
        Some((c as nat - 87) as nat)
    } else if 'A' <= c <= 'F' {
        Some((c as nat - 55) as nat)
    } else {
        None
    }
}

/// The characters are six hexadecimal digits.
pub open spec fn is_hex_color(text: Seq<char>) -> bool {
    &&& text.len() == COLOR_DIGITS
    &&& forall|i: int| 0 <= i < COLOR_DIGITS ==> hex_digit_value(#[trigger] text[i]) is Some
}

/// The colour that six hexadecimal digits spell, the first digit weighing most.
pub open spec fn hex_color_value(text: Seq<char>) -> nat {
    0x10_0000 * hex_digit_value(text[0]).unwrap() + 0x1_0000 * hex_digit_value(text[1]).unwrap()
        + 0x1000 * hex_digit_value(text[2]).unwrap() + 0x100 * hex_digit_value(text[3]).unwrap()
        + 0x10 * hex_digit_value(text[4]).unwrap() + hex_digit_value(text[5]).unwrap()
}

/// The number whose hexadecimal digits are the decimal digits of `n`.
pub open spec fn decimal_read_as_hex(n: nat) -> nat
    decreases n,
{
    if n < 10 {
        n
    } else {
        16 * decimal_read_as_hex(n / 10) + n % 10
    }
}

/// Every one of the colour's six hexadecimal digits is a decimal digit.
pub open spec fn has_decimal_digits(color: nat) -> bool {
    &&& color < 0x100_0000
    &&& color % 16 <= 9
    &&& (color / 0x10) % 16 <= 9
    &&& (color / 0x100) % 16 <= 9
    &&& (color / 0x1000) % 16 <= 9
    &&& (color / 0x1_0000) % 16 <= 9
    &&& (color / 0x10_0000) % 16 <= 9
}

fn hex_digit(c: char) -> (r: Option<u32>)
    ensures
        r is Some <==> hex_digit_value(c) is Some,
        r matches Some(v) ==> v == hex_digit_value(c).unwrap() && v < 16,
{
    if '0' <= c && c <= '9' {
        Some(c as u32 - 48)
    } else if 'a' <= c && c <= 'f' {
        Some(c as u32 - 87)
    } else if 'A' <= c && c <= 'F' {
        Some(c as u32 - 55)
    } else {
        None
    }
}

/// Reads a colour written as six hexadecimal digits, two each for red, green
/// and blue. Any other text is refused.
pub fn parse_hex_color(text: &str) -> (r: Result<u32, CoreError>)
    ensures
        is_hex_color(text@) ==> r == Ok::<u32, CoreError>(hex_color_value(text@) as u32),
        !is_hex_color(text@) ==> r == Err::<u32, CoreError>(CoreError::InvalidColor),
        r matches Ok(color) ==> color < 0x100_0000,
{
    if text.unicode_len() != COLOR_DIGITS {
        return Err(CoreError::InvalidColor);
    }
    let mut color: u32 = 0;
    let mut i: usize = 0;
    while i < COLOR_DIGITS
        invariant
            i <= COLOR_DIGITS,
            text@.len() == COLOR_DIGITS,
            forall|k: int| 0 <= k < i ==> hex_digit_value(#[trigger] text@[k]) is Some,
            color == leading_value(text@, i as nat),
            color < 0x100_0000,
        decreases COLOR_DIGITS - i,
    {
        match hex_digit(text.get_char(i)) {
            Some(value) => {
                proof {
                    leading_value_bounded(text@, i as nat);
                }
                color = color * 16 + value;
            },
            None => {
                return Err(CoreError::InvalidColor);
            },
        }
        i += 1;
    }
    proof {
        reveal_with_fuel(leading_value, 7);
    }
    Ok(color)
}

/// What the first `count` digits of the text spell.
spec fn leading_value(text: Seq<char>, count: nat) -> nat
    decreases count,
{
    if count == 0 {
        0
    } else {
        16 * leading_value(text, (count - 1) as nat) + hex_digit_value(
            text[count - 1],
        ).unwrap()
    }
}

proof fn leading_value_bounded(text: Seq<char>, count: nat)
    requires
        count <= 5,
        forall|k: int| 0 <= k < count ==> hex_digit_value(#[trigger] text[k]) is Some,
    ensures
        leading_value(text, count) < 0x10_0000,
{
    reveal_with_fuel(leading_value, 6);
}

/// The text of a colour code: the code in decimal, in six digits or as many as it has.
pub fn code_text(code: u64) -> (text: String)
    ensures
        text@ == numeral(code as nat, 10, COLOR_DIGITS as nat),
{
    let mut text = String::new();
    write_numeral(&mut text, code, 10, COLOR_DIGITS);
    text
}

/// The six decimal digits of a code below a million, the lowest first.
spec fn six_digits(code: nat) -> Seq<nat> {
    seq![
        code % 10,
        (code / 10) % 10,
        (code / 100) % 10,
        (code / 1000) % 10,
        (code / 10_000) % 10,
        (code / 100_000) % 10,
    ]
}

proof fn digits_of_code(code: nat)
    requires
        code <= COLOR_CODES,
    ensures
        ({
            let low = crate::text::digits_low_first(code, 10);
            &&& 1 <= low.len() <= 6
            &&& forall|i: int| 0 <= i < low.len() ==> low[i] == six_digits(code)[i]
            &&& forall|i: int| low.len() <= i < 6 ==> six_digits(code)[i] == 0
        }),
{
    reveal_with_fuel(crate::text::digits_low_first, 7);
    let c1 = code / 10;
    let c2 = c1 / 10;
    let c3 = c2 / 10;
    let c4 = c3 / 10;
    let c5 = c4 / 10;
    assert(c2 == code / 100 && c3 == code / 1000 && c4 == code / 10_000 && c5 == code / 100_000);
    assert(c5 < 10);
    if code < 10 {
    } else if c1 < 10 {
    } else if c2 < 10 {
    } else if c3 < 10 {
    } else if c4 < 10 {
    } else {
    }
}

proof fn code_read_as_hex(code: nat)
    requires
        code <= COLOR_CODES,
    ensures
        ({
            let d = six_digits(code);
            decimal_read_as_hex(code) == d[0] + 0x10 * d[1] + 0x100 * d[2] + 0x1000 * d[3] + 0x1_0000
                * d[4] + 0x10_0000 * d[5]
        }),
        has_decimal_digits(decimal_read_as_hex(code)),
{
    reveal_with_fuel(decimal_read_as_hex, 7);
    let c1 = code / 10;
    let c2 = c1 / 10;
    let c3 = c2 / 10;
    let c4 = c3 / 10;
    let c5 = c4 / 10;
    assert(c2 == code / 100 && c3 == code / 1000 && c4 == code / 10_000 && c5 == code / 100_000);
    assert(c5 < 10);
    let d = six_digits(code);
    let value = d[0] + 0x10 * d[1] + 0x100 * d[2] + 0x1000 * d[3] + 0x1_0000 * d[4] + 0x10_0000
        * d[5];
    assert(decimal_read_as_hex(code) == value) by {
        if code < 10 {
        } else if c1 < 10 {
        } else if c2 < 10 {
        } else if c3 < 10 {
        } else if c4 < 10 {
        } else {
        }
    }
    assert(has_decimal_digits(value as nat)) by {
        nibbles_of(
            value as u32,
            d[0] as u32,
            d[1] as u32,
            d[2] as u32,
            d[3] as u32,
            d[4] as u32,
            d[5] as u32,
        );
    }
}

proof fn nibbles_of(v: u32, d0: u32, d1: u32, d2: u32, d3: u32, d4: u32, d5: u32)
    by (bit_vector)
    requires
        d0 <= 9,
        d1 <= 9,
        d2 <= 9,
        d3 <= 9,
        d4 <= 9,
        d5 <= 9,
        v == d0 + 0x10 * d1 + 0x100 * d2 + 0x1000 * d3 + 0x1_0000 * d4 + 0x10_0000 * d5,
    ensures
        v < 0x100_0000,
        v % 16 <= 9,
        (v / 0x10) % 16 <= 9,
        (v / 0x100) % 16 <= 9,
        (v / 0x1000) % 16 <= 9,
        (v / 0x1_0000) % 16 <= 9,
        (v / 0x10_0000) % 16 <= 9,
{
}

/// A code below a million is written in exactly six digits, which read as
/// hexadecimal are [`decimal_read_as_hex`] of the code; any other code takes
/// more than six.
pub proof fn code_text_spells_color(code: nat)
    ensures
        code <= COLOR_CODES ==> is_hex_color(numeral(code, 10, COLOR_DIGITS as nat))
            && hex_color_value(numeral(code, 10, COLOR_DIGITS as nat)) == decimal_read_as_hex(
            code,
        ) && has_decimal_digits(decimal_read_as_hex(code)),
        code > COLOR_CODES ==> numeral(code, 10, COLOR_DIGITS as nat).len() > COLOR_DIGITS,
{
    let text = numeral(code, 10, COLOR_DIGITS as nat);
    let low = crate::text::digits_low_first(code, 10);
    if code <= COLOR_CODES {
        digits_of_code(code);
        code_read_as_hex(code);
        let d = six_digits(code);
        assert(text.len() == 6);
        assert forall|i: int| 0 <= i < 6 implies #[trigger] text[i] == glyph(d[5 - i]) by {
            if low.len() < 6 {
                let padded = low + Seq::new((6 - low.len()) as nat, |k: int| 0nat);
                assert(padded[5 - i] == d[5 - i]);
            }
        }
        assert forall|i: int| 0 <= i < 6 implies hex_digit_value(#[trigger] text[i]) == Some(
            d[5 - i],
        ) by {
            assert(d[5 - i] <= 9);
        }
    } else {
        long_codes_have_long_texts(code);
    }
}

proof fn long_codes_have_long_texts(code: nat)
    requires
        code > COLOR_CODES,
    ensures
        crate::text::digits_low_first(code, 10).len() > 6,
{
    reveal_with_fuel(crate::text::digits_low_first, 8);
    let c1 = code / 10;
    let c2 = c1 / 10;
    let c3 = c2 / 10;
    let c4 = c3 / 10;
    let c5 = c4 / 10;
    let c6 = c5 / 10;
    assert(c6 == code / 1_000_000);
    assert(c6 >= 1);
}

/// The colour of a code: the code's six decimal digits, read as hexadecimal.
/// A code of a million or more has no colour.
pub fn color_from_code(code: u64) -> (r: Result<u32, CoreError>)
    ensures
        code <= COLOR_CODES ==> r == Ok::<u32, CoreError>(decimal_read_as_hex(code as nat) as u32),
        code > COLOR_CODES ==> r == Err::<u32, CoreError>(CoreError::InvalidColor),
        r matches Ok(color) ==> has_decimal_digits(color as nat),
{
    proof {
        code_text_spells_color(code as nat);
    }
    let text = code_text(code);
    parse_hex_color(text.as_str())
}

impl Material {
    /// The scalars lie in the unit interval and the colour came from a code.
    pub open spec fn wf(self) -> bool {
        &&& 0 <= self.metallic < ONE
        &&& 0 <= self.perceptual_roughness < ONE
        &&& has_decimal_digits(self.color as nat)
    }

    /// The material that three draws make, or why they make none: a scalar
    /// outside the unit interval first, then a code without a colour.
    pub open spec fn of_draws(metallic: i64, perceptual_roughness: i64, code: u64) -> Result<
        Material,
        CoreError,
    > {
        if !(0 <= metallic < ONE && 0 <= perceptual_roughness < ONE) {
            Err(CoreError::DrawOutOfRange)
        } else if code > COLOR_CODES {
            Err(CoreError::InvalidColor)
        } else {
            Ok(
                Material {
                    color: decimal_read_as_hex(code as nat) as u32,
                    metallic,
                    perceptual_roughness,
                },
            )
        }
    }

    /// Makes a material of three draws: how metallic, how rough, and the colour code.
    pub fn from_draws(metallic: i64, perceptual_roughness: i64, code: u64) -> (r: Result<
        Material,
        CoreError,
    >)
        ensures
            r == Material::of_draws(metallic, perceptual_roughness, code),
            r matches Ok(material) ==> material.wf(),
    {
        if metallic < 0 || metallic >= ONE || perceptual_roughness < 0 || perceptual_roughness
            >= ONE {
            return Err(CoreError::DrawOutOfRange);
        }
        match color_from_code(code) {
            Ok(color) => Ok(Material { color, metallic, perceptual_roughness }),
            Err(e) => Err(e),
        }
    }
}

} // verus!
