//! What a run shows of itself: the score, the frame rate and the seed, as texts.

use crate::game::World;
use crate::text::{numeral, write_numeral};
use crate::units::ONE;
use vstd::prelude::*;

verus! {

/// The score: how far along the level the player has come.
pub fn score(world: &World) -> (points: i64)
    ensures
        points == world.player.position.x,
{
    world.player.position.x
}

/// A length without its sign.
pub open spec fn magnitude(v: int) -> nat {
    if v < 0 {
        (-v) as nat
    } else {
        v as nat
    }
}

/// A length in hundredths of a world unit, rounded to the nearest hundredth,
/// and to the even one of the two where it lies halfway between them.
pub open spec fn hundredths(length: nat) -> nat {
    let whole = (length * 100) / (ONE as nat);
    let rest = (length * 100) % (ONE as nat);
    if 2 * rest > ONE || (2 * rest == ONE && whole % 2 == 1) {
        whole + 1
    } else {
        whole
    }
}

/// The hundredths of a length are the hundredths nearest to it: no further
/// from it than half a hundredth.
pub proof fn hundredths_are_nearest(length: nat)
    ensures
        -ONE <= 2 * (hundredths(length) * ONE - 100 * length) <= ONE,
{
    let whole = (length * 100) / (ONE as nat);
    let rest = (length * 100) % (ONE as nat);
    assert(length * 100 == whole * ONE + rest && 0 <= rest < ONE) by {
        vstd::arithmetic::div_mod::lemma_fundamental_div_mod((length * 100) as int, ONE as int);
    }
    assert((whole + 1) * ONE == whole * ONE + ONE) by (nonlinear_arith);
}

/// A length written in world units with two places behind the point, a minus
/// sign in front of it where it is below nothing.
pub open spec fn two_decimals(v: int) -> Seq<char> {
    let shown = hundredths(magnitude(v));
    let sign = if v < 0 {
        seq!['-']
    } else {
        Seq::<char>::empty()
    };
    sign + numeral(shown / 100, 10, 1) + seq!['.'] + numeral(shown % 100, 10, 2)
}

fn rounded_hundredths(length: u64) -> (shown: u64)
    ensures
        shown == hundredths(length as nat),
{
    let scaled: u128 = length as u128 * 100;
    let whole: u128 = scaled / (ONE as u128);
    let rest: u128 = scaled % (ONE as u128);
    let up: bool = 2 * rest > ONE as u128 || (2 * rest == ONE as u128 && whole % 2 == 1);
    if up {
        (whole + 1) as u64
    } else {
        whole as u64
    }
}

/// Writes a length in world units with two places behind the point.
pub fn decimal_text(v: i64) -> (text: String)
    ensures
        text@ == two_decimals(v as int),
{
    let mut text = String::new();
    let length: u64 = if v < 0 {
        text.push('-');
        (-(v as i128)) as u64
    } else {
        v as u64
    };
    let shown: u64 = rounded_hundredths(length);
    write_numeral(&mut text, shown / 100, 10, 1);
    text.push('.');
    write_numeral(&mut text, shown % 100, 10, 2);
    proof {
        let sign = if v < 0 {
            seq!['-']
        } else {
            Seq::<char>::empty()
        };
        assert(text@ =~= sign + numeral((shown / 100) as nat, 10, 1) + seq!['.'] + numeral(
            (shown % 100) as nat,
            10,
            2,
        ));
    }
    text
}

/// The score as the host shows it: in world units, to two places.
pub fn score_text(world: &World) -> (text: String)
    ensures
        text@ == two_decimals(world.player.position.x as int),
{
    decimal_text(score(world))
}

/// The frame rate as the host shows it: the average that the host has
/// measured, where it has one, in frames a second to two places.
pub fn fps_text(average: Option<i64>) -> (text: Option<String>)
    ensures
        average is Some <==> text is Some,
        text matches Some(shown) ==> shown@ == two_decimals(average.unwrap() as int),
{
    match average {
        Some(rate) => Some(decimal_text(rate)),
        None => None,
    }
}

/// The words that go before the seed.
pub open spec fn seed_label() -> Seq<char> {
    seq!['S', 'e', 'e', 'd', ':', ' ', '0', 'x']
}

/// The seed as the host shows it: in hexadecimal, after its label.
pub fn seed_text(seed: u64) -> (text: String)
    ensures
        text@ == seed_label() + numeral(seed as nat, 16, 1),
{
    let mut text = String::from_str("Seed: 0x");
    proof {
        reveal_strlit("Seed: 0x");
        assert(text@ =~= seed_label());
    }
    write_numeral(&mut text, seed, 16, 1);
    text
}

} // verus!
