//! Numbers written out in digits.

use vstd::prelude::*;

verus! {

/// `String::push` appends the one character to the end of the text and changes
/// nothing else of it.
pub assume_specification[ String::push ](text: &mut String, c: char)
    ensures
        final(text)@ == old(text)@.push(c),
;

/// The digits of `n` to the given base, the lowest first. Zero has the one digit 0.
pub open spec fn digits_low_first(n: nat, base: nat) -> Seq<nat>
    decreases n,
    via digits_low_first_ends
{
    if base < 2 || n < base {
        seq![n]
    } else {
        seq![n % base] + digits_low_first(n / base, base)
    }
}

#[via_fn]
proof fn digits_low_first_ends(n: nat, base: nat) {
    if base >= 2 && n >= base {
        assert(n / base < n) by (nonlinear_arith)
            requires
                base >= 2,
                n >= base,
        ;
    }
}

/// The character that stands for the digit `d`: `0` to `9`, then `a` to `f`.
pub open spec fn glyph(d: nat) -> char {
    if d < 10 {
        (48 + d) as char
    } else {
        (87 + d) as char
    }
}

/// `n` written to the given base, the highest digit first, with zeros in front
/// of it where it has fewer than `width` digits.
pub open spec fn numeral(n: nat, base: nat, width: nat) -> Seq<char> {
    let low = digits_low_first(n, base);
    let padded = if low.len() < width {
        low + Seq::new((width - low.len()) as nat, |i: int| 0nat)
    } else {
        low
    };
    Seq::new(padded.len(), |i: int| glyph(padded[padded.len() - 1 - i]))
}

/// The digits that a sequence of small numbers holds.
spec fn as_digits(low: Seq<u8>) -> Seq<nat> {
    Seq::new(low.len(), |i: int| low[i] as nat)
}

fn glyph_of(d: u8) -> (c: char)
    requires
        d < 16,
    ensures
        c == glyph(d as nat),
{
    if d < 10 {
        (48 + d) as char
    } else {
        (87 + d) as char
    }
}

/// Appends `n` to the text, written to the given base with at least `width` digits.
pub(crate) fn write_numeral(text: &mut String, n: u64, base: u64, width: usize)
    requires
        2 <= base <= 16,
    ensures
        final(text)@ == old(text)@ + numeral(n as nat, base as nat, width as nat),
{
    let mut low: Vec<u8> = Vec::new();
    let mut rest: u64 = n;
    while rest >= base
        invariant
            2 <= base <= 16,
            as_digits(low@) + digits_low_first(rest as nat, base as nat) == digits_low_first(
                n as nat,
                base as nat,
            ),
            forall|k: int| 0 <= k < low.len() ==> low[k] < 16,
        decreases rest,
    {
        let ghost before = low@;
        let digit: u64 = rest % base;
        assert(rest / base < rest) by (nonlinear_arith)
            requires
                base >= 2,
                rest >= base,
        ;
        low.push(digit as u8);
        proof {
            assert(as_digits(low@) =~= as_digits(before) + seq![digit as nat]);
            assert(as_digits(low@) + digits_low_first((rest / base) as nat, base as nat)
                =~= as_digits(before) + digits_low_first(rest as nat, base as nat));
        }
        rest = rest / base;
    }
    let ghost before = low@;
    low.push(rest as u8);
    proof {
        assert(as_digits(low@) =~= as_digits(before) + seq![rest as nat]);
    }
    let ghost digits = low@;
    while low.len() < width
        invariant
            digits.len() <= low.len(),
            low.len() <= width || low@ == digits,
            as_digits(low@) == as_digits(digits) + Seq::new(
                (low.len() - digits.len()) as nat,
                |i: int| 0nat,
            ),
            forall|k: int| 0 <= k < low.len() ==> low[k] < 16,
        decreases width - low.len(),
    {
        let ghost before = low@;
        low.push(0);
        proof {
            assert(as_digits(low@) =~= as_digits(before).push(0nat));
            assert(as_digits(before).push(0nat) =~= as_digits(digits) + Seq::new(
                (low.len() - digits.len()) as nat,
                |i: int| 0nat,
            ));
        }
    }
    let ghost written = numeral(n as nat, base as nat, width as nat);
    proof {
        let lowest = digits_low_first(n as nat, base as nat);
        let padded = if lowest.len() < width {
            lowest + Seq::new((width - lowest.len()) as nat, |i: int| 0nat)
        } else {
            lowest
        };
        assert(lowest == as_digits(digits));
        assert(padded =~= as_digits(low@));
    }
    let mut i: usize = low.len();
    while i > 0
        invariant
            i <= low.len(),
            written.len() == low.len(),
            forall|k: int| 0 <= k < low.len() ==> low[k] < 16,
            forall|k: int| 0 <= k < low.len() ==> written[k] == glyph(low[low.len() - 1 - k] as nat),
            text@ == old(text)@ + written.take(low.len() - i),
        decreases i,
    {
        i -= 1;
        text.push(glyph_of(low[i]));
        assert(written.take(low.len() - i) =~= written.take(low.len() - i - 1).push(
            written[low.len() - i - 1],
        ));
    }
    assert(written.take(low.len() as int) =~= written);
}

} // verus!
