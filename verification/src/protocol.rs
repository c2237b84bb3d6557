//! The wire format: one ASCII line per pixel.
//!
//! A line reads `PX <x> <y> <hex>` and ends with a line feed. The coordinates
//! are decimal without leading zeros; `<hex>` holds two lower-case digits per
//! channel: two digits for gray, six for red-green-blue, eight with alpha.

use vstd::prelude::*;
use crate::color::Color;
use crate::position::Position;

verus! {

/// Longest line that can be produced: the keyword, two ten-digit
/// coordinates, eight hexadecimal digits, three spaces and the line feed.
pub const MAX_COMMAND_LEN: usize = 34;

/// The ASCII digit for `d`, which is below ten.
pub open spec fn decimal_digit(d: nat) -> u8
    recommends
        d < 10,
{
    (0x30 + d) as u8
}

/// `n` in decimal, most significant digit first, without leading zeros.
pub open spec fn decimal(n: nat) -> Seq<u8>
    decreases n,
{
    if n < 10 {
        seq![decimal_digit(n)]
    } else {
        decimal(n / 10).push(decimal_digit(n % 10))
    }
}

/// The lower-case hexadecimal digit for `d`, which is below sixteen.
pub open spec fn hex_digit(d: nat) -> u8
    recommends
        d < 16,
{
    if d < 10 {
        (0x30 + d) as u8
    } else {
        (0x61 + d - 10) as u8
    }
}

/// One channel as two hexadecimal digits, the high one first.
pub open spec fn hex_pair(channel: u8) -> Seq<u8> {
    seq![hex_digit((channel / 16) as nat), hex_digit((channel % 16) as nat)]
}

/// The hexadecimal field of a line: every channel of `color` in order.
pub open spec fn color_field(color: Color) -> Seq<u8> {
    match color {
        Color::Transparent => Seq::empty(),
        Color::Grayscale(c) => hex_pair(c),
        Color::Rgb(r, g, b) => hex_pair(r) + hex_pair(g) + hex_pair(b),
        Color::Rgba(r, g, b, a) => hex_pair(r) + hex_pair(g) + hex_pair(b) + hex_pair(a),
    }
}

/// The bytes `PX `.
pub open spec fn keyword() -> Seq<u8> {
    seq![0x50u8, 0x58u8, 0x20u8]
}

/// The bytes that draw `color` at `position`: nothing for a pixel that is
/// not drawn, one complete line otherwise.
pub open spec fn command(position: Position, color: Color) -> Seq<u8> {
    if color is Transparent {
        Seq::empty()
    } else {
        keyword() + decimal(position.x as nat).push(0x20u8) + decimal(position.y as nat).push(
            0x20u8,
        ) + color_field(color).push(0x0au8)
    }
}

/// A decimal number of a `u32` has between one and ten digits, all of them
/// ASCII digits, and starts with a zero only if it is zero.
pub proof fn lemma_decimal_shape(n: nat)
    ensures
        1 <= decimal(n).len(),
        n <= u32::MAX ==> decimal(n).len() <= 10,
        forall|i: int| 0 <= i < decimal(n).len() ==> 0x30 <= #[trigger] decimal(n)[i] <= 0x39,
        decimal(n)[0] == 0x30u8 <==> n == 0,
    decreases n,
{
    if n >= 10 {
        lemma_decimal_shape(n / 10);
        lemma_decimal_len_bound(n);
    }
}

/// A number below `10^k` has at most `k` digits, here for the `k` that
/// matter to a `u32`.
proof fn lemma_decimal_len_bound(n: nat)
    ensures
        n < 10 ==> decimal(n).len() == 1,
        n < 100 ==> decimal(n).len() <= 2,
        n < 1_000 ==> decimal(n).len() <= 3,
        n < 10_000 ==> decimal(n).len() <= 4,
        n < 100_000 ==> decimal(n).len() <= 5,
        n < 1_000_000 ==> decimal(n).len() <= 6,
        n < 10_000_000 ==> decimal(n).len() <= 7,
        n < 100_000_000 ==> decimal(n).len() <= 8,
        n < 1_000_000_000 ==> decimal(n).len() <= 9,
        n < 10_000_000_000 ==> decimal(n).len() <= 10,
    decreases n,
{
    if n >= 10 {
        lemma_decimal_len_bound(n / 10);
    }
}

/// The value that a string of decimal digits stands for.
pub open spec fn decimal_value(digits: Seq<u8>) -> nat
    decreases digits.len(),
{
    if digits.len() == 0 {
        0
    } else {
        (10 * decimal_value(digits.drop_last()) + (digits.last() - 0x30)) as nat
    }
}

/// Reading a rendered number gives the number back, so two numbers with the
/// same rendering are equal.
pub proof fn lemma_decimal_round_trip(n: nat)
    ensures
        decimal_value(decimal(n)) == n,
    decreases n,
{
    if n < 10 {
        assert(decimal(n).drop_last() =~= Seq::<u8>::empty());
        assert(decimal_value(decimal(n).drop_last()) == 0);
    } else {
        lemma_decimal_round_trip(n / 10);
        assert(decimal(n).drop_last() =~= decimal(n / 10));
    }
}

/// The hexadecimal field has exactly two lower-case digits per channel:
/// none, two, six or eight in all.
pub proof fn lemma_color_field_shape(color: Color)
    ensures
        color_field(color).len() == color.hex_digits(),
        forall|i: int|
            0 <= i < color_field(color).len() ==> {
                let d = #[trigger] color_field(color)[i];
                0x30 <= d <= 0x39 || 0x61 <= d <= 0x66
            },
{
}

/// A pixel that is not drawn costs no bytes. Every other pixel is one line:
/// it starts with the keyword, ends with its only line feed, and fits in
/// [`MAX_COMMAND_LEN`] bytes.
pub proof fn lemma_command_shape(position: Position, color: Color)
    ensures
        color is Transparent <==> command(position, color).len() == 0,
        command(position, color).len() <= MAX_COMMAND_LEN,
        !(color is Transparent) ==> {
            let line = command(position, color);
            &&& line.len() == 6 + decimal(position.x as nat).len() + decimal(
                position.y as nat,
            ).len() + color.hex_digits()
            &&& line.subrange(0, 3) == keyword()
            &&& line.last() == 0x0au8
            &&& forall|i: int| 0 <= i < line.len() - 1 ==> #[trigger] line[i] != 0x0au8
        },
{
    lemma_decimal_shape(position.x as nat);
    lemma_decimal_shape(position.y as nat);
    lemma_color_field_shape(color);
    if !(color is Transparent) {
        let line = command(position, color);
        assert(line.subrange(0, 3) =~= keyword());
    }
}

/// Appends `n` in decimal to `out`.
fn push_decimal(out: &mut Vec<u8>, n: u32)
    ensures
        final(out)@ == old(out)@ + decimal(n as nat),
    decreases n,
{
    if n >= 10 {
        push_decimal(out, n / 10);
    }
    let digit: u8 = (n % 10) as u8;
    out.push(0x30 + digit);
    proof {
        assert(final(out)@ =~= old(out)@ + decimal(n as nat));
    }
}

/// The lower-case hexadecimal digit for `d`.
fn hex_digit_of(d: u8) -> (digit: u8)
    requires
        d < 16,
    ensures
        digit == hex_digit(d as nat),
{
    if d < 10 {
        0x30 + d
    } else {
        0x61 + (d - 10)
    }
}

/// Appends the two hexadecimal digits of `channel` to `out`.
fn push_hex_pair(out: &mut Vec<u8>, channel: u8)
    ensures
        final(out)@ == old(out)@ + hex_pair(channel),
{
    out.push(hex_digit_of(channel / 16));
    out.push(hex_digit_of(channel % 16));
    proof {
        assert(final(out)@ =~= old(out)@ + hex_pair(channel));
    }
}

/// Renders the command that draws `color` at `position`.
///
/// A colour of three channels goes out as six digits: no alpha is added.
pub fn encode(position: Position, color: Color) -> (out: Vec<u8>)
    ensures
        out@ == command(position, color),
        out@.len() <= MAX_COMMAND_LEN,
{
    let mut out: Vec<u8> = Vec::new();
    proof {
        lemma_command_shape(position, color);
    }
    if let Color::Transparent = color {
        return out;
    }
    out.push(0x50);
    out.push(0x58);
    out.push(0x20);
    push_decimal(&mut out, position.x);
    out.push(0x20);
    push_decimal(&mut out, position.y);
    out.push(0x20);
    match color {
        Color::Transparent => {},
        Color::Grayscale(c) => {
            push_hex_pair(&mut out, c);
        },
        Color::Rgb(r, g, b) => {
            push_hex_pair(&mut out, r);
            push_hex_pair(&mut out, g);
            push_hex_pair(&mut out, b);
        },
        Color::Rgba(r, g, b, a) => {
            push_hex_pair(&mut out, r);
            push_hex_pair(&mut out, g);
            push_hex_pair(&mut out, b);
            push_hex_pair(&mut out, a);
        },
    }
    out.push(0x0a);
    proof {
        assert(out@ =~= command(position, color));
    }
    out
}

} // verus!
