use vstd::prelude::*;
use crate::interval::clamp;

verus! {

/// The largest value of a colour channel in the output.
pub const MAX_CHANNEL: u8 = 255;

/// The ASCII digits of `n` in base ten, most significant first, with no
/// leading zero.
pub open spec fn decimal(n: nat) -> Seq<u8>
    decreases n,
{
    if n < 10 {
        seq![(48 + n) as u8]
    } else {
        decimal(n / 10) + seq![(48 + n % 10) as u8]
    }
}

/// The three lines that open the ASCII raster: the marker `P3`, then
/// `"{width} {height}"`, then the largest channel value `255`.
pub open spec fn header_text(width: nat, height: nat) -> Seq<u8> {
    seq![80u8, 51u8, 10u8] + decimal(width) + seq![32u8] + decimal(height) + seq![
        10u8,
        50u8,
        53u8,
        53u8,
        10u8,
    ]
}

/// One pixel's line: `"{r} {g} {b}"` and a line break.
pub open spec fn pixel_text(p: (u8, u8, u8)) -> Seq<u8> {
    decimal(p.0 as nat) + seq![32u8] + decimal(p.1 as nat) + seq![32u8] + decimal(p.2 as nat)
        + seq![10u8]
}

/// The lines of the given pixels, one after another in their order.
pub open spec fn pixels_text(pixels: Seq<(u8, u8, u8)>) -> Seq<u8>
    decreases pixels.len(),
{
    if pixels.len() == 0 {
        seq![]
    } else {
        pixels_text(pixels.drop_last()) + pixel_text(pixels.last())
    }
}

/// The whole raster: the header, then one line per pixel in row-major order.
pub open spec fn image_text(width: nat, height: nat, pixels: Seq<(u8, u8, u8)>) -> Seq<u8> {
    header_text(width, height) + pixels_text(pixels)
}

/// The channel value for a colour component already scaled to `0..=255` and
/// rounded: values below the range give 0, values above it give 255.
pub open spec fn channel_value(scaled: int) -> int {
    if scaled < 0 {
        0
    } else if scaled > 255 {
        255
    } else {
        scaled
    }
}

/// Appends the decimal digits of `n`.
pub fn push_decimal(out: &mut Vec<u8>, n: u32)
    ensures
        final(out)@ == old(out)@ + decimal(n as nat),
    decreases n,
{
    if n >= 10 {
        push_decimal(out, n / 10);
    }
    let digit: u8 = (n % 10) as u8;
    out.push(48u8 + digit);
    assert(final(out)@ =~= old(out)@ + decimal(n as nat));
}

/// Appends one pixel's line.
pub fn push_pixel(out: &mut Vec<u8>, p: (u8, u8, u8))
    ensures
        final(out)@ == old(out)@ + pixel_text(p),
{
    push_decimal(out, p.0 as u32);
    out.push(32u8);
    push_decimal(out, p.1 as u32);
    out.push(32u8);
    push_decimal(out, p.2 as u32);
    out.push(10u8);
    assert(final(out)@ =~= old(out)@ + pixel_text(p));
}

/// The header of a raster of `width` by `height` pixels.
pub fn ppm_header(width: u32, height: u32) -> (r: Vec<u8>)
    ensures
        r@ == header_text(width as nat, height as nat),
{
    let mut out: Vec<u8> = Vec::new();
    out.push(80u8);
    out.push(51u8);
    out.push(10u8);
    push_decimal(&mut out, width);
    out.push(32u8);
    push_decimal(&mut out, height);
    out.push(10u8);
    out.push(50u8);
    out.push(53u8);
    out.push(53u8);
    out.push(10u8);
    assert(out@ =~= header_text(width as nat, height as nat));
    out
}

/// The line of one pixel.
pub fn pixel_line(r: u8, g: u8, b: u8) -> (line: Vec<u8>)
    ensures
        line@ == pixel_text((r, g, b)),
{
    let mut out: Vec<u8> = Vec::new();
    push_pixel(&mut out, (r, g, b));
    assert(out@ =~= pixel_text((r, g, b)));
    out
}

/// The whole raster of `width` by `height` pixels, given in row-major order:
/// top row first, each row from left to right.
pub fn ppm_image(width: u32, height: u32, pixels: &Vec<(u8, u8, u8)>) -> (r: Vec<u8>)
    requires
        pixels@.len() == width as nat * height as nat,
    ensures
        r@ == image_text(width as nat, height as nat, pixels@),
{
    let mut out = ppm_header(width, height);
    let mut i: usize = 0;
    while i < pixels.len()
        invariant
            i <= pixels@.len(),
            out@ == header_text(width as nat, height as nat) + pixels_text(
                pixels@.subrange(0, i as int),
            ),
        decreases pixels@.len() - i,
    {
        push_pixel(&mut out, pixels[i]);
        assert(pixels@.subrange(0, i + 1).drop_last() =~= pixels@.subrange(0, i as int));
        assert(out@ =~= header_text(width as nat, height as nat) + pixels_text(
            pixels@.subrange(0, i + 1),
        ));
        i = i + 1;
    }
    assert(pixels@.subrange(0, i as int) =~= pixels@);
    out
}

/// The output value of one colour channel, from its component scaled by 255
/// and rounded: the channel is clamped to `0..=255`.
pub fn encode_channel(scaled: i64) -> (r: u8)
    ensures
        r as int == channel_value(scaled as int),
{
    let c = clamp(scaled, 0i64, MAX_CHANNEL as i64);
    c as u8
}

} // verus!
