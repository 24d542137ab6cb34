use vstd::prelude::*;

verus! {

/// An 8-bit colour: one byte for each of red, green and blue.
#[derive(Clone, Copy, PartialEq, Eq, Structural, Debug)]
pub struct Pixel {
    pub r: u8,
    pub g: u8,
    pub b: u8,
}

/// The ASCII digit for `d` (`d < 10`).
pub open spec fn digit(d: nat) -> u8 {
    (48 + d) as u8
}

/// The decimal numeral of `n`, most significant digit first, without leading zeros.
pub open spec fn decimal(n: nat) -> Seq<u8>
    decreases n,
{
    if n < 10 {
        seq![digit(n)]
    } else {
        decimal(n / 10) + seq![digit(n % 10)]
    }
}

/// The text of the image header: a line with the magic `P3`, a line with the
/// width and the height, and a line with the largest channel value, 255.
pub open spec fn header_text(width: nat, height: nat) -> Seq<u8> {
    seq![80u8, 51u8, 10u8] + decimal(width) + seq![32u8] + decimal(height) + seq![10u8]
        + seq![50u8, 53u8, 53u8, 10u8]
}

/// The text of one pixel: its three channels in decimal, separated by a space,
/// ending the line.
pub open spec fn pixel_text(p: Pixel) -> Seq<u8> {
    decimal(p.r as nat) + seq![32u8] + decimal(p.g as nat) + seq![32u8] + decimal(p.b as nat)
        + seq![10u8]
}

/// The lines of `pixels`, in order.
pub open spec fn pixels_text(pixels: Seq<Pixel>) -> Seq<u8>
    decreases pixels.len(),
{
    if pixels.len() == 0 {
        seq![]
    } else {
        pixels_text(pixels.drop_last()) + pixel_text(pixels.last())
    }
}

/// Appends the decimal numeral of `n`.
pub fn push_decimal(out: &mut Vec<u8>, n: u32)
    ensures
        final(out)@ == old(out)@ + decimal(n as nat),
    decreases n,
{
    if n >= 10 {
        push_decimal(out, n / 10);
    }
    let d: u32 = n % 10;
    out.push(48u8 + d as u8);
    assert(final(out)@ =~= old(out)@ + decimal(n as nat));
}

/// The header of an image of `width` by `height` pixels.
pub fn header(width: u32, height: u32) -> (r: Vec<u8>)
    ensures
        r@ == header_text(width as nat, height as nat),
{
    let mut out: Vec<u8> = Vec::new();
    out.push(80u8);
    out.push(51u8);
    out.push(10u8);
    push_decimal(&mut out, width);
    out.push(32u8);
    push_decimal(&mut out, height);
    out.push(10u8);
    out.push(50u8);
    out.push(53u8);
    out.push(53u8);
    out.push(10u8);
    assert(out@ =~= header_text(width as nat, height as nat));
    out
}

/// Appends the line of one pixel.
pub fn push_pixel(out: &mut Vec<u8>, p: Pixel)
    ensures
        final(out)@ == old(out)@ + pixel_text(p),
{
    push_decimal(out, p.r as u32);
    out.push(32u8);
    push_decimal(out, p.g as u32);
    out.push(32u8);
    push_decimal(out, p.b as u32);
    out.push(10u8);
    assert(final(out)@ =~= old(out)@ + pixel_text(p));
}

/// The whole image: the header, then the pixels row by row from the top, each
/// row from left to right. `None` when the number of pixels is not
/// `width * height`.
pub fn encode_image(width: u32, height: u32, pixels: &Vec<Pixel>) -> (r: Option<Vec<u8>>)
    ensures
        r is Some <==> pixels.len() == width as nat * height as nat,
        r matches Some(bytes) ==> bytes@ == header_text(width as nat, height as nat) + pixels_text(pixels@),
{
    proof {
        let (w, h) = (width as int, height as int);
        assert(w * h <= 0xffff_ffffint * 0xffff_ffffint) by (nonlinear_arith)
            requires
                0 <= w <= 0xffff_ffff,
                0 <= h <= 0xffff_ffff,
        ;
    }
    if (width as u64) * (height as u64) != pixels.len() as u64 {
        return None;
    }
    let mut out = header(width, height);
    let mut n: usize = 0;
    while n < pixels.len()
        invariant
            n <= pixels.len(),
            out@ == header_text(width as nat, height as nat) + pixels_text(pixels@.subrange(0, n as int)),
        decreases pixels.len() - n,
    {
        let ghost before = out@;
        push_pixel(&mut out, pixels[n]);
        assert(pixels@.subrange(0, n as int + 1).drop_last() =~= pixels@.subrange(0, n as int));
        assert(out@ =~= header_text(width as nat, height as nat) + pixels_text(pixels@.subrange(0, n as int + 1)));
        n = n + 1;
    }
    assert(pixels@.subrange(0, n as int) =~= pixels@);
    Some(out)
}

} // verus!
