//! The plain-text pixel format images are written in (ASCII PPM): a header of the format's
//! magic number, the width and the height, and the largest channel value 255, then one line
//! `r g b` per pixel, in scan order.
use vstd::prelude::*;

verus! {

/// The decimal digits of `n`, in ASCII, with no leading zero.
pub open spec fn decimal(n: nat) -> Seq<u8>
    decreases n,
{
    if n < 10 {
        seq![(48 + n) as u8]
    } else {
        decimal(n / 10).push((48 + n % 10) as u8)
    }
}

/// The ASCII PPM magic number, the width and the height, and the largest channel value,
/// one per line.
pub open spec fn header_bytes(width: nat, height: nat) -> Seq<u8> {
    // "P3\n", the width, a space, the height, "\n255\n"
    seq![80u8, 51u8, 10u8] + decimal(width) + seq![32u8] + decimal(height) + seq![
        10u8,
        50u8,
        53u8,
        53u8,
        10u8,
    ]
}

/// The three channels of one pixel, separated by spaces, ending the line.
pub open spec fn pixel_bytes(p: (u8, u8, u8)) -> Seq<u8> {
    decimal(p.0 as nat) + seq![32u8] + decimal(p.1 as nat) + seq![32u8] + decimal(p.2 as nat)
        + seq![10u8]
}

/// The lines of `pixels`, in order.
pub open spec fn body_bytes(pixels: Seq<(u8, u8, u8)>) -> Seq<u8>
    decreases pixels.len(),
{
    if pixels.len() == 0 {
        Seq::empty()
    } else {
        body_bytes(pixels.drop_last()) + pixel_bytes(pixels.last())
    }
}

/// Appends the decimal digits of `n`.
fn push_decimal(out: &mut Vec<u8>, n: u32)
    ensures
        final(out)@ == old(out)@ + decimal(n as nat),
    decreases n,
{
    if n >= 10 {
        push_decimal(out, n / 10);
    }
    let d: u8 = (n % 10) as u8;
    out.push(48u8 + d);
    proof {
        if n >= 10 {
            assert(old(out)@ + decimal(n as nat) =~= old(out)@ + decimal((n / 10) as nat) + seq![
                (48 + d) as u8,
            ]);
        } else {
            assert(decimal(n as nat) =~= seq![(48 + d) as u8]);
        }
        assert(final(out)@ =~= old(out)@ + decimal(n as nat));
    }
}

/// Appends the line of one pixel.
fn push_pixel(out: &mut Vec<u8>, p: (u8, u8, u8))
    ensures
        final(out)@ == old(out)@ + pixel_bytes(p),
{
    push_decimal(out, p.0 as u32);
    out.push(32u8);
    push_decimal(out, p.1 as u32);
    out.push(32u8);
    push_decimal(out, p.2 as u32);
    out.push(10u8);
    assert(final(out)@ =~= old(out)@ + pixel_bytes(p));
}

/// The header of an image of `width` by `height` pixels.
pub fn ppm_header(width: u32, height: u32) -> (r: Vec<u8>)
    ensures
        r@ == header_bytes(width as nat, height as nat),
{
    let mut out: Vec<u8> = Vec::new();
    // the magic number, then a newline
    out.push(80u8);
    out.push(51u8);
    out.push(10u8);
    push_decimal(&mut out, width);
    out.push(32u8);
    push_decimal(&mut out, height);
    // a newline, then the largest channel value
    out.push(10u8);
    out.push(50u8);
    out.push(53u8);
    out.push(53u8);
    out.push(10u8);
    assert(out@ =~= header_bytes(width as nat, height as nat));
    out
}

/// The line that one pixel is written as, from its three channel values.
pub fn pixel_line(r: u8, g: u8, b: u8) -> (out: Vec<u8>)
    ensures
        out@ == pixel_bytes((r, g, b)),
{
    let mut out: Vec<u8> = Vec::new();
    push_pixel(&mut out, (r, g, b));
    assert(out@ =~= pixel_bytes((r, g, b)));
    out
}

/// The whole image: the header, then one line per pixel in the order given. `None` when the
/// number of pixels is not `width * height`.
pub fn encode_image(width: u32, height: u32, pixels: &Vec<(u8, u8, u8)>) -> (r: Option<
    Vec<u8>,
>)
    ensures
        r is None <==> pixels@.len() != width as int * height as int,
        r matches Some(bytes) ==> bytes@ == header_bytes(width as nat, height as nat) + body_bytes(
            pixels@,
        ),
{
    proof {
        assert(width as int * height as int <= u32::MAX as int * u32::MAX as int)
            by (nonlinear_arith)
            requires
                width <= u32::MAX,
                height <= u32::MAX,
        ;
    }
    if pixels.len() as u64 != width as u64 * height as u64 {
        return None;
    }
    let mut out = ppm_header(width, height);
    let mut k: usize = 0;
    while k < pixels.len()
        invariant
            k <= pixels@.len(),
            out@ == header_bytes(width as nat, height as nat) + body_bytes(pixels@.take(k as int)),
        decreases pixels@.len() - k,
    {
        push_pixel(&mut out, pixels[k]);
        proof {
            assert(pixels@.take(k + 1).drop_last() =~= pixels@.take(k as int));
        }
        k = k + 1;
    }
    assert(pixels@.take(k as int) =~= pixels@);
    Some(out)
}

} // verus!
