//! Plain-text (ASCII) PPM encoding of an image.
use vstd::prelude::*;

verus! {

/// ASCII digits of a natural number, most significant first, without leading zeros.
pub open spec fn decimal(n: nat) -> Seq<u8>
    decreases n,
{
    if n < 10 {
        seq![(48 + n) as u8]
    } else {
        decimal(n / 10) + seq![(48 + n % 10) as u8]
    }
}

/// ASCII text of an integer as Rust's `{}` formatting writes it.
pub open spec fn signed_decimal(n: int) -> Seq<u8> {
    if n < 0 {
        seq![45u8] + decimal((-n) as nat)
    } else {
        decimal(n as nat)
    }
}

/// The three header lines of a plain-text PPM image: magic number, size,
/// maximum channel value.
pub open spec fn header_text(width: int, height: int, max_value: int) -> Seq<u8> {
    seq![80u8, 51u8, 10u8] + signed_decimal(width) + seq![32u8] + signed_decimal(height) + seq![
        10u8,
    ] + signed_decimal(max_value) + seq![10u8]
}

/// One pixel line of a plain-text PPM image: the three channel values separated by spaces.
pub open spec fn pixel_text(r: int, g: int, b: int) -> Seq<u8> {
    signed_decimal(r) + seq![32u8] + signed_decimal(g) + seq![32u8] + signed_decimal(b) + seq![10u8]
}

fn push_digits(out: &mut Vec<u8>, n: u32)
    ensures
        final(out)@ == old(out)@ + decimal(n as nat),
    decreases n,
{
    if n >= 10 {
        push_digits(out, n / 10);
    }
    out.push(48u8 + (n % 10) as u8);
    proof {
        assert(final(out)@ == old(out)@ + decimal(n as nat)) by {
            if n >= 10 {
                assert(old(out)@ + decimal(n as nat) =~= old(out)@ + decimal((n / 10) as nat) + seq![
                    (48 + n % 10) as u8,
                ]);
            } else {
                assert(old(out)@ + decimal(n as nat) =~= old(out)@ + seq![(48 + n) as u8]);
            }
        }
    }
}

/// Appends the decimal text of `n` to `out`.
pub fn push_decimal(out: &mut Vec<u8>, n: i32)
    ensures
        final(out)@ == old(out)@ + signed_decimal(n as int),
{
    if n < 0 {
        out.push(45u8);
        let magnitude: u32 = (-(n as i64)) as u32;
        push_digits(out, magnitude);
        proof {
            assert(final(out)@ =~= old(out)@ + signed_decimal(n as int));
        }
    } else {
        push_digits(out, n as u32);
    }
}

/// The header of a plain-text PPM image of the given size whose channels range over `0..=max_colour_value`.
pub fn ppm_headers(image_pixel_width: i32, image_pixel_height: i32, max_colour_value: i32) -> (r:
    Vec<u8>)
    ensures
        r@ == header_text(
            image_pixel_width as int,
            image_pixel_height as int,
            max_colour_value as int,
        ),
{
    let mut out: Vec<u8> = Vec::new();
    out.push(80u8);
    out.push(51u8);
    out.push(10u8);
    push_decimal(&mut out, image_pixel_width);
    out.push(32u8);
    push_decimal(&mut out, image_pixel_height);
    out.push(10u8);
    push_decimal(&mut out, max_colour_value);
    out.push(10u8);
    proof {
        assert(out@ =~= header_text(
            image_pixel_width as int,
            image_pixel_height as int,
            max_colour_value as int,
        ));
    }
    out
}

/// The line that encodes one pixel whose channels are already quantised.
pub fn ppm_pixel(r: i32, g: i32, b: i32) -> (line: Vec<u8>)
    ensures
        line@ == pixel_text(r as int, g as int, b as int),
{
    let mut out: Vec<u8> = Vec::new();
    push_decimal(&mut out, r);
    out.push(32u8);
    push_decimal(&mut out, g);
    out.push(32u8);
    push_decimal(&mut out, b);
    out.push(10u8);
    proof {
        assert(out@ =~= pixel_text(r as int, g as int, b as int));
    }
    out
}

} // verus!
