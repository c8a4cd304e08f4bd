//! Post-process box downsampling: each 2x2 block of pixels is averaged into
//! one output pixel, halving both image dimensions.

use vstd::prelude::*;

verus! {

/// The average of four 8-bit channel values, truncated.
pub open spec fn avg4(a: u8, b: u8, c: u8, d: u8) -> int {
    (a + b + c + d) / 4
}

/// The channelwise average of four pixels.
pub open spec fn avg_pixel(a: (u8, u8, u8), b: (u8, u8, u8), c: (u8, u8, u8), d: (u8, u8, u8))
    -> (u8, u8, u8) {
    (avg4(a.0, b.0, c.0, d.0) as u8, avg4(a.1, b.1, c.1, d.1) as u8, avg4(a.2, b.2, c.2, d.2) as u8)
}

/// The image downsampled by averaging each 2x2 block, in raster order.
pub open spec fn downsampled(pixels: Seq<(u8, u8, u8)>, width: int, height: int) -> Seq<(
    u8,
    u8,
    u8,
)> {
    let ow = width / 2;
    let oh = height / 2;
    Seq::new(
        (ow * oh) as nat,
        |i: int| {
            let x = 2 * (i % ow);
            let y = 2 * (i / ow);
            avg_pixel(
                pixels[y * width + x],
                pixels[y * width + x + 1],
                pixels[(y + 1) * width + x],
                pixels[(y + 1) * width + x + 1],
            )
        },
    )
}

/// The channelwise average of four pixels.
pub fn average_rgb_pixels(pixel1: &(u8, u8, u8), pixel2: &(u8, u8, u8), pixel3: &(u8, u8, u8),
    pixel4: &(u8, u8, u8)) -> (r: (u8, u8, u8))
    ensures
        r == avg_pixel(*pixel1, *pixel2, *pixel3, *pixel4),
{
    let r0: u8 = ((pixel1.0 as u16 + pixel2.0 as u16 + pixel3.0 as u16 + pixel4.0 as u16) / 4)
        as u8;
    let g0: u8 = ((pixel1.1 as u16 + pixel2.1 as u16 + pixel3.1 as u16 + pixel4.1 as u16) / 4)
        as u8;
    let b0: u8 = ((pixel1.2 as u16 + pixel2.2 as u16 + pixel3.2 as u16 + pixel4.2 as u16) / 4)
        as u8;
    (r0, g0, b0)
}

/// Downsample an image held as a flat raster-order pixel buffer; both
/// dimensions must be even and the buffer must hold exactly one pixel per
/// coordinate (an odd dimension would read past a row's end).
pub fn apply_anti_aliasing(pixels: &Vec<(u8, u8, u8)>, width: u32, height: u32) -> (r: Vec<(
    u8,
    u8,
    u8,
)>)
    requires
        pixels@.len() == width * height,
        width % 2 == 0,
        height % 2 == 0,
    ensures
        r@ == downsampled(pixels@, width as int, height as int),
{
    let ow: u32 = width / 2;
    let oh: u32 = height / 2;
    let ghost gw = width as int;
    let mut out: Vec<(u8, u8, u8)> = Vec::new();
    let mut py: u32 = 0;
    while py < oh
        invariant
            py <= oh,
            ow == width / 2,
            oh == height / 2,
            gw == width as int,
            pixels@.len() == width * height,
            width % 2 == 0,
            height % 2 == 0,
            out@.len() == py as int * (ow as int),
            forall|i: int| 0 <= i < out@.len() ==> out@[i] == downsampled(
                pixels@, gw, height as int,
            )[i],
        decreases oh - py,
    {
        let mut px: u32 = 0;
        while px < ow
            invariant
                py < oh,
                px <= ow,
                ow == width / 2,
                oh == height / 2,
                gw == width as int,
                pixels@.len() == width * height,
                width % 2 == 0,
                height % 2 == 0,
                out@.len() == py as int * (ow as int) + px as int,
                forall|i: int| 0 <= i < out@.len() ==> out@[i] == downsampled(
                    pixels@, gw, height as int,
                )[i],
            decreases ow - px,
        {
            let n: usize = pixels.len();
            let ghost bi0 = 2 * (py as int) * gw + 2 * (px as int);
            let ghost bi1 = (2 * (py as int) + 1) * gw + 2 * (px as int);
            proof {
                assert(2 * (py as int) + 1 < height && 2 * (px as int) + 1 < width)
                    by (nonlinear_arith)
                    requires
                        py < oh,
                        px < ow,
                        ow == width as int / 2,
                        oh == height as int / 2,
                        (width as int) % 2 == 0,
                        (height as int) % 2 == 0;
                assert(bi1 + 1 < width * height && bi0 <= bi1 && 0 <= bi0 && (height as int)
                    <= width * height)
                    by (nonlinear_arith)
                    requires
                        gw == width as int,
                        bi0 == 2 * (py as int) * gw + 2 * (px as int),
                        bi1 == (2 * (py as int) + 1) * gw + 2 * (px as int),
                        0 <= 2 * (py as int),
                        0 <= 2 * (px as int),
                        2 * (py as int) + 1 < height,
                        2 * (px as int) + 1 < width,
                        width >= 2;
                assert(width * height <= usize::MAX);
            }
            let base0: usize = (2 * (py as usize)) * (width as usize) + 2 * (px as usize);
            let base1: usize = (2 * (py as usize) + 1) * (width as usize) + 2 * (px as usize);
            let averaged: (u8, u8, u8) = average_rgb_pixels(
                &pixels[base0],
                &pixels[base0 + 1],
                &pixels[base1],
                &pixels[base1 + 1],
            );
            proof {
                let i = py as int * (ow as int) + px as int;
                vstd::arithmetic::div_mod::lemma_fundamental_div_mod_converse(
                    i, ow as int, py as int, px as int,
                );
                assert(0 <= i < (ow as int) * (oh as int)) by (nonlinear_arith)
                    requires 0 <= py < oh, 0 <= px < ow, i == py as int * (ow as int) + px as int;
                assert(averaged == downsampled(pixels@, gw, height as int)[i]);
            }
            out.push(averaged);
            px = px + 1;
        }
        proof {
            assert((py as int + 1) * (ow as int) == py as int * (ow as int) + ow as int)
                by (nonlinear_arith);
        }
        py = py + 1;
    }
    proof {
        assert(out@.len() == (oh as int) * (ow as int));
        assert((ow as int) * (oh as int) == (oh as int) * (ow as int)) by (nonlinear_arith);
        assert(out@ =~= downsampled(pixels@, width as int, height as int));
    }
    out
}

} // verus!
