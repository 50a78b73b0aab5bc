//! The rendering engine's pixel layout.
//!
//! The engine fans the pixel index space `0 .. width * height` across
//! workers; each index denotes one pixel in row-major order. Verified here
//! are the fail-fast check on the requested dimensions together with the
//! workload size, the mapping from a pixel index to its coordinates, and
//! the assembly of byte-rounded pixel colors into the raw RGBA byte buffer
//! an image is built from.

use vstd::prelude::*;

use crate::color::Rgb;

verus! {

/// Validates requested image dimensions and sizes the per-pixel workload.
///
/// The camera projection is only defined for landscape or square images,
/// so `width < height` is rejected, as is a pixel count beyond the index
/// space; otherwise the total number of pixels to dispatch is returned.
pub fn render_plan(width: u32, height: u32) -> (r: Option<u32>)
    ensures
        r is Some <==> width >= height && width as int * height as int <= u32::MAX as int,
        r is Some ==> r->0 as int == width as int * height as int,
{
    if width < height {
        return None;
    }
    width.checked_mul(height)
}

/// The row-major coordinates of a pixel index: `index == y * width + x`
/// with `x < width`.
pub fn pixel_coordinates(index: u32, width: u32) -> (r: (u32, u32))
    requires
        width > 0,
    ensures
        r.0 as int == index as int % width as int,
        r.1 as int == index as int / width as int,
        r.1 as int * width as int + r.0 as int == index as int,
        r.0 < width,
{
    let y = index / width;
    proof {
        let q = index as int / width as int;
        let rem = index as int % width as int;
        vstd::arithmetic::div_mod::lemma_fundamental_div_mod(index as int, width as int);
        assert(index as int == width as int * q + rem);
        assert(rem >= 0);
        assert(y as int == q);
        assert(y as int * width as int == width as int * q) by (nonlinear_arith)
            requires
                y as int == q,
        ;
        assert(y as int * width as int <= index as int);
    }
    let x = index - y * width;
    (x, y)
}

/// Assembles byte-rounded pixels, in index order, into the raw image
/// buffer: four bytes per pixel — red, green, blue, and a fully opaque
/// alpha channel.
pub fn assemble_rgba(pixels: &Vec<Rgb>) -> (r: Vec<u8>)
    ensures
        r@.len() == 4 * pixels@.len(),
        forall|k: int|
            0 <= k < pixels@.len() ==> {
                let p = #[trigger] pixels@[k];
                &&& r@[4 * k] == p.red
                &&& r@[4 * k + 1] == p.green
                &&& r@[4 * k + 2] == p.blue
                &&& r@[4 * k + 3] == 255u8
            },
{
    let mut out: Vec<u8> = Vec::new();
    let mut i: usize = 0;
    while i < pixels.len()
        invariant
            i <= pixels@.len(),
            out@.len() == 4 * i,
            forall|k: int|
                0 <= k < i ==> {
                    let p = #[trigger] pixels@[k];
                    &&& out@[4 * k] == p.red
                    &&& out@[4 * k + 1] == p.green
                    &&& out@[4 * k + 2] == p.blue
                    &&& out@[4 * k + 3] == 255u8
                },
        decreases pixels@.len() - i,
    {
        let p = pixels[i];
        out.push(p.red);
        out.push(p.green);
        out.push(p.blue);
        out.push(255);
        i = i + 1;
    }
    out
}

} // verus!
