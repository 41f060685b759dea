//! Drawing into an off-screen buffer of 640 by 480 pixels that DMA then
//! copies to the framebuffer.

use vstd::prelude::*;
use crate::dma::DmaControlBlock;
use crate::mailbox::vc::Framebuffer;
use crate::postman::{gradient_pixel, gradient_rows};

verus! {

/// Number of pixels the off-screen buffer holds.
pub const SCREEN_PIXELS: usize = 307200;

proof fn lemma_row_major_index(k: int, w: int, j: int, i: int)
    requires
        w > 0,
        0 <= i < w,
        k == j * w + i,
    ensures
        k / w == j,
        k % w == i,
{
    vstd::arithmetic::div_mod::lemma_fundamental_div_mod_converse(k, w, j, i);
}

/// The test gradient laid out row after row, as the off-screen buffer
/// holds it, and the control block that copies the buffer (at bus address
/// `buffer`) to the screen. Pixel `k` is pixel `k % width` of row
/// `k / width`. The display must fit in the buffer.
pub fn test_gradient_render2(fb: &Framebuffer, buffer: u32) -> (r: (Vec<u32>, DmaControlBlock))
    requires
        fb.phy_size.0 * fb.phy_size.1 <= SCREEN_PIXELS,
    ensures
        r.0@.len() == fb.phy_size.0 * fb.phy_size.1,
        forall|k: int|
            0 <= k < r.0@.len() ==> #[trigger] r.0@[k] == gradient_pixel(
                fb.phy_size.0 as nat,
                (k / fb.phy_size.0 as int) as nat,
                (k % fb.phy_size.0 as int) as nat,
            ),
        r.1 == DmaControlBlock::screen_copy_spec(buffer, *fb),
{
    let width = fb.phy_size.0;
    let height = fb.phy_size.1;
    let rows = gradient_rows(width, height);
    let mut out: Vec<u32> = Vec::new();
    let mut j: u32 = 0;
    while j < height
        invariant
            j <= height,
            width == fb.phy_size.0,
            height == fb.phy_size.1,
            rows@.len() == height,
            forall|jj: int| 0 <= jj < height ==> #[trigger] rows@[jj]@.len() == width,
            forall|jj: int, i: int|
                0 <= jj < height && 0 <= i < width ==> #[trigger] rows@[jj]@[i] == gradient_pixel(
                    width as nat,
                    jj as nat,
                    i as nat,
                ),
            out@.len() == j * width,
            forall|k: int|
                0 <= k < out@.len() ==> #[trigger] out@[k] == gradient_pixel(
                    width as nat,
                    (k / width as int) as nat,
                    (k % width as int) as nat,
                ),
        decreases height - j,
    {
        let row = &rows[j as usize];
        assert(row@.len() == width);
        let mut i: u32 = 0;
        while i < width
            invariant
                i <= width,
                j < height,
                width == fb.phy_size.0,
                row@.len() == width,
                forall|ii: int| 0 <= ii < width ==> #[trigger] row@[ii] == gradient_pixel(
                    width as nat,
                    j as nat,
                    ii as nat,
                ),
                out@.len() == j * width + i,
                forall|k: int|
                    0 <= k < out@.len() ==> #[trigger] out@[k] == gradient_pixel(
                        width as nat,
                        (k / width as int) as nat,
                        (k % width as int) as nat,
                    ),
            decreases width - i,
        {
            proof {
                lemma_row_major_index(j * width + i, width as int, j as int, i as int);
            }
            out.push(row[i as usize]);
            i = i + 1;
        }
        proof {
            assert((j + 1) * width == j * width + width) by (nonlinear_arith);
        }
        j = j + 1;
    }
    assert(height * width == width * height) by (nonlinear_arith);
    (out, DmaControlBlock::screen_copy(buffer, fb))
}

/// A cleared off-screen buffer for the display (one zero per pixel) and
/// the control block that copies it (at bus address `buffer`) to the
/// screen. The display must fit in the buffer.
pub fn dma_clear_screen(fb: &Framebuffer, buffer: u32) -> (r: (Vec<u32>, DmaControlBlock))
    requires
        fb.phy_size.0 * fb.phy_size.1 <= SCREEN_PIXELS,
    ensures
        r.0@.len() == fb.phy_size.0 * fb.phy_size.1,
        forall|k: int| 0 <= k < r.0@.len() ==> #[trigger] r.0@[k] == 0,
        r.1 == DmaControlBlock::screen_copy_spec(buffer, *fb),
{
    let n: usize = (fb.phy_size.0 as usize) * (fb.phy_size.1 as usize);
    let mut out: Vec<u32> = Vec::new();
    while out.len() < n
        invariant
            n == fb.phy_size.0 * fb.phy_size.1,
            out@.len() <= n,
            forall|k: int| 0 <= k < out@.len() ==> #[trigger] out@[k] == 0,
        decreases n - out@.len(),
    {
        out.push(0);
    }
    (out, DmaControlBlock::screen_copy(buffer, fb))
}

} // verus!
