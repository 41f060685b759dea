//! Palette images compiled into the kernel, drawn pixel by pixel.

use vstd::prelude::*;
use crate::font::Pixel;

verus! {

/// An image of `width` x `height` palette indices, row by row.
pub struct ExportedImage<'a> {
    pub width: u32,
    pub height: u32,
    pub palette: &'a [u32],
    pub array: &'a [u8],
}

impl<'a> ExportedImage<'a> {
    /// The image can be drawn at (x, y): its pixel indices fit in 32 bits
    /// and lie in the array, every index names a palette entry, and the
    /// drawn coordinates fit in 32 bits.
    pub open spec fn renderable(&self, x: u32, y: u32) -> bool {
        self.width == 0 || self.height == 0 || {
            &&& self.width * self.height <= u32::MAX + 1
            &&& self.width * self.height <= self.array@.len()
            &&& forall|k: int| 0 <= k < self.width * self.height ==> (#[trigger] self.array@[k]) < self.palette@.len()
            &&& x + self.width - 1 <= u32::MAX
            &&& y + self.height - 1 <= u32::MAX
        }
    }

    /// The pixel drawn for column `i` of row `j`.
    pub open spec fn pixel_at(&self, x: u32, y: u32, j: int, i: int) -> Pixel {
        Pixel {
            x: (i + x) as u32,
            y: (j + y) as u32,
            color: self.palette@[self.array@[j * self.width + i] as int],
        }
    }

    /// The pixels of the image drawn with its corner at (x, y), row by row.
    pub fn render(&self, x: u32, y: u32) -> (rows: Vec<Vec<Pixel>>)
        requires
            self.renderable(x, y),
        ensures
            rows@.len() == self.height,
            forall|j: int| 0 <= j < self.height ==> #[trigger] rows@[j]@.len() == self.width,
            forall|j: int, i: int|
                0 <= j < self.height && 0 <= i < self.width ==> #[trigger] rows@[j]@[i] == self.pixel_at(x, y, j, i),
    {
        let mut rows: Vec<Vec<Pixel>> = Vec::new();
        let mut j: u32 = 0;
        while j < self.height
            invariant
                self.renderable(x, y),
                j <= self.height,
                rows@.len() == j,
                forall|jj: int| 0 <= jj < j ==> #[trigger] rows@[jj]@.len() == self.width,
                forall|jj: int, i: int|
                    0 <= jj < j && 0 <= i < self.width ==> #[trigger] rows@[jj]@[i] == self.pixel_at(x, y, jj, i),
            decreases self.height - j,
        {
            let mut row: Vec<Pixel> = Vec::new();
            let mut i: u32 = 0;
            while i < self.width
                invariant
                    self.renderable(x, y),
                    j < self.height,
                    i <= self.width,
                    row@.len() == i,
                    forall|k: int| 0 <= k < i ==> #[trigger] row@[k] == self.pixel_at(x, y, j as int, k),
                decreases self.width - i,
            {
                proof {
                    let w = self.width as int;
                    let h = self.height as int;
                    assert(j * w + i <= w * h - 1) by (nonlinear_arith)
                        requires
                            0 <= j < h,
                            0 <= i < w,
                    ;
                    assert(0 <= j * w + i) by (nonlinear_arith)
                        requires
                            0 <= j,
                            0 <= i,
                            0 <= w,
                    ;
                }
                let index: usize = ((j * self.width) + i) as usize;
                let color = self.palette[self.array[index] as usize];
                row.push(Pixel { x: i + x, y: j + y, color });
                i = i + 1;
            }
            rows.push(row);
            j = j + 1;
        }
        rows
    }
}

} // verus!
