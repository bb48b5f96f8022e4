use vstd::prelude::*;
use vstd::arithmetic::div_mod::lemma_fundamental_div_mod_converse;
use crate::geometry::{rect_within, CropRect};

verus! {

/// The mathematical content of a capture: its size and its RGBA8 bytes, row-major.
pub ghost struct Raster {
    pub width: u32,
    pub height: u32,
    pub pixels: Seq<u8>,
}

impl Raster {
    /// Four bytes for each pixel, nothing more.
    pub open spec fn wf(self) -> bool {
        self.pixels.len() == self.width * self.height * 4
    }
}

/// Where byte `i` of the crop `r` comes from in a source `src_width` pixels wide:
/// crop row `i / (4 * r.width)`, byte `i % (4 * r.width)` of it, read with the
/// source's own row stride.
pub open spec fn crop_source_index(src_width: u32, r: CropRect, i: int) -> int {
    let row_len = r.width * 4;
    (r.y + i / row_len) * (src_width * 4) + r.x * 4 + i % row_len
}

/// The sub-image `r` of `src`.
pub open spec fn crop_raster(src: Raster, r: CropRect) -> Raster {
    Raster {
        width: r.width,
        height: r.height,
        pixels: Seq::new(
            (r.width * r.height * 4) as nat,
            |i: int| src.pixels[crop_source_index(src.width, r, i)],
        ),
    }
}

/// A captured RGBA8 image. It cannot change once built.
pub struct PixelBuffer {
    width: u32,
    height: u32,
    pixels: Vec<u8>,
}

impl View for PixelBuffer {
    type V = Raster;

    closed spec fn view(&self) -> Raster {
        Raster { width: self.width, height: self.height, pixels: self.pixels@ }
    }
}

impl PixelBuffer {
    pub open spec fn wf(&self) -> bool {
        self@.wf()
    }

    /// Wraps `pixels` as a `width` x `height` image; refused unless it holds
    /// exactly four bytes per pixel.
    pub fn new(width: u32, height: u32, pixels: Vec<u8>) -> (r: Option<PixelBuffer>)
        ensures
            r is Some <==> pixels@.len() == width * height * 4,
            r matches Some(b) ==> b.wf() && b@ == (Raster { width, height, pixels: pixels@ }),
    {
        proof {
            assert(width * height <= u32::MAX * u32::MAX) by (nonlinear_arith)
                requires
                    width <= u32::MAX,
                    height <= u32::MAX,
            ;
        }
        let expected: u64 = width as u64 * height as u64;
        let len: u64 = pixels.len() as u64;
        if expected <= u64::MAX / 4 && len == expected * 4 {
            Some(PixelBuffer { width, height, pixels })
        } else {
            assert(len == pixels@.len());
            assert(expected == width * height);
            None
        }
    }

    pub fn width(&self) -> (r: u32)
        ensures
            r == self@.width,
    {
        self.width
    }

    pub fn height(&self) -> (r: u32)
        ensures
            r == self@.height,
    {
        self.height
    }

    pub fn pixels(&self) -> (r: &Vec<u8>)
        ensures
            r@ == self@.pixels,
    {
        &self.pixels
    }

    /// The sub-image `r`, copied row by row.
    pub fn crop(&self, r: CropRect) -> (out: PixelBuffer)
        requires
            self.wf(),
            rect_within(r, self@.width, self@.height),
        ensures
            out.wf(),
            out@ == crop_raster(self@, r),
    {
        let ghost src = self@;
        let total: usize = self.pixels.len();
        let mut bytes: Vec<u8> = Vec::new();
        let mut row: u32 = 0;
        while row < r.height
            invariant
                self.wf(),
                src == self@,
                total == src.pixels.len(),
                rect_within(r, src.width, src.height),
                row <= r.height,
                bytes@.len() == row * (r.width * 4),
                forall|i: int|
                    0 <= i < bytes@.len() ==> #[trigger] bytes@[i] == src.pixels[crop_source_index(
                        src.width,
                        r,
                        i,
                    )],
            decreases r.height - row,
        {
            proof {
                assert((r.y + row + 1) * (self.width * 4) <= self.height * (self.width * 4))
                    by (nonlinear_arith)
                    requires
                        r.y + row + 1 <= self.height,
                ;
                assert(self.height * (self.width * 4) == self.width * self.height * 4)
                    by (nonlinear_arith);
                assert(r.width * 4 <= (r.y + row + 1) * (self.width * 4)) by (nonlinear_arith)
                    requires
                        r.width <= self.width,
                        r.y + row + 1 >= 1,
                ;
                assert((r.y + row) * (self.width * 4) + self.width * 4 == (r.y + row + 1) * (
                self.width * 4)) by (nonlinear_arith);
                assert((r.y + row) * (self.width * 4) <= (r.y + row) * (self.width * 4) + self.width * 4);
                assert(self.width * 4 <= (r.y + row + 1) * (self.width * 4)) by (nonlinear_arith)
                    requires
                        r.y + row + 1 >= 1,
                ;
            }
            let row_len: usize = r.width as usize * 4;
            let start: usize = (r.y + row) as usize * (self.width as usize * 4) + r.x as usize * 4;
            let mut c: usize = 0;
            while c < row_len
                invariant
                    self.wf(),
                    src == self@,
                    rect_within(r, src.width, src.height),
                    row < r.height,
                    row_len == r.width * 4,
                    start == (r.y + row) * (src.width * 4) + r.x * 4,
                    start + row_len <= src.pixels.len(),
                    total == src.pixels.len(),
                    c <= row_len,
                    bytes@.len() == row * row_len + c,
                    forall|i: int|
                        0 <= i < bytes@.len() ==> #[trigger] bytes@[i] == src.pixels[crop_source_index(
                            src.width,
                            r,
                            i,
                        )],
                decreases row_len - c,
            {
                proof {
                    lemma_fundamental_div_mod_converse(
                        row * row_len + c,
                        row_len as int,
                        row as int,
                        c as int,
                    );
                }
                bytes.push(self.pixels[start + c]);
                c += 1;
            }
            proof {
                assert(row * row_len + row_len == (row + 1) * row_len) by (nonlinear_arith);
            }
            row += 1;
        }
        proof {
            assert(r.height * (r.width * 4) == r.width * r.height * 4) by (nonlinear_arith);
            assert(bytes@ =~= crop_raster(src, r).pixels);
        }
        PixelBuffer { width: r.width, height: r.height, pixels: bytes }
    }

    /// A copy with the same content.
    pub fn duplicate(&self) -> (r: PixelBuffer)
        ensures
            r@ == self@,
    {
        PixelBuffer { width: self.width, height: self.height, pixels: self.pixels.clone() }
    }
}

} // verus!
