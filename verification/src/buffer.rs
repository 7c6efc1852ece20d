//! The 8-bit grayscale image buffer that every stage of the analysis works
//! on: a row-major byte buffer with an explicit row stride.

use vstd::prelude::*;

verus! {

/// How many entries of `s` equal `v`.
pub open spec fn count_matching(s: Seq<u8>, v: u8) -> nat
    decreases s.len(),
{
    if s.len() == 0 {
        0
    } else {
        count_matching(s.drop_last(), v) + (if s.last() == v {
            1nat
        } else {
            0nat
        })
    }
}

proof fn lemma_count_matching_push(s: Seq<u8>, e: u8, v: u8)
    ensures
        count_matching(s.push(e), v) == count_matching(s, v) + (if e == v {
            1nat
        } else {
            0nat
        }),
{
    assert(s.push(e).drop_last() =~= s);
}

/// An 8-bit grayscale image: `data[y * stride + x]` is the pixel at column
/// `x` of row `y`.
#[derive(Debug, Clone)]
pub struct PixelBuffer {
    pub width: usize,
    pub height: usize,
    pub stride: usize,
    pub data: Vec<u8>,
}

impl PixelBuffer {
    /// Well-formedness: the stride covers a whole row and the buffer covers
    /// `height` rows of it.
    pub open spec fn wf(&self) -> bool {
        &&& self.stride >= self.width
        &&& self.data.len() >= self.stride * self.height
    }

    /// The pixel at column `x` of row `y`.
    pub open spec fn pixel(&self, x: int, y: int) -> u8 {
        self.data[y * self.stride + x]
    }

    /// Every pixel of a well-formed buffer lies inside the byte buffer.
    pub proof fn lemma_pixel_in_bounds(&self, x: int, y: int)
        requires
            self.wf(),
            0 <= x < self.width,
            0 <= y < self.height,
        ensures
            0 <= y * self.stride + x < self.data.len(),
    {
        assert(y * self.stride + x < self.stride * self.height) by (nonlinear_arith)
            requires
                0 <= x < self.stride,
                0 <= y < self.height,
        ;
        assert(0 <= y * self.stride) by (nonlinear_arith)
            requires
                0 <= y,
                0 <= self.stride,
        ;
    }

    /// Distinct in-bounds pixel positions occupy distinct buffer indices.
    pub proof fn lemma_pixel_index_injective(&self, x1: int, y1: int, x2: int, y2: int)
        requires
            self.wf(),
            0 <= x1 < self.width,
            0 <= y1 < self.height,
            0 <= x2 < self.width,
            0 <= y2 < self.height,
            (x1, y1) != (x2, y2),
        ensures
            y1 * self.stride + x1 != y2 * self.stride + x2,
    {
        if y1 != y2 {
            assert(y1 * self.stride + x1 != y2 * self.stride + x2) by (nonlinear_arith)
                requires
                    0 <= x1 < self.stride,
                    0 <= x2 < self.stride,
                    y1 != y2,
            ;
        }
    }

    /// A buffer of the given size, filled with one value, with no row
    /// padding.
    pub fn new_filled(width: usize, height: usize, value: u8) -> (r: PixelBuffer)
        requires
            width * height <= usize::MAX,
        ensures
            r.wf(),
            r.width == width,
            r.height == height,
            r.stride == width,
            forall|x: int, y: int|
                0 <= x < width && 0 <= y < height ==> #[trigger] r.pixel(x, y) == value,
    {
        let total: usize = width * height;
        let mut data: Vec<u8> = Vec::new();
        let mut i: usize = 0;
        while i < total
            invariant
                i <= total,
                data.len() == i,
                forall|k: int| 0 <= k < i ==> data[k] == value,
            decreases total - i,
        {
            data.push(value);
            i = i + 1;
        }
        let r = PixelBuffer { width, height, stride: width, data };
        proof {
            assert forall|x: int, y: int|
                0 <= x < width && 0 <= y < height implies r.pixel(x, y) == value by {
                r.lemma_pixel_in_bounds(x, y);
            }
        }
        r
    }

    /// Reads the pixel at `(x, y)`.
    pub fn get(&self, x: usize, y: usize) -> (r: u8)
        requires
            self.wf(),
            x < self.width,
            y < self.height,
        ensures
            r == self.pixel(x as int, y as int),
    {
        proof {
            self.lemma_pixel_in_bounds(x as int, y as int);
        }
        self.data[y * self.stride + x]
    }

    /// Writes the pixel at `(x, y)`, leaving every other pixel unchanged.
    pub fn set(&mut self, x: usize, y: usize, value: u8)
        requires
            old(self).wf(),
            x < old(self).width,
            y < old(self).height,
        ensures
            final(self).wf(),
            final(self).width == old(self).width,
            final(self).height == old(self).height,
            final(self).stride == old(self).stride,
            final(self).data.len() == old(self).data.len(),
            final(self).pixel(x as int, y as int) == value,
            forall|x2: int, y2: int|
                0 <= x2 < final(self).width && 0 <= y2 < final(self).height
                    && (x2, y2) != (x as int, y as int)
                    ==> #[trigger] final(self).pixel(x2, y2) == old(self).pixel(x2, y2),
    {
        proof {
            self.lemma_pixel_in_bounds(x as int, y as int);
        }
        let idx: usize = y * self.stride + x;
        self.data.set(idx, value);
        proof {
            assert forall|x2: int, y2: int|
                0 <= x2 < self.width && 0 <= y2 < self.height
                    && (x2, y2) != (x as int, y as int)
                    implies self.pixel(x2, y2) == old(self).pixel(x2, y2) by {
                self.lemma_pixel_index_injective(x2, y2, x as int, y as int);
                self.lemma_pixel_in_bounds(x2, y2);
            }
        }
    }

    /// The image width in pixels.
    pub fn width(&self) -> (r: usize)
        ensures
            r == self.width,
    {
        self.width
    }

    /// The image height in pixels.
    pub fn height(&self) -> (r: usize)
        ensures
            r == self.height,
    {
        self.height
    }

    /// The row stride in bytes.
    pub fn stride(&self) -> (r: usize)
        ensures
            r == self.stride,
    {
        self.stride
    }

    /// The raw byte buffer.
    pub fn buf(&self) -> (r: &Vec<u8>)
        ensures
            r == self.data,
    {
        &self.data
    }

    /// Counts the bytes of the buffer that equal `value`.
    pub fn count_equal(&self, value: u8) -> (n: usize)
        ensures
            n == count_matching(self.data@, value),
    {
        let mut n: usize = 0;
        let mut i: usize = 0;
        while i < self.data.len()
            invariant
                i <= self.data@.len(),
                n <= i,
                n == count_matching(self.data@.take(i as int), value),
            decreases self.data@.len() - i,
        {
            proof {
                assert(self.data@.take(i as int + 1)
                    =~= self.data@.take(i as int).push(self.data@[i as int]));
                lemma_count_matching_push(self.data@.take(i as int), self.data@[i as int], value);
            }
            if self.data[i] == value {
                n = n + 1;
            }
            i = i + 1;
        }
        proof {
            assert(self.data@.take(self.data@.len() as int) =~= self.data@);
        }
        n
    }
}

} // verus!
