use vstd::prelude::*;

use crate::image::{area, Image};

verus! {

/// The smaller of two integers.
pub open spec fn min_int(a: int, b: int) -> int {
    if a < b {
        a
    } else {
        b
    }
}

/// Where a requested span `[p, p + len)` starts once clamped into `[0, limit]`.
pub open spec fn clamp_start(p: u32, limit: u32) -> u32 {
    if p < limit {
        p
    } else {
        limit
    }
}

/// How long a requested span `[p, p + len)` is once clamped into `[0, limit]`:
/// it ends at `max(start, min(p + len, limit))`.
pub open spec fn clamp_len(p: u32, len: u32, limit: u32) -> u32 {
    let start = clamp_start(p, limit) as int;
    let end = min_int(p + len, limit as int);
    if end < start {
        0
    } else {
        (end - start) as u32
    }
}

/// One call of a surface's blit primitive: copy the `w` by `h` block of colors
/// that starts at index `offset` of the source's pixels to `(x, y)`.
#[derive(Clone, Copy, Debug, PartialEq, Eq, Structural)]
pub struct Blit {
    pub x: i32,
    pub y: i32,
    pub w: u32,
    pub h: u32,
    pub offset: usize,
}

/// A rectangle of an image, already clamped into its bounds, borrowed for
/// drawing part of the image.
pub struct ImageRoi<'a> {
    x: u32,
    y: u32,
    w: u32,
    h: u32,
    image: &'a Image,
}

impl<'a> ImageRoi<'a> {
    /// The region's left column in the source image.
    pub closed spec fn spec_x(&self) -> u32 {
        self.x
    }

    /// The region's top row in the source image.
    pub closed spec fn spec_y(&self) -> u32 {
        self.y
    }

    /// The region's width in pixels.
    pub closed spec fn spec_w(&self) -> u32 {
        self.w
    }

    /// The region's height in pixels.
    pub closed spec fn spec_h(&self) -> u32 {
        self.h
    }

    /// The image the region is a window into.
    pub closed spec fn source(&self) -> Image {
        *self.image
    }

    #[verifier::type_invariant]
    closed spec fn inv(&self) -> bool {
        &&& self.x + self.w <= self.image.spec_width()
        &&& self.y + self.h <= self.image.spec_height()
    }

    /// The region's left column in the source image.
    pub fn x(&self) -> (r: u32)
        ensures
            r == self.spec_x(),
    {
        self.x
    }

    /// The region's top row in the source image.
    pub fn y(&self) -> (r: u32)
        ensures
            r == self.spec_y(),
    {
        self.y
    }

    /// The region's width in pixels.
    pub fn width(&self) -> (r: u32)
        ensures
            r == self.spec_w(),
    {
        self.w
    }

    /// The region's height in pixels.
    pub fn height(&self) -> (r: u32)
        ensures
            r == self.spec_h(),
    {
        self.h
    }

    /// The image the region is a window into.
    pub fn image(&self) -> (r: &'a Image)
        ensures
            *r == self.source(),
    {
        self.image
    }

    /// Index of the source pixel at the start of the region's first row.
    pub open spec fn start(&self) -> int {
        self.spec_y() * self.source().spec_width() + self.spec_x()
    }

    /// Index at which row copies stop: the start of the row below the region,
    /// or the end of the source's pixels if that comes first.
    pub open spec fn last(&self) -> int {
        min_int(
            (self.spec_y() + self.spec_h()) * self.source().spec_width() + self.spec_x(),
            area(self.source().spec_width(), self.source().spec_height()) as int,
        )
    }

    /// Index of the source pixel at the start of the region's row `k`: rows lie
    /// one full source width (the stride) apart.
    pub open spec fn row_offset(&self, k: int) -> int {
        self.start() + k * (self.source().spec_width() as int)
    }

    /// `plan` copies the region to `(x, y)` one row at a time: row `k` takes
    /// `w` colors from `row_offset(k)` to `(x, y + k)`, for as long as that
    /// index is below `last`.
    pub open spec fn row_plan(&self, x: i32, y: i32, plan: Seq<Blit>) -> bool {
        &&& forall|k: int|
            #![trigger self.row_offset(k)]
            0 <= k < plan.len() ==> {
                &&& self.row_offset(k) < self.last()
                &&& plan[k] == (Blit {
                    x,
                    y: (y + k) as i32,
                    w: self.spec_w(),
                    h: 1,
                    offset: self.row_offset(k) as usize,
                })
            }
        &&& self.row_offset(plan.len() as int) >= self.last()
    }

    /// The blits that draw the region on a surface with its top-left corner
    /// at `(x, y)`, one per row of the region.
    pub fn blits(&self, x: i32, y: i32) -> (r: Vec<Blit>)
        requires
            self.spec_h() == 0 || y + self.spec_h() - 1 <= i32::MAX,
        ensures
            self.row_plan(x, y, r@),
    {
        proof {
            use_type_invariant(self);
        }
        let stride: u64 = self.image.width() as u64;
        let x0: u64 = self.x as u64;
        let y0: u64 = self.y as u64;
        let h: u64 = self.h as u64;
        proof {
            lemma_mul_le_u32_sq((y0 + h + 1) as nat, stride as nat);
            assert(y0 * stride <= (y0 + h) * stride) by (nonlinear_arith);
            assert((y0 + h) * stride <= (y0 + h + 1) * stride) by (nonlinear_arith);
            assert((y0 + h + 1) * stride == (y0 + h) * stride + stride) by (nonlinear_arith);
        }
        let start: u64 = y0 * stride + x0;
        let end: u64 = (y0 + h) * stride + x0;
        let len: u64 = self.image.data().len() as u64;
        let last: u64 = if end < len {
            end
        } else {
            len
        };
        proof {
            if stride == 0 {
                let hh = self.image.spec_height() as nat;
                assert(0nat * hh == 0) by (nonlinear_arith);
            }
        }
        let mut out: Vec<Blit> = Vec::new();
        let mut offset: u64 = start;
        let mut row: u64 = 0;
        while offset < last
            invariant
                stride == self.source().spec_width(),
                start == self.start(),
                last == self.last(),
                end == (y0 + h) * stride + x0,
                start == y0 * stride + x0,
                h == self.spec_h(),
                h == 0 || y + h - 1 <= i32::MAX,
                last <= end,
                last <= len,
                len <= usize::MAX,
                end + stride <= u64::MAX,
                stride > 0 || offset >= last,
                out@.len() <= h,
                offset == self.row_offset(out@.len() as int),
                row == out@.len(),
                forall|j: int|
                    #![trigger self.row_offset(j)]
                    0 <= j < out@.len() ==> {
                        &&& self.row_offset(j) < self.last()
                        &&& out@[j] == (Blit {
                            x,
                            y: (y + j) as i32,
                            w: self.spec_w(),
                            h: 1,
                            offset: self.row_offset(j) as usize,
                        })
                    },
            decreases h - out@.len(),
        {
            let ghost k = out@.len() as int;
            proof {
                assert(k < h) by (nonlinear_arith)
                    requires
                        offset == y0 * stride + x0 + k * stride,
                        offset < (y0 + h) * stride + x0,
                        k >= 0,
                        stride >= 0,
                ;
                assert(self.row_offset(k + 1) == offset + stride) by (nonlinear_arith)
                    requires
                        offset == self.start() + k * stride,
                        self.row_offset(k + 1) == self.start() + (k + 1) * stride,
                ;
            }
            let row_y: i32 = (y as i64 + row as i64) as i32;
            out.push(Blit { x, y: row_y, w: self.w, h: 1, offset: offset as usize });
            offset = offset + stride;
            row = row + 1;
        }
        out
    }
}

/// A product of two values each at most `u32::MAX + 1` fits in a `u64`.
proof fn lemma_mul_le_u32_sq(a: nat, b: nat)
    requires
        a <= 0x1_0000_0000,
        b <= 0xFFFF_FFFF,
    ensures
        a * b + 0xFFFF_FFFF <= u64::MAX,
{
    assert(a * b <= 0x1_0000_0000 * 0xFFFF_FFFF) by (nonlinear_arith)
        requires
            a <= 0x1_0000_0000,
            b <= 0xFFFF_FFFF,
    ;
}

impl Image {
    /// The part of the image in the rectangle `(x, y, w, h)`, clamped into the
    /// image's bounds: never fails, and may be empty.
    pub fn roi<'a>(&'a self, x: u32, y: u32, w: u32, h: u32) -> (r: ImageRoi<'a>)
        ensures
            r.source() == *self,
            r.spec_x() == clamp_start(x, self.spec_width()),
            r.spec_y() == clamp_start(y, self.spec_height()),
            r.spec_w() == clamp_len(x, w, self.spec_width()),
            r.spec_h() == clamp_len(y, h, self.spec_height()),
            r.spec_x() + r.spec_w() <= self.spec_width(),
            r.spec_y() + r.spec_h() <= self.spec_height(),
    {
        let width = self.width();
        let height = self.height();
        let (x1, w1) = clamp_span(x, w, width);
        let (y1, h1) = clamp_span(y, h, height);
        ImageRoi { x: x1, y: y1, w: w1, h: h1, image: self }
    }
}

/// Drawing the whole of an image row by row copies every one of its
/// `width * height` pixels exactly once, in order: row `k` of the plan takes
/// the `width` colors from index `k * width` to `(x, y + k)`, so that one row
/// ends where the next begins and the last ends at the last pixel.
pub proof fn lemma_whole_region_rows<'a>(roi: ImageRoi<'a>, x: i32, y: i32, plan: Seq<Blit>)
    requires
        roi.spec_x() == 0,
        roi.spec_y() == 0,
        roi.spec_w() == roi.source().spec_width(),
        roi.spec_h() == roi.source().spec_height(),
        roi.source().spec_width() > 0,
        roi.spec_h() == 0 || y + roi.spec_h() - 1 <= i32::MAX,
        area(roi.source().spec_width(), roi.source().spec_height()) <= usize::MAX,
        roi.row_plan(x, y, plan),
    ensures
        plan.len() == roi.source().spec_height(),
        plan.len() * roi.source().spec_width() == area(
            roi.source().spec_width(),
            roi.source().spec_height(),
        ),
        forall|k: int|
            #![trigger plan[k]]
            0 <= k < plan.len() ==> {
                &&& plan[k].x == x
                &&& plan[k].y == y + k
                &&& plan[k].w == roi.source().spec_width()
                &&& plan[k].h == 1
                &&& plan[k].offset == k * roi.source().spec_width()
            },
{
    let w = roi.source().spec_width() as int;
    let h = roi.source().spec_height() as int;
    assert(roi.last() == h * w) by (nonlinear_arith)
        requires
            roi.last() == min_int(h * w, w * h),
    ;
    let n = plan.len() as int;
    assert(n * w >= h * w) by {
        assert(roi.row_offset(n) == n * w);
    }
    if n > h {
        assert(plan[h] == plan[h]);
        assert(roi.row_offset(h) == h * w);
    }
    assert(n == h) by (nonlinear_arith)
        requires
            n * w >= h * w,
            n <= h,
            w > 0,
    ;
    assert(area(roi.source().spec_width(), roi.source().spec_height()) == w * h);
    assert(h * w == w * h) by (nonlinear_arith);
    assert forall|k: int| #![trigger plan[k]] 0 <= k < plan.len() implies {
        &&& plan[k].x == x
        &&& plan[k].y == y + k
        &&& plan[k].w == roi.source().spec_width()
        &&& plan[k].h == 1
        &&& plan[k].offset == k * w
    } by {
        assert(roi.row_offset(k) == k * w);
        assert(0 <= k * w < h * w) by (nonlinear_arith)
            requires
                0 <= k < h,
                w > 0,
        ;
    }
}

impl Image {
    /// The single blit that draws the whole image with its top-left corner at
    /// `(x, y)`: all `width * height` colors, row by row, from index 0.
    pub fn blit(&self, x: i32, y: i32) -> (r: Blit)
        ensures
            r == (Blit { x, y, w: self.spec_width(), h: self.spec_height(), offset: 0 }),
    {
        Blit { x, y, w: self.width(), h: self.height(), offset: 0 }
    }
}

/// Clamps the span `[p, p + len)` into `[0, limit]`: its start and length.
fn clamp_span(p: u32, len: u32, limit: u32) -> (r: (u32, u32))
    ensures
        r.0 == clamp_start(p, limit),
        r.1 == clamp_len(p, len, limit),
        r.0 + r.1 <= limit,
{
    let start: u32 = if p < limit {
        p
    } else {
        limit
    };
    let wanted: u64 = p as u64 + len as u64;
    let end: u32 = if wanted < limit as u64 {
        wanted as u32
    } else {
        limit
    };
    let end: u32 = if end < start {
        start
    } else {
        end
    };
    (start, end - start)
}

} // verus!
