use vstd::prelude::*;

use rgb::FromSlice;

use crate::error::ImageError;
use crate::image::{area, lemma_area_fits, Image};
use crate::pixels::{bytes_of, colors_of, to_bytes};

verus! {

/// The resampling filter used when resizing an image.
#[derive(Clone, Copy, Debug, PartialEq, Eq, Structural)]
pub enum ResizeType {
    /// Nearest neighbour.
    Point,
    /// Bilinear.
    Triangle,
    /// Catmull-Rom bicubic.
    Catrom,
    /// Mitchell-Netravali bicubic.
    Mitchell,
    /// B-spline bicubic.
    BSpline,
    /// Gaussian.
    Gaussian,
    /// Lanczos with a radius of 3.
    Lanczos3,
}

#[verifier::external_type_specification]
pub struct ExResizeError(resize::Error);

/// The RGBA bytes that the resampling engine makes of `src`, a `src_w` by
/// `src_h` picture of four bytes per pixel, at `dst_w` by `dst_h` with the
/// filter `kind`.
pub uninterp spec fn resampled(
    src: Seq<u8>,
    src_w: u32,
    src_h: u32,
    dst_w: u32,
    dst_h: u32,
    kind: ResizeType,
) -> Seq<u8>;

/// Whether the engine can work on a `src_w` by `src_h` picture resampled to
/// `dst_w` by `dst_h` without its index arithmetic leaving `usize`: both
/// pictures fit in memory as four bytes per pixel, and so do the products
/// `dst_w * src_h` and `dst_w * dst_w` that it computes.
pub open spec fn within_engine_limits(src_w: u32, src_h: u32, dst_w: u32, dst_h: u32) -> bool {
    &&& 4 * area(src_w, src_h) <= usize::MAX
    &&& 4 * area(dst_w, dst_h) <= usize::MAX
    &&& area(dst_w, src_h) <= usize::MAX
    &&& area(dst_w, dst_w) <= usize::MAX
}

/// Relies on `resize::resize` with the `RGBA8` pixel format, given buffers of
/// exactly four bytes per pixel and sizes whose products it computes fit in
/// `usize`: it fails with `InvalidParameters` when a
/// dimension is zero; otherwise its only failure is `OutOfMemory`, when a
/// reservation of working memory is refused. It never changes the length of
/// `dst`, and on success has written the resampled picture over all of it.
#[verifier::external_body]
#[allow(deprecated)]
fn resample_rgba8(
    src: &[u8],
    src_w: u32,
    src_h: u32,
    dst: &mut Vec<u8>,
    dst_w: u32,
    dst_h: u32,
    kind: ResizeType,
) -> (r: Result<(), resize::Error>)
    requires
        src@.len() == 4 * area(src_w, src_h),
        old(dst)@.len() == 4 * area(dst_w, dst_h),
        within_engine_limits(src_w, src_h, dst_w, dst_h),
    ensures
        final(dst)@.len() == old(dst)@.len(),
        r is Ok ==> final(dst)@ == resampled(src@, src_w, src_h, dst_w, dst_h, kind),
        src_w == 0 || src_h == 0 || dst_w == 0 || dst_h == 0 ==> (r is Err
            && r->Err_0 == resize::Error::InvalidParameters),
        src_w != 0 && src_h != 0 && dst_w != 0 && dst_h != 0 ==> (r is Ok
            || r->Err_0 == resize::Error::OutOfMemory),
{
    let filter = match kind {
        ResizeType::Point => resize::Type::Point,
        ResizeType::Triangle => resize::Type::Triangle,
        ResizeType::Catrom => resize::Type::Catrom,
        ResizeType::Mitchell => resize::Type::Mitchell,
        ResizeType::BSpline => resize::Type::BSpline,
        ResizeType::Gaussian => resize::Type::Gaussian,
        ResizeType::Lanczos3 => resize::Type::Lanczos3,
    };
    let (sw, sh, dw, dh) = (src_w as usize, src_h as usize, dst_w as usize, dst_h as usize);
    resize::resize(sw, sh, dw, dh, resize::Pixel::RGBA8, filter, src.as_rgba(), dst.as_mut_slice().as_rgba_mut())
}

impl Image {
    /// The `width` by `height` image whose pixels are packed from `bytes`,
    /// four bytes per color, least significant first. Fails with
    /// `DimensionMismatch` unless `bytes` holds exactly four per pixel.
    pub fn from_rgba_bytes(width: u32, height: u32, bytes: &[u8]) -> (r: Result<Image, ImageError>)
        ensures
            bytes@.len() == 4 * area(width, height) <==> r is Ok,
            r is Ok ==> (r->Ok_0.spec_width() == width && r->Ok_0.spec_height() == height
                && r->Ok_0@ == colors_of(bytes@)),
            r is Err ==> r->Err_0 == ImageError::DimensionMismatch,
    {
        let colors = crate::pixels::to_colors(bytes);
        if bytes.len() % 4 != 0 {
            return Err(ImageError::DimensionMismatch);
        }
        Image::from_data(width, height, colors)
    }

    /// A `width` by `height` copy of the image resampled with the filter
    /// `kind`. An empty size always gives an empty image. Otherwise it fails
    /// with `ResizeFailure` where the engine cannot produce the picture: from
    /// an empty image, for sizes beyond the engine's limits, or where the
    /// engine is refused working memory.
    pub fn resize(&self, width: u32, height: u32, kind: ResizeType) -> (r: Result<Image, ImageError>)
        ensures
            r is Ok ==> (r->Ok_0.spec_width() == width && r->Ok_0.spec_height() == height
                && r->Ok_0@.len() == area(width, height)),
            r is Err ==> r->Err_0 == ImageError::ResizeFailure,
            area(width, height) == 0 ==> r is Ok && r->Ok_0@ == Seq::<orbclient::Color>::empty(),
            area(width, height) > 0 && !within_engine_limits(
                self.spec_width(),
                self.spec_height(),
                width,
                height,
            ) ==> r == Err::<Image, ImageError>(ImageError::ResizeFailure),
            area(width, height) > 0 && area(self.spec_width(), self.spec_height()) == 0 ==> r
                == Err::<Image, ImageError>(ImageError::ResizeFailure),
            area(width, height) > 0 && r is Ok ==> r->Ok_0@ == colors_of(
                resampled(bytes_of(self@), self.spec_width(), self.spec_height(), width, height, kind),
            ),
    {
        proof {
            lemma_area_fits(width, height);
            lemma_area_fits(self.spec_width(), self.spec_height());
        }
        let n: u64 = width as u64 * height as u64;
        if n == 0 {
            let r = Image::from_data(width, height, Vec::new());
            assert(r is Ok);
            return r;
        }
        let m: u64 = self.width() as u64 * self.height() as u64;
        let limit: u64 = (usize::MAX / 4) as u64;
        proof {
            lemma_area_fits(width, self.spec_height());
            lemma_area_fits(width, width);
        }
        let across: u64 = width as u64 * self.height() as u64;
        let square: u64 = width as u64 * width as u64;
        let max: u64 = usize::MAX as u64;
        if n > limit || m > limit || across > max || square > max {
            return Err(ImageError::ResizeFailure);
        }
        proof {
            let (sw, sh) = (self.spec_width() as nat, self.spec_height() as nat);
            if sw * sh == 0 {
                assert(sw == 0 || sh == 0) by (nonlinear_arith)
                    requires
                        sw * sh == 0,
                ;
            }
        }
        let src = to_bytes(self.data());
        let mut dst: Vec<u8> = vec![0u8; 4 * (n as usize)];
        match resample_rgba8(src.as_slice(), self.width(), self.height(), &mut dst, width, height, kind) {
            Ok(()) => match Image::from_rgba_bytes(width, height, dst.as_slice()) {
                Ok(image) => Ok(image),
                Err(_) => Err(ImageError::ResizeFailure),
            },
            Err(_) => Err(ImageError::ResizeFailure),
        }
    }
}

} // verus!
