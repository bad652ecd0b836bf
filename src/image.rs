use vstd::prelude::*;

use orbclient::Color;

use crate::color::black;
use crate::error::ImageError;

verus! {

/// The number of pixels of a `w` by `h` image.
pub open spec fn area(w: u32, h: u32) -> nat {
    (w as nat) * (h as nat)
}

/// Any area of `u32` sides fits in a `u64`.
pub(crate) proof fn lemma_area_fits(w: u32, h: u32)
    ensures
        area(w, h) <= u64::MAX,
{
    assert((w as nat) * (h as nat) <= 0xFFFF_FFFFnat * 0xFFFF_FFFFnat) by (nonlinear_arith)
        requires
            w <= 0xFFFF_FFFFnat,
            h <= 0xFFFF_FFFFnat,
    ;
}

/// An owned, row-major buffer of `width * height` colors.
pub struct Image {
    w: u32,
    h: u32,
    data: Vec<Color>,
}

impl View for Image {
    type V = Seq<Color>;

    closed spec fn view(&self) -> Seq<Color> {
        self.data@
    }
}

impl Image {
    /// The image's width in pixels.
    pub closed spec fn spec_width(&self) -> u32 {
        self.w
    }

    /// The image's height in pixels.
    pub closed spec fn spec_height(&self) -> u32 {
        self.h
    }

    #[verifier::type_invariant]
    closed spec fn inv(&self) -> bool {
        self.data@.len() == area(self.w, self.h)
    }

    /// Creates a `width` by `height` image of opaque black.
    pub fn new(width: u32, height: u32) -> (r: Image)
        requires
            area(width, height) <= usize::MAX,
        ensures
            r.spec_width() == width,
            r.spec_height() == height,
            r@ == Seq::new(area(width, height), |i: int| Color { data: 0xFF00_0000u32 }),
    {
        Self::from_color(width, height, black())
    }

    /// Creates a `width` by `height` image with every pixel set to `color`.
    pub fn from_color(width: u32, height: u32, color: Color) -> (r: Image)
        requires
            area(width, height) <= usize::MAX,
        ensures
            r.spec_width() == width,
            r.spec_height() == height,
            r@ == Seq::new(area(width, height), |i: int| color),
    {
        let n: usize = width as usize * height as usize;
        let mut data: Vec<Color> = Vec::with_capacity(n);
        let mut i: usize = 0;
        while i < n
            invariant
                i <= n,
                n == area(width, height),
                data@ == Seq::new(i as nat, |k: int| color),
            decreases n - i,
        {
            data.push(color);
            i = i + 1;
            assert(data@ =~= Seq::new(i as nat, |k: int| color));
        }
        assert(data@ =~= Seq::new(area(width, height), |k: int| color));
        Image { w: width, h: height, data }
    }

    /// Takes `data` as the pixels of a `width` by `height` image, row by row.
    /// Fails with `DimensionMismatch` unless it holds exactly `width * height`
    /// colors.
    pub fn from_data(width: u32, height: u32, data: Vec<Color>) -> (r: Result<Image, ImageError>)
        ensures
            data@.len() == area(width, height) <==> r is Ok,
            r is Ok ==> (r->Ok_0.spec_width() == width && r->Ok_0.spec_height() == height
                && r->Ok_0@ == data@),
            r is Err ==> r->Err_0 == ImageError::DimensionMismatch,
    {
        proof {
            lemma_area_fits(width, height);
        }
        let n: u64 = width as u64 * height as u64;
        if n != data.len() as u64 {
            return Err(ImageError::DimensionMismatch);
        }
        Ok(Image { w: width, h: height, data })
    }

    /// Creates an empty image, zero pixels wide and high.
    pub fn default() -> (r: Image)
        ensures
            r.spec_width() == 0,
            r.spec_height() == 0,
            r@ == Seq::<Color>::empty(),
    {
        let r = Self::new(0, 0);
        assert(r@ =~= Seq::<Color>::empty());
        r
    }

    /// The image's width in pixels.
    pub fn width(&self) -> (r: u32)
        ensures
            r == self.spec_width(),
    {
        self.w
    }

    /// The image's height in pixels.
    pub fn height(&self) -> (r: u32)
        ensures
            r == self.spec_height(),
    {
        self.h
    }

    /// The image's pixels, row by row.
    pub fn data(&self) -> (r: &[Color])
        ensures
            r@ == self@,
            r@.len() == area(self.spec_width(), self.spec_height()),
    {
        proof {
            use_type_invariant(self);
        }
        self.data.as_slice()
    }

    /// Sets the pixel at index `i` of the row-by-row pixels to `color`; the
    /// size stays.
    pub fn set_pixel(&mut self, i: usize, color: Color)
        requires
            i < old(self)@.len(),
        ensures
            final(self)@ == old(self)@.update(i as int, color),
            final(self).spec_width() == old(self).spec_width(),
            final(self).spec_height() == old(self).spec_height(),
    {
        let mut taken = Image { w: 0, h: 0, data: Vec::new() };
        std::mem::swap(self, &mut taken);
        proof {
            use_type_invariant(&taken);
        }
        let Image { w, h, mut data } = taken;
        data.set(i, color);
        *self = Image { w, h, data };
    }

    /// Gives up the image, returning its pixels row by row.
    pub fn into_data(self) -> (r: Vec<Color>)
        ensures
            r@ == self@,
            r@.len() == area(self.spec_width(), self.spec_height()),
    {
        proof {
            use_type_invariant(&self);
        }
        self.data
    }

    /// A software image has nothing to flush: always succeeds.
    pub fn sync(&mut self) -> (r: bool)
        ensures
            r,
            *final(self) == *old(self),
    {
        true
    }
}

} // verus!
