use vstd::prelude::*;

verus! {

/// Why a buffer of pixels was refused as an icon.
#[derive(Debug, Clone, Copy, PartialEq, Eq, Structural)]
pub enum BadIcon {
    /// The buffer's length is not a whole number of RGBA pixels.
    ByteCountNotDivisibleBy4 { byte_count: usize },
    /// The buffer holds a number of pixels other than `width * height`.
    DimensionsVsPixelCount { width: u32, height: u32, width_x_height: u64, pixel_count: usize },
}

/// The number of bytes that an RGBA bitmap of the given size takes.
pub open spec fn rgba_len(width: nat, height: nat) -> nat {
    width * height * 4
}

/// An RGBA bitmap whose buffer holds exactly four bytes per pixel.
pub struct Icon {
    rgba: Vec<u8>,
    width: u32,
    height: u32,
}

impl Icon {
    #[verifier::type_invariant]
    spec fn well_formed(&self) -> bool {
        self.rgba@.len() == rgba_len(self.width as nat, self.height as nat)
    }

    /// The pixel bytes, row by row, four per pixel.
    pub closed spec fn pixels(&self) -> Seq<u8> {
        self.rgba@
    }

    pub closed spec fn spec_width(&self) -> nat {
        self.width as nat
    }

    pub closed spec fn spec_height(&self) -> nat {
        self.height as nat
    }

    /// Makes an icon from RGBA bytes, checking that their number is
    /// `width * height * 4`.
    pub fn from_rgba(rgba: Vec<u8>, width: u32, height: u32) -> (r: Result<Icon, BadIcon>)
        ensures
            r is Ok <==> rgba@.len() == rgba_len(width as nat, height as nat),
            r is Ok ==> r->Ok_0.pixels() == rgba@ && r->Ok_0.spec_width() == width
                && r->Ok_0.spec_height() == height,
            rgba@.len() % 4 != 0 ==> r == Err::<Icon, BadIcon>(
                BadIcon::ByteCountNotDivisibleBy4 { byte_count: rgba@.len() as usize },
            ),
            rgba@.len() % 4 == 0 && rgba@.len() != rgba_len(width as nat, height as nat) ==> r
                == Err::<Icon, BadIcon>(
                BadIcon::DimensionsVsPixelCount {
                    width,
                    height,
                    width_x_height: (width * height) as u64,
                    pixel_count: (rgba@.len() / 4) as usize,
                },
            ),
    {
        let byte_count = rgba.len();
        if byte_count % 4 != 0 {
            return Err(BadIcon::ByteCountNotDivisibleBy4 { byte_count });
        }
        let pixel_count = byte_count / 4;
        assert((width as nat) * (height as nat) <= 0xffff_ffff_0000_0001) by (nonlinear_arith)
            requires
                width <= 0xffff_ffff,
                height <= 0xffff_ffff,
        ;
        let width_x_height: u64 = (width as u64) * (height as u64);
        if pixel_count as u64 != width_x_height {
            return Err(
                BadIcon::DimensionsVsPixelCount { width, height, width_x_height, pixel_count },
            );
        }
        Ok(Icon { rgba, width, height })
    }

    pub fn width(&self) -> (r: u32)
        ensures
            r == self.spec_width(),
    {
        self.width
    }

    pub fn height(&self) -> (r: u32)
        ensures
            r == self.spec_height(),
    {
        self.height
    }

    /// The pixel bytes; there are always `width * height * 4` of them.
    pub fn rgba(&self) -> (r: &Vec<u8>)
        ensures
            r@ == self.pixels(),
            r@.len() == rgba_len(self.spec_width(), self.spec_height()),
    {
        proof {
            use_type_invariant(self);
        }
        &self.rgba
    }
}

impl Clone for Icon {
    fn clone(&self) -> (r: Icon)
        ensures
            r.pixels() == self.pixels(),
            r.spec_width() == self.spec_width(),
            r.spec_height() == self.spec_height(),
    {
        proof {
            use_type_invariant(self);
        }
        Icon { rgba: self.rgba.clone(), width: self.width, height: self.height }
    }
}

} // verus!
