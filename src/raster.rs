use vstd::prelude::*;

verus! {

/// The largest value a 16-bit channel can hold.
pub const CHANNEL_MAX: u16 = 65535;

/// An RGB raster with 16 bits per channel, stored row-major as
/// `r, g, b` triples.
#[derive(Clone, Debug)]
pub struct Raster {
    pub width: u32,
    pub height: u32,
    pub data: Vec<u16>,
}

/// The mathematical content of a raster.
pub struct RasterView {
    pub width: u32,
    pub height: u32,
    pub data: Seq<u16>,
}

impl RasterView {
    /// The buffer holds exactly three channels per pixel.
    pub open spec fn wf(self) -> bool {
        self.data.len() == 3 * pixel_count(self.width, self.height)
    }
}

impl View for Raster {
    type V = RasterView;

    open spec fn view(&self) -> RasterView {
        RasterView { width: self.width, height: self.height, data: self.data@ }
    }
}

/// Number of pixels of a `width` by `height` raster.
pub open spec fn pixel_count(width: u32, height: u32) -> nat {
    (width as nat) * (height as nat)
}

impl Raster {
    /// The buffer holds exactly three channels per pixel.
    pub open spec fn wf(&self) -> bool {
        self@.wf()
    }

    /// Builds a raster from a channel buffer; `None` when the buffer length
    /// is not `3 * width * height`.
    pub fn from_raw(width: u32, height: u32, data: Vec<u16>) -> (r: Option<Raster>)
        ensures
            r is Some <==> data@.len() == 3 * pixel_count(width, height),
            r matches Some(ras) ==> ras@ == (RasterView { width, height, data: data@ }),
    {
        assert((width as u128) * (height as u128) <= u128::MAX) by (nonlinear_arith)
            requires
                width <= u32::MAX,
                height <= u32::MAX,
        ;
        let pixels: u128 = (width as u128) * (height as u128);
        if (data.len() as u128) / 3 == pixels && (data.len() as u128) % 3 == 0 {
            Some(Raster { width, height, data })
        } else {
            None
        }
    }
}

} // verus!
