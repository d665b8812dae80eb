//! Video frames: a fixed grid of four-channel pixels.

use vstd::prelude::*;

verus! {

/// Number of pixel columns in a frame.
pub const FRAME_WIDTH: usize = 256;

/// Number of pixel rows in a frame.
pub const FRAME_HEIGHT: usize = 240;

/// Number of pixels in a frame, row after row.
pub const FRAME_PIXELS: usize = FRAME_WIDTH * FRAME_HEIGHT;

/// One pixel: red, green, blue and alpha, eight bits each.
#[derive(Clone, Copy, Debug, PartialEq, Eq, Structural)]
pub struct Pixel {
    pub r: u8,
    pub g: u8,
    pub b: u8,
    pub a: u8,
}

/// A complete snapshot of the simulation's video output at one tick.
///
/// A frame always holds exactly `FRAME_PIXELS` pixels, stored row by row.
#[derive(Debug, PartialEq, Eq)]
pub struct Frame {
    pixels: Vec<Pixel>,
}

/// The pixel sequence of a frame painted in one colour.
pub open spec fn uniform(pixel: Pixel) -> Seq<Pixel> {
    Seq::new(FRAME_PIXELS as nat, |i: int| pixel)
}

/// The pixel with all four channels at zero.
pub open spec fn clear_pixel() -> Pixel {
    Pixel { r: 0, g: 0, b: 0, a: 0 }
}

impl View for Frame {
    type V = Seq<Pixel>;

    closed spec fn view(&self) -> Seq<Pixel> {
        self.pixels@
    }
}

impl Frame {
    #[verifier::type_invariant]
    spec fn complete(self) -> bool {
        self.pixels@.len() == FRAME_PIXELS
    }

    /// The number of pixels, which is the same for every frame.
    pub fn len(&self) -> (n: usize)
        ensures
            n == FRAME_PIXELS,
            self@.len() == FRAME_PIXELS,
    {
        proof {
            use_type_invariant(self);
        }
        self.pixels.len()
    }

    /// A frame whose pixels all equal `pixel`.
    pub fn filled(pixel: Pixel) -> (frame: Frame)
        ensures
            frame@ == uniform(pixel),
    {
        let mut pixels: Vec<Pixel> = Vec::with_capacity(FRAME_PIXELS);
        let mut i: usize = 0;
        while i < FRAME_PIXELS
            invariant
                i <= FRAME_PIXELS,
                pixels@.len() == i,
                forall|k: int| 0 <= k < i ==> pixels@[k] == pixel,
            decreases FRAME_PIXELS - i,
        {
            pixels.push(pixel);
            i = i + 1;
        }
        assert(pixels@ =~= uniform(pixel));
        Frame { pixels }
    }

    /// The frame a channel holds before anything was published: all channels zero.
    pub fn blank() -> (frame: Frame)
        ensures
            frame@ == uniform(clear_pixel()),
    {
        Frame::filled(Pixel { r: 0, g: 0, b: 0, a: 0 })
    }

    /// Builds a frame from `pixels`, which must hold exactly one frame's worth.
    pub fn from_pixels(pixels: Vec<Pixel>) -> (frame: Option<Frame>)
        ensures
            pixels@.len() == FRAME_PIXELS ==> frame.is_some() && frame.unwrap()@ == pixels@,
            pixels@.len() != FRAME_PIXELS ==> frame.is_none(),
    {
        if pixels.len() == FRAME_PIXELS {
            Some(Frame { pixels })
        } else {
            None
        }
    }

    /// The pixels of the frame, row after row.
    pub fn pixels(&self) -> (pixels: &Vec<Pixel>)
        ensures
            pixels@ == self@,
            pixels@.len() == FRAME_PIXELS,
    {
        proof {
            use_type_invariant(self);
        }
        &self.pixels
    }

    /// The pixel in column `x` of row `y`, if the frame has such a pixel.
    pub fn pixel_at(&self, x: usize, y: usize) -> (pixel: Option<Pixel>)
        ensures
            self@.len() == FRAME_PIXELS,
            x < FRAME_WIDTH && y < FRAME_HEIGHT ==> pixel == Some(self@[y * FRAME_WIDTH + x]),
            !(x < FRAME_WIDTH && y < FRAME_HEIGHT) ==> pixel.is_none(),
    {
        proof {
            use_type_invariant(self);
        }
        if x < FRAME_WIDTH && y < FRAME_HEIGHT {
            Some(self.pixels[y * FRAME_WIDTH + x])
        } else {
            None
        }
    }

}

impl Clone for Frame {
    /// A copy of the frame, pixel for pixel.
    fn clone(&self) -> (copy: Frame)
        ensures
            copy@ == self@,
            copy@.len() == FRAME_PIXELS,
    {
        proof {
            use_type_invariant(self);
        }
        let pixels = self.pixels.clone();
        assert(pixels@ =~= self.pixels@);
        Frame { pixels }
    }
}

} // verus!
