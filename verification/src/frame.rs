//! A captured pixel buffer.

use vstd::prelude::*;

verus! {

/// Bytes per pixel of an RGBA buffer.
pub const BYTES_PER_PIXEL: u32 = 4;

/// An RGBA buffer of `width` by `height` physical pixels, four bytes a pixel,
/// row after row.
#[derive(Debug)]
pub struct Frame {
    width: u32,
    height: u32,
    pixels: Vec<u8>,
}

/// The length in bytes of an RGBA buffer of the given size.
pub open spec fn buffer_len(width: int, height: int) -> int {
    BYTES_PER_PIXEL * width * height
}

impl Frame {
    pub closed spec fn width_spec(self) -> int {
        self.width as int
    }

    pub closed spec fn height_spec(self) -> int {
        self.height as int
    }

    /// The bytes of the buffer.
    pub closed spec fn bytes(self) -> Seq<u8> {
        self.pixels@
    }

    /// The buffer holds exactly four bytes for each pixel.
    #[verifier::type_invariant]
    pub open spec fn wf(self) -> bool {
        &&& 0 <= self.width_spec() <= u32::MAX
        &&& 0 <= self.height_spec() <= u32::MAX
        &&& self.bytes().len() == buffer_len(self.width_spec(), self.height_spec())
    }

    /// The frame of that size over `pixels`, if their number is four times
    /// `width * height`.
    pub fn new(width: u32, height: u32, pixels: Vec<u8>) -> (r: Option<Frame>)
        ensures
            r is Some <==> pixels@.len() == buffer_len(width as int, height as int),
            r matches Some(frame) ==> {
                &&& frame.wf()
                &&& frame.width_spec() == width
                &&& frame.height_spec() == height
                &&& frame.bytes() == pixels@
            },
    {
        assert(0 <= width * height <= 0xffff_ffff * 0xffff_ffff) by (nonlinear_arith)
            requires
                0 <= width <= 0xffff_ffff,
                0 <= height <= 0xffff_ffff,
        ;
        assert(BYTES_PER_PIXEL * width * height == 4 * (width * height)) by (nonlinear_arith);
        let area: u128 = (width as u128) * (height as u128);
        let expected: u128 = 4 * area;
        if pixels.len() as u128 == expected {
            Some(Frame { width, height, pixels })
        } else {
            None
        }
    }

    pub fn width(&self) -> (w: u32)
        ensures
            w == self.width_spec(),
    {
        self.width
    }

    pub fn height(&self) -> (h: u32)
        ensures
            h == self.height_spec(),
    {
        self.height
    }

    pub fn pixels(&self) -> (p: &Vec<u8>)
        ensures
            p@ == self.bytes(),
            p@.len() == buffer_len(self.width_spec(), self.height_spec()),
    {
        proof {
            use_type_invariant(self);
        }
        &self.pixels
    }

    /// Gives the buffer up.
    pub fn into_pixels(self) -> (p: Vec<u8>)
        ensures
            p@ == self.bytes(),
            p@.len() == buffer_len(self.width_spec(), self.height_spec()),
    {
        proof {
            use_type_invariant(&self);
        }
        self.pixels
    }
}

} // verus!
