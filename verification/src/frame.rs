use vstd::prelude::*;
use crate::color::Color;

verus! {

/// One complete rendered image: a row-major pixel buffer paired with the
/// dimensions it was built for. A well-formed frame satisfies
/// `pixels.len() == width * height`. Frames are built fresh by the producer
/// and then move whole — producer to channel to consumer — so no two sides
/// ever share one mutably.
#[derive(Debug)]
pub struct Frame {
    pub width: u32,
    pub height: u32,
    pub pixels: Vec<Color>,
}

impl Frame {
    /// The frame invariant: the buffer holds exactly one pixel per cell.
    pub open spec fn wf(self) -> bool {
        self.pixels@.len() == self.width * self.height
    }

    /// Builds a frame from a buffer, accepting it exactly when the buffer
    /// length matches the dimensions.
    pub fn new(width: u32, height: u32, pixels: Vec<Color>) -> (r: Option<Frame>)
        ensures
            r is Some <==> pixels@.len() == width * height,
            r is Some ==> r == Some(Frame { width, height, pixels }),
            r is Some ==> r->Some_0.wf(),
    {
        proof {
            assert((width as int) * (height as int) <= u64::MAX) by (nonlinear_arith)
                requires
                    width <= u32::MAX,
                    height <= u32::MAX,
            ;
        }
        if pixels.len() as u64 == (width as u64) * (height as u64) {
            Some(Frame { width, height, pixels })
        } else {
            None
        }
    }
}

} // verus!
