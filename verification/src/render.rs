use vstd::prelude::*;
use vstd::arithmetic::div_mod::{
    lemma_fundamental_div_mod_converse_div, lemma_fundamental_div_mod_converse_mod,
};
use crate::camera::{initial_view_spec, CameraState};
use crate::camera_channel::CameraChannel;
use crate::color::{default_color, white_color, Color, ONE_BITS};
use crate::frame::Frame;
use crate::frame_channel::FrameChannel;
use crate::settings::Settings;

verus! {

/// What one iteration reports about its publish attempt: the frame was
/// enqueued, or the channel was full and the frame was dropped. Backpressure
/// is a normal operating condition here, not a failure to surface.
#[derive(Clone, Copy, Debug, PartialEq, Eq, Structural)]
pub enum PublishOutcome {
    Sent,
    Dropped,
}

/// The background color an iteration paints with: the settings components
/// with an opaque alpha.
pub open spec fn background_spec(s: Settings) -> Color {
    Color { r: s.red, g: s.green, b: s.blue, a: ONE_BITS }
}

/// The pixel the test-pattern renderer puts at a cell: the background color
/// on the diagonal, white everywhere else.
pub open spec fn pixel_spec(bg: Color, row: int, col: int) -> Color {
    if row == col {
        bg
    } else {
        white_color()
    }
}

/// One whole rendered image, row-major: cell `(i, j)` sits at index
/// `i * width + j`.
pub open spec fn image_spec(width: nat, height: nat, bg: Color) -> Seq<Color> {
    Seq::new(width * height, |k: int| pixel_spec(bg, k / width as int, k % width as int))
}

/// Holds when a frame is exactly the image an iteration produces from the
/// given dimensions and settings snapshot.
pub open spec fn produced_frame(f: Frame, width: u32, height: u32, s: Settings) -> bool {
    &&& f.width == width
    &&& f.height == height
    &&& f.pixels@ == image_spec(width as nat, height as nat, background_spec(s))
}

/// The producer's state: fixed output dimensions, a reusable pixel buffer
/// repainted in place each iteration, the last-applied view transform, the
/// publishing end of the frame channel, the reading end of the camera
/// channel, and the settings value shared with the interactive layer.
pub struct PathTracerRenderContext {
    pub image_data: Vec<Color>,
    pub result_width: u32,
    pub result_height: u32,
    pub last_view: CameraState,
    pub frames: FrameChannel,
    pub camera: CameraChannel,
    pub settings: Settings,
}

impl PathTracerRenderContext {
    /// The context invariant: the scratch buffer matches the dimensions,
    /// the pixel count fits the address space, and the frame channel is
    /// well formed.
    pub open spec fn wf(self) -> bool {
        &&& self.image_data@.len() == self.result_width * self.result_height
        &&& self.result_width * self.result_height <= usize::MAX
        &&& self.frames.inv()
    }

    /// Creates the producer state for fixed dimensions: an all-zero scratch
    /// buffer, the initial view transform, an empty frame channel of the
    /// given bound, a camera channel starting at the identity, and the given
    /// settings value.
    pub fn new(width: u32, height: u32, capacity: usize, settings: Settings) -> (r:
        PathTracerRenderContext)
        requires
            capacity >= 1,
            width * height <= usize::MAX,
        ensures
            r.wf(),
            r.result_width == width,
            r.result_height == height,
            r.settings == settings,
            r.frames@ == Seq::<Frame>::empty(),
            r.frames.cap() == capacity,
            r.camera@ == crate::camera::identity_spec(),
            r.last_view == initial_view_spec(),
            forall|k: int| 0 <= k < width * height ==> r.image_data@[k] == default_color(),
    {
        let total: usize = (width as usize) * (height as usize);
        let mut image_data: Vec<Color> = Vec::new();
        while image_data.len() < total
            invariant
                image_data@.len() <= total,
                forall|k: int| 0 <= k < image_data@.len() ==> image_data@[k] == default_color(),
            decreases total - image_data@.len(),
        {
            image_data.push(Color::default());
        }
        PathTracerRenderContext {
            image_data,
            result_width: width,
            result_height: height,
            last_view: CameraState::translation(
                crate::color::ZERO_BITS,
                crate::color::ZERO_BITS,
                crate::color::NEG_ONE_BITS,
            ),
            frames: FrameChannel::new(capacity),
            camera: CameraChannel::new(CameraState::identity()),
            settings,
        }
    }

    /// The producer's read of the shared settings: the whole value is copied
    /// out in one step and the iteration computes from the copy alone, so a
    /// concurrent settings write can never leak into a frame already being
    /// painted. (In the running system the sharing layer wraps this read in
    /// its lock; the critical section is exactly this copy.)
    pub fn settings_snapshot(&self) -> (s: Settings)
        ensures
            s == self.settings,
    {
        self.settings
    }
}

/// Paints the diagonal test pattern into the buffer in place: the
/// background color where row equals column, white everywhere else. The
/// result is pinned to `image_spec` of the arguments alone — the painted
/// image is a function of the snapshot it was started with and of nothing
/// else.
pub fn render_pattern(width: u32, height: u32, bg: Color, buffer: &mut Vec<Color>)
    requires
        old(buffer)@.len() == width * height,
        width * height <= usize::MAX,
    ensures
        final(buffer)@ == image_spec(width as nat, height as nat, bg),
{
    let w = width as usize;
    let mut i: usize = 0;
    while i < height as usize
        invariant
            buffer@.len() == width * height,
            width * height <= usize::MAX,
            w == width,
            i <= height,
            forall|k: int|
                0 <= k < i * width ==> buffer@[k] == pixel_spec(bg, k / width as int, k % width as int),
        decreases height - i,
    {
        let mut j: usize = 0;
        while j < w
            invariant
                buffer@.len() == width * height,
                width * height <= usize::MAX,
                w == width,
                i < height,
                j <= width,
                forall|k: int|
                    0 <= k < i * width + j ==> buffer@[k] == pixel_spec(
                        bg,
                        k / width as int,
                        k % width as int,
                    ),
            decreases w - j,
        {
            let col = if i == j {
                bg
            } else {
                Color::white()
            };
            proof {
                assert((i as int) * (width as int) + (j as int) < (width as int) * (height
                    as int)) by (nonlinear_arith)
                    requires
                        i < height,
                        j < width,
                ;
            }
            let idx: usize = i * w + j;
            buffer.set(idx, col);
            proof {
                lemma_fundamental_div_mod_converse_div(
                    idx as int,
                    width as int,
                    i as int,
                    j as int,
                );
                lemma_fundamental_div_mod_converse_mod(
                    idx as int,
                    width as int,
                    i as int,
                    j as int,
                );
            }
            j = j + 1;
        }
        proof {
            assert((i as int) * (width as int) + (width as int) == ((i + 1) as int) * (width
                as int)) by (nonlinear_arith);
        }
        i = i + 1;
    }
    proof {
        assert((i as int) * (width as int) == (width as int) * (height as int))
            by (nonlinear_arith)
            requires
                i == height,
        ;
        assert(buffer@ =~= image_spec(width as nat, height as nat, bg));
    }
}

/// A verified copy of a pixel buffer, element for element.
fn clone_pixels(src: &Vec<Color>) -> (r: Vec<Color>)
    ensures
        r@ == src@,
{
    let mut r: Vec<Color> = Vec::new();
    let mut i: usize = 0;
    while i < src.len()
        invariant
            i <= src@.len(),
            r@ == src@.take(i as int),
        decreases src@.len() - i,
    {
        r.push(src[i]);
        proof {
            assert(src@.take(i as int).push(src@[i as int]) =~= src@.take(i + 1));
        }
        i = i + 1;
    }
    proof {
        assert(src@.take(src@.len() as int) =~= src@);
    }
    r
}

/// One iteration of the free-running render loop: read the latest camera
/// value (and make it the last-applied view), snapshot the settings,
/// repaint the scratch buffer from those snapshots alone, then try to
/// publish a copy of it as a frame. Publishing never blocks: with the
/// channel full the frame is dropped and the iteration reports the
/// backpressure, nothing more. The loop policy — how often and how long to
/// iterate — belongs to the caller, which makes any bounded schedule exactly
/// reproducible.
pub fn run_iteration(pt_ctx: &mut PathTracerRenderContext) -> (outcome: PublishOutcome)
    requires
        old(pt_ctx).wf(),
    ensures
        final(pt_ctx).wf(),
        final(pt_ctx).result_width == old(pt_ctx).result_width,
        final(pt_ctx).result_height == old(pt_ctx).result_height,
        final(pt_ctx).settings == old(pt_ctx).settings,
        final(pt_ctx).camera@ == old(pt_ctx).camera@,
        final(pt_ctx).last_view == old(pt_ctx).camera@,
        final(pt_ctx).image_data@ == image_spec(
            old(pt_ctx).result_width as nat,
            old(pt_ctx).result_height as nat,
            background_spec(old(pt_ctx).settings),
        ),
        final(pt_ctx).frames.cap() == old(pt_ctx).frames.cap(),
        old(pt_ctx).frames@.len() < old(pt_ctx).frames.cap() ==> {
            &&& outcome == PublishOutcome::Sent
            &&& final(pt_ctx).frames@.len() == old(pt_ctx).frames@.len() + 1
            &&& final(pt_ctx).frames@.drop_last() == old(pt_ctx).frames@
            &&& produced_frame(
                final(pt_ctx).frames@.last(),
                old(pt_ctx).result_width,
                old(pt_ctx).result_height,
                old(pt_ctx).settings,
            )
        },
        old(pt_ctx).frames@.len() >= old(pt_ctx).frames.cap() ==> {
            &&& outcome == PublishOutcome::Dropped
            &&& final(pt_ctx).frames@ == old(pt_ctx).frames@
        },
{
    let camera_matrix = pt_ctx.camera.latest();
    pt_ctx.last_view = camera_matrix;

    let snapshot = pt_ctx.settings_snapshot();
    let bg = Color::new(snapshot.red, snapshot.green, snapshot.blue, ONE_BITS);

    render_pattern(pt_ctx.result_width, pt_ctx.result_height, bg, &mut pt_ctx.image_data);

    let pixels = clone_pixels(&pt_ctx.image_data);
    let frame = match Frame::new(pt_ctx.result_width, pt_ctx.result_height, pixels) {
        Some(f) => f,
        None => vstd::pervasive::unreached(),
    };
    let sent = pt_ctx.frames.try_publish(frame);
    proof {
        if old(pt_ctx).frames@.len() < old(pt_ctx).frames.cap() {
            assert(pt_ctx.frames@.drop_last() =~= old(pt_ctx).frames@);
        }
    }
    match sent {
        Ok(_) => PublishOutcome::Sent,
        Err(_) => PublishOutcome::Dropped,
    }
}

} // verus!
