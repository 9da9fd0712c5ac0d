//! Frame throttling and pixel-surface building for an RGBA video stream: a
//! rate limiter that retains the last accepted frame and returns it for
//! frames arriving faster than a settable minimum interval, and a checked,
//! copying constructor for a renderable pixel surface.

use vstd::prelude::*;

mod pixels;
mod surface;
mod throttle;

pub use pixels::lemma_rgba_prefix_complete_groups;
pub use pixels::pixel_len;
pub use pixels::rgba_prefix;
pub use surface::build_surface_spec;
pub use surface::create_image_data;
pub use surface::lemma_surface_round_trip;
pub use surface::ImageSurface;
pub use surface::SurfaceError;
pub use surface::SurfaceState;
pub use throttle::lemma_process_frame_idempotent;
pub use throttle::lemma_step_preserves_wf;
pub use throttle::lemma_threshold_applies_to_later_calls;
pub use throttle::ThrottleState;
pub use throttle::VideoProcessor;
pub use throttle::DEFAULT_FRAME_SKIP_THRESHOLD_MICROS;

verus! {

/// Adds two machine-word counters; the sum must fit in a `usize`.
pub fn add(left: usize, right: usize) -> (sum: usize)
    requires
        left + right <= usize::MAX,
    ensures
        sum == left + right,
{
    left + right
}

} // verus!
