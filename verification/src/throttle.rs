use vstd::prelude::*;

use crate::pixels::{copy_slice, lemma_rgba_prefix_complete_groups, rgba_prefix};

verus! {

/// Default minimum interval between two accepted frames, in microseconds:
/// 16.67 ms, one frame period at 60 frames per second.
pub const DEFAULT_FRAME_SKIP_THRESHOLD_MICROS: i64 = 16_670;

/// The mathematical state of a `VideoProcessor`: the frame dimensions, the
/// bytes of the retained buffer, the timestamp of the last accepted frame and
/// the minimum interval between accepted frames (both in microseconds).
#[verifier::ext_equal]
pub ghost struct ThrottleState {
    pub width: u32,
    pub height: u32,
    pub buffer: Seq<u8>,
    pub last_frame_time: int,
    pub frame_skip_threshold: int,
}

impl ThrottleState {
    /// A frame arriving at `current_time` is skipped when less than
    /// `frame_skip_threshold` microseconds have passed since the last
    /// accepted frame.
    pub open spec fn skips(self, current_time: int) -> bool {
        current_time - self.last_frame_time < self.frame_skip_threshold
    }

    /// The state after one `process_frame` call at `current_time` with
    /// `frame`: unchanged on the skip path; on the accept path the complete
    /// RGBA groups of `frame` become the retained buffer and the timestamp is
    /// recorded.
    pub open spec fn step(self, current_time: int, frame: Seq<u8>) -> ThrottleState {
        if self.skips(current_time) {
            self
        } else {
            ThrottleState {
                buffer: rgba_prefix(frame),
                last_frame_time: current_time,
                ..self
            }
        }
    }

    /// The bytes returned by one `process_frame` call at `current_time` with
    /// `frame`: the retained buffer on the skip path, the complete RGBA
    /// groups of `frame` on the accept path.
    pub open spec fn output(self, current_time: int, frame: Seq<u8>) -> Seq<u8> {
        if self.skips(current_time) {
            self.buffer
        } else {
            rgba_prefix(frame)
        }
    }

    /// The state after `set_frame_skip_threshold(threshold)`: only the
    /// threshold changes.
    pub open spec fn with_threshold(self, threshold: int) -> ThrottleState {
        ThrottleState { frame_skip_threshold: threshold, ..self }
    }

    /// The retained buffer holds whole RGBA groups only.
    pub open spec fn wf(self) -> bool {
        self.buffer.len() % 4 == 0
    }
}

/// Rate-limits a stream of RGBA frames: a frame arriving sooner than
/// `frame_skip_threshold` microseconds after the last accepted one is dropped
/// and the retained frame is returned instead. All timestamps are supplied by
/// the caller, read once per call from the host clock.
pub struct VideoProcessor {
    width: u32,
    height: u32,
    buffer: Vec<u8>,
    last_frame_time: i64,
    frame_skip_threshold: i64,
}

impl View for VideoProcessor {
    type V = ThrottleState;

    closed spec fn view(&self) -> ThrottleState {
        ThrottleState {
            width: self.width,
            height: self.height,
            buffer: self.buffer@,
            last_frame_time: self.last_frame_time as int,
            frame_skip_threshold: self.frame_skip_threshold as int,
        }
    }
}

impl VideoProcessor {
    /// Creates a throttle for `width` x `height` frames. The retained buffer
    /// starts empty and grows with the first accepted frame, so a reader that
    /// asks for the output before any frame was accepted gets an empty
    /// buffer. The last accepted time starts in the distant past, so the
    /// first frame of a real clock is always accepted, and the threshold
    /// defaults to one frame period at 60 frames per second.
    pub fn new(width: u32, height: u32) -> (processor: Self)
        ensures
            processor@.width == width,
            processor@.height == height,
            processor@.buffer == Seq::<u8>::empty(),
            processor@.last_frame_time == i64::MIN as int,
            processor@.frame_skip_threshold == DEFAULT_FRAME_SKIP_THRESHOLD_MICROS as int,
            processor@.wf(),
    {
        Self {
            width,
            height,
            buffer: Vec::new(),
            last_frame_time: i64::MIN,
            frame_skip_threshold: DEFAULT_FRAME_SKIP_THRESHOLD_MICROS,
        }
    }

    /// Handles one incoming frame arriving at host-clock time `current_time`
    /// (microseconds). When less than the threshold has passed since the last
    /// accepted frame, the state is left untouched and a copy of the retained
    /// buffer is returned. Otherwise the complete RGBA groups of `frame_data`
    /// replace the retained buffer (a trailing partial group is dropped
    /// silently), the timestamp is recorded, and a copy of the new buffer is
    /// returned. The result is always a fresh copy, never an alias of the
    /// retained buffer.
    pub fn process_frame(&mut self, current_time: i64, frame_data: &[u8]) -> (out: Vec<u8>)
        ensures
            final(self)@ == old(self)@.step(current_time as int, frame_data@),
            out@ == old(self)@.output(current_time as int, frame_data@),
            old(self)@.skips(current_time as int) ==> *final(self) == *old(self)
                && out@ == old(self)@.buffer,
            !old(self)@.skips(current_time as int) ==> out@ == rgba_prefix(frame_data@)
                && final(self)@ == (ThrottleState {
                    buffer: rgba_prefix(frame_data@),
                    last_frame_time: current_time as int,
                    ..old(self)@
                }),
            old(self)@.wf() ==> final(self)@.wf(),
    {
        let time_diff = (current_time as i128) - (self.last_frame_time as i128);
        if time_diff < self.frame_skip_threshold as i128 {
            return copy_slice(self.buffer.as_slice());
        }

        self.last_frame_time = current_time;
        self.process_frame_normal(frame_data);
        proof {
            lemma_rgba_prefix_complete_groups(frame_data@);
            assert(self@ =~= old(self)@.step(current_time as int, frame_data@));
        }
        copy_slice(self.buffer.as_slice())
    }

    /// Replaces the retained buffer with the complete 4-byte RGBA groups of
    /// `frame_data`; a trailing partial group is dropped.
    fn process_frame_normal(&mut self, frame_data: &[u8])
        ensures
            final(self).buffer@ == rgba_prefix(frame_data@),
            final(self).width == old(self).width,
            final(self).height == old(self).height,
            final(self).last_frame_time == old(self).last_frame_time,
            final(self).frame_skip_threshold == old(self).frame_skip_threshold,
    {
        self.buffer.clear();
        let len: usize = frame_data.len();
        let mut i: usize = 0;
        proof {
            assert(self.buffer@ =~= frame_data@.take(0));
        }
        while len - i >= 4
            invariant
                i <= len,
                i % 4 == 0,
                len == frame_data@.len(),
                self.buffer@ == frame_data@.take(i as int),
                self.width == old(self).width,
                self.height == old(self).height,
                self.last_frame_time == old(self).last_frame_time,
                self.frame_skip_threshold == old(self).frame_skip_threshold,
            decreases len - i,
        {
            self.buffer.push(frame_data[i]);
            self.buffer.push(frame_data[i + 1]);
            self.buffer.push(frame_data[i + 2]);
            self.buffer.push(frame_data[i + 3]);
            i = i + 4;
            proof {
                assert(self.buffer@ =~= frame_data@.take(i as int));
            }
        }
        proof {
            assert(i == len / 4 * 4) by (nonlinear_arith)
                requires
                    i % 4 == 0,
                    i <= len,
                    len < i + 4,
            ;
        }
    }

    /// Replaces the frame-skip threshold (microseconds) unconditionally; no
    /// range check is made, so a non-positive value disables skipping. The
    /// retained buffer and the last accepted time are untouched: the change
    /// affects later `process_frame` calls only.
    pub fn set_frame_skip_threshold(&mut self, threshold: i64)
        ensures
            final(self)@ == old(self)@.with_threshold(threshold as int),
    {
        self.frame_skip_threshold = threshold;
        proof {
            assert(self@ =~= old(self)@.with_threshold(threshold as int));
        }
    }
}

/// Processing the same frame twice at the same timestamp, when the first call
/// accepts it, yields the same bytes both times and the same state: the
/// second call either skips (returning the buffer the first call retained) or
/// accepts again, and either way the result is the frame's complete RGBA
/// groups.
pub proof fn lemma_process_frame_idempotent(s: ThrottleState, current_time: int, frame: Seq<u8>)
    requires
        !s.skips(current_time),
    ensures
        s.step(current_time, frame).output(current_time, frame) == s.output(current_time, frame),
        s.step(current_time, frame).step(current_time, frame) == s.step(current_time, frame),
{
    assert(s.step(current_time, frame).step(current_time, frame) =~= s.step(
        current_time,
        frame,
    ));
}

/// A threshold change is never retroactive: it leaves the dimensions, the
/// retained buffer and the last accepted time untouched, and the next call's
/// skip decision is taken against the new threshold alone.
pub proof fn lemma_threshold_applies_to_later_calls(
    s: ThrottleState,
    threshold: int,
    current_time: int,
)
    ensures
        s.with_threshold(threshold).width == s.width,
        s.with_threshold(threshold).height == s.height,
        s.with_threshold(threshold).buffer == s.buffer,
        s.with_threshold(threshold).last_frame_time == s.last_frame_time,
        s.with_threshold(threshold).skips(current_time) == (current_time - s.last_frame_time
            < threshold),
{
}

/// The retained buffer holds whole RGBA groups in every reachable state: the
/// invariant holds at construction and every step preserves it.
pub proof fn lemma_step_preserves_wf(s: ThrottleState, current_time: int, frame: Seq<u8>)
    requires
        s.wf(),
    ensures
        s.step(current_time, frame).wf(),
{
    if !s.skips(current_time) {
        lemma_rgba_prefix_complete_groups(frame);
    }
}

} // verus!
