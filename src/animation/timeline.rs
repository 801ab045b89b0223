//! Frame and time accounting for one playback.
use vstd::prelude::*;
use crate::utils::fixed::ONE;

verus! {

/// `ceil(duration_ms / 1000 * fps)`, the number of frames a playback takes.
pub open spec fn frame_total(duration_ms: int, fps: int) -> int {
    (duration_ms * fps + 999) / 1000
}

/// Linear progress (fixed point) after `frame` of `total` frames: full when there are
/// no frames, otherwise `floor(frame / total)` in fixed point, never above `ONE`.
pub open spec fn progress_at(frame: int, total: int) -> int {
    if total == 0 {
        ONE as int
    } else if frame >= total {
        ONE as int
    } else {
        frame * ONE / total
    }
}

/// Frame and time accounting: a duration and a frame rate give a fixed number of
/// frames, and the current frame moves forward one at a time until the last.
/// Times are milliseconds read from a clock that the caller supplies.
pub struct Timeline {
    duration_ms: u64,
    fps: u32,
    start_time: Option<u64>,
    current_frame: usize,
    total_frames: usize,
}

impl Timeline {
    /// Total number of frames.
    pub closed spec fn spec_total(&self) -> int {
        self.total_frames as int
    }

    /// Index of the current frame.
    pub closed spec fn spec_current(&self) -> int {
        self.current_frame as int
    }

    /// Start time, when started.
    pub closed spec fn spec_start(&self) -> Option<u64> {
        self.start_time
    }

    /// The duration in milliseconds.
    pub closed spec fn spec_duration(&self) -> u64 {
        self.duration_ms
    }

    /// The frame rate.
    pub closed spec fn spec_fps(&self) -> u32 {
        self.fps
    }

    /// The current frame never passes the last one.
    pub open spec fn wf(&self) -> bool {
        self.spec_current() <= self.spec_total()
    }

    /// The frame count `new` gives.
    pub open spec fn new_total(duration_ms: u64, fps: u32) -> int {
        if frame_total(duration_ms as int, fps as int) <= usize::MAX {
            frame_total(duration_ms as int, fps as int)
        } else {
            usize::MAX as int
        }
    }

    /// A timeline of `ceil(duration_ms / 1000 * fps)` frames (saturating at the
    /// largest `usize`), not started, at frame 0.
    pub fn new(duration_ms: u64, fps: u32) -> (r: Self)
        ensures
            r.wf(),
            r.spec_total() == Self::new_total(duration_ms, fps),
            r.spec_current() == 0,
            r.spec_start() is None,
            r.spec_duration() == duration_ms,
            r.spec_fps() == fps,
    {
        proof {
            assert(duration_ms as int * fps as int <= 0xffff_ffff_ffff_ffff * 0xffff_ffff) by (
            nonlinear_arith)
                requires
                    duration_ms <= 0xffff_ffff_ffff_ffffu64,
                    fps <= 0xffff_ffffu32,
            ;
        }
        let product: u128 = duration_ms as u128 * fps as u128;
        let frames: u128 = (product + 999) / 1000;
        let total_frames: usize = if frames <= usize::MAX as u128 {
            frames as usize
        } else {
            usize::MAX
        };
        Timeline { duration_ms, fps, start_time: None, current_frame: 0, total_frames }
    }

    /// Starts at `now_ms` from frame 0.
    pub fn start(&mut self, now_ms: u64)
        ensures
            final(self).wf(),
            final(self).spec_start() == Some(now_ms),
            final(self).spec_current() == 0,
            final(self).spec_total() == old(self).spec_total(),
            final(self).spec_duration() == old(self).spec_duration(),
            final(self).spec_fps() == old(self).spec_fps(),
    {
        self.start_time = Some(now_ms);
        self.current_frame = 0;
    }

    /// Back to frame 0, not started.
    pub fn reset(&mut self)
        ensures
            final(self).wf(),
            final(self).spec_start() is None,
            final(self).spec_current() == 0,
            final(self).spec_total() == old(self).spec_total(),
            final(self).spec_duration() == old(self).spec_duration(),
            final(self).spec_fps() == old(self).spec_fps(),
    {
        self.start_time = None;
        self.current_frame = 0;
    }

    /// Whether the last frame has been reached.
    pub fn is_complete(&self) -> (r: bool)
        ensures
            r == (self.spec_current() >= self.spec_total()),
    {
        self.current_frame >= self.total_frames
    }

    /// Linear progress in fixed point.
    pub fn progress(&self) -> (r: i64)
        requires
            self.wf(),
        ensures
            r == progress_at(self.spec_current(), self.spec_total()),
            0 <= r <= ONE,
    {
        if self.total_frames == 0 || self.current_frame >= self.total_frames {
            return ONE;
        }
        let p: u128 = self.current_frame as u128 * ONE as u128 / self.total_frames as u128;
        proof {
            let c = self.current_frame as int;
            let t = self.total_frames as int;
            assert(c * ONE <= t * ONE) by (nonlinear_arith)
                requires
                    c < t,
            ;
            vstd::arithmetic::div_mod::lemma_div_is_ordered(c * ONE, t * ONE, t);
            vstd::arithmetic::div_mod::lemma_div_by_multiple(ONE as int, t);
            assert(t * ONE == ONE * t) by (nonlinear_arith);
            vstd::arithmetic::div_mod::lemma_div_pos_is_pos(c * ONE, t);
        }
        p as i64
    }

    /// Moves to the next frame unless complete; says whether it moved.
    pub fn next_frame(&mut self) -> (r: bool)
        requires
            old(self).wf(),
        ensures
            final(self).wf(),
            r == (old(self).spec_current() < old(self).spec_total()),
            final(self).spec_current() == if r {
                old(self).spec_current() + 1
            } else {
                old(self).spec_current()
            },
            final(self).spec_total() == old(self).spec_total(),
            final(self).spec_start() == old(self).spec_start(),
            final(self).spec_duration() == old(self).spec_duration(),
            final(self).spec_fps() == old(self).spec_fps(),
    {
        if self.is_complete() {
            return false;
        }
        self.current_frame = self.current_frame + 1;
        true
    }

    /// Time between frames in milliseconds, `floor(1000 / fps)`.
    pub fn frame_duration(&self) -> (r: u64)
        requires
            self.spec_fps() > 0,
        ensures
            r == 1000int / self.spec_fps() as int,
    {
        1000 / self.fps as u64
    }

    /// Milliseconds since the start, given the time now; 0 when not started or
    /// when the clock reads earlier than the start.
    pub fn elapsed(&self, now_ms: u64) -> (r: u64)
        ensures
            r == match self.spec_start() {
                Some(s) => if now_ms >= s {
                    (now_ms - s) as u64
                } else {
                    0u64
                },
                None => 0u64,
            },
    {
        match self.start_time {
            Some(s) => if now_ms >= s {
                now_ms - s
            } else {
                0
            },
            None => 0,
        }
    }

    /// Index of the current frame.
    pub fn current_frame(&self) -> (r: usize)
        ensures
            r == self.spec_current(),
    {
        self.current_frame
    }

    /// Total number of frames.
    pub fn total_frames(&self) -> (r: usize)
        ensures
            r == self.spec_total(),
    {
        self.total_frames
    }

    /// The frame rate.
    pub fn fps(&self) -> (r: u32)
        ensures
            r == self.spec_fps(),
    {
        self.fps
    }

    /// The duration in milliseconds.
    pub fn duration_ms(&self) -> (r: u64)
        ensures
            r == self.spec_duration(),
    {
        self.duration_ms
    }
}

/// The frame count is the ceiling of `duration_ms / 1000 * fps`: the smallest whole
/// number of frames that covers the duration.
pub proof fn lemma_frame_total_is_ceiling(duration_ms: nat, fps: nat)
    ensures
        frame_total(duration_ms as int, fps as int) * 1000 >= duration_ms * fps,
        (frame_total(duration_ms as int, fps as int) - 1) * 1000 < duration_ms * fps,
{
    let x = duration_ms * fps + 999;
    vstd::arithmetic::div_mod::lemma_fundamental_div_mod(x as int, 1000);
    vstd::arithmetic::div_mod::lemma_mod_bound(x as int, 1000);
}

/// Progress never decreases from one frame to the next, never exceeds `ONE`, and is
/// exactly `ONE` from the last frame on.
pub proof fn lemma_progress_monotone(frame: nat, total: nat)
    ensures
        0 <= progress_at(frame as int, total as int) <= progress_at(frame + 1int, total as int),
        progress_at(frame as int, total as int) <= ONE,
        frame >= total ==> progress_at(frame as int, total as int) == ONE,
{
    if total > 0 && frame < total {
        let f = frame as int;
        let t = total as int;
        vstd::arithmetic::div_mod::lemma_div_pos_is_pos(f * ONE, t);
        assert(f * ONE <= (f + 1) * ONE) by (nonlinear_arith);
        vstd::arithmetic::div_mod::lemma_div_is_ordered(f * ONE, (f + 1) * ONE, t);
        assert(f * ONE <= t * ONE) by (nonlinear_arith)
            requires
                f < t,
        ;
        assert(t * ONE == ONE * t) by (nonlinear_arith);
        vstd::arithmetic::div_mod::lemma_div_is_ordered(f * ONE, t * ONE, t);
        vstd::arithmetic::div_mod::lemma_div_by_multiple(ONE as int, t);
        if f + 1 < t {
            assert((f + 1) * ONE <= t * ONE) by (nonlinear_arith)
                requires
                    f + 1 < t,
            ;
        }
    }
}

} // verus!
