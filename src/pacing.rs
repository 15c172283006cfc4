//! Frame pacing: lets a frame through at most once per fixed interval.
use vstd::prelude::*;

verus! {

#[verifier::external_type_specification]
#[verifier::external_body]
pub struct ExInstant(std::time::Instant);

/// Relies on `std::time::Instant::now`: a reading of the monotonic clock.
#[verifier::external_body]
fn instant_now() -> std::time::Instant {
    std::time::Instant::now()
}

/// Relies on `std::time::Instant::elapsed` and `Duration::as_micros`: the time
/// since `origin` in whole microseconds. Nothing is known of the value.
#[verifier::external_body]
fn micros_since(origin: &std::time::Instant) -> u64 {
    origin.elapsed().as_micros() as u64
}

/// Whether a frame is due at `now_us` when the last one went at `last_us`
/// (`None`: no frame yet) and frames are `target_us` apart. A clock reading
/// before the last frame counts as no time elapsed.
pub open spec fn frame_due(last_us: Option<u64>, target_us: u64, now_us: u64) -> bool {
    match last_us {
        None => true,
        Some(l) => (if now_us >= l {
            now_us - l
        } else {
            0
        }) >= target_us,
    }
}

/// The interval between frames, in microseconds, for a target rate per second.
pub open spec fn frame_interval_us(target_fps: u32) -> u64 {
    (1_000_000int / (target_fps as int)) as u64
}

/// Paces frames to a target rate; its clock counts microseconds from its creation.
pub struct FrameTimer {
    origin: std::time::Instant,
    last_frame_us: Option<u64>,
    target_frame_us: u64,
}

impl FrameTimer {
    /// When the last frame went through, on the timer's clock (`None`: not yet).
    pub closed spec fn last_frame(&self) -> Option<u64> {
        self.last_frame_us
    }

    /// The interval between frames, in microseconds.
    pub closed spec fn interval(&self) -> u64 {
        self.target_frame_us
    }

    /// A timer for `target_fps` frames per second whose first frame is due at once.
    pub fn new(target_fps: u32) -> (t: FrameTimer)
        requires
            target_fps > 0,
        ensures
            t.last_frame() == None::<u64>,
            t.interval() == frame_interval_us(target_fps),
    {
        FrameTimer {
            origin: instant_now(),
            last_frame_us: None,
            target_frame_us: 1_000_000 / (target_fps as u64),
        }
    }

    /// Whether a frame may be drawn at `now_us` on the timer's clock; when it may,
    /// the frame is recorded as drawn then.
    pub fn should_render_at(&mut self, now_us: u64) -> (r: bool)
        ensures
            r == frame_due(old(self).last_frame(), old(self).interval(), now_us),
            final(self).interval() == old(self).interval(),
            final(self).last_frame() == if r {
                Some(now_us)
            } else {
                old(self).last_frame()
            },
    {
        let due = match self.last_frame_us {
            None => true,
            Some(l) => {
                let elapsed = if now_us >= l {
                    now_us - l
                } else {
                    0
                };
                elapsed >= self.target_frame_us
            },
        };
        if due {
            self.last_frame_us = Some(now_us);
        }
        due
    }

    /// Whether a frame may be drawn now, reading the clock: for the reading
    /// taken, the answer and the recorded frame are those of `should_render_at`;
    /// the first call on a new timer always returns true.
    pub fn should_render(&mut self) -> (r: bool)
        ensures
            final(self).interval() == old(self).interval(),
            old(self).last_frame() is None ==> r,
            exists|now_us: u64|
                r == frame_due(old(self).last_frame(), old(self).interval(), now_us) && final(self).last_frame()
                    == (if r {
                    Some(now_us)
                } else {
                    old(self).last_frame()
                }),
    {
        let now = micros_since(&self.origin);
        self.should_render_at(now)
    }
}

/// The pacing rule: the first frame of a timer is due whenever it is asked for;
/// a frame asked for less than one interval after the last one is refused, and
/// one asked for at least one interval after it is granted.
pub proof fn lemma_frame_pacing(target_us: u64, first_us: u64, next_us: u64)
    ensures
        frame_due(None, target_us, first_us),
        first_us <= next_us < first_us + target_us ==> !frame_due(Some(first_us), target_us, next_us),
        next_us >= first_us + target_us ==> frame_due(Some(first_us), target_us, next_us),
{
}

} // verus!
