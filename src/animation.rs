use vstd::prelude::*;

use crate::helpers::Vec2;

verus! {

/// A short-lived visual effect that steps through the frames of a sprite sheet once.
#[derive(Clone, Copy, Debug, PartialEq, Eq, Structural)]
pub struct Animation {
    pub frame_count: u64,
    pub current_frame: u64,
    /// How long each frame shows, in milliseconds.
    pub frame_time: u64,
    pub elapsed_time: u64,
    pub position: Vec2,
    pub finished: bool,
}

impl Animation {
    pub open spec fn wf(self) -> bool {
        self.frame_count > 0
    }

    pub open spec fn new_spec(frame_count: u64, frame_time: u64, position: Vec2) -> Animation {
        Animation { frame_count, current_frame: 0, frame_time, elapsed_time: 0, position, finished: false }
    }

    /// An effect at `position` that shows `frame_count` frames of `frame_time` milliseconds each.
    pub fn new(frame_count: u64, frame_time: u64, position: Vec2) -> (r: Animation)
        requires
            frame_count > 0,
        ensures
            r == Animation::new_spec(frame_count, frame_time, position),
            r.wf(),
    {
        Animation { frame_count, current_frame: 0, frame_time, elapsed_time: 0, position, finished: false }
    }

    pub open spec fn update_spec(self, dt: u64) -> Animation {
        let elapsed = if self.elapsed_time + dt > u64::MAX {
            u64::MAX as int
        } else {
            self.elapsed_time + dt
        };
        let turned = elapsed >= self.frame_time;
        let frame = if turned {
            ((self.current_frame + 1) % (self.frame_count as int)) as u64
        } else {
            self.current_frame
        };
        Animation {
            elapsed_time: if turned {
                0
            } else {
                elapsed as u64
            },
            current_frame: frame,
            finished: self.finished || frame + 1 == self.frame_count,
            ..self
        }
    }

    /// Advances the effect by `dt` milliseconds: it turns to the next frame once a frame's
    /// time is up, and is finished once it shows its last frame.
    pub fn update(&mut self, dt: u64)
        requires
            old(self).wf(),
        ensures
            *final(self) == old(self).update_spec(dt),
            final(self).wf(),
    {
        self.elapsed_time = self.elapsed_time.saturating_add(dt);
        if self.elapsed_time >= self.frame_time {
            self.elapsed_time = 0;
            self.current_frame = ((self.current_frame as u128 + 1) % (self.frame_count as u128)) as u64;
        }
        if self.current_frame as u128 + 1 == self.frame_count as u128 {
            self.finished = true;
        }
    }
}

} // verus!
