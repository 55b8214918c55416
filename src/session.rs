//! The decisions of one animation session: which frame comes next, the
//! rotation angle it uses and which feature label it shows.

use vstd::prelude::*;

verus! {

/// Number of the first frame of a session.
pub const FIRST_FRAME: u64 = 30;

/// Frames are numbered below this bound.
pub const FRAME_LIMIT: u64 = 1000000;

/// Frames shown before the feature label moves on.
pub const FEATURE_PERIOD: u64 = 100;

/// Number of feature labels the session cycles through.
pub const FEATURE_COUNT: u64 = 3;

/// What one frame needs: the rotation in whole degrees and the index of the
/// feature label to show.
#[derive(Clone, Copy, PartialEq, Eq, Structural, Debug)]
pub struct FrameSettings {
    pub degrees: u64,
    pub feature: u64,
}

/// The progress of a session: the number of the next frame and how many
/// times the feature label has moved on.
#[derive(Clone, Copy, PartialEq, Eq, Structural, Debug)]
pub struct Session {
    pub frame: u64,
    pub feature_index: u64,
}

/// The settings of frame `f`.
pub open spec fn settings_of(f: int) -> FrameSettings {
    FrameSettings {
        degrees: (f % 360) as u64,
        feature: ((f / FEATURE_PERIOD as int) % FEATURE_COUNT as int) as u64,
    }
}

impl Session {
    /// A session in a reachable state: the frame number lies in range and the
    /// label has moved on once for each frame so far whose number ends in 99.
    pub open spec fn wf(&self) -> bool {
        &&& FIRST_FRAME <= self.frame <= FRAME_LIMIT
        &&& self.feature_index == self.frame / FEATURE_PERIOD
    }

    /// A session about to show its first frame.
    pub fn new() -> (r: Session)
        ensures
            r.wf(),
            r.frame == FIRST_FRAME,
            r.feature_index == 0,
    {
        Session { frame: FIRST_FRAME, feature_index: 0 }
    }

    /// Whether every frame has been shown.
    pub fn finished(&self) -> (r: bool)
        ensures
            r == (self.frame >= FRAME_LIMIT),
    {
        self.frame >= FRAME_LIMIT
    }

    /// Takes the next frame: `None` once the session is over, otherwise the
    /// frame's rotation (its number modulo 360) and its feature label. The
    /// label moves on after each frame whose number ends in 99.
    pub fn next_frame(&mut self) -> (r: Option<FrameSettings>)
        requires
            old(self).wf(),
        ensures
            final(self).wf(),
            old(self).frame >= FRAME_LIMIT ==> r is None && *final(self) == *old(self),
            old(self).frame < FRAME_LIMIT ==> {
                &&& r == Some(settings_of(old(self).frame as int))
                &&& settings_of(old(self).frame as int).degrees < 360
                &&& settings_of(old(self).frame as int).feature < FEATURE_COUNT
                &&& final(self).frame == old(self).frame + 1
                &&& final(self).feature_index == old(self).feature_index + (if old(self).frame
                    % FEATURE_PERIOD == FEATURE_PERIOD - 1 {
                    1int
                } else {
                    0int
                })
            },
    {
        if self.frame >= FRAME_LIMIT {
            return None;
        }
        let settings = FrameSettings {
            degrees: self.frame % 360,
            feature: self.feature_index % FEATURE_COUNT,
        };
        if self.frame % FEATURE_PERIOD == FEATURE_PERIOD - 1 {
            self.feature_index = self.feature_index + 1;
        }
        self.frame = self.frame + 1;
        Some(settings)
    }
}

} // verus!
