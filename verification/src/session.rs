//! Transport model of the live playback session.
//!
//! A `Session` mirrors the state the audio backend has been commanded into:
//! the pause flag, volume, speed, and the playhead position. Volume and speed
//! are held in tenths of the backend's unit value, so the backend ranges
//! `[0.0, 2.0]` (volume) and `[0.1, 2.0]` (speed) become the integer ranges
//! `[0, 20]` and `[1, 20]` here.

use vstd::prelude::*;

verus! {

/// Largest volume, in tenths: stands for a volume of 2.0.
pub const VOLUME_MAX_TENTHS: u8 = 20;

/// Smallest speed, in tenths: stands for a speed of 0.1.
pub const SPEED_MIN_TENTHS: u8 = 1;

/// Largest speed, in tenths: stands for a speed of 2.0.
pub const SPEED_MAX_TENTHS: u8 = 20;

/// The backend's unit volume and unit speed, in tenths.
pub const UNIT_TENTHS: u8 = 10;

/// How far one seek-forward command moves the playhead.
pub const SEEK_STEP_MILLIS: u64 = 5000;

/// The transport state of the one live playback session.
#[derive(Clone, Copy, PartialEq, Eq, Structural, Debug)]
pub struct Session {
    pub paused: bool,
    pub volume_tenths: u8,
    pub speed_tenths: u8,
    pub position_millis: u64,
}

/// `a + b`, stuck at the top of `u64` instead of wrapping.
pub open spec fn saturating_add_spec(a: u64, b: u64) -> u64 {
    if a + b <= u64::MAX {
        (a + b) as u64
    } else {
        u64::MAX
    }
}

/// One volume-up step: up by a tenth, clamped at the top of the range.
pub open spec fn volume_up_spec(v: int) -> int {
    if v + 1 <= VOLUME_MAX_TENTHS {
        v + 1
    } else {
        VOLUME_MAX_TENTHS as int
    }
}

/// One volume-down step: down by a tenth, clamped at zero.
pub open spec fn volume_down_spec(v: int) -> int {
    if v - 1 >= 0 {
        v - 1
    } else {
        0
    }
}

/// One speed-up step: up by a tenth, clamped at the top of the range.
pub open spec fn speed_up_spec(v: int) -> int {
    if v + 1 <= SPEED_MAX_TENTHS {
        v + 1
    } else {
        SPEED_MAX_TENTHS as int
    }
}

/// One speed-down step: down by a tenth, clamped at the bottom of the range.
pub open spec fn speed_down_spec(v: int) -> int {
    if v - 1 >= SPEED_MIN_TENTHS {
        v - 1
    } else {
        SPEED_MIN_TENTHS as int
    }
}

/// The volume after `n` volume-up steps from `v`.
pub open spec fn volume_up_iter(v: int, n: nat) -> int
    decreases n,
{
    if n == 0 {
        v
    } else {
        volume_up_spec(volume_up_iter(v, (n - 1) as nat))
    }
}

/// The volume after `n` volume-down steps from `v`.
pub open spec fn volume_down_iter(v: int, n: nat) -> int
    decreases n,
{
    if n == 0 {
        v
    } else {
        volume_down_spec(volume_down_iter(v, (n - 1) as nat))
    }
}

/// The speed after `n` speed-up steps from `v`.
pub open spec fn speed_up_iter(v: int, n: nat) -> int
    decreases n,
{
    if n == 0 {
        v
    } else {
        speed_up_spec(speed_up_iter(v, (n - 1) as nat))
    }
}

/// The speed after `n` speed-down steps from `v`.
pub open spec fn speed_down_iter(v: int, n: nat) -> int
    decreases n,
{
    if n == 0 {
        v
    } else {
        speed_down_spec(speed_down_iter(v, (n - 1) as nat))
    }
}

impl Session {
    /// The ranges every session stays inside.
    pub open spec fn wf(&self) -> bool {
        &&& self.volume_tenths <= VOLUME_MAX_TENTHS
        &&& SPEED_MIN_TENTHS <= self.speed_tenths <= SPEED_MAX_TENTHS
    }

    /// A freshly created session: playing from the start at unit volume and
    /// unit speed, as the backend starts a new sink.
    pub fn new() -> (s: Session)
        ensures
            s.wf(),
            !s.paused,
            s.volume_tenths == UNIT_TENTHS,
            s.speed_tenths == UNIT_TENTHS,
            s.position_millis == 0,
    {
        Session {
            paused: false,
            volume_tenths: UNIT_TENTHS,
            speed_tenths: UNIT_TENTHS,
            position_millis: 0,
        }
    }

    /// Flip between paused and playing.
    pub fn toggle_pause(&mut self)
        ensures
            final(self).paused == !old(self).paused,
            final(self).volume_tenths == old(self).volume_tenths,
            final(self).speed_tenths == old(self).speed_tenths,
            final(self).position_millis == old(self).position_millis,
    {
        self.paused = !self.paused;
    }

    /// Move the playhead forward by one seek step. The playhead may run past
    /// the track's total duration; the backend decides what that means.
    pub fn seek_forward(&mut self)
        ensures
            final(self).position_millis == saturating_add_spec(
                old(self).position_millis,
                SEEK_STEP_MILLIS,
            ),
            final(self).paused == old(self).paused,
            final(self).volume_tenths == old(self).volume_tenths,
            final(self).speed_tenths == old(self).speed_tenths,
    {
        if self.position_millis <= u64::MAX - SEEK_STEP_MILLIS {
            self.position_millis = self.position_millis + SEEK_STEP_MILLIS;
        } else {
            self.position_millis = u64::MAX;
        }
    }

    /// Move the playhead back to the start of the track.
    pub fn rewind(&mut self)
        ensures
            final(self).position_millis == 0,
            final(self).paused == old(self).paused,
            final(self).volume_tenths == old(self).volume_tenths,
            final(self).speed_tenths == old(self).speed_tenths,
    {
        self.position_millis = 0;
    }

    /// Raise the volume by a tenth, clamped to the top of the range.
    pub fn volume_up(&mut self)
        ensures
            final(self).volume_tenths == volume_up_spec(old(self).volume_tenths as int),
            final(self).paused == old(self).paused,
            final(self).speed_tenths == old(self).speed_tenths,
            final(self).position_millis == old(self).position_millis,
    {
        if self.volume_tenths < VOLUME_MAX_TENTHS {
            self.volume_tenths = self.volume_tenths + 1;
        } else {
            self.volume_tenths = VOLUME_MAX_TENTHS;
        }
    }

    /// Lower the volume by a tenth, clamped at silence.
    pub fn volume_down(&mut self)
        ensures
            final(self).volume_tenths == volume_down_spec(old(self).volume_tenths as int),
            final(self).paused == old(self).paused,
            final(self).speed_tenths == old(self).speed_tenths,
            final(self).position_millis == old(self).position_millis,
    {
        if self.volume_tenths > 0 {
            self.volume_tenths = self.volume_tenths - 1;
        }
    }

    /// Raise the speed by a tenth, clamped to the top of the range.
    pub fn speed_up(&mut self)
        ensures
            final(self).speed_tenths == speed_up_spec(old(self).speed_tenths as int),
            final(self).paused == old(self).paused,
            final(self).volume_tenths == old(self).volume_tenths,
            final(self).position_millis == old(self).position_millis,
    {
        if self.speed_tenths < SPEED_MAX_TENTHS {
            self.speed_tenths = self.speed_tenths + 1;
        } else {
            self.speed_tenths = SPEED_MAX_TENTHS;
        }
    }

    /// Lower the speed by a tenth, clamped to the bottom of the range.
    pub fn speed_down(&mut self)
        ensures
            final(self).speed_tenths == speed_down_spec(old(self).speed_tenths as int),
            final(self).paused == old(self).paused,
            final(self).volume_tenths == old(self).volume_tenths,
            final(self).position_millis == old(self).position_millis,
    {
        if self.speed_tenths > SPEED_MIN_TENTHS {
            self.speed_tenths = self.speed_tenths - 1;
        } else {
            self.speed_tenths = SPEED_MIN_TENTHS;
        }
    }

    /// Account for elapsed playback time, as the backend's clock does: while
    /// the session is paused the playhead is frozen, otherwise it moves
    /// forward by the elapsed time.
    pub fn advance(&mut self, elapsed_millis: u64)
        ensures
            final(self).position_millis == if old(self).paused {
                old(self).position_millis
            } else {
                saturating_add_spec(old(self).position_millis, elapsed_millis)
            },
            final(self).paused == old(self).paused,
            final(self).volume_tenths == old(self).volume_tenths,
            final(self).speed_tenths == old(self).speed_tenths,
    {
        if !self.paused {
            if self.position_millis <= u64::MAX - elapsed_millis {
                self.position_millis = self.position_millis + elapsed_millis;
            } else {
                self.position_millis = u64::MAX;
            }
        }
    }
}

/// After `n` volume-up steps the volume is `v + n`, clamped to the top of the
/// range: in particular it never leaves `[0, 20]` once inside it.
pub proof fn lemma_volume_up_iter_closed_form(v: int, n: nat)
    requires
        0 <= v <= VOLUME_MAX_TENTHS,
    ensures
        volume_up_iter(v, n) == if v + n <= VOLUME_MAX_TENTHS {
            v + n
        } else {
            VOLUME_MAX_TENTHS as int
        },
    decreases n,
{
    if n > 0 {
        lemma_volume_up_iter_closed_form(v, (n - 1) as nat);
    }
}

/// Repeated volume-up converges to the top of the range and stays there:
/// after at least 20 steps the volume is exactly 2.0, and one more step
/// leaves it unchanged.
pub proof fn lemma_volume_up_converges(v: int, n: nat)
    requires
        0 <= v <= VOLUME_MAX_TENTHS,
        n >= VOLUME_MAX_TENTHS,
    ensures
        volume_up_iter(v, n) == VOLUME_MAX_TENTHS as int,
        volume_up_spec(volume_up_iter(v, n)) == VOLUME_MAX_TENTHS as int,
{
    lemma_volume_up_iter_closed_form(v, n);
}

/// After `n` volume-down steps the volume is `v - n`, clamped at zero.
pub proof fn lemma_volume_down_iter_closed_form(v: int, n: nat)
    requires
        0 <= v <= VOLUME_MAX_TENTHS,
    ensures
        volume_down_iter(v, n) == if v - n >= 0 {
            v - n
        } else {
            0
        },
    decreases n,
{
    if n > 0 {
        lemma_volume_down_iter_closed_form(v, (n - 1) as nat);
    }
}

/// Repeated volume-down converges to silence and stays there.
pub proof fn lemma_volume_down_converges(v: int, n: nat)
    requires
        0 <= v <= VOLUME_MAX_TENTHS,
        n >= VOLUME_MAX_TENTHS,
    ensures
        volume_down_iter(v, n) == 0,
        volume_down_spec(volume_down_iter(v, n)) == 0,
{
    lemma_volume_down_iter_closed_form(v, n);
}

/// After `n` speed-up steps the speed is `v + n`, clamped to the top of the
/// range.
pub proof fn lemma_speed_up_iter_closed_form(v: int, n: nat)
    requires
        SPEED_MIN_TENTHS <= v <= SPEED_MAX_TENTHS,
    ensures
        speed_up_iter(v, n) == if v + n <= SPEED_MAX_TENTHS {
            v + n
        } else {
            SPEED_MAX_TENTHS as int
        },
    decreases n,
{
    if n > 0 {
        lemma_speed_up_iter_closed_form(v, (n - 1) as nat);
    }
}

/// Repeated speed-up converges to the top speed, 2.0, and stays there.
pub proof fn lemma_speed_up_converges(v: int, n: nat)
    requires
        SPEED_MIN_TENTHS <= v <= SPEED_MAX_TENTHS,
        n >= SPEED_MAX_TENTHS,
    ensures
        speed_up_iter(v, n) == SPEED_MAX_TENTHS as int,
        speed_up_spec(speed_up_iter(v, n)) == SPEED_MAX_TENTHS as int,
{
    lemma_speed_up_iter_closed_form(v, n);
}

/// After `n` speed-down steps the speed is `v - n`, clamped to the bottom of
/// the range.
pub proof fn lemma_speed_down_iter_closed_form(v: int, n: nat)
    requires
        SPEED_MIN_TENTHS <= v <= SPEED_MAX_TENTHS,
    ensures
        speed_down_iter(v, n) == if v - n >= SPEED_MIN_TENTHS {
            v - n
        } else {
            SPEED_MIN_TENTHS as int
        },
    decreases n,
{
    if n > 0 {
        lemma_speed_down_iter_closed_form(v, (n - 1) as nat);
    }
}

/// Repeated speed-down converges to the bottom speed, 0.1, and stays there.
pub proof fn lemma_speed_down_converges(v: int, n: nat)
    requires
        SPEED_MIN_TENTHS <= v <= SPEED_MAX_TENTHS,
        n >= SPEED_MAX_TENTHS,
    ensures
        speed_down_iter(v, n) == SPEED_MIN_TENTHS as int,
        speed_down_spec(speed_down_iter(v, n)) == SPEED_MIN_TENTHS as int,
{
    lemma_speed_down_iter_closed_form(v, n);
}

} // verus!
