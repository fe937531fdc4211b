//! The periodic tick's playback decisions: advancing the local playback
//! clock, telling a natural track end from a premature one, and pacing the
//! retries that re-attach an audio device.

use vstd::prelude::*;
use crate::transport::PlayStatus;

verus! {

/// Milliseconds between ticks.
pub const TICK_MS: u64 = 100;

/// Ticks between two audio re-attach attempts (about two seconds).
pub const AUDIO_RETRY_TICKS: u32 = 20;

/// The local playback clock.
#[derive(Clone, Copy, Debug)]
pub struct PlaybackClock {
    pub status: PlayStatus,
    pub position_ms: u64,
    pub duration_ms: u64,
}

/// How a drained output sink is reported.
#[derive(PartialEq, Eq, Structural, Clone, Copy, Debug)]
pub enum TrackEnd {
    /// The track played to its end.
    TrackEnded,
    /// Playback stopped well before the known length ("Track ended prematurely").
    Premature,
}

/// Whether `actual` ms of playback complete a track of `expected` ms: an
/// unknown length always does; otherwise at least 90 % of it, or (for
/// tracks over five seconds) all but the last five seconds.
pub open spec fn completed_spec(expected: nat, actual: nat) -> bool {
    expected == 0 || actual >= expected * 90 / 100 || (expected > 5000 && actual >= expected - 5000)
}

/// Whether `actual` ms of playback complete a track of `expected` ms.
pub fn track_completed(expected: u64, actual: u64) -> (r: bool)
    requires
        expected * 90 <= u64::MAX,
    ensures
        r == completed_spec(expected as nat, actual as nat),
{
    expected == 0 || actual >= expected * 90 / 100 || (expected > 5000 && actual >= expected - 5000)
}

/// One tick of the local playback clock: while playing on the local
/// output the position advances by one tick (saturating); if playback has
/// run for a second and the sink has drained, the end is reported — as a
/// natural end when enough of the track played (the sink's position when
/// it has one, else the clock's) — and the clock pauses until the core
/// moves on.
pub fn advance_playback(
    clock: &mut PlaybackClock,
    is_local: bool,
    started_long_enough: bool,
    sink_finished: bool,
    sink_position_ms: Option<u64>,
) -> (r: Option<TrackEnd>)
    requires
        old(clock).duration_ms * 90 <= u64::MAX,
    ensures
        final(clock).duration_ms == old(clock).duration_ms,
        !(old(clock).status == PlayStatus::Playing && is_local) ==> r is None && *final(clock) == *old(clock),
        (old(clock).status == PlayStatus::Playing && is_local) ==> {
            let pos = if old(clock).position_ms + TICK_MS > u64::MAX {
                u64::MAX as nat
            } else {
                (old(clock).position_ms + TICK_MS) as nat
            };
            let actual = match sink_position_ms {
                Some(p) => p as nat,
                None => pos,
            };
            &&& final(clock).position_ms == pos
            &&& (started_long_enough && sink_finished) ==> {
                &&& final(clock).status == PlayStatus::Paused
                &&& r == Some(if completed_spec(old(clock).duration_ms as nat, actual) {
                    TrackEnd::TrackEnded
                } else {
                    TrackEnd::Premature
                })
            }
            &&& !(started_long_enough && sink_finished) ==> r is None && final(clock).status
                == PlayStatus::Playing
        },
{
    if !(clock.status == PlayStatus::Playing && is_local) {
        return None;
    }
    clock.position_ms = clock.position_ms.saturating_add(TICK_MS);
    if started_long_enough && sink_finished {
        let actual = match sink_position_ms {
            Some(p) => p,
            None => clock.position_ms,
        };
        let done = track_completed(clock.duration_ms, actual);
        clock.status = PlayStatus::Paused;
        if done {
            Some(TrackEnd::TrackEnded)
        } else {
            Some(TrackEnd::Premature)
        }
    } else {
        None
    }
}

/// A track that counts as complete stays complete for any later position.
pub proof fn lemma_completion_monotone(expected: nat, actual: nat, later: nat)
    requires
        completed_spec(expected, actual),
        actual <= later,
    ensures
        completed_spec(expected, later),
{
}

/// Playing to the known length always counts as a natural end.
pub proof fn lemma_full_play_completes(expected: nat)
    ensures
        completed_spec(expected, expected),
{
    assert(expected * 90 / 100 <= expected) by (nonlinear_arith);
}

/// Pacing of the audio re-attach retries while no device is available.
#[derive(Clone, Copy, Debug)]
pub struct AudioRetry {
    pub ticks_left: u32,
}

/// The countdown after one tick (saturating at zero).
pub open spec fn tick_spec(t: u32) -> u32 {
    if t == 0 {
        0
    } else {
        (t - 1) as u32
    }
}

/// The countdown after `k` ticks.
pub open spec fn ticks_later(t: u32, k: nat) -> u32
    decreases k,
{
    if k == 0 {
        t
    } else {
        tick_spec(ticks_later(t, (k - 1) as nat))
    }
}

impl AudioRetry {
    /// Count down one tick; an attempt is due when the count reaches zero.
    pub fn tick(&mut self) -> (due: bool)
        ensures
            final(self).ticks_left == tick_spec(old(self).ticks_left),
            due == (final(self).ticks_left == 0),
    {
        self.ticks_left = self.ticks_left.saturating_sub(1);
        self.ticks_left == 0
    }

    /// A failed attempt waits the full retry interval before the next one.
    pub fn attach_failed(&mut self)
        ensures
            final(self).ticks_left == AUDIO_RETRY_TICKS,
    {
        self.ticks_left = AUDIO_RETRY_TICKS;
    }
}

/// After a failed attempt the next one is due exactly `AUDIO_RETRY_TICKS`
/// ticks later, and not before.
pub proof fn lemma_retry_interval(k: nat)
    ensures
        ticks_later(AUDIO_RETRY_TICKS, k) == if k >= AUDIO_RETRY_TICKS {
            0
        } else {
            (AUDIO_RETRY_TICKS - k) as u32
        },
        (ticks_later(AUDIO_RETRY_TICKS, k) == 0) <==> k >= AUDIO_RETRY_TICKS,
    decreases k,
{
    if k > 0 {
        lemma_retry_interval((k - 1) as nat);
    }
}

} // verus!
