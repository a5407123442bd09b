//! The player engine: playback state, the current track and the position,
//! changed only through its transitions.
//!
//! The audio device is driven by the caller. A transition that needs the
//! device takes what the device reported for the command (`device_ok`); a
//! refused transition leaves the engine as it was, so the caller issues the
//! device command only when the engine accepts it. Positions and durations
//! are whole milliseconds.

use vstd::prelude::*;

verus! {

/// Playback status.
#[derive(Debug, Clone, Copy, PartialEq, Eq, Structural)]
pub enum PlayerStatus {
    Stopped,
    Playing,
    Paused,
}

/// Why a transition failed.
#[derive(Debug, Clone, Copy, PartialEq, Eq, Structural)]
pub enum PlayerError {
    /// The device could not open, decode or control the source.
    Playback,
    /// The transition is not valid from the current status.
    InvalidState,
}

/// An immutable copy of the engine's state, as handed to observers.
#[derive(Debug, Clone, Copy, PartialEq, Eq, Structural)]
pub struct PlayerSnapshot {
    pub status: PlayerStatus,
    pub track_id: Option<i64>,
    pub position_ms: u64,
    pub duration_ms: u64,
}

/// A state the engine can be in: the position lies in `[0, duration]`, a
/// stopped engine holds no track and stands at 0, any other holds a track.
pub open spec fn valid_state(s: PlayerSnapshot) -> bool {
    &&& s.position_ms <= s.duration_ms
    &&& s.status == PlayerStatus::Stopped ==> s.track_id is None && s.position_ms == 0
    &&& s.status != PlayerStatus::Stopped ==> s.track_id is Some
}

/// The state with nothing loaded.
pub open spec fn stopped_state() -> PlayerSnapshot {
    PlayerSnapshot { status: PlayerStatus::Stopped, track_id: None, position_ms: 0, duration_ms: 0 }
}

/// `play(track)`: playing the new track from 0 once the device has loaded it.
pub open spec fn play_step(s: PlayerSnapshot, track_id: i64, duration_ms: u64, loaded: bool) -> (
    PlayerSnapshot,
    Result<(), PlayerError>,
) {
    if loaded {
        (
            PlayerSnapshot {
                status: PlayerStatus::Playing,
                track_id: Some(track_id),
                position_ms: 0,
                duration_ms,
            },
            Ok(()),
        )
    } else {
        (s, Err(PlayerError::Playback))
    }
}

/// `pause()`: only from Playing; the position is kept.
pub open spec fn pause_step(s: PlayerSnapshot, device_ok: bool) -> (
    PlayerSnapshot,
    Result<(), PlayerError>,
) {
    if s.status != PlayerStatus::Playing {
        (s, Err(PlayerError::InvalidState))
    } else if !device_ok {
        (s, Err(PlayerError::Playback))
    } else {
        (PlayerSnapshot { status: PlayerStatus::Paused, ..s }, Ok(()))
    }
}

/// `resume()`: only from Paused; the position is kept.
pub open spec fn resume_step(s: PlayerSnapshot, device_ok: bool) -> (
    PlayerSnapshot,
    Result<(), PlayerError>,
) {
    if s.status != PlayerStatus::Paused {
        (s, Err(PlayerError::InvalidState))
    } else if !device_ok {
        (s, Err(PlayerError::Playback))
    } else {
        (PlayerSnapshot { status: PlayerStatus::Playing, ..s }, Ok(()))
    }
}

/// A requested position clamped into `[0, duration_ms]`.
pub open spec fn clamp_spec(position_ms: i64, duration_ms: u64) -> u64 {
    if position_ms < 0 {
        0
    } else if position_ms as int > duration_ms as int {
        duration_ms
    } else {
        position_ms as u64
    }
}

/// `seek(position)`: from Playing or Paused, to the clamped position; the
/// status is kept.
pub open spec fn seek_step(s: PlayerSnapshot, position_ms: i64, device_ok: bool) -> (
    PlayerSnapshot,
    Result<(), PlayerError>,
) {
    if s.status == PlayerStatus::Stopped {
        (s, Err(PlayerError::InvalidState))
    } else if !device_ok {
        (s, Err(PlayerError::Playback))
    } else {
        (PlayerSnapshot { position_ms: clamp_spec(position_ms, s.duration_ms), ..s }, Ok(()))
    }
}

/// `renew_state()`: while Playing, takes the device's duration (never below
/// the position reached) and moves the position forward to the device's,
/// within the duration. In any other status nothing changes.
pub open spec fn renew_step(s: PlayerSnapshot, device_position_ms: u64, device_duration_ms: u64) -> PlayerSnapshot {
    if s.status == PlayerStatus::Playing {
        let duration_ms = if device_duration_ms >= s.position_ms {
            device_duration_ms
        } else {
            s.position_ms
        };
        let ahead = if device_position_ms >= s.position_ms {
            device_position_ms
        } else {
            s.position_ms
        };
        let position_ms = if ahead <= duration_ms {
            ahead
        } else {
            duration_ms
        };
        PlayerSnapshot { position_ms, duration_ms, ..s }
    } else {
        s
    }
}

/// Playing a track that the device loads leaves the engine Playing that
/// track from position 0, whatever state it was in.
pub proof fn lemma_play_starts_at_zero(s: PlayerSnapshot, track_id: i64, duration_ms: u64)
    requires
        valid_state(s),
    ensures
        ({
            let (t, r) = play_step(s, track_id, duration_ms, true);
            &&& r is Ok
            &&& t.status == PlayerStatus::Playing
            &&& t.track_id == Some(track_id)
            &&& t.position_ms == 0
            &&& valid_state(t)
        }),
{
}

/// A seek, whatever the requested position's sign or size, leaves the
/// position within `[0, duration]` and the status as it was; an accepted
/// seek to a position inside that range lands exactly there.
pub proof fn lemma_seek_clamps(s: PlayerSnapshot, position_ms: i64, device_ok: bool)
    requires
        valid_state(s),
    ensures
        ({
            let (t, r) = seek_step(s, position_ms, device_ok);
            &&& valid_state(t)
            &&& t.position_ms <= t.duration_ms
            &&& t.duration_ms == s.duration_ms
            &&& t.status == s.status
            &&& (r is Ok && 0 <= position_ms <= s.duration_ms) ==> t.position_ms == position_ms
            &&& (r is Ok && position_ms < 0) ==> t.position_ms == 0
            &&& (r is Ok && position_ms > s.duration_ms) ==> t.position_ms == s.duration_ms
        }),
{
}

/// Pausing twice in a row: once a pause has taken effect, the second call
/// changes nothing and reports an invalid state; from Playing, with the
/// device pausing, the engine ends Paused at the position it had.
pub proof fn lemma_pause_twice(s: PlayerSnapshot, first_ok: bool, second_ok: bool)
    requires
        valid_state(s),
    ensures
        ({
            let (s1, r1) = pause_step(s, first_ok);
            let (s2, r2) = pause_step(s1, second_ok);
            &&& r1 is Ok ==> s2 == s1 && r2 == Err::<(), PlayerError>(PlayerError::InvalidState)
            &&& (s.status == PlayerStatus::Playing && first_ok) ==> {
                &&& r1 is Ok
                &&& s2.status == PlayerStatus::Paused
                &&& s2.position_ms == s.position_ms
                &&& s2.track_id == s.track_id
                &&& r2 == Err::<(), PlayerError>(PlayerError::InvalidState)
            }
        }),
{
}

/// While Playing, a refresh never moves the position back and keeps it
/// within the duration.
pub proof fn lemma_renew_monotone(s: PlayerSnapshot, device_position_ms: u64, device_duration_ms: u64)
    requires
        valid_state(s),
    ensures
        ({
            let t = renew_step(s, device_position_ms, device_duration_ms);
            &&& valid_state(t)
            &&& t.status == s.status
            &&& t.track_id == s.track_id
            &&& t.position_ms >= s.position_ms
            &&& t.position_ms <= t.duration_ms
            &&& s.status != PlayerStatus::Playing ==> t == s
        }),
{
}

/// The player engine.
pub struct PlayerEngine {
    status: PlayerStatus,
    track_id: Option<i64>,
    position_ms: u64,
    duration_ms: u64,
}

impl View for PlayerEngine {
    type V = PlayerSnapshot;

    closed spec fn view(&self) -> PlayerSnapshot {
        PlayerSnapshot {
            status: self.status,
            track_id: self.track_id,
            position_ms: self.position_ms,
            duration_ms: self.duration_ms,
        }
    }
}

impl PlayerEngine {
    pub open spec fn wf(&self) -> bool {
        valid_state(self@)
    }

    /// An engine with nothing loaded.
    pub fn new() -> (r: PlayerEngine)
        ensures
            r.wf(),
            r@ == stopped_state(),
    {
        PlayerEngine { status: PlayerStatus::Stopped, track_id: None, position_ms: 0, duration_ms: 0 }
    }

    fn set(&mut self, s: PlayerSnapshot)
        ensures
            final(self)@ == s,
    {
        self.status = s.status;
        self.track_id = s.track_id;
        self.position_ms = s.position_ms;
        self.duration_ms = s.duration_ms;
    }

    /// The current state.
    pub fn snapshot(&self) -> (r: PlayerSnapshot)
        ensures
            r == self@,
    {
        PlayerSnapshot {
            status: self.status,
            track_id: self.track_id,
            position_ms: self.position_ms,
            duration_ms: self.duration_ms,
        }
    }

    /// Starts `track_id` from position 0; `loaded` is whether the device
    /// opened and decoded its source.
    pub fn play(&mut self, track_id: i64, duration_ms: u64, loaded: bool) -> (r: Result<(), PlayerError>)
        requires
            old(self).wf(),
        ensures
            final(self).wf(),
            (final(self)@, r) == play_step(old(self)@, track_id, duration_ms, loaded),
    {
        if loaded {
            self.set(PlayerSnapshot {
                status: PlayerStatus::Playing,
                track_id: Some(track_id),
                position_ms: 0,
                duration_ms,
            });
            Ok(())
        } else {
            Err(PlayerError::Playback)
        }
    }

    /// Pauses playback; `device_ok` is whether the device suspended output.
    pub fn pause(&mut self, device_ok: bool) -> (r: Result<(), PlayerError>)
        requires
            old(self).wf(),
        ensures
            final(self).wf(),
            (final(self)@, r) == pause_step(old(self)@, device_ok),
    {
        if self.status != PlayerStatus::Playing {
            Err(PlayerError::InvalidState)
        } else if !device_ok {
            Err(PlayerError::Playback)
        } else {
            self.status = PlayerStatus::Paused;
            Ok(())
        }
    }

    /// Resumes playback; `device_ok` is whether the device continued.
    pub fn resume(&mut self, device_ok: bool) -> (r: Result<(), PlayerError>)
        requires
            old(self).wf(),
        ensures
            final(self).wf(),
            (final(self)@, r) == resume_step(old(self)@, device_ok),
    {
        if self.status != PlayerStatus::Paused {
            Err(PlayerError::InvalidState)
        } else if !device_ok {
            Err(PlayerError::Playback)
        } else {
            self.status = PlayerStatus::Playing;
            Ok(())
        }
    }

    /// Where a seek to `position_ms` lands: the position clamped into
    /// `[0, duration]`. The device is sent there.
    pub fn seek_target(&self, position_ms: i64) -> (r: u64)
        ensures
            r == clamp_spec(position_ms, self@.duration_ms),
    {
        if position_ms < 0 {
            0
        } else if position_ms as u64 > self.duration_ms {
            self.duration_ms
        } else {
            position_ms as u64
        }
    }

    /// Moves to `position_ms`, clamped; `device_ok` is whether the device
    /// relocated.
    pub fn seek(&mut self, position_ms: i64, device_ok: bool) -> (r: Result<(), PlayerError>)
        requires
            old(self).wf(),
        ensures
            final(self).wf(),
            (final(self)@, r) == seek_step(old(self)@, position_ms, device_ok),
    {
        if self.status == PlayerStatus::Stopped {
            Err(PlayerError::InvalidState)
        } else if !device_ok {
            Err(PlayerError::Playback)
        } else {
            self.position_ms = self.seek_target(position_ms);
            Ok(())
        }
    }

    /// Stops playback from any status: no track, position 0.
    pub fn stop(&mut self)
        requires
            old(self).wf(),
        ensures
            final(self).wf(),
            final(self)@ == stopped_state(),
            final(self)@.status == PlayerStatus::Stopped,
            final(self)@.track_id is None,
            final(self)@.position_ms == 0,
    {
        self.set(PlayerSnapshot {
            status: PlayerStatus::Stopped,
            track_id: None,
            position_ms: 0,
            duration_ms: 0,
        });
    }

    /// Refreshes the position and duration from the device's readout.
    pub fn renew_state(&mut self, device_position_ms: u64, device_duration_ms: u64)
        requires
            old(self).wf(),
        ensures
            final(self).wf(),
            final(self)@ == renew_step(old(self)@, device_position_ms, device_duration_ms),
    {
        if self.status == PlayerStatus::Playing {
            let duration_ms = if device_duration_ms >= self.position_ms {
                device_duration_ms
            } else {
                self.position_ms
            };
            let ahead = if device_position_ms >= self.position_ms {
                device_position_ms
            } else {
                self.position_ms
            };
            self.position_ms = if ahead <= duration_ms {
                ahead
            } else {
                duration_ms
            };
            self.duration_ms = duration_ms;
        }
    }

    /// One broadcast tick: refreshes from the device and returns the
    /// snapshot to deliver.
    pub fn tick(&mut self, device_position_ms: u64, device_duration_ms: u64) -> (r: PlayerSnapshot)
        requires
            old(self).wf(),
        ensures
            final(self).wf(),
            final(self)@ == renew_step(old(self)@, device_position_ms, device_duration_ms),
            r == final(self)@,
    {
        self.renew_state(device_position_ms, device_duration_ms);
        self.snapshot()
    }
}

} // verus!
