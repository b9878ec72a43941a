//! The playback state store and its control surface.
//!
//! The store is a single plain value holding the playing flag and the
//! reference timestamp (in milliseconds of some monotonic clock supplied by
//! the caller).  Because every mutation goes through `set_playing`, which
//! updates both fields in one exclusive access, a query can only ever observe
//! a flag and a timestamp written by the same command — never a torn
//! combination.

use vstd::prelude::*;
use crate::text::{spec_playing_message, spec_stopped_message, playing_message, stopped_message};

verus! {

/// What an elapsed-time query reports: either the fixed stopped response or
/// the whole seconds elapsed since playback started.
#[derive(Debug, PartialEq, Eq, Structural, Clone, Copy)]
pub enum PlaybackStatus {
    Stopped,
    Playing(u64),
}

/// The lock-protected playback state: the reference timestamp is reset to
/// "now" on every stopped-to-playing command; the flag reflects the latest
/// commanded state.
#[derive(Debug, PartialEq, Eq, Structural, Clone, Copy)]
pub struct PlaybackState {
    pub reference_ms: u64,
    pub playing: bool,
}

/// The state after a play/stop command at instant `now_ms`: the flag becomes
/// the requested value; the reference timestamp is reset to `now_ms` exactly
/// when play was requested, and kept otherwise.
pub open spec fn spec_set_playing(s: PlaybackState, requested: bool, now_ms: u64) -> PlaybackState {
    PlaybackState {
        playing: requested,
        reference_ms: if requested {
            now_ms
        } else {
            s.reference_ms
        },
    }
}

/// Whole seconds elapsed from the reference timestamp to `now_ms`; zero when
/// the clock reads earlier than the reference.
pub open spec fn spec_elapsed_secs(s: PlaybackState, now_ms: u64) -> int {
    if now_ms >= s.reference_ms {
        (now_ms - s.reference_ms) / 1000
    } else {
        0
    }
}

/// What a query at instant `now_ms` observes.
pub open spec fn spec_query(s: PlaybackState, now_ms: u64) -> PlaybackStatus {
    if s.playing {
        PlaybackStatus::Playing(spec_elapsed_secs(s, now_ms) as u64)
    } else {
        PlaybackStatus::Stopped
    }
}

/// The status text for an observation.
pub open spec fn spec_status_message(st: PlaybackStatus) -> Seq<char> {
    match st {
        PlaybackStatus::Stopped => spec_stopped_message(),
        PlaybackStatus::Playing(secs) => spec_playing_message(secs as nat),
    }
}

impl PlaybackState {
    /// A fresh store: not playing, with the store's initialization instant as
    /// the default reference, so a query before any command is well defined.
    pub fn new(now_ms: u64) -> (s: Self)
        ensures
            s == (PlaybackState { reference_ms: now_ms, playing: false }),
    {
        PlaybackState { reference_ms: now_ms, playing: false }
    }

    /// Applies a play/stop command at instant `now_ms`.  Both fields are
    /// updated together, so no observer can see the new flag with the old
    /// generation's timestamp or the other way round.
    pub fn set_playing(&mut self, requested: bool, now_ms: u64)
        ensures
            *final(self) == spec_set_playing(*old(self), requested, now_ms),
    {
        if requested {
            self.reference_ms = now_ms;
        }
        self.playing = requested;
    }

    /// Reports the elapsed whole seconds at instant `now_ms` when playing,
    /// or the stopped status otherwise.  Total: it never fails, whatever the
    /// clock reads and whether or not any command came before.
    pub fn query_elapsed(&self, now_ms: u64) -> (r: PlaybackStatus)
        ensures
            r == spec_query(*self, now_ms),
    {
        if self.playing {
            let secs: u64 = if now_ms >= self.reference_ms {
                (now_ms - self.reference_ms) / 1000
            } else {
                0
            };
            PlaybackStatus::Playing(secs)
        } else {
            PlaybackStatus::Stopped
        }
    }

    /// The human-readable status at instant `now_ms`: the fixed stopped text,
    /// or the playing phrase with the elapsed whole seconds.
    pub fn current_message(&self, now_ms: u64) -> (r: String)
        ensures
            r@ == spec_status_message(spec_query(*self, now_ms)),
    {
        match self.query_elapsed(now_ms) {
            PlaybackStatus::Stopped => stopped_message(),
            PlaybackStatus::Playing(secs) => playing_message(secs),
        }
    }
}

/// Starting playback resets the elapsed count: a query at the same instant
/// observes zero elapsed seconds, and a query at least a full second later
/// observes at least one.
pub proof fn lemma_play_resets_elapsed(s: PlaybackState, t: u64, t2: u64)
    requires
        t <= t2,
    ensures
        spec_query(spec_set_playing(s, true, t), t) == PlaybackStatus::Playing(0u64),
        t2 - t >= 1000 ==> (spec_query(spec_set_playing(s, true, t), t2) matches
            PlaybackStatus::Playing(secs) && secs >= 1),
{
    let after = spec_set_playing(s, true, t);
    assert(spec_elapsed_secs(after, t) == 0);
    if t2 - t >= 1000 {
        assert((t2 - t) / 1000 >= 1);
    }
}

/// Stopping at any point makes every later query observe the fixed stopped
/// status, regardless of the elapsed time accumulated before.
pub proof fn lemma_stop_is_absorbing(s: PlaybackState, t: u64, t2: u64)
    ensures
        spec_query(spec_set_playing(s, false, t), t2) == PlaybackStatus::Stopped,
{
}

/// A query never observes a torn state: after any command, the flag it sees
/// and the reference timestamp its elapsed count is measured from both come
/// from that one command — the flag is exactly the requested value and the
/// timestamp is the command's instant when play was requested, the untouched
/// previous reference otherwise.
pub proof fn lemma_no_torn_observation(s: PlaybackState, requested: bool, t: u64)
    ensures
        spec_set_playing(s, requested, t).playing == requested,
        spec_set_playing(s, requested, t).reference_ms == (if requested {
            t
        } else {
            s.reference_ms
        }),
{
}

} // verus!
