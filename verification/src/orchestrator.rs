//! The playback orchestrator's decisions: how a queue of tracks is sequenced,
//! when the sink is prefilled and started, when the previous session must be
//! flushed before the converter is reinitialized, and how a recoverable reset
//! is distinguished from a normal track end and from a fatal error.
//!
//! The loop that owns files, decoders and the output device performs these
//! decisions; everything it needs to decide is here, on plain values.

use crate::source::DecoderError;
use vstd::prelude::*;

verus! {

/// What the playback loop must do after one decode step.
#[derive(Clone, Copy, Debug, PartialEq, Eq, Structural)]
pub enum PlayerStep {
    /// The converter holds a fresh block: write it and decode again.
    Continue,
    /// The track ended normally: open the track at this queue position.
    OpenTrack { index: usize },
    /// Recoverable reset: rebuild the decode source for the same track and
    /// resume it from its start, without touching the queue position.
    ReopenTrack { index: usize },
    /// The queue is exhausted: playback ends.
    Finished,
    /// A fatal decode failure: abort the whole playback session.
    Abort,
}

/// What the playback loop must do when a track has been opened, before its
/// steady-state loop runs.
#[derive(Clone, Copy, Debug, PartialEq, Eq, Structural)]
pub struct TrackSetup {
    /// Only for the very first setup: prefill the sink with blocks while it
    /// reports space, then start it.
    pub prefill_and_start: bool,
    /// Flush the previous session into the sink (blocking) before the
    /// converter is reinitialized, so its trailing audio is not lost.
    pub flush_before_init: bool,
}

/// The orchestrator cursor: which source of the queue is active and whether
/// the pipeline has been initialized at least once.
pub struct Orchestrator {
    n_tracks: usize,
    current: usize,
    initialized: bool,
}

impl Orchestrator {
    pub closed spec fn spec_tracks(&self) -> int {
        self.n_tracks as int
    }

    pub closed spec fn spec_current(&self) -> int {
        self.current as int
    }

    /// True once the sink has been sized, prefilled and started.
    pub closed spec fn spec_initialized(&self) -> bool {
        self.initialized
    }

    pub open spec fn well_formed(&self) -> bool {
        0 <= self.spec_current() <= self.spec_tracks()
    }

    pub fn new(n_tracks: usize) -> (o: Self)
        ensures
            o.well_formed(),
            o.spec_tracks() == n_tracks,
            o.spec_current() == 0,
            !o.spec_initialized(),
    {
        Orchestrator { n_tracks, current: 0, initialized: false }
    }

    /// The queue position to open next, while any is left.
    pub fn current_track(&self) -> (r: Option<usize>)
        requires
            self.well_formed(),
        ensures
            self.spec_current() < self.spec_tracks() ==> r == Some(self.spec_current() as usize),
            self.spec_current() == self.spec_tracks() ==> r is None,
    {
        if self.current < self.n_tracks {
            Some(self.current)
        } else {
            None
        }
    }

    /// Decides the setup for a freshly opened track: the very first one sizes,
    /// prefills and starts the sink; every later boundary flushes the previous
    /// session first exactly when the new source's rate differs from the
    /// converter's last input rate.
    pub fn on_track_ready(&mut self, source_rate: usize, converter_in_rate: usize) -> (s:
        TrackSetup)
        requires
            old(self).well_formed(),
        ensures
            final(self).well_formed(),
            final(self).spec_tracks() == old(self).spec_tracks(),
            final(self).spec_current() == old(self).spec_current(),
            final(self).spec_initialized(),
            s.prefill_and_start == !old(self).spec_initialized(),
            s.flush_before_init == (old(self).spec_initialized() && source_rate
                != converter_in_rate),
    {
        let s = TrackSetup {
            prefill_and_start: !self.initialized,
            flush_before_init: self.initialized && source_rate != converter_in_rate,
        };
        self.initialized = true;
        s
    }

    /// Decides from one decode outcome: fresh data continues the loop; a
    /// normal end of stream advances the queue or finishes it; a recoverable
    /// reset reopens the same track without advancing the queue and without
    /// re-running prefill or start; any other failure aborts.
    pub fn on_decode_result(&mut self, r: &Result<Option<()>, DecoderError>) -> (step: PlayerStep)
        requires
            old(self).well_formed(),
            old(self).spec_current() < old(self).spec_tracks(),
        ensures
            final(self).well_formed(),
            final(self).spec_tracks() == old(self).spec_tracks(),
            final(self).spec_initialized() == old(self).spec_initialized(),
            r == Ok::<Option<()>, DecoderError>(Some(())) ==> step == PlayerStep::Continue
                && final(self).spec_current() == old(self).spec_current(),
            r == Ok::<Option<()>, DecoderError>(None) ==> {
                &&& final(self).spec_current() == old(self).spec_current() + 1
                &&& (old(self).spec_current() + 1 < old(self).spec_tracks() ==> step
                    == (PlayerStep::OpenTrack { index: (old(self).spec_current() + 1) as usize }))
                &&& (old(self).spec_current() + 1 == old(self).spec_tracks() ==> step
                    == PlayerStep::Finished)
            },
            r == Err::<Option<()>, DecoderError>(DecoderError::ResetRequired) ==> step == (
            PlayerStep::ReopenTrack { index: old(self).spec_current() as usize }) && final(self).spec_current() == old(self).spec_current(),
            (r matches Err(e) && e != DecoderError::ResetRequired) ==> step == PlayerStep::Abort
                && final(self).spec_current() == old(self).spec_current(),
    {
        match r {
            Ok(Some(_)) => PlayerStep::Continue,
            Ok(None) => {
                self.current = self.current + 1;
                if self.current < self.n_tracks {
                    PlayerStep::OpenTrack { index: self.current }
                } else {
                    PlayerStep::Finished
                }
            }
            Err(DecoderError::ResetRequired) => PlayerStep::ReopenTrack { index: self.current },
            Err(_) => PlayerStep::Abort,
        }
    }
}

} // verus!
