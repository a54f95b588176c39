//! The playback state of the whole stream graph, as listeners see it.

use vstd::prelude::*;

verus! {

/// The ghost image of a [`PlaybackState`], with the failure reason as a
/// character sequence.
pub enum PlaybackData {
    Playing,
    Stopped,
    Loading,
    Failure(Seq<char>),
}

/// The run state of the stream graph.  `Failure` is sticky: the graph does
/// not retry on its own, a new session must be opened.
#[derive(Debug)]
pub enum PlaybackState {
    Playing,
    Stopped,
    Loading,
    Failure(String),
}

impl View for PlaybackState {
    type V = PlaybackData;

    open spec fn view(&self) -> PlaybackData {
        match self {
            PlaybackState::Playing => PlaybackData::Playing,
            PlaybackState::Stopped => PlaybackData::Stopped,
            PlaybackState::Loading => PlaybackData::Loading,
            PlaybackState::Failure(reason) => PlaybackData::Failure(reason@),
        }
    }
}

impl PlaybackData {
    /// States on which an in-progress recording cannot be trusted any more:
    /// the segment being written is discarded, never finalized.
    pub open spec fn interrupts_capture(self) -> bool {
        self is Stopped || self is Failure
    }
}

impl PlaybackState {
    /// An exact copy.
    pub fn duplicate(&self) -> (r: PlaybackState)
        ensures
            r@ == self@,
    {
        match self {
            PlaybackState::Playing => PlaybackState::Playing,
            PlaybackState::Stopped => PlaybackState::Stopped,
            PlaybackState::Loading => PlaybackState::Loading,
            PlaybackState::Failure(reason) => PlaybackState::Failure(reason.clone()),
        }
    }

    /// Whether this state makes the controller discard an active writer.
    pub fn interrupts_capture(&self) -> (r: bool)
        ensures
            r == self@.interrupts_capture(),
    {
        match self {
            PlaybackState::Stopped => true,
            PlaybackState::Failure(_) => true,
            _ => false,
        }
    }
}

impl PartialEq for PlaybackState {
    fn eq(&self, other: &PlaybackState) -> (r: bool) {
        match (self, other) {
            (PlaybackState::Playing, PlaybackState::Playing) => true,
            (PlaybackState::Stopped, PlaybackState::Stopped) => true,
            (PlaybackState::Loading, PlaybackState::Loading) => true,
            (PlaybackState::Failure(a), PlaybackState::Failure(b)) => *a == *b,
            _ => false,
        }
    }
}

impl vstd::std_specs::cmp::PartialEqSpecImpl for PlaybackState {
    open spec fn obeys_eq_spec() -> bool {
        true
    }

    open spec fn eq_spec(&self, other: &PlaybackState) -> bool {
        self@ == other@
    }
}

} // verus!
