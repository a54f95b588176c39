//! The stream graph: one live media pipeline per session, its run state, and
//! the translation of raw pipeline reports into listener-visible playback
//! states.

use crate::actions::PipelineAction;
use crate::events::{Notification, NotificationData};
use crate::playback_state::{PlaybackData, PlaybackState};
use vstd::prelude::*;

verus! {

/// The run state the media framework reports for the pipeline.
#[derive(Clone, Copy, Debug, PartialEq, Eq, Structural)]
pub enum PipelineRunState {
    Null,
    Ready,
    Paused,
    Playing,
}

/// What a caller may ask of playback; everything else the graph does on its
/// own.
#[derive(Clone, Copy, Debug, PartialEq, Eq, Structural)]
pub enum PlaybackCommand {
    Play,
    Stop,
}

/// The ghost image of a [`StreamGraph`].
pub struct GraphData {
    pub state: PlaybackData,
    pub session: Option<Seq<char>>,
    pub decode_linked: bool,
    pub volume: u8,
}

/// How a raw pipeline state reads to a listener: an active pipeline is
/// playing, one still negotiating is loading, a dormant one is stopped.
pub open spec fn translated(raw: PipelineRunState) -> PlaybackData {
    match raw {
        PipelineRunState::Playing => PlaybackData::Playing,
        PipelineRunState::Paused => PlaybackData::Loading,
        PipelineRunState::Ready => PlaybackData::Loading,
        PipelineRunState::Null => PlaybackData::Stopped,
    }
}

/// A stop leaves every part of the graph as it was, except that the run
/// state becomes `Stopped`.
pub open spec fn stop_step(g: GraphData) -> GraphData {
    GraphData { state: PlaybackData::Stopped, ..g }
}

/// A stop is announced only when it changes something: stopping an already
/// stopped graph raises no second notification.
pub open spec fn stop_announced(g: GraphData) -> bool {
    !(g.state is Stopped)
}

/// The model of the live pipeline: its listener-visible run state, whether a
/// session is open, whether the decoder's audio output has been linked yet,
/// and the playback volume.  The audio data itself never passes through
/// here; the shell drives the real pipeline with the commands this type
/// hands out.
#[derive(Debug)]
pub struct StreamGraph {
    state: PlaybackState,
    session_url: Option<String>,
    decode_linked: bool,
    volume: u8,
}

impl View for StreamGraph {
    type V = GraphData;

    closed spec fn view(&self) -> GraphData {
        GraphData {
            state: self.state@,
            session: match self.session_url {
                Some(url) => Some(url@),
                None => None,
            },
            decode_linked: self.decode_linked,
            volume: self.volume,
        }
    }
}

impl StreamGraph {
    /// A graph with no session: stopped, nothing linked, full volume.
    pub fn new() -> (g: StreamGraph)
        ensures
            g@ == (GraphData {
                state: PlaybackData::Stopped,
                session: None,
                decode_linked: false,
                volume: 100u8,
            }),
    {
        StreamGraph {
            state: PlaybackState::Stopped,
            session_url: None,
            decode_linked: false,
            volume: 100,
        }
    }

    /// Opens a session on a new source address.  Any earlier session is torn
    /// down first, the decoder's output is waiting to be discovered again,
    /// and the graph re-enters `Loading` until the pipeline reports
    /// otherwise.
    pub fn open(&mut self, url: &str) -> (acts: Vec<PipelineAction>)
        ensures
            final(self)@ == (GraphData {
                state: PlaybackData::Loading,
                session: Some(url@),
                decode_linked: false,
                volume: old(self)@.volume,
            }),
            acts@.len() == 3,
            acts@[0] is StopPipeline,
            acts@[1] matches PipelineAction::SetSourceUri(u) && u@ == url@,
            acts@[2] is StartPipeline,
    {
        self.state = PlaybackState::Loading;
        self.session_url = Some(url.to_owned());
        self.decode_linked = false;
        let mut acts: Vec<PipelineAction> = Vec::new();
        acts.push(PipelineAction::StopPipeline);
        acts.push(PipelineAction::SetSourceUri(url.to_owned()));
        acts.push(PipelineAction::StartPipeline);
        acts
    }

    /// Carries out a playback command.  A stop takes effect synchronously
    /// and is announced at once — but only if the graph was not already
    /// stopped, so repeating the command raises nothing further.  A play
    /// request only starts the pipeline; the `Playing` state arrives
    /// asynchronously as a pipeline report.
    pub fn set_playback_state(&mut self, cmd: PlaybackCommand) -> (r: (
        Vec<PipelineAction>,
        Option<Notification>,
    ))
        ensures
            cmd is Play ==> final(self)@ == old(self)@ && r.1 is None && r.0@.len() == 1
                && r.0@[0] is StartPipeline,
            cmd is Stop ==> final(self)@ == stop_step(old(self)@) && r.0@.len() == 1
                && r.0@[0] is StopPipeline,
            cmd is Stop && stop_announced(old(self)@) ==> (r.1 matches Some(n) && n@
                == NotificationData::PlaybackStateChanged(PlaybackData::Stopped)),
            cmd is Stop && !stop_announced(old(self)@) ==> r.1 is None,
    {
        let mut acts: Vec<PipelineAction> = Vec::new();
        match cmd {
            PlaybackCommand::Play => {
                acts.push(PipelineAction::StartPipeline);
                (acts, None)
            },
            PlaybackCommand::Stop => {
                acts.push(PipelineAction::StopPipeline);
                let announced = !(self.state == PlaybackState::Stopped);
                self.state = PlaybackState::Stopped;
                if announced {
                    (acts, Some(Notification::PlaybackStateChanged(PlaybackState::Stopped)))
                } else {
                    (acts, None)
                }
            },
        }
    }

    /// The decoder announced a new output.  Only the first audio-typed
    /// output is linked into the rest of the graph; video outputs, and any
    /// audio output after the first, are ignored.
    pub fn on_pad_added(&mut self, audio: bool) -> (link: bool)
        ensures
            link == (audio && !old(self)@.decode_linked),
            final(self)@ == (GraphData {
                decode_linked: old(self)@.decode_linked || audio,
                ..old(self)@
            }),
    {
        let link = audio && !self.decode_linked;
        if link {
            self.decode_linked = true;
        }
        link
    }

    /// Takes a run-state report from the pipeline.  The translated state
    /// replaces the current one, and a notification is raised exactly when
    /// the listener-visible state really changed.
    pub fn apply_pipeline_state(&mut self, raw: PipelineRunState) -> (note: Option<Notification>)
        ensures
            final(self)@ == (GraphData { state: translated(raw), ..old(self)@ }),
            translated(raw) == old(self)@.state ==> note is None,
            translated(raw) != old(self)@.state ==> (note matches Some(n) && n@
                == NotificationData::PlaybackStateChanged(translated(raw))),
    {
        let incoming = match raw {
            PipelineRunState::Playing => PlaybackState::Playing,
            PipelineRunState::Paused => PlaybackState::Loading,
            PipelineRunState::Ready => PlaybackState::Loading,
            PipelineRunState::Null => PlaybackState::Stopped,
        };
        let changed = !(incoming == self.state);
        let announced = incoming.duplicate();
        self.state = incoming;
        if changed {
            Some(Notification::PlaybackStateChanged(announced))
        } else {
            None
        }
    }

    /// An element of the pipeline failed.  The graph enters `Failure` with
    /// the reason and does not retry on its own; the same failure is not
    /// announced twice.
    pub fn report_error(&mut self, reason: String) -> (note: Option<Notification>)
        ensures
            final(self)@ == (GraphData {
                state: PlaybackData::Failure(reason@),
                ..old(self)@
            }),
            old(self)@.state == PlaybackData::Failure(reason@) ==> note is None,
            old(self)@.state != PlaybackData::Failure(reason@) ==> (note matches Some(n) && n@
                == NotificationData::PlaybackStateChanged(PlaybackData::Failure(reason@))),
    {
        let incoming = PlaybackState::Failure(reason);
        let changed = !(incoming == self.state);
        let announced = incoming.duplicate();
        self.state = incoming;
        if changed {
            Some(Notification::PlaybackStateChanged(announced))
        } else {
            None
        }
    }

    /// Sets the playback branch's volume; capture fidelity is untouched.
    pub fn set_volume(&mut self, percent: u8) -> (act: PipelineAction)
        requires
            percent <= 100,
        ensures
            final(self)@ == (GraphData { volume: percent, ..old(self)@ }),
            act matches PipelineAction::SetVolume(p) && p == percent,
    {
        self.volume = percent;
        PipelineAction::SetVolume(percent)
    }

    /// The current listener-visible run state.
    pub fn playback_state(&self) -> (s: &PlaybackState)
        ensures
            s@ == self@.state,
    {
        &self.state
    }

    /// Whether a session is open.
    pub fn has_session(&self) -> (b: bool)
        ensures
            b == (self@.session is Some),
    {
        self.session_url.is_some()
    }

    /// The open session's source address, if one is open.
    pub fn session_url(&self) -> (u: Option<&String>)
        ensures
            self@.session matches Some(url) ==> (u matches Some(r) && r@ == url),
            self@.session is None ==> u is None,
    {
        match &self.session_url {
            Some(url) => Some(url),
            None => None,
        }
    }

    /// Whether the decoder's audio output has been linked already.
    pub fn decode_linked(&self) -> (b: bool)
        ensures
            b == self@.decode_linked,
    {
        self.decode_linked
    }

    /// The playback branch's volume, in percent.
    pub fn volume(&self) -> (v: u8)
        ensures
            v == self@.volume,
    {
        self.volume
    }
}

} // verus!
