//! The player reactor: one single-threaded owner of the stream graph, the
//! metadata watcher, the segment controller, the notification bus and the
//! session's recording history.  Every decision of the player core is one
//! method here; the unverified shell merely performs the returned pipeline
//! commands and feeds bus messages back in.

use crate::actions::PipelineAction;
use crate::controller::{
    discard_acts, eos_acts, eos_emits, eos_step, interrupt_step, swap_timed_out, title_acts,
    title_step, CapturePhase, CtrlData, SegmentController,
};
use crate::events::{EventBus, Notification, NotificationData};
use crate::graph::{
    stop_announced, stop_step, translated, GraphData, PipelineRunState, PlaybackCommand,
    StreamGraph,
};
use crate::playback_state::{PlaybackData, PlaybackState};
use crate::song::{Song, SongData};
use crate::song_model::{add_evicts, add_step, SongModel, SongModelData};
use crate::watcher::MetadataWatcher;
use vstd::prelude::*;

verus! {

/// How many finished recordings the session keeps before the oldest is
/// evicted and its file deleted.
pub const SONG_HISTORY_LEN: usize = 5;

/// The reason surfaced when a swap's end-of-stream confirmation never
/// arrives and the fallback discard fires.
pub open spec fn swap_timeout_reason() -> Seq<char> {
    "segment swap timed out"@
}

/// A raw message from the pipeline's bus, as the shell extracts it: a
/// metadata tag carrying a title, a run-state report, the writer chain's
/// end-of-stream confirmation, or an element error.
#[derive(Debug)]
pub enum BusMessage {
    Tag(String),
    StateChanged(PipelineRunState),
    WriterEos,
    Error(String),
}

/// A bus message after translation and duplicate suppression: only these
/// reach the orchestration step.
#[derive(Debug)]
pub enum GstreamerMessage {
    SongTitleChanged(String),
    PlaybackStateChanged(PlaybackState),
    RecordingStopped,
}

/// The ghost image of a [`Player`].
pub struct PlayerData {
    pub graph: GraphData,
    pub title: Seq<char>,
    pub ctrl: CtrlData,
    pub bus: Seq<NotificationData>,
    pub songs: SongModelData,
}

/// The player core.
#[derive(Debug)]
pub struct Player {
    graph: StreamGraph,
    watcher: MetadataWatcher,
    controller: SegmentController,
    bus: EventBus,
    songs: SongModel,
}

impl View for Player {
    type V = PlayerData;

    closed spec fn view(&self) -> PlayerData {
        PlayerData {
            graph: self.graph@,
            title: self.watcher@,
            ctrl: self.controller@,
            bus: self.bus@,
            songs: self.songs@,
        }
    }
}

impl Player {
    /// The player's standing invariant.
    pub open spec fn wf(self) -> bool {
        &&& self@.ctrl.wf()
        &&& self@.songs.songs.len() <= self@.songs.max_len
        &&& self@.songs.max_len >= 1
    }

    /// A fresh player that will place capture files under the given
    /// directory.
    pub fn new(capture_dir: String) -> (p: Player)
        ensures
            p.wf(),
            p@.graph.state is Stopped,
            p@.graph.session is None,
            p@.title == Seq::<char>::empty(),
            p@.ctrl.phase is Idle,
            p@.ctrl.dir == capture_dir@,
            p@.bus == Seq::<NotificationData>::empty(),
            p@.songs.songs == Seq::<SongData>::empty(),
    {
        Player {
            graph: StreamGraph::new(),
            watcher: MetadataWatcher::new(),
            controller: SegmentController::new(capture_dir),
            bus: EventBus::new(),
            songs: SongModel::new(SONG_HISTORY_LEN),
        }
    }

    /// Translates one raw bus message.  Tag events pass through the
    /// watcher, so a repeated title yields nothing; run-state reports and
    /// errors pass through the graph, so an unchanged listener-visible
    /// state yields nothing; the writer chain's end-of-stream confirmation
    /// always passes.
    pub fn parse_bus_message(&mut self, raw: BusMessage) -> (m: Option<GstreamerMessage>)
        requires
            old(self).wf(),
        ensures
            final(self).wf(),
            final(self)@.ctrl == old(self)@.ctrl,
            final(self)@.bus == old(self)@.bus,
            final(self)@.songs == old(self)@.songs,
            raw matches BusMessage::Tag(t) ==> ({
                &&& final(self)@.title == t@
                &&& final(self)@.graph == old(self)@.graph
                &&& t@ == old(self)@.title ==> m is None
                &&& t@ != old(self)@.title ==> (m matches Some(
                    GstreamerMessage::SongTitleChanged(nt),
                ) && nt@ == t@)
            }),
            raw matches BusMessage::StateChanged(rs) ==> ({
                &&& final(self)@.title == old(self)@.title
                &&& final(self)@.graph == (GraphData { state: translated(rs), ..old(self)@.graph })
                &&& translated(rs) == old(self)@.graph.state ==> m is None
                &&& translated(rs) != old(self)@.graph.state ==> (m matches Some(
                    GstreamerMessage::PlaybackStateChanged(st),
                ) && st@ == translated(rs))
            }),
            raw is WriterEos ==> final(self)@ == old(self)@ && (m matches Some(g)
                && g is RecordingStopped),
            raw matches BusMessage::Error(e) ==> ({
                &&& final(self)@.title == old(self)@.title
                &&& final(self)@.graph == (GraphData {
                    state: PlaybackData::Failure(e@),
                    ..old(self)@.graph
                })
                &&& old(self)@.graph.state == PlaybackData::Failure(e@) ==> m is None
                &&& old(self)@.graph.state != PlaybackData::Failure(e@) ==> (m matches Some(
                    GstreamerMessage::PlaybackStateChanged(st),
                ) && st@ == PlaybackData::Failure(e@))
            }),
    {
        match raw {
            BusMessage::Tag(t) => {
                let changed = self.watcher.on_tag(t.as_str());
                if changed {
                    Some(GstreamerMessage::SongTitleChanged(t))
                } else {
                    None
                }
            },
            BusMessage::StateChanged(rs) => {
                match self.graph.apply_pipeline_state(rs) {
                    Some(Notification::PlaybackStateChanged(st)) => Some(
                        GstreamerMessage::PlaybackStateChanged(st),
                    ),
                    _ => None,
                }
            },
            BusMessage::WriterEos => Some(GstreamerMessage::RecordingStopped),
            BusMessage::Error(e) => {
                match self.graph.report_error(e) {
                    Some(Notification::PlaybackStateChanged(st)) => Some(
                        GstreamerMessage::PlaybackStateChanged(st),
                    ),
                    _ => None,
                }
            },
        }
    }

    /// Performs one translated message on the orchestration state.
    ///
    /// A title change starts, swaps or re-parks the segment writer; while a
    /// writer was already running, the listener's "now playing" update is
    /// held back until the swap completes, so a `SegmentCompleted` for the
    /// old track always precedes it.  A playback-state change is announced,
    /// and a stop or failure discards the active writer.  The end-of-stream
    /// confirmation finalizes the old writer into a segment, announces it,
    /// keeps it in the history, and only then starts the parked title's
    /// writer and announces that title.
    pub fn process_gst_message(&mut self, msg: GstreamerMessage, now_ms: u64) -> (acts: Vec<
        PipelineAction,
    >)
        requires
            old(self).wf(),
            old(self)@.ctrl.writer matches Some(w) ==> now_ms >= w.created_ms,
        ensures
            final(self).wf(),
            final(self)@.graph == old(self)@.graph,
            final(self)@.title == old(self)@.title,
            msg matches GstreamerMessage::SongTitleChanged(t) ==> ({
                &&& final(self)@.ctrl == title_step(old(self)@.ctrl, t@, now_ms)
                &&& title_acts(old(self)@.ctrl, t@, acts@)
                &&& final(self)@.songs == old(self)@.songs
                &&& old(self)@.ctrl.phase is Idle ==> final(self)@.bus == old(self)@.bus.push(
                    NotificationData::TitleChanged(t@),
                )
                &&& !(old(self)@.ctrl.phase is Idle) ==> final(self)@.bus == old(self)@.bus
            }),
            msg matches GstreamerMessage::PlaybackStateChanged(st) ==> ({
                &&& final(self)@.bus == old(self)@.bus.push(
                    NotificationData::PlaybackStateChanged(st@),
                )
                &&& final(self)@.songs == old(self)@.songs
                &&& st@.interrupts_capture() ==> final(self)@.ctrl == interrupt_step(
                    old(self)@.ctrl,
                ) && discard_acts(old(self)@.ctrl, acts@)
                &&& !st@.interrupts_capture() ==> final(self)@.ctrl == old(self)@.ctrl
                    && acts@.len() == 0
            }),
            msg is RecordingStopped ==> ({
                &&& final(self)@.ctrl == eos_step(old(self)@.ctrl, now_ms)
                &&& !eos_emits(old(self)@.ctrl) ==> final(self)@ == old(self)@ && acts@.len() == 0
                &&& eos_emits(old(self)@.ctrl) ==> ({
                    &&& old(self)@.ctrl.writer matches Some(w)
                    &&& old(self)@.ctrl.pending matches Some(parked)
                    &&& ({
                        let done = SongData {
                            title: w.title,
                            path: w.path,
                            duration_ms: (now_ms - w.created_ms) as u64,
                        };
                        &&& final(self)@.bus == old(self)@.bus.push(
                            NotificationData::SegmentCompleted(done),
                        ).push(NotificationData::TitleChanged(parked))
                        &&& final(self)@.songs == add_step(old(self)@.songs, done)
                        &&& eos_acts(old(self)@.ctrl, now_ms, acts@.take(acts@.len() - (
                        if add_evicts(old(self)@.songs, done) {
                            1int
                        } else {
                            0int
                        })))
                        &&& add_evicts(old(self)@.songs, done) ==> (acts@.last() matches
                        PipelineAction::DeleteFile(p) && p@ == old(self)@.songs.songs.last().path)
                    })
                })
            }),
    {
        match msg {
            GstreamerMessage::SongTitleChanged(t) => {
                let was_idle = matches!(self.controller.phase(), CapturePhase::Idle);
                if was_idle {
                    self.bus.publish(Notification::TitleChanged(t.clone()));
                }
                self.controller.on_title_changed(t.as_str(), now_ms)
            },
            GstreamerMessage::PlaybackStateChanged(st) => {
                let interrupts = st.interrupts_capture();
                self.bus.publish(Notification::PlaybackStateChanged(st));
                if interrupts {
                    self.controller.on_playback_interrupted()
                } else {
                    Vec::new()
                }
            },
            GstreamerMessage::RecordingStopped => {
                let parked: Option<String> = match self.controller.pending_title() {
                    Some(t) => Some(t.clone()),
                    None => None,
                };
                let (song, mut acts) = self.controller.on_eos_confirmed(now_ms);
                match song {
                    Some(s) => {
                        let kept = s.duplicate();
                        self.bus.publish(Notification::SegmentCompleted(s));
                        let parked = match parked {
                            Some(t) => t,
                            None => String::new(),  // unreachable: a swap always parks a title
                        };
                        self.bus.publish(Notification::TitleChanged(parked));
                        let evicted = self.songs.add_song(kept);
                        match evicted {
                            Some(e) => {
                                let ghost before = acts@;
                                acts.push(PipelineAction::DeleteFile(e.path));
                                proof {
                                    assert(acts@.take(acts@.len() - 1) =~= before);
                                }
                            },
                            None => {
                                proof {
                                    assert(acts@.take(acts@.len() - 0) =~= acts@);
                                }
                            },
                        }
                        acts
                    },
                    None => acts,
                }
            },
        }
    }

    /// Carries out a playback command from the user.  A stop is announced
    /// at once — exactly once, even if repeated — and discards whatever was
    /// being recorded; a play request starts the pipeline and waits for the
    /// graph to confirm.
    pub fn set_playback(&mut self, cmd: PlaybackCommand) -> (acts: Vec<PipelineAction>)
        requires
            old(self).wf(),
        ensures
            final(self).wf(),
            final(self)@.title == old(self)@.title,
            final(self)@.songs == old(self)@.songs,
            cmd is Play ==> ({
                &&& final(self)@ == old(self)@
                &&& acts@.len() == 1
                &&& acts@[0] is StartPipeline
            }),
            cmd is Stop ==> ({
                &&& final(self)@.graph == stop_step(old(self)@.graph)
                &&& final(self)@.ctrl == interrupt_step(old(self)@.ctrl)
                &&& stop_announced(old(self)@.graph) ==> final(self)@.bus == old(self)@.bus.push(
                    NotificationData::PlaybackStateChanged(PlaybackData::Stopped),
                )
                &&& !stop_announced(old(self)@.graph) ==> final(self)@.bus == old(self)@.bus
                &&& acts@.len() >= 1
                &&& acts@[0] is StopPipeline
                &&& discard_acts(old(self)@.ctrl, acts@.drop_first())
            }),
    {
        let (mut acts, note) = self.graph.set_playback_state(cmd);
        match note {
            Some(n) => self.bus.publish(n),
            None => {},
        }
        match cmd {
            PlaybackCommand::Stop => {
                let mut tail = self.controller.on_playback_interrupted();
                let ghost discards = tail@;
                acts.append(&mut tail);
                proof {
                    assert(acts@.drop_first() =~= discards);
                }
                acts
            },
            PlaybackCommand::Play => acts,
        }
    }

    /// Opens a session on a resolved stream address: playback is stopped
    /// first — discarding any recording in progress — and the graph is
    /// rebuilt around the new source, entering `Loading`.
    pub fn open_session(&mut self, url: &str) -> (acts: Vec<PipelineAction>)
        requires
            old(self).wf(),
        ensures
            final(self).wf(),
            final(self)@.title == old(self)@.title,
            final(self)@.songs == old(self)@.songs,
            final(self)@.graph == (GraphData {
                state: PlaybackData::Loading,
                session: Some(url@),
                decode_linked: false,
                volume: old(self)@.graph.volume,
            }),
            final(self)@.ctrl == interrupt_step(old(self)@.ctrl),
            stop_announced(old(self)@.graph) ==> final(self)@.bus == old(self)@.bus.push(
                NotificationData::PlaybackStateChanged(PlaybackData::Stopped),
            ),
            !stop_announced(old(self)@.graph) ==> final(self)@.bus == old(self)@.bus,
            acts@.len() >= 4,
            (acts@[acts@.len() - 3] is StopPipeline) && (acts@[acts@.len() - 2] matches
                PipelineAction::SetSourceUri(u) && u@ == url@) && (acts@[acts@.len()
                - 1] is StartPipeline),
            acts@[0] is StopPipeline,
            discard_acts(old(self)@.ctrl, acts@.subrange(1, acts@.len() - 3)),
    {
        let mut acts = self.set_playback(PlaybackCommand::Stop);
        let ghost head = acts@;
        let mut tail = self.graph.open(url);
        acts.append(&mut tail);
        proof {
            assert(acts@.subrange(1, acts@.len() - 3) =~= head.drop_first());
        }
        acts
    }

    /// The station resolver could not produce a playable address: the
    /// session fails with its reason, any recording in progress is
    /// discarded, and nothing is retried.
    pub fn on_resolve_failed(&mut self, reason: String) -> (acts: Vec<PipelineAction>)
        requires
            old(self).wf(),
        ensures
            final(self).wf(),
            final(self)@.title == old(self)@.title,
            final(self)@.songs == old(self)@.songs,
            final(self)@.graph == (GraphData {
                state: PlaybackData::Failure(reason@),
                ..old(self)@.graph
            }),
            final(self)@.ctrl == interrupt_step(old(self)@.ctrl),
            discard_acts(old(self)@.ctrl, acts@),
            old(self)@.graph.state != PlaybackData::Failure(reason@) ==> final(self)@.bus == old(
                self,
            )@.bus.push(NotificationData::PlaybackStateChanged(PlaybackData::Failure(reason@))),
            old(self)@.graph.state == PlaybackData::Failure(reason@) ==> final(self)@.bus == old(
                self,
            )@.bus,
    {
        let note = self.graph.report_error(reason);
        match note {
            Some(n) => self.bus.publish(n),
            None => {},
        }
        self.controller.on_playback_interrupted()
    }

    /// The reactor's periodic heartbeat: when a swap's end-of-stream
    /// confirmation has failed to arrive within the allowance, the swap is
    /// abandoned — forced discard, gate released — and the session is
    /// failed so the listener learns about it.
    pub fn on_tick(&mut self, now_ms: u64) -> (acts: Vec<PipelineAction>)
        requires
            old(self).wf(),
        ensures
            final(self).wf(),
            final(self)@.title == old(self)@.title,
            final(self)@.songs == old(self)@.songs,
            !swap_timed_out(old(self)@.ctrl, now_ms) ==> final(self)@ == old(self)@ && acts@.len()
                == 0,
            swap_timed_out(old(self)@.ctrl, now_ms) ==> ({
                &&& final(self)@.ctrl == interrupt_step(old(self)@.ctrl)
                &&& discard_acts(old(self)@.ctrl, acts@)
                &&& final(self)@.graph == (GraphData {
                    state: PlaybackData::Failure(swap_timeout_reason()),
                    ..old(self)@.graph
                })
                &&& old(self)@.graph.state != PlaybackData::Failure(swap_timeout_reason())
                    ==> final(self)@.bus == old(self)@.bus.push(
                    NotificationData::PlaybackStateChanged(
                        PlaybackData::Failure(swap_timeout_reason()),
                    ),
                )
                &&& old(self)@.graph.state == PlaybackData::Failure(swap_timeout_reason())
                    ==> final(self)@.bus == old(self)@.bus
            }),
    {
        let (expired, acts) = self.controller.on_tick(now_ms);
        if expired {
            let note = self.graph.report_error("segment swap timed out".to_owned());
            match note {
                Some(n) => self.bus.publish(n),
                None => {},
            }
        }
        acts
    }

    /// The shell could not build the writer chain: the controller falls
    /// back to `Idle` without a segment.
    pub fn on_writer_start_failed(&mut self)
        requires
            old(self).wf(),
        ensures
            final(self).wf(),
            final(self)@.graph == old(self)@.graph,
            final(self)@.title == old(self)@.title,
            final(self)@.bus == old(self)@.bus,
            final(self)@.songs == old(self)@.songs,
            old(self)@.ctrl.phase is Writing ==> final(self)@.ctrl == interrupt_step(
                old(self)@.ctrl,
            ),
            !(old(self)@.ctrl.phase is Writing) ==> final(self)@.ctrl == old(self)@.ctrl,
    {
        self.controller.on_writer_start_failed();
    }

    /// Sets the playback branch's volume.
    pub fn set_volume(&mut self, percent: u8) -> (act: PipelineAction)
        requires
            old(self).wf(),
            percent <= 100,
        ensures
            final(self).wf(),
            final(self)@ == (PlayerData {
                graph: GraphData { volume: percent, ..old(self)@.graph },
                ..old(self)@
            }),
            act matches PipelineAction::SetVolume(p) && p == percent,
    {
        self.graph.set_volume(percent)
    }

    /// The decoder announced a new output pad; returns whether the shell
    /// should link it (only the first audio output ever is).
    pub fn on_pad_added(&mut self, audio: bool) -> (link: bool)
        requires
            old(self).wf(),
        ensures
            final(self).wf(),
            link == (audio && !old(self)@.graph.decode_linked),
            final(self)@ == (PlayerData {
                graph: GraphData {
                    decode_linked: old(self)@.graph.decode_linked || audio,
                    ..old(self)@.graph
                },
                ..old(self)@
            }),
    {
        self.graph.on_pad_added(audio)
    }

    /// Ends the session: playback stops, the recording history is emptied,
    /// and every kept capture file is deleted.
    pub fn shutdown(&mut self) -> (acts: Vec<PipelineAction>)
        requires
            old(self).wf(),
        ensures
            final(self).wf(),
            final(self)@.title == old(self)@.title,
            final(self)@.graph == stop_step(old(self)@.graph),
            final(self)@.ctrl == interrupt_step(old(self)@.ctrl),
            final(self)@.songs.songs == Seq::<SongData>::empty(),
            stop_announced(old(self)@.graph) ==> final(self)@.bus == old(self)@.bus.push(
                NotificationData::PlaybackStateChanged(PlaybackData::Stopped),
            ),
            !stop_announced(old(self)@.graph) ==> final(self)@.bus == old(self)@.bus,
            acts@.len() >= 1 + old(self)@.songs.songs.len(),
            acts@[0] is StopPipeline,
            discard_acts(
                old(self)@.ctrl,
                acts@.subrange(1, acts@.len() - old(self)@.songs.songs.len()),
            ),
            forall|i: int|
                0 <= i < old(self)@.songs.songs.len() ==> (#[trigger] acts@[acts@.len() - old(
                    self,
                )@.songs.songs.len() + i] matches PipelineAction::DeleteFile(p) && p@ == old(
                    self,
                )@.songs.songs[i].path),
    {
        let mut acts = self.set_playback(PlaybackCommand::Stop);
        let ghost head = acts@;
        let removed = self.songs.clear();
        let ghost removed_data = removed@.map_values(|s: Song| s@);
        let mut i: usize = 0;
        while i < removed.len()
            invariant
                i <= removed.len(),
                removed@.map_values(|s: Song| s@) == removed_data,
                acts@.len() == head.len() + i,
                acts@.take(head.len() as int) == head,
                forall|j: int|
                    0 <= j < i ==> (#[trigger] acts@[head.len() + j] matches
                        PipelineAction::DeleteFile(p) && p@ == removed_data[j].path),
            decreases removed.len() - i,
        {
            let ghost before = acts@;
            acts.push(PipelineAction::DeleteFile(removed[i].path.clone()));
            proof {
                assert(acts@.take(head.len() as int) =~= before.take(head.len() as int));
            }
            i = i + 1;
        }
        proof {
            assert(acts@.subrange(1, acts@.len() - removed_data.len()) =~= head.drop_first());
            assert(forall|j: int|
                0 <= j < head.len() ==> acts@.take(head.len() as int)[j] == acts@[j]);
        }
        acts
    }

    /// Hands out the oldest undelivered notification, if any.
    pub fn take_notification(&mut self) -> (n: Option<Notification>)
        requires
            old(self).wf(),
        ensures
            final(self).wf(),
            final(self)@ == (PlayerData { bus: final(self)@.bus, ..old(self)@ }),
            old(self)@.bus.len() == 0 ==> n is None && final(self)@.bus == old(self)@.bus,
            old(self)@.bus.len() > 0 ==> (n matches Some(first) && first@ == old(self)@.bus[0]
                && final(self)@.bus == old(self)@.bus.drop_first()),
    {
        self.bus.take_next()
    }

    /// The listener-visible run state.
    pub fn playback_state(&self) -> (s: &PlaybackState)
        ensures
            s@ == self@.graph.state,
    {
        self.graph.playback_state()
    }

    /// The title most recently seen in the stream's metadata.
    pub fn current_title(&self) -> (t: &String)
        ensures
            t@ == self@.title,
    {
        self.watcher.current_title()
    }

    /// Whether a segment writer exists right now.
    pub fn is_recording(&self) -> (b: bool)
        ensures
            b == (self@.ctrl.writer is Some),
    {
        self.controller.is_active()
    }

    /// The controller's phase.
    pub fn capture_phase(&self) -> (p: CapturePhase)
        ensures
            p == self@.ctrl.phase,
    {
        self.controller.phase()
    }

    /// The session's recording history.
    pub fn history(&self) -> (h: &SongModel)
        ensures
            h@ == self@.songs,
    {
        &self.songs
    }
}

/// Stopping playback twice in a row announces exactly one stop.  From a
/// graph that is not already stopped, the first stop changes the state and
/// is announced, and discards any active writer; the second finds the graph
/// stopped and the controller idle, announces nothing, and changes nothing
/// — so no writer is active afterwards either.
pub proof fn lemma_stop_twice(g: GraphData, c: CtrlData)
    requires
        !(g.state is Stopped),
    ensures
        stop_announced(g),
        stop_step(g).state is Stopped,
        !stop_announced(stop_step(g)),
        stop_step(stop_step(g)) == stop_step(g),
        interrupt_step(c).writer is None,
        !interrupt_step(c).gate_held(),
        interrupt_step(interrupt_step(c)) == interrupt_step(c),
{
}

} // verus!
