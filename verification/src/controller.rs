//! The segment controller: the state machine that starts, swaps and
//! discards segment writers in reaction to title changes, end-of-stream
//! confirmations and playback interruptions.

use crate::actions::PipelineAction;
use crate::song::{path_spec, sanitized, song_path, Song};
use crate::writer::{SegmentWriter, WriterData};
use vstd::prelude::*;

verus! {

/// No end-of-stream confirmation is awaited forever: a swap pending longer
/// than this is abandoned on the next tick, with a forced discard.
pub const SWAP_TIMEOUT_MS: u64 = 10000;

/// The resting phases of the controller.  A stop or failure passes through
/// a transient discarding step — the writer chain is torn down and its file
/// deleted within that very transition — so the machine always comes to
/// rest in `Idle` afterwards, never between.
#[derive(Clone, Copy, Debug, PartialEq, Eq, Structural)]
pub enum CapturePhase {
    /// No writer exists.
    Idle,
    /// One writer is recording the current title.
    Writing,
    /// The capture gate is held: the old writer was sent end-of-stream and
    /// its confirmation is awaited; the next title is parked meanwhile.
    Swapping,
}

/// The ghost image of a [`SegmentController`].
pub struct CtrlData {
    pub phase: CapturePhase,
    pub writer: Option<WriterData>,
    pub pending: Option<Seq<char>>,
    pub swap_started_ms: u64,
    pub dir: Seq<char>,
}

impl CtrlData {
    /// What each phase guarantees: `Idle` holds nothing, `Writing` holds
    /// exactly a writer, `Swapping` holds the finalizing writer and the
    /// parked next title.
    pub open spec fn wf(self) -> bool {
        &&& (self.phase is Idle ==> self.writer is None && self.pending is None)
        &&& (self.phase is Writing ==> self.writer is Some && self.pending is None)
        &&& (self.phase is Swapping ==> self.writer is Some && self.pending is Some)
    }

    /// The capture gate exists exactly while a swap is in progress — so at
    /// most one gate is ever outstanding.
    pub open spec fn gate_held(self) -> bool {
        self.phase is Swapping
    }
}

/// Whether a title change arriving in this state starts a writer at once:
/// only from `Idle`, and only when the title leaves a usable file name
/// after sanitization.
pub open spec fn starts_writer(c: CtrlData, title: Seq<char>) -> bool {
    c.phase is Idle && sanitized(title).len() > 0
}

/// The state after a title change.
pub open spec fn title_step(c: CtrlData, title: Seq<char>, now_ms: u64) -> CtrlData {
    match c.phase {
        CapturePhase::Idle => if sanitized(title).len() > 0 {
            CtrlData {
                phase: CapturePhase::Writing,
                writer: Some(
                    WriterData {
                        title: title,
                        path: path_spec(c.dir, title),
                        created_ms: now_ms,
                    },
                ),
                ..c
            }
        } else {
            c
        },
        CapturePhase::Writing => CtrlData {
            phase: CapturePhase::Swapping,
            pending: Some(title),
            swap_started_ms: now_ms,
            ..c
        },
        CapturePhase::Swapping => CtrlData { pending: Some(title), ..c },
    }
}

/// Whether an end-of-stream confirmation in this state produces a finished
/// segment: only while a swap is awaiting exactly that.
pub open spec fn eos_emits(c: CtrlData) -> bool {
    c.phase is Swapping
}

/// The state after an end-of-stream confirmation: the old writer is gone,
/// and the parked title — if it sanitizes to a usable name — owns a fresh
/// writer.
pub open spec fn eos_step(c: CtrlData, now_ms: u64) -> CtrlData {
    if c.phase is Swapping {
        let parked = match c.pending {
            Some(t) => t,
            None => Seq::empty(),
        };
        if sanitized(parked).len() > 0 {
            CtrlData {
                phase: CapturePhase::Writing,
                writer: Some(
                    WriterData {
                        title: parked,
                        path: path_spec(c.dir, parked),
                        created_ms: now_ms,
                    },
                ),
                pending: None,
                ..c
            }
        } else {
            CtrlData { phase: CapturePhase::Idle, writer: None, pending: None, ..c }
        }
    } else {
        c
    }
}

/// The state after a stop or failure: whatever was in progress is
/// discarded, any held capture gate released, and the controller is idle.
pub open spec fn interrupt_step(c: CtrlData) -> CtrlData {
    CtrlData { phase: CapturePhase::Idle, writer: None, pending: None, ..c }
}

/// Whether a swap begun at `swap_started_ms` has outlived its allowance at
/// time `now_ms`.
pub open spec fn swap_timed_out(c: CtrlData, now_ms: u64) -> bool {
    c.phase is Swapping && now_ms >= c.swap_started_ms + SWAP_TIMEOUT_MS
}

/// The commands a title change in state `c` hands to the pipeline shell.
pub open spec fn title_acts(c: CtrlData, title: Seq<char>, acts: Seq<PipelineAction>) -> bool {
    &&& starts_writer(c, title) ==> ({
        &&& acts.len() == 1
        &&& acts[0] matches PipelineAction::CreateWriterChain(p)
        &&& p@ == path_spec(c.dir, title)
    })
    &&& c.phase is Idle && !starts_writer(c, title) ==> acts.len() == 0
    &&& c.phase is Writing ==> acts.len() == 2 && acts[0] is BlockCaptureGate
        && acts[1] is InjectWriterEos
    &&& c.phase is Swapping ==> acts.len() == 0
}

/// The commands an end-of-stream confirmation in state `c` hands to the
/// pipeline shell.
pub open spec fn eos_acts(c: CtrlData, now_ms: u64, acts: Seq<PipelineAction>) -> bool {
    &&& !eos_emits(c) ==> acts.len() == 0
    &&& eos_emits(c) && eos_step(c, now_ms).phase is Writing ==> ({
        &&& acts.len() == 3
        &&& acts[0] is TeardownWriterChain
        &&& acts[1] matches PipelineAction::CreateWriterChain(p)
        &&& eos_step(c, now_ms).writer matches Some(nw)
        &&& p@ == nw.path
        &&& acts[2] is ReleaseCaptureGate
    })
    &&& eos_emits(c) && eos_step(c, now_ms).phase is Idle ==> acts.len() == 2
        && acts[0] is TeardownWriterChain && acts[1] is ReleaseCaptureGate
}

/// The commands a discard in state `c` hands to the pipeline shell: the
/// active writer's file is deleted and its chain torn down, and a held gate
/// is released.
pub open spec fn discard_acts(c: CtrlData, acts: Seq<PipelineAction>) -> bool {
    &&& c.phase is Idle ==> acts.len() == 0
    &&& c.phase is Writing ==> ({
        &&& acts.len() == 2
        &&& acts[0] matches PipelineAction::DeleteFile(p)
        &&& c.writer matches Some(w)
        &&& p@ == w.path
        &&& acts[1] is TeardownWriterChain
    })
    &&& c.phase is Swapping ==> ({
        &&& acts.len() == 3
        &&& acts[0] matches PipelineAction::DeleteFile(p)
        &&& c.writer matches Some(w)
        &&& p@ == w.path
        &&& acts[1] is TeardownWriterChain
        &&& acts[2] is ReleaseCaptureGate
    })
}

/// Orchestrates segment boundaries.  All its decisions are taken on the
/// single-threaded reactor, so no step ever observes another half done.
#[derive(Debug)]
pub struct SegmentController {
    phase: CapturePhase,
    writer: Option<SegmentWriter>,
    pending: Option<String>,
    swap_started_ms: u64,
    dir: String,
}

impl View for SegmentController {
    type V = CtrlData;

    closed spec fn view(&self) -> CtrlData {
        CtrlData {
            phase: self.phase,
            writer: match self.writer {
                Some(w) => Some(w@),
                None => None,
            },
            pending: match self.pending {
                Some(t) => Some(t@),
                None => None,
            },
            swap_started_ms: self.swap_started_ms,
            dir: self.dir@,
        }
    }
}

impl SegmentController {
    /// An idle controller that will place capture files under the given
    /// directory.
    pub fn new(capture_dir: String) -> (c: SegmentController)
        ensures
            c@ == (CtrlData {
                phase: CapturePhase::Idle,
                writer: None,
                pending: None,
                swap_started_ms: 0u64,
                dir: capture_dir@,
            }),
            c@.wf(),
    {
        SegmentController {
            phase: CapturePhase::Idle,
            writer: None,
            pending: None,
            swap_started_ms: 0,
            dir: capture_dir,
        }
    }

    /// A real title change arrived.  From `Idle` a writer starts at once —
    /// nothing needs protecting.  From `Writing` the capture branch is
    /// gated and end-of-stream is injected into the current writer alone;
    /// the new title is parked until the confirmation comes back.  During a
    /// swap the parked title is merely replaced: the latest change wins,
    /// intermediate ones are dropped.
    pub fn on_title_changed(&mut self, title: &str, now_ms: u64) -> (acts: Vec<PipelineAction>)
        requires
            old(self)@.wf(),
        ensures
            final(self)@ == title_step(old(self)@, title@, now_ms),
            final(self)@.wf(),
            title_acts(old(self)@, title@, acts@),
    {
        let mut acts: Vec<PipelineAction> = Vec::new();
        match self.phase {
            CapturePhase::Idle => {
                let clean = Song::simplify_title(title.to_owned());
                if !clean.as_str().is_empty() {
                    let path = song_path(self.dir.as_str(), title);
                    acts.push(PipelineAction::CreateWriterChain(path.clone()));
                    self.writer = Some(SegmentWriter::start(title.to_owned(), path, now_ms));
                    self.phase = CapturePhase::Writing;
                }
            },
            CapturePhase::Writing => {
                acts.push(PipelineAction::BlockCaptureGate);
                acts.push(PipelineAction::InjectWriterEos);
                self.pending = Some(title.to_owned());
                self.swap_started_ms = now_ms;
                self.phase = CapturePhase::Swapping;
            },
            CapturePhase::Swapping => {
                self.pending = Some(title.to_owned());
            },
        }
        acts
    }

    /// The muxer confirmed the injected end-of-stream: the old writer's
    /// file is complete.  The old writer is finalized into a segment, its
    /// chain is torn down, a fresh writer starts for the parked title if
    /// that title is usable, and only then is the capture gate released.
    /// A confirmation arriving outside a swap changes nothing.
    pub fn on_eos_confirmed(&mut self, now_ms: u64) -> (r: (Option<Song>, Vec<PipelineAction>))
        requires
            old(self)@.wf(),
            old(self)@.writer matches Some(w) ==> now_ms >= w.created_ms,
        ensures
            final(self)@ == eos_step(old(self)@, now_ms),
            final(self)@.wf(),
            !eos_emits(old(self)@) ==> r.0 is None && r.1@.len() == 0,
            eos_emits(old(self)@) ==> ({
                &&& r.0 matches Some(song)
                &&& old(self)@.writer matches Some(w)
                &&& song@.title == w.title
                &&& song@.path == w.path
                &&& song@.duration_ms == now_ms - w.created_ms
            }),
            eos_acts(old(self)@, now_ms, r.1@),
    {
        let mut acts: Vec<PipelineAction> = Vec::new();
        match self.phase {
            CapturePhase::Swapping => {
                let old_writer = self.writer.take();
                let song = match old_writer {
                    Some(w) => w.finalize(now_ms),
                    None => Song::new("", String::new(), 0),  // unreachable: wf holds
                };
                acts.push(PipelineAction::TeardownWriterChain);
                let parked = self.pending.take();
                let parked = match parked {
                    Some(t) => t,
                    None => String::new(),  // unreachable: wf holds
                };
                let clean = Song::simplify_title(parked.clone());
                if !clean.as_str().is_empty() {
                    let path = song_path(self.dir.as_str(), parked.as_str());
                    acts.push(PipelineAction::CreateWriterChain(path.clone()));
                    self.writer = Some(SegmentWriter::start(parked, path, now_ms));
                    self.phase = CapturePhase::Writing;
                } else {
                    self.phase = CapturePhase::Idle;
                }
                acts.push(PipelineAction::ReleaseCaptureGate);
                (Some(song), acts)
            },
            _ => (None, acts),
        }
    }

    /// Playback stopped or failed: whatever is being recorded is suspect,
    /// so the active writer — swapping or not — is discarded.  Its file is
    /// deleted, its chain torn down, any held gate released, and the
    /// controller is idle again.  No segment is produced.
    pub fn on_playback_interrupted(&mut self) -> (acts: Vec<PipelineAction>)
        requires
            old(self)@.wf(),
        ensures
            final(self)@ == interrupt_step(old(self)@),
            final(self)@.wf(),
            discard_acts(old(self)@, acts@),
    {
        let mut acts: Vec<PipelineAction> = Vec::new();
        let held = matches!(self.phase, CapturePhase::Swapping);
        let writer = self.writer.take();
        match writer {
            Some(w) => {
                acts.push(PipelineAction::DeleteFile(w.discard()));
                acts.push(PipelineAction::TeardownWriterChain);
            },
            None => {},
        }
        if held {
            acts.push(PipelineAction::ReleaseCaptureGate);
        }
        self.pending = None;
        self.phase = CapturePhase::Idle;
        acts
    }

    /// The shell could not build the writer chain (the destination's parent
    /// directory was not creatable): the writer just started is dropped and
    /// the controller falls back to `Idle`, without a segment.  In any
    /// other phase the call changes nothing.
    pub fn on_writer_start_failed(&mut self)
        requires
            old(self)@.wf(),
        ensures
            old(self)@.phase is Writing ==> final(self)@ == interrupt_step(old(self)@),
            !(old(self)@.phase is Writing) ==> final(self)@ == old(self)@,
            final(self)@.wf(),
    {
        match self.phase {
            CapturePhase::Writing => {
                self.writer = None;
                self.pending = None;
                self.phase = CapturePhase::Idle;
            },
            _ => {},
        }
    }

    /// The reactor's periodic heartbeat.  A swap whose confirmation has not
    /// arrived within [`SWAP_TIMEOUT_MS`] is abandoned: forced discard,
    /// gate released, idle again.  The flag reports that this fallback
    /// fired, so the caller can surface a failure.
    pub fn on_tick(&mut self, now_ms: u64) -> (r: (bool, Vec<PipelineAction>))
        requires
            old(self)@.wf(),
        ensures
            r.0 == swap_timed_out(old(self)@, now_ms),
            final(self)@.wf(),
            r.0 ==> final(self)@ == interrupt_step(old(self)@) && discard_acts(old(self)@, r.1@),
            !r.0 ==> final(self)@ == old(self)@ && r.1@.len() == 0,
    {
        let expired = matches!(self.phase, CapturePhase::Swapping) && now_ms
            >= self.swap_started_ms && now_ms - self.swap_started_ms >= SWAP_TIMEOUT_MS;
        if expired {
            let acts = self.on_playback_interrupted();
            (true, acts)
        } else {
            (false, Vec::new())
        }
    }

    /// The current phase.
    pub fn phase(&self) -> (p: CapturePhase)
        ensures
            p == self@.phase,
    {
        self.phase
    }

    /// Whether a writer exists — recording or finalizing.
    pub fn is_active(&self) -> (b: bool)
        ensures
            b == (self@.writer is Some),
    {
        self.writer.is_some()
    }

    /// Whether the capture gate is currently held.
    pub fn gate_held(&self) -> (b: bool)
        ensures
            b == self@.gate_held(),
    {
        matches!(self.phase, CapturePhase::Swapping)
    }

    /// The destination file of the active writer, if one exists.
    pub fn active_path(&self) -> (p: Option<&String>)
        ensures
            self@.writer matches Some(w) ==> (p matches Some(q) && q@ == w.path),
            self@.writer is None ==> p is None,
    {
        match &self.writer {
            Some(w) => Some(w.path()),
            None => None,
        }
    }

    /// The title parked for after the current swap, if any.
    pub fn pending_title(&self) -> (t: Option<&String>)
        ensures
            self@.pending matches Some(s) ==> (t matches Some(q) && q@ == s),
            self@.pending is None ==> t is None,
    {
        match &self.pending {
            Some(s) => Some(s),
            None => None,
        }
    }
}

/// One event of a capture session, for stating the counting and ordering
/// laws of whole runs.
pub enum CaptureEvent {
    /// A real title change, at the given reactor time.
    Title(Seq<char>, u64),
    /// The muxer's end-of-stream confirmation, at the given reactor time.
    EosConfirmed(u64),
    /// Playback stopped or failed.
    Interrupted,
}

/// The controller state after one event.
pub open spec fn capture_step(c: CtrlData, ev: CaptureEvent) -> CtrlData {
    match ev {
        CaptureEvent::Title(t, now) => title_step(c, t, now),
        CaptureEvent::EosConfirmed(now) => eos_step(c, now),
        CaptureEvent::Interrupted => interrupt_step(c),
    }
}

/// Whether this event, in this state, emits a finished segment.
pub open spec fn step_completes(c: CtrlData, ev: CaptureEvent) -> bool {
    ev is EosConfirmed && eos_emits(c)
}

/// Whether this event, in this state, begins a segment boundary: a title
/// change arriving while a writer is recording.
pub open spec fn step_begins(c: CtrlData, ev: CaptureEvent) -> bool {
    ev is Title && c.phase is Writing
}

/// Whether this event, in this state, aborts a swap in flight: a stop or
/// failure while the old writer was still finalizing.
pub open spec fn step_aborts(c: CtrlData, ev: CaptureEvent) -> bool {
    ev is Interrupted && c.phase is Swapping
}

/// The bookkeeping of a whole run: where it ends, how many segments it
/// emitted, how many boundaries it began, and how many swaps were aborted
/// by a stop or failure.
pub struct RunTally {
    pub state: CtrlData,
    pub completed: nat,
    pub begun: nat,
    pub aborted: nat,
}

/// Runs a sequence of events and counts what happened.
pub open spec fn capture_run(c: CtrlData, evs: Seq<CaptureEvent>) -> RunTally
    decreases evs.len(),
{
    if evs.len() == 0 {
        RunTally { state: c, completed: 0, begun: 0, aborted: 0 }
    } else {
        let rest = capture_run(capture_step(c, evs[0]), evs.drop_first());
        RunTally {
            state: rest.state,
            completed: rest.completed + if step_completes(c, evs[0]) {
                1nat
            } else {
                0nat
            },
            begun: rest.begun + if step_begins(c, evs[0]) {
                1nat
            } else {
                0nat
            },
            aborted: rest.aborted + if step_aborts(c, evs[0]) {
                1nat
            } else {
                0nat
            },
        }
    }
}

/// Every event preserves the controller's well-formedness.
pub proof fn lemma_step_wf(c: CtrlData, ev: CaptureEvent)
    requires
        c.wf(),
    ensures
        capture_step(c, ev).wf(),
{
}

/// A swap in flight is one segment still owed.
pub open spec fn in_flight(c: CtrlData) -> nat {
    if c.phase is Swapping {
        1nat
    } else {
        0nat
    }
}

/// For every well-formed start and every event sequence, the number of
/// finished segments equals the number of title boundaries begun, minus the
/// swaps aborted by a stop or failure, minus the one swap still in flight
/// at the end (counting one owed at the start, if the run begins
/// mid-swap).  In particular, no run ever completes more segments than it
/// began.
pub proof fn lemma_segment_count(c: CtrlData, evs: Seq<CaptureEvent>)
    requires
        c.wf(),
    ensures
        ({
            let r = capture_run(c, evs);
            &&& r.state.wf()
            &&& r.completed + r.aborted + in_flight(r.state) == r.begun + in_flight(c)
        }),
    decreases evs.len(),
{
    if evs.len() > 0 {
        lemma_step_wf(c, evs[0]);
        lemma_segment_count(capture_step(c, evs[0]), evs.drop_first());
    }
}

/// The events of a run in which each title change is promptly confirmed:
/// title, confirmation, title, confirmation, and so on.
pub open spec fn confirmed_titles(titles: Seq<Seq<char>>, now: u64) -> Seq<CaptureEvent>
    decreases titles.len(),
{
    if titles.len() == 0 {
        Seq::empty()
    } else {
        seq![CaptureEvent::Title(titles[0], now), CaptureEvent::EosConfirmed(now)]
            + confirmed_titles(titles.drop_first(), now)
    }
}

/// Every title in the run leaves a usable file name after sanitization.
pub open spec fn all_usable(titles: Seq<Seq<char>>) -> bool {
    forall|i: int| 0 <= i < titles.len() ==> sanitized(#[trigger] titles[i]).len() > 0
}

proof fn lemma_confirmed_from_writing(c: CtrlData, titles: Seq<Seq<char>>, now: u64)
    requires
        c.wf(),
        c.phase is Writing,
        all_usable(titles),
    ensures
        ({
            let r = capture_run(c, confirmed_titles(titles, now));
            &&& r.completed == titles.len()
            &&& r.aborted == 0
            &&& r.state.phase is Writing
        }),
    decreases titles.len(),
{
    if titles.len() > 0 {
        let evs = confirmed_titles(titles, now);
        let first = CaptureEvent::Title(titles[0], now);
        let second = CaptureEvent::EosConfirmed(now);
        let rest = confirmed_titles(titles.drop_first(), now);
        let tail = evs.drop_first();
        assert(evs[0] == first);
        assert(tail =~= seq![second] + rest);
        assert(tail[0] == second);
        assert(tail.drop_first() =~= rest);
        assert(sanitized(titles[0]).len() > 0);
        let swapping = title_step(c, titles[0], now);
        let resumed = eos_step(swapping, now);
        assert(swapping.phase is Swapping);
        assert(resumed.phase is Writing && resumed.wf());
        assert forall|i: int| 0 <= i < titles.drop_first().len() implies sanitized(
            #[trigger] titles.drop_first()[i],
        ).len() > 0 by {
            assert(titles.drop_first()[i] == titles[i + 1]);
        }
        lemma_confirmed_from_writing(resumed, titles.drop_first(), now);
        let after_rest = capture_run(resumed, rest);
        assert(capture_step(swapping, second) == resumed);
        assert(capture_run(swapping, tail) == (RunTally {
            state: after_rest.state,
            completed: after_rest.completed + 1,
            begun: after_rest.begun,
            aborted: after_rest.aborted,
        }));
        assert(capture_step(c, first) == swapping);
        assert(capture_run(c, evs) == (RunTally {
            state: after_rest.state,
            completed: after_rest.completed + 1,
            begun: after_rest.begun + 1,
            aborted: after_rest.aborted,
        }));
    }
}

/// For every session that starts idle and sees one or more title changes,
/// each leaving a usable name and each confirmed before the next, the
/// number of finished segments is exactly the number of title changes
/// minus one: every title but the last yields its segment when the next
/// title closes it, and the last is still recording at the end.
pub proof fn lemma_confirmed_run_count(c: CtrlData, titles: Seq<Seq<char>>, now: u64)
    requires
        c.wf(),
        c.phase is Idle,
        titles.len() >= 1,
        all_usable(titles),
    ensures
        ({
            let r = capture_run(c, confirmed_titles(titles, now));
            &&& r.completed == titles.len() - 1
            &&& r.aborted == 0
            &&& r.state.phase is Writing
        }),
{
    let evs = confirmed_titles(titles, now);
    let first = CaptureEvent::Title(titles[0], now);
    let second = CaptureEvent::EosConfirmed(now);
    let rest = confirmed_titles(titles.drop_first(), now);
    let tail = evs.drop_first();
    assert(evs[0] == first);
    assert(tail =~= seq![second] + rest);
    assert(tail[0] == second);
    assert(tail.drop_first() =~= rest);
    assert(sanitized(titles[0]).len() > 0);
    let writing = title_step(c, titles[0], now);
    assert(writing.phase is Writing && writing.wf());
    assert(eos_step(writing, now) == writing);
    assert forall|i: int| 0 <= i < titles.drop_first().len() implies sanitized(
        #[trigger] titles.drop_first()[i],
    ).len() > 0 by {
        assert(titles.drop_first()[i] == titles[i + 1]);
    }
    lemma_confirmed_from_writing(writing, titles.drop_first(), now);
    let after_rest = capture_run(writing, rest);
    assert(capture_step(writing, second) == writing);
    assert(!step_completes(writing, second));
    assert(capture_run(writing, tail) == after_rest);
    assert(capture_step(c, first) == writing);
    assert(!step_begins(c, first));
    assert(capture_run(c, evs) == after_rest);
}

/// A stop or failure during a swap aborts it: the controller is idle
/// again, holds neither writer nor gate nor parked title, and no segment
/// was or will be emitted for the aborted boundary.
pub proof fn lemma_abort_loses_swap(c: CtrlData)
    requires
        c.wf(),
        c.phase is Swapping,
    ensures
        step_aborts(c, CaptureEvent::Interrupted),
        !step_completes(c, CaptureEvent::Interrupted),
        interrupt_step(c).phase is Idle,
        interrupt_step(c).writer is None,
        !interrupt_step(c).gate_held(),
        interrupt_step(c).pending is None,
{
}

} // verus!
