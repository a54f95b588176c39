//! The bookkeeping of one segment writer: which track it records, into which
//! file, and since when.

use crate::song::{Song, SongData};
use vstd::prelude::*;

verus! {

/// The ghost image of a [`SegmentWriter`].
pub struct WriterData {
    pub title: Seq<char>,
    pub path: Seq<char>,
    pub created_ms: u64,
}

/// One active capture: the shell keeps an encoder→muxer→file-sink chain
/// alive for it, this type keeps what the chain cannot say — the track
/// title, the destination path, and the creation time from which the
/// segment's duration is later computed.
///
/// Exactly one writer is ever active at a time; the controller enforces
/// that.
#[derive(Debug)]
pub struct SegmentWriter {
    title: String,
    path: String,
    created_ms: u64,
}

impl View for SegmentWriter {
    type V = WriterData;

    closed spec fn view(&self) -> WriterData {
        WriterData { title: self.title@, path: self.path@, created_ms: self.created_ms }
    }
}

impl SegmentWriter {
    /// Starts recording the given title into the given file, from now on.
    pub fn start(title: String, path: String, now_ms: u64) -> (w: SegmentWriter)
        ensures
            w@ == (WriterData { title: title@, path: path@, created_ms: now_ms }),
    {
        SegmentWriter { title, path, created_ms: now_ms }
    }

    /// Closes the writer cleanly after the muxer confirmed end-of-stream.
    /// The finished segment's duration is exactly the time from creation to
    /// confirmation — never negative, since the reactor's clock does not run
    /// backwards.
    pub fn finalize(self, now_ms: u64) -> (s: Song)
        requires
            now_ms >= self@.created_ms,
        ensures
            s@.title == self@.title,
            s@.path == self@.path,
            s@.duration_ms == now_ms - self@.created_ms,
    {
        let duration_ms = now_ms - self.created_ms;
        Song { title: self.title, path: self.path, duration_ms }
    }

    /// Abandons the writer: no segment is produced, and the caller must
    /// delete the file at the returned path.
    pub fn discard(self) -> (p: String)
        ensures
            p@ == self@.path,
    {
        self.path
    }

    /// The destination file this writer owns.
    pub fn path(&self) -> (p: &String)
        ensures
            p@ == self@.path,
    {
        &self.path
    }

    /// The title being recorded.
    pub fn title(&self) -> (t: &String)
        ensures
            t@ == self@.title,
    {
        &self.title
    }

    /// When this writer was created, in reactor-clock milliseconds.
    pub fn created_ms(&self) -> (t: u64)
        ensures
            t == self@.created_ms,
    {
        self.created_ms
    }
}

} // verus!
