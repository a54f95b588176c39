//! Commands from the player core to the unverified media pipeline.

use vstd::prelude::*;

verus! {

/// One instruction to the shell that drives the real media pipeline.  The
/// core never touches the pipeline itself: it decides, and hands out these
/// commands in the order they must be performed.
#[derive(Debug)]
pub enum PipelineAction {
    /// Put the whole pipeline into its dormant state.
    StopPipeline,
    /// Start (or resume) the whole pipeline.
    StartPipeline,
    /// Point the source element at a new stream address.
    SetSourceUri(String),
    /// Set the playback branch's volume, in percent; the capture branch is
    /// not affected.
    SetVolume(u8),
    /// Block dataflow on the capture branch, playback keeps running.
    BlockCaptureGate,
    /// Send a synthetic end-of-stream into the active writer chain only.
    InjectWriterEos,
    /// Let capture dataflow run again.
    ReleaseCaptureGate,
    /// Build an encoder, muxer and file sink for the given destination path
    /// and attach them to the capture branch.
    CreateWriterChain(String),
    /// Detach and dispose of the current writer chain.
    TeardownWriterChain,
    /// Delete the file at the given path; a file already gone is no error.
    DeleteFile(String),
}

} // verus!
