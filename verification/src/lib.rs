//! Core of an internet-radio player that records the live stream to disk as
//! one file per track, splitting segments when the stream's metadata announces
//! a new title.
//!
//! The media pipeline itself (decoding, encoding, audio output, the file
//! sink) is driven by an unverified shell around this crate.  Everything that
//! decides — which title changes are real, when a segment writer is started,
//! finalized or discarded, how destination file names are derived, which
//! notifications listeners receive and in what order — lives here, as
//! verified functions over plain values.

pub mod actions;
pub mod controller;
pub mod events;
pub mod graph;
pub mod playback_state;
pub mod player;
pub mod song;
pub mod song_model;
pub mod watcher;
pub mod writer;

use vstd::prelude::*;

verus! {

} // verus!
