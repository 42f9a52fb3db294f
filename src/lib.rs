//! Coordination core of a CD player that extracts audio tracks while
//! playing them: the shared control state, the look-ahead track cache of
//! the extraction worker, the per-track extraction buffers and the
//! decisions of the playback worker.
use vstd::prelude::*;

pub mod action;
pub mod error;
pub mod playback;
pub mod reader;
pub mod song;
pub mod state;
pub mod wav;

verus! {

} // verus!
