//! The playback worker's decisions: what to do for the requested action,
//! when enough of a track buffer is there to start decoding, and whether a
//! finished pass moves on to the next track.
use vstd::prelude::*;
use crate::action::{advance_spec, Action};
use crate::song::BURST_SECTORS;
use crate::wav::{HEADER_LEN, SECTOR_BYTES};

verus! {

/// Where the playback worker goes for the requested action.
#[derive(Clone, Copy, Debug, PartialEq, Eq, Structural)]
pub enum PlaybackStep {
    /// The player stopped: the worker ends.
    Exit,
    /// The player is paused: the worker blocks until the action changes.
    Wait,
    /// Play the given track.
    Play(u8),
}

/// What a play pass does after looking at the change flag and the stream.
#[derive(Clone, Copy, Debug, PartialEq, Eq, Structural)]
pub enum PassEvent {
    /// Decode and render the packet at hand.
    Decode,
    /// The stream has no more packets: the track ended by itself. A decode
    /// error counts as such an end too.
    Finished,
    /// The action changed: stop without moving on.
    Interrupted,
}

/// Sample bytes of one extraction burst.
pub const BURST_BYTES: u32 = 122304;

pub open spec fn step_spec(a: Action) -> PlaybackStep {
    match a {
        Action::Play(t) => PlaybackStep::Play(t),
        Action::Pause(_) => PlaybackStep::Wait,
        Action::Stop => PlaybackStep::Exit,
    }
}

/// The bytes that must be in a track's file before decoding starts: the
/// header and one burst of samples, or the whole track if it is shorter.
pub open spec fn ready_len(declared: nat) -> nat {
    HEADER_LEN as nat + if declared < BURST_BYTES as nat {
        declared
    } else {
        BURST_BYTES as nat
    }
}

/// The playback worker's move for the requested action.
pub fn playback_step(action: Action) -> (r: PlaybackStep)
    ensures
        r == step_spec(action),
{
    match action {
        Action::Play(t) => PlaybackStep::Play(t),
        Action::Pause(_) => PlaybackStep::Wait,
        Action::Stop => PlaybackStep::Exit,
    }
}

/// Whether a track file of `file_len` bytes, whose header declares
/// `declared` bytes of samples, holds enough to start decoding.
pub fn ready_to_decode(file_len: u64, declared: u32) -> (r: bool)
    ensures
        r == (file_len >= ready_len(declared as nat)),
{
    assert(BURST_BYTES == BURST_SECTORS * SECTOR_BYTES);
    let wanted: u64 = if declared < BURST_BYTES {
        declared as u64
    } else {
        BURST_BYTES as u64
    };
    file_len >= HEADER_LEN as u64 + wanted
}

/// The next event of a play pass. A change of action is looked at first,
/// so that nothing more is rendered once one is pending.
pub fn pass_event(changed: bool, packet_ready: bool) -> (r: PassEvent)
    ensures
        changed ==> r == PassEvent::Interrupted,
        !changed && !packet_ready ==> r == PassEvent::Finished,
        !changed && packet_ready ==> r == PassEvent::Decode,
{
    if changed {
        PassEvent::Interrupted
    } else if packet_ready {
        PassEvent::Decode
    } else {
        PassEvent::Finished
    }
}

/// Whether a play pass moves on to the next track: only a track that
/// ended by itself, with no change of action pending.
pub fn should_advance(finished: bool, changed: bool) -> (r: bool)
    ensures
        r == (finished && !changed),
{
    finished && !changed
}

/// Whether the buffer of `track` must be opened for a play pass, given the
/// track whose buffer is open, if any: only when it is another one, so that
/// resuming a paused track goes on from where it stopped.
pub fn needs_open(open: Option<u8>, track: u8) -> (r: bool)
    ensures
        r == (open != Some(track)),
{
    match open {
        Some(t) => t != track,
        None => true,
    }
}

/// A pass over the last playable track that ends by itself, with no change
/// pending, advances the action to `Stop`, and the playback worker then
/// exits rather than playing a track past the end of the disc.
pub proof fn lemma_last_track_end_exits(t: u8, total_tracks: u8)
    requires
        t + 1 >= total_tracks,
    ensures
        step_spec(advance_spec(Action::Play(t), total_tracks)) == PlaybackStep::Exit,
{
}

} // verus!
