//! What the user has asked the player to do, and how the control requests
//! move between those states.
use vstd::prelude::*;

verus! {

/// The requested state of the player. Track numbers are 1-based.
#[derive(Clone, Copy, Debug, PartialEq, Eq, Structural)]
pub enum Action {
    Play(u8),
    Pause(u8),
    Stop,
}

/// The action after the current track has ended, or after a request to
/// skip forward: the next track is played while one exists
/// (`track + 1 < total_tracks`), otherwise the disc is over.
pub open spec fn advance_spec(a: Action, total_tracks: u8) -> Action {
    match a {
        Action::Play(t) | Action::Pause(t) => {
            if (t as int) + 1 < total_tracks as int {
                Action::Play((t + 1) as u8)
            } else {
                Action::Stop
            }
        },
        Action::Stop => Action::Stop,
    }
}

/// The action after a request to skip backward: track 1 is the floor.
pub open spec fn retreat_spec(a: Action) -> Action {
    match a {
        Action::Play(t) | Action::Pause(t) => {
            if t > 1 {
                Action::Play((t - 1) as u8)
            } else {
                Action::Play(t)
            }
        },
        Action::Stop => Action::Stop,
    }
}

/// The action after a play/pause toggle; a stopped player stays stopped.
pub open spec fn toggle_spec(a: Action) -> Action {
    match a {
        Action::Play(t) => Action::Pause(t),
        Action::Pause(t) => Action::Play(t),
        Action::Stop => Action::Stop,
    }
}

impl Action {
    /// The action that follows this one when the current track ends.
    pub fn advanced(self, total_tracks: u8) -> (r: Action)
        ensures
            r == advance_spec(self, total_tracks),
    {
        match self {
            Action::Play(t) | Action::Pause(t) => {
                if t < total_tracks && t + 1 < total_tracks {
                    Action::Play(t + 1)
                } else {
                    Action::Stop
                }
            },
            Action::Stop => Action::Stop,
        }
    }

    /// The action after skipping back one track.
    pub fn retreated(self) -> (r: Action)
        ensures
            r == retreat_spec(self),
    {
        match self {
            Action::Play(t) | Action::Pause(t) => {
                if t > 1 {
                    Action::Play(t - 1)
                } else {
                    Action::Play(t)
                }
            },
            Action::Stop => Action::Stop,
        }
    }

    /// The action after toggling between playing and paused.
    pub fn toggled(self) -> (r: Action)
        ensures
            r == toggle_spec(self),
    {
        match self {
            Action::Play(t) => Action::Pause(t),
            Action::Pause(t) => Action::Play(t),
            Action::Stop => Action::Stop,
        }
    }

    /// The track this action refers to, if any.
    pub fn track(self) -> (r: Option<u8>)
        ensures
            r == match self {
                Action::Play(t) | Action::Pause(t) => Some(t),
                Action::Stop => None::<u8>,
            },
    {
        match self {
            Action::Play(t) | Action::Pause(t) => Some(t),
            Action::Stop => None,
        }
    }
}

/// Skipping forward never leaves the disc: from any track, the next
/// action plays a track below `total_tracks`, or stops; from the last
/// playable track (`track + 1 >= total_tracks`) it stops.
pub proof fn lemma_advance_bounded(a: Action, total_tracks: u8)
    ensures
        advance_spec(a, total_tracks) matches Action::Play(n) ==> n < total_tracks,
        advance_spec(a, total_tracks) is Pause ==> false,
        a matches Action::Play(t) && t + 1 >= total_tracks ==> advance_spec(a, total_tracks)
            == Action::Stop,
{
}

/// Skipping backward never goes below track 1, and from track 1 stays there.
pub proof fn lemma_retreat_floor(a: Action)
    ensures
        (a matches Action::Play(t) && t >= 1) || (a matches Action::Pause(t) && t >= 1) ==> (
        retreat_spec(a) matches Action::Play(n) && n >= 1),
        a == Action::Play(1) ==> retreat_spec(a) == Action::Play(1),
{
}

} // verus!
