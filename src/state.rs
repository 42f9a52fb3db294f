//! The control state shared by the extraction worker, the playback worker
//! and the control surface: the requested action, the change flag that
//! interrupts work in progress, and the wake channel of idle workers.
use vstd::prelude::*;
use std::sync::{Arc, RwLock};
use flume::{Receiver, Sender};
use crate::action::{advance_spec, retreat_spec, toggle_spec, Action};

verus! {

#[verifier::external_type_specification]
#[verifier::external_body]
#[verifier::reject_recursive_types(T)]
pub struct ExSender<T>(Sender<T>);

#[verifier::external_type_specification]
#[verifier::external_body]
#[verifier::reject_recursive_types(T)]
pub struct ExReceiver<T>(Receiver<T>);

#[verifier::external_type_specification]
#[verifier::external_body]
#[verifier::reject_recursive_types(T)]
pub struct ExRwLock<T: ?Sized>(RwLock<T>);

/// Relies on flume::Receiver::recv, which blocks until a message arrives
/// or every sender is gone.
#[verifier::external_body]
fn await_wake(rx: &Receiver<()>) {
    let _ = rx.recv();
}

/// Relies on flume::Receiver's Clone: a second handle on the same channel.
#[verifier::external_body]
fn clone_receiver(rx: &Receiver<()>) -> Receiver<()> {
    rx.clone()
}

/// Relies on std's RwLock::new: a lock around the given value.
#[verifier::external_body]
fn new_flag(value: bool) -> RwLock<bool> {
    RwLock::new(value)
}

/// A request from the control surface.
#[derive(Clone, Copy, Debug, PartialEq, Eq, Structural)]
pub enum Request {
    TogglePlay,
    NextTrack,
    PreviousTrack,
    SeekForward,
    SeekBackward,
    Idle,
    Quit,
}

/// The request bound to a key of the player's window, given the character
/// it types, if it types exactly one.
pub open spec fn key_request_spec(key: Option<char>) -> Request {
    match key {
        Some(' ') => Request::TogglePlay,
        Some('<') => Request::PreviousTrack,
        Some('>') => Request::NextTrack,
        Some('q') => Request::Quit,
        _ => Request::Idle,
    }
}

impl Request {
    /// The request for a key press: space toggles play and pause, `<` and
    /// `>` skip back and forward, `q` quits; other keys do nothing.
    pub fn from_key(key: Option<char>) -> (r: Request)
        ensures
            r == key_request_spec(key),
    {
        match key {
            Some(' ') => Request::TogglePlay,
            Some('<') => Request::PreviousTrack,
            Some('>') => Request::NextTrack,
            Some('q') => Request::Quit,
            _ => Request::Idle,
        }
    }
}

/// The action after `req` while `a` was requested on a disc of
/// `total_tracks` tracks. Seeking within a track is not supported, and
/// quitting is left to the caller: both leave the action as it is.
pub open spec fn request_spec(a: Action, total_tracks: u8, req: Request) -> Action {
    match req {
        Request::TogglePlay => toggle_spec(a),
        Request::NextTrack => advance_spec(a, total_tracks),
        Request::PreviousTrack => retreat_spec(a),
        _ => a,
    }
}

/// Whether `req` issues a change of action while `a` is requested: a
/// toggle, or a skip, while a track is selected.
pub open spec fn request_issues_change(a: Action, req: Request) -> bool {
    !(a is Stop) && (req is TogglePlay || req is NextTrack || req is PreviousTrack)
}

/// The control state. Callers hold it under one exclusive lock;
/// `state_changed` is shared on its own so that a busy worker can check it
/// without that lock.
pub struct PlayerState {
    /// The requested action.
    pub action: Action,
    /// Raised by every change of `action`; lowered by the extraction
    /// worker when it takes the action in.
    pub state_changed: Arc<RwLock<bool>>,
    /// Number of tracks on the disc; 0 until its table has been read.
    pub total_tracks: u8,
    /// Sending end of the wake channel.
    pub changed: Sender<()>,
    /// Receiving end of the wake channel.
    pub wait_change: Receiver<()>,
    /// The value last stored in `state_changed`. Every store goes through
    /// this state, under its lock.
    pub flag: Ghost<bool>,
    /// Number of wakes posted so far. How many are still pending is not
    /// known here: workers take them without the lock.
    pub wakes_posted: Ghost<nat>,
}

impl PlayerState {
    /// The shared flag and the wake channel are those of `o`.
    pub open spec fn same_channels(self, o: PlayerState) -> bool {
        &&& self.state_changed == o.state_changed
        &&& self.changed == o.changed
        &&& self.wait_change == o.wait_change
    }

    /// Every field but the change flag and the wake count is as in `o`.
    pub open spec fn same_control(self, o: PlayerState) -> bool {
        &&& self.action == o.action
        &&& self.total_tracks == o.total_tracks
        &&& self.same_channels(o)
    }

    /// A control state that requests track 1, on a disc whose track count
    /// is not known yet, with the change flag lowered and no wake posted.
    /// `tx` and `rx` are the two ends of the wake channel, bounded to one
    /// pending wake per worker.
    pub fn new(tx: Sender<()>, rx: Receiver<()>) -> (r: Self)
        ensures
            r.action == Action::Play(1),
            r.total_tracks == 0,
            r.flag@ == false,
            r.wakes_posted@ == 0,
    {
        PlayerState {
            action: Action::Play(1),
            state_changed: Arc::new(new_flag(false)),
            total_tracks: 0,
            changed: tx,
            wait_change: rx,
            flag: Ghost(false),
            wakes_posted: Ghost(0),
        }
    }

    /// Relies on std's RwLock::write: the flag is stored while the write
    /// lock is held, and nothing else of the state changes. A lock poisoned
    /// by a panicking holder still holds a valid bool.
    #[verifier::external_body]
    fn set_flag(&mut self, value: bool)
        ensures
            final(self).same_control(*old(self)),
            final(self).flag@ == value,
            final(self).wakes_posted == old(self).wakes_posted,
    {
        match self.state_changed.write() {
            Ok(mut g) => *g = value,
            Err(p) => *p.into_inner() = value,
        }
    }

    /// Relies on flume::Sender::try_send, which never blocks: when the
    /// channel is full a wake is already pending, and the refused message
    /// is dropped. Nothing else of the state changes.
    #[verifier::external_body]
    fn post_wake(&mut self)
        ensures
            final(self).same_control(*old(self)),
            final(self).flag == old(self).flag,
            final(self).wakes_posted@ == old(self).wakes_posted@ + 1,
    {
        let _ = self.changed.try_send(());
    }

    /// A handle on the wake channel, to wait on once the lock on the
    /// control state is released.
    pub fn wake_receiver(&self) -> Receiver<()> {
        clone_receiver(&self.wait_change)
    }

    /// Blocks until a wake arrives. A wake carries no news: the caller
    /// looks at `action` again afterwards, and may find it unchanged.
    pub fn wait_for_change(wake: &Receiver<()>) {
        await_wake(wake);
    }

    /// Requests `action`: raises the change flag and posts a wake for each
    /// of the two workers. Never fails; a full channel means the workers
    /// have a wake pending already.
    pub fn change_action(&mut self, action: Action)
        ensures
            final(self).action == action,
            final(self).total_tracks == old(self).total_tracks,
            final(self).flag@ == true,
            final(self).wakes_posted@ == old(self).wakes_posted@ + 2,
            final(self).same_channels(*old(self)),
    {
        self.action = action;
        self.set_flag(true);
        self.post_wake();
        self.post_wake();
    }

    /// Takes the requested action for a new pass of the extraction worker
    /// and lowers the change flag.
    pub fn snapshot(&mut self) -> (r: Action)
        ensures
            r == old(self).action,
            final(self).same_control(*old(self)),
            final(self).flag@ == false,
            final(self).wakes_posted == old(self).wakes_posted,
    {
        self.set_flag(false);
        self.action
    }

    /// Skips to the next track, or stops at the end of the disc, raising
    /// the change flag and posting two wakes. Nothing at all happens while
    /// stopped.
    pub fn next_track(&mut self)
        ensures
            final(self).action == advance_spec(old(self).action, old(self).total_tracks),
            final(self).total_tracks == old(self).total_tracks,
            final(self).same_channels(*old(self)),
            old(self).action is Stop ==> *final(self) == *old(self),
            !(old(self).action is Stop) ==> final(self).flag@ == true
                && final(self).wakes_posted@ == old(self).wakes_posted@ + 2,
    {
        match self.action {
            Action::Play(_) | Action::Pause(_) => {
                let next = self.action.advanced(self.total_tracks);
                self.change_action(next);
            },
            Action::Stop => {},
        }
    }

    /// Skips back one track, raising the change flag and posting two
    /// wakes; track 1 stays on track 1. Nothing at all happens while
    /// stopped.
    pub fn prev_track(&mut self)
        ensures
            final(self).action == retreat_spec(old(self).action),
            final(self).total_tracks == old(self).total_tracks,
            final(self).same_channels(*old(self)),
            old(self).action is Stop ==> *final(self) == *old(self),
            !(old(self).action is Stop) ==> final(self).flag@ == true
                && final(self).wakes_posted@ == old(self).wakes_posted@ + 2,
    {
        match self.action {
            Action::Play(_) | Action::Pause(_) => {
                let prev = self.action.retreated();
                self.change_action(prev);
            },
            Action::Stop => {},
        }
    }

    /// Carries out a request of the control surface. A request that
    /// changes the action raises the change flag and posts two wakes; any
    /// other leaves the whole state as it is.
    pub fn handle_request(&mut self, req: Request)
        ensures
            final(self).action == request_spec(old(self).action, old(self).total_tracks, req),
            final(self).total_tracks == old(self).total_tracks,
            final(self).same_channels(*old(self)),
            request_issues_change(old(self).action, req) ==> final(self).flag@ == true
                && final(self).wakes_posted@ == old(self).wakes_posted@ + 2,
            !request_issues_change(old(self).action, req) ==> *final(self) == *old(self),
    {
        match req {
            Request::TogglePlay => match self.action {
                Action::Play(_) | Action::Pause(_) => {
                    let toggled = self.action.toggled();
                    self.change_action(toggled);
                },
                Action::Stop => {},
            },
            Request::NextTrack => self.next_track(),
            Request::PreviousTrack => self.prev_track(),
            Request::SeekForward | Request::SeekBackward | Request::Idle | Request::Quit => {},
        }
    }
}

} // verus!
