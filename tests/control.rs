use raspi_cd_player::action::Action;
use raspi_cd_player::state::{PlayerState, Request};

fn state_with(action: Action, total_tracks: u8) -> (PlayerState, flume::Receiver<()>) {
    let (tx, rx) = flume::bounded(2);
    let mut state = PlayerState::new(tx, rx.clone());
    state.total_tracks = total_tracks;
    state.action = action;
    (state, rx)
}

fn changed(state: &PlayerState) -> bool {
    *state.state_changed.read().unwrap()
}

#[test]
fn new_state_plays_first_track() {
    let (tx, rx) = flume::bounded(2);
    let state = PlayerState::new(tx, rx);
    assert_eq!(state.action, Action::Play(1));
    assert_eq!(state.total_tracks, 0);
    assert!(!changed(&state));
}

#[test]
fn advance_past_last_track_stops() {
    let (mut state, _rx) = state_with(Action::Play(3), 3);
    state.next_track();
    assert_eq!(state.action, Action::Stop);
    assert_eq!(Action::Play(3).advanced(3), Action::Stop);
}

#[test]
fn advance_moves_to_next_track() {
    let (mut state, _rx) = state_with(Action::Play(1), 3);
    state.next_track();
    assert_eq!(state.action, Action::Play(2));
    assert!(changed(&state));
    // track 2 of 3 has no successor under `track + 1 < total_tracks`
    state.next_track();
    assert_eq!(state.action, Action::Stop);
}

#[test]
fn advance_from_pause_plays() {
    assert_eq!(Action::Pause(1).advanced(5), Action::Play(2));
    assert_eq!(Action::Pause(255).advanced(255), Action::Stop);
    assert_eq!(Action::Stop.advanced(5), Action::Stop);
}

#[test]
fn advance_while_stopped_changes_nothing() {
    let (mut state, rx) = state_with(Action::Stop, 3);
    state.next_track();
    assert_eq!(state.action, Action::Stop);
    assert!(!changed(&state));
    assert_eq!(rx.len(), 0);
}

#[test]
fn previous_track_floor() {
    let (mut state, _rx) = state_with(Action::Play(1), 3);
    state.prev_track();
    assert_eq!(state.action, Action::Play(1));
    assert_eq!(Action::Play(1).retreated(), Action::Play(1));
}

#[test]
fn previous_track_goes_back_one() {
    let (mut state, _rx) = state_with(Action::Pause(3), 5);
    state.prev_track();
    assert_eq!(state.action, Action::Play(2));
    assert_eq!(Action::Stop.retreated(), Action::Stop);
}

#[test]
fn toggle_switches_play_and_pause() {
    let (mut state, _rx) = state_with(Action::Play(2), 4);
    state.handle_request(Request::TogglePlay);
    assert_eq!(state.action, Action::Pause(2));
    state.handle_request(Request::TogglePlay);
    assert_eq!(state.action, Action::Play(2));
}

#[test]
fn toggle_while_stopped_stays_stopped() {
    let (mut state, _rx) = state_with(Action::Stop, 4);
    state.handle_request(Request::TogglePlay);
    assert_eq!(state.action, Action::Stop);
}

#[test]
fn requests_next_and_previous() {
    let (mut state, _rx) = state_with(Action::Play(2), 6);
    state.handle_request(Request::NextTrack);
    assert_eq!(state.action, Action::Play(3));
    state.handle_request(Request::PreviousTrack);
    assert_eq!(state.action, Action::Play(2));
}

#[test]
fn seek_idle_and_quit_leave_action() {
    let (mut state, rx) = state_with(Action::Play(2), 6);
    for req in [Request::SeekForward, Request::SeekBackward, Request::Idle, Request::Quit] {
        state.handle_request(req);
        assert_eq!(state.action, Action::Play(2));
    }
    assert!(!changed(&state));
    assert_eq!(rx.len(), 0);
}

#[test]
fn change_action_raises_flag_and_wakes() {
    let (mut state, rx) = state_with(Action::Play(1), 3);
    state.change_action(Action::Pause(1));
    assert_eq!(state.action, Action::Pause(1));
    assert!(changed(&state));
    assert_eq!(rx.len(), 2);
}

#[test]
fn repeated_changes_saturate_wake_channel() {
    let (mut state, rx) = state_with(Action::Play(1), 3);
    state.change_action(Action::Pause(1));
    state.change_action(Action::Play(1));
    assert_eq!(rx.len(), 2);
    assert_eq!(state.action, Action::Play(1));
    assert_eq!(rx.try_recv(), Ok(()));
    assert_eq!(rx.try_recv(), Ok(()));
    assert!(rx.try_recv().is_err());
}

#[test]
fn snapshot_clears_flag() {
    let (mut state, _rx) = state_with(Action::Play(1), 3);
    state.change_action(Action::Play(2));
    assert!(changed(&state));
    assert_eq!(state.snapshot(), Action::Play(2));
    assert!(!changed(&state));
    assert_eq!(state.action, Action::Play(2));
}

#[test]
fn wait_returns_on_pending_wake() {
    let (mut state, _rx) = state_with(Action::Play(1), 3);
    state.change_action(Action::Pause(1));
    let wake = state.wake_receiver();
    PlayerState::wait_for_change(&wake);
    PlayerState::wait_for_change(&wake);
    assert_eq!(wake.len(), 0);
}

#[test]
fn action_track() {
    assert_eq!(Action::Play(4).track(), Some(4));
    assert_eq!(Action::Pause(2).track(), Some(2));
    assert_eq!(Action::Stop.track(), None);
    assert_eq!(Action::Pause(2).toggled(), Action::Play(2));
}

#[test]
fn keys_map_to_requests() {
    assert_eq!(Request::from_key(Some(' ')), Request::TogglePlay);
    assert_eq!(Request::from_key(Some('<')), Request::PreviousTrack);
    assert_eq!(Request::from_key(Some('>')), Request::NextTrack);
    assert_eq!(Request::from_key(Some('q')), Request::Quit);
    assert_eq!(Request::from_key(Some('x')), Request::Idle);
    assert_eq!(Request::from_key(None), Request::Idle);
}

#[test]
fn advance_from_last_track_raises_flag() {
    let (mut state, rx) = state_with(Action::Play(3), 3);
    state.next_track();
    assert_eq!(state.action, Action::Stop);
    assert!(changed(&state));
    assert_eq!(state.total_tracks, 3);
    assert_eq!(rx.len(), 2);
}

#[test]
fn two_quick_changes_keep_flag_raised() {
    let (tx, rx) = flume::bounded(2);
    let state = std::sync::Mutex::new(PlayerState::new(tx, rx.clone()));
    state.lock().unwrap().change_action(Action::Play(2));
    state.lock().unwrap().change_action(Action::Pause(2));
    let s = state.lock().unwrap();
    assert_eq!(s.action, Action::Pause(2));
    assert!(changed(&s));
    assert_eq!(rx.len(), 2);
}

#[test]
fn toggle_raises_flag() {
    let (mut state, rx) = state_with(Action::Play(2), 4);
    state.handle_request(Request::TogglePlay);
    assert!(changed(&state));
    assert_eq!(rx.len(), 2);
}

#[test]
fn previous_track_raises_flag() {
    let (mut state, rx) = state_with(Action::Play(1), 4);
    state.prev_track();
    assert_eq!(state.action, Action::Play(1));
    assert!(changed(&state));
    assert_eq!(rx.len(), 2);
}
