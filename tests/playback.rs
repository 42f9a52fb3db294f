use raspi_cd_player::action::Action;
use raspi_cd_player::playback::{
    needs_open, pass_event, playback_step, ready_to_decode, should_advance, PassEvent,
    PlaybackStep,
};

#[test]
fn steps_follow_action() {
    assert_eq!(playback_step(Action::Play(7)), PlaybackStep::Play(7));
    assert_eq!(playback_step(Action::Pause(7)), PlaybackStep::Wait);
    assert_eq!(playback_step(Action::Stop), PlaybackStep::Exit);
}

#[test]
fn decoding_waits_for_one_burst() {
    let declared = 1000 * 2352;
    assert!(!ready_to_decode(44, declared));
    assert!(!ready_to_decode(44 + 52 * 2352 - 1, declared));
    assert!(ready_to_decode(44 + 52 * 2352, declared));
}

#[test]
fn short_track_is_ready_when_complete() {
    assert!(!ready_to_decode(44 + 10 * 2352 - 1, 10 * 2352));
    assert!(ready_to_decode(44 + 10 * 2352, 10 * 2352));
    assert!(ready_to_decode(44, 0));
}

#[test]
fn change_interrupts_pass_first() {
    assert_eq!(pass_event(true, true), PassEvent::Interrupted);
    assert_eq!(pass_event(true, false), PassEvent::Interrupted);
    assert_eq!(pass_event(false, true), PassEvent::Decode);
    assert_eq!(pass_event(false, false), PassEvent::Finished);
}

#[test]
fn only_natural_end_advances() {
    assert!(should_advance(true, false));
    assert!(!should_advance(true, true));
    assert!(!should_advance(false, false));
    assert!(!should_advance(false, true));
}

#[test]
fn buffer_opened_only_for_other_track() {
    assert!(needs_open(None, 1));
    assert!(needs_open(Some(2), 3));
    assert!(!needs_open(Some(3), 3));
}
