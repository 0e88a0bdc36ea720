use volume_control::notification::build_volume_notification;
use volume_control::notification::icon_file;
use volume_control::notification::notification_body;
use volume_control::volume::display_volume;
use volume_control::volume::progress_hint;
use volume_control::volume::toggle_mute_flag;
use volume_control::volume::SinkState;

#[test]
fn display_volume_of_full_scalar() {
    assert_eq!(display_volume(65500), 100);
}

#[test]
fn display_volume_of_zero() {
    assert_eq!(display_volume(0), 0);
}

#[test]
fn display_volume_rounds_down() {
    assert_eq!(display_volume(654), 0);
    assert_eq!(display_volume(655), 1);
    assert_eq!(display_volume(39300), 60);
    assert_eq!(display_volume(u32::MAX), 6557201);
}

#[test]
fn progress_hint_matches_volume_in_range() {
    assert_eq!(progress_hint(0), 0);
    assert_eq!(progress_hint(60), 60);
    assert_eq!(progress_hint(100), 100);
}

#[test]
fn progress_hint_wraps_out_of_range_volume() {
    assert_eq!(progress_hint(101), 0);
    assert_eq!(progress_hint(150), 49);
}

#[test]
fn toggle_mute_negates() {
    assert_eq!(toggle_mute_flag(false), true);
    assert_eq!(toggle_mute_flag(true), false);
}

#[test]
fn toggle_mute_twice_restores() {
    assert_eq!(toggle_mute_flag(toggle_mute_flag(false)), false);
    assert_eq!(toggle_mute_flag(toggle_mute_flag(true)), true);
}

#[test]
fn icon_muted_regardless_of_volume() {
    assert_eq!(icon_file(0, true), "audio-volume-muted.svg");
    assert_eq!(icon_file(50, true), "audio-volume-muted.svg");
    assert_eq!(icon_file(100, true), "audio-volume-muted.svg");
}

#[test]
fn icon_tiers() {
    assert_eq!(icon_file(0, false), "audio-volume-low.svg");
    assert_eq!(icon_file(33, false), "audio-volume-low.svg");
    assert_eq!(icon_file(34, false), "audio-volume-medium.svg");
    assert_eq!(icon_file(66, false), "audio-volume-medium.svg");
    assert_eq!(icon_file(67, false), "audio-volume-high.svg");
    assert_eq!(icon_file(100, false), "audio-volume-high.svg");
}

#[test]
fn body_shows_percentage_when_unmuted() {
    assert_eq!(notification_body(0, false), "0%");
    assert_eq!(notification_body(60, false), "60%");
    assert_eq!(notification_body(100, false), "100%");
}

#[test]
fn body_shows_muted_when_muted() {
    assert_eq!(notification_body(60, true), "Muted");
}

#[test]
fn increase_scenario_notification() {
    // Volume raised from 50% by ten percent: the fresh read shows 60%.
    let raw_after: u32 = 39300;
    let state = SinkState { index: 0, raw_volume: raw_after, mute: false };
    let volume = state.display_volume();
    assert_eq!(volume, 60);
    let n = build_volume_notification(volume, false, String::from("/icons/"));
    assert_eq!(n.summary, "Volume");
    assert_eq!(n.body, "60%");
    assert_eq!(n.progress_hint, 60);
    assert_eq!(n.icon, "/icons/audio-volume-medium.svg");
    assert_eq!(n.appname, "volume-control-rs");
    assert_eq!(n.timeout_ms, 1300);
    assert_eq!(n.id, 2022);
}

#[test]
fn mute_scenario_notification() {
    // Mute invoked while unmuted: the flag flips and the notification
    // reports the muted state.
    let was_mute = false;
    let new_mute = toggle_mute_flag(was_mute);
    assert!(new_mute);
    let n = build_volume_notification(60, new_mute, String::from("/icons/"));
    assert_eq!(n.body, "Muted");
    assert_eq!(n.icon, "/icons/audio-volume-muted.svg");
    assert_eq!(n.id, 2022);
}

#[test]
fn decimal_rendering() {
    assert_eq!(volume_control::format::u32_to_decimal(0), "0");
    assert_eq!(volume_control::format::u32_to_decimal(7), "7");
    assert_eq!(volume_control::format::u32_to_decimal(10), "10");
    assert_eq!(volume_control::format::u32_to_decimal(100), "100");
    assert_eq!(volume_control::format::u32_to_decimal(6557201), "6557201");
    assert_eq!(volume_control::format::u32_to_decimal(u32::MAX), "4294967295");
}
