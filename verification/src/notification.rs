//! Building the notification that reports the sink's state: body text,
//! progress hint, icon path and the fixed fields.

use vstd::prelude::*;
use vstd::string::StringExecFns;

use crate::format::decimal_digits;
use crate::format::u32_to_decimal;
use crate::volume::progress_hint;
use crate::volume::spec_progress_hint;

verus! {

/// Summary line of every notification this program sends.
pub const NOTIFICATION_SUMMARY: &'static str = "Volume";

/// Fixed notification id, so that a new notification replaces the
/// previous one instead of stacking.
pub const NOTIFICATION_ID: u32 = 2022;

/// Application name reported to the notification service.
pub const NOTIFICATION_APPNAME: &'static str = "volume-control-rs";

/// Time in milliseconds after which the notification expires.
pub const NOTIFICATION_TIMEOUT_MS: i32 = 1300;

/// Icon file that a display volume and a mute flag select: the muted
/// icon whenever the flag is set, else one of three loudness tiers.
pub open spec fn spec_icon_file(volume: int, mute: bool) -> Seq<char> {
    if mute {
        "audio-volume-muted.svg"@
    } else if volume <= 33 {
        "audio-volume-low.svg"@
    } else if volume <= 66 {
        "audio-volume-medium.svg"@
    } else {
        "audio-volume-high.svg"@
    }
}

pub fn icon_file(volume: u32, mute: bool) -> (s: &'static str)
    ensures
        s@ == spec_icon_file(volume as int, mute),
{
    if mute {
        "audio-volume-muted.svg"
    } else if volume <= 33 {
        "audio-volume-low.svg"
    } else if volume <= 66 {
        "audio-volume-medium.svg"
    } else {
        "audio-volume-high.svg"
    }
}

/// The icon selection is a function of the display volume and the mute
/// flag alone: the mute flag overrides the volume, and an unmuted
/// volume falls in exactly one of the three tiers, whose icons are
/// pairwise distinct.
pub proof fn lemma_icon_selection(volume: int, mute: bool)
    ensures
        mute ==> spec_icon_file(volume, mute) == "audio-volume-muted.svg"@,
        !mute && volume <= 33 ==> spec_icon_file(volume, mute) == "audio-volume-low.svg"@,
        !mute && 34 <= volume <= 66 ==> spec_icon_file(volume, mute) == "audio-volume-medium.svg"@,
        !mute && 67 <= volume ==> spec_icon_file(volume, mute) == "audio-volume-high.svg"@,
        "audio-volume-muted.svg"@ != "audio-volume-low.svg"@,
        "audio-volume-muted.svg"@ != "audio-volume-medium.svg"@,
        "audio-volume-muted.svg"@ != "audio-volume-high.svg"@,
        "audio-volume-low.svg"@ != "audio-volume-medium.svg"@,
        "audio-volume-low.svg"@ != "audio-volume-high.svg"@,
        "audio-volume-medium.svg"@ != "audio-volume-high.svg"@,
{
    reveal_strlit("audio-volume-muted.svg");
    reveal_strlit("audio-volume-low.svg");
    reveal_strlit("audio-volume-medium.svg");
    reveal_strlit("audio-volume-high.svg");
    assert("audio-volume-muted.svg"@.len() == 22);
    assert("audio-volume-low.svg"@.len() == 20);
    assert("audio-volume-medium.svg"@.len() == 23);
    assert("audio-volume-high.svg"@.len() == 21);
}

/// Body text of the notification: "Muted" when the sink is muted, else
/// the display volume followed by a percent sign.
pub open spec fn spec_body(volume: int, mute: bool) -> Seq<char> {
    if mute {
        "Muted"@
    } else {
        decimal_digits(volume as nat) + "%"@
    }
}

pub fn notification_body(volume: u32, mute: bool) -> (s: String)
    ensures
        s@ == spec_body(volume as int, mute),
{
    if mute {
        String::from_str("Muted")
    } else {
        let mut s = u32_to_decimal(volume);
        s.append("%");
        s
    }
}

/// Everything the notification service is handed for one notification.
pub struct NotificationRequest {
    pub summary: &'static str,
    pub body: String,
    pub progress_hint: i32,
    pub icon: String,
    pub appname: &'static str,
    pub timeout_ms: i32,
    pub id: u32,
}

/// Well-formedness of a request built for a given display volume, mute
/// flag and icon directory prefix.
pub open spec fn spec_request_for(
    n: NotificationRequest,
    volume: int,
    mute: bool,
    icon_prefix: Seq<char>,
) -> bool {
    &&& n.summary@ == "Volume"@
    &&& n.body@ == spec_body(volume, mute)
    &&& n.progress_hint == spec_progress_hint(volume)
    &&& n.icon@ == icon_prefix + spec_icon_file(volume, mute)
    &&& n.appname@ == "volume-control-rs"@
    &&& n.timeout_ms == 1300
    &&& n.id == 2022
}

/// Build the notification that reports a display volume and a mute
/// flag, with the icon looked up under the given directory prefix.
pub fn build_volume_notification(volume: u32, is_mute: bool, icon_prefix: String) -> (n:
    NotificationRequest)
    ensures
        spec_request_for(n, volume as int, is_mute, icon_prefix@),
{
    let body = notification_body(volume, is_mute);
    let hint = progress_hint(volume);
    let icon = icon_prefix.concat(icon_file(volume, is_mute));
    NotificationRequest {
        summary: NOTIFICATION_SUMMARY,
        body,
        progress_hint: hint,
        icon,
        appname: NOTIFICATION_APPNAME,
        timeout_ms: NOTIFICATION_TIMEOUT_MS,
        id: NOTIFICATION_ID,
    }
}

} // verus!
