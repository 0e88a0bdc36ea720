//! Volume scaling, the notification progress hint, and the mute-toggle
//! decision.

use vstd::prelude::*;

verus! {

/// Divisor that maps the sound server's raw volume scalar (roughly
/// 0..=65535) to a display percentage in roughly 0..=100.
pub const RAW_VOLUME_DIVISOR: u32 = 655;

/// Display volume shown to the user: the raw scalar divided by 655,
/// rounding down.
pub open spec fn spec_display_volume(raw_scalar: int) -> int {
    raw_scalar / 655
}

pub fn display_volume(raw_scalar: u32) -> (v: u32)
    ensures
        v == spec_display_volume(raw_scalar as int),
{
    raw_scalar / RAW_VOLUME_DIVISOR
}

/// Numeric hint handed to the notification renderer for its progress
/// bar: the display volume reduced modulo 101. For any display volume
/// of at most 100 this equals the display volume itself.
pub open spec fn spec_progress_hint(volume: int) -> int {
    volume % 101
}

pub fn progress_hint(volume: u32) -> (h: i32)
    ensures
        h == spec_progress_hint(volume as int),
        0 <= h <= 100,
{
    (volume % 101) as i32
}

/// The mute flag requested by the mute command: the negation of the
/// flag the device currently carries.
pub open spec fn spec_toggled_mute(mute: bool) -> bool {
    !mute
}

pub fn toggle_mute_flag(mute: bool) -> (m: bool)
    ensures
        m == spec_toggled_mute(mute),
{
    !mute
}

/// Toggling the mute flag twice in succession restores the original
/// flag.
pub proof fn lemma_toggle_mute_involution(mute: bool)
    ensures
        spec_toggled_mute(spec_toggled_mute(mute)) == mute,
{
}

/// What the program reads of the default sink: its index, its raw
/// volume scalar (the average over the channels), and its mute flag.
pub struct SinkState {
    pub index: u32,
    pub raw_volume: u32,
    pub mute: bool,
}

impl SinkState {
    /// The display volume derived from this state's raw scalar.
    pub fn display_volume(&self) -> (v: u32)
        ensures
            v == spec_display_volume(self.raw_volume as int),
    {
        display_volume(self.raw_volume)
    }
}

} // verus!
