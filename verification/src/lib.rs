//! Logic of a small volume-control utility: scaling a raw sink volume
//! scalar to a display percentage, toggling the mute flag, and building
//! the desktop notification (body text, progress hint, icon path) that
//! reports the resulting state.

pub mod format;
pub mod notification;
pub mod volume;
