//! Keeps displayed song lyrics in step with a media player's playback
//! position.

pub mod compose;
pub mod config;
pub mod cover;
pub mod label;
pub mod locate;
pub mod lyric;
pub mod scroll;
pub mod text;

pub use crate::compose::compose;
pub use crate::config::{DisplayConfig, LyricDisplayMode};
pub use crate::cover::{set_cover_image, CoverSource};
pub use crate::label::{label_markup, set_lyric, set_lyric_with_mode, LabelText};
pub use crate::locate::{locate, locate_index};
pub use crate::lyric::{is_non_decreasing, Lyric, LyricLine, LyricState};
pub use crate::scroll::{
    refresh_lyric, register_lyric_display, Refresh, Scheduler, SchedulerState, Tick,
    TrackPlaybackState,
};
