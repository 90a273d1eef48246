//! Display settings.

use vstd::prelude::*;

verus! {

/// How the two display slots are filled from the origin line, in the song's
/// own language, and its translation.
#[derive(Clone, Copy, Debug, PartialEq, Eq, Structural)]
pub enum LyricDisplayMode {
    /// The translation, or the origin where there is no translation; and where
    /// both lines are there, the translation in the secondary slot too.
    ShowBoth,
    /// Origin above the translation.
    ShowBothRev,
    /// The origin alone.
    Origin,
    /// The translation alone, or the origin where there is no translation.
    PreferTranslation,
}

/// The display settings that a refresh reads.
#[derive(Clone, Copy, Debug, PartialEq, Eq, Structural)]
pub struct DisplayConfig {
    pub mode: LyricDisplayMode,
    /// Font size of the primary line, in points.
    pub primary_font_size: u32,
    /// Font size of the secondary line, in points.
    pub secondary_font_size: u32,
    /// Whether the lyrics stay on display while playback is paused.
    pub show_lyric_on_pause: bool,
}

impl DisplayConfig {
    pub fn new(
        mode: LyricDisplayMode,
        primary_font_size: u32,
        secondary_font_size: u32,
        show_lyric_on_pause: bool,
    ) -> (config: DisplayConfig)
        ensures
            config == (DisplayConfig {
                mode,
                primary_font_size,
                secondary_font_size,
                show_lyric_on_pause,
            }),
    {
        DisplayConfig { mode, primary_font_size, secondary_font_size, show_lyric_on_pause }
    }

    /// Changes the mode and nothing else.
    pub fn set_display_mode(&mut self, mode: LyricDisplayMode)
        ensures
            *final(self) == (DisplayConfig { mode, ..*old(self) }),
    {
        self.mode = mode;
    }

    /// Changes the two font sizes and nothing else.
    pub fn set_font_sizes(&mut self, primary_font_size: u32, secondary_font_size: u32)
        ensures
            *final(self) == (DisplayConfig {
                primary_font_size,
                secondary_font_size,
                ..*old(self)
            }),
    {
        self.primary_font_size = primary_font_size;
        self.secondary_font_size = secondary_font_size;
    }
}

} // verus!
