//! Filling the two display slots from the current lines of both tracks.

use vstd::prelude::*;
use crate::config::LyricDisplayMode;

verus! {

/// The primary and the secondary slot, in this order, that `mode` makes of
/// the current line of the origin track and the current line of the
/// translation track.
///
/// | mode                | primary                       | secondary                      |
/// |---------------------|-------------------------------|--------------------------------|
/// | `ShowBoth`          | translation, else the origin  | translation, if both are there |
/// | `ShowBothRev`       | origin                        | translation                    |
/// | `Origin`            | origin                        | nothing                        |
/// | `PreferTranslation` | translation, else the origin  | nothing                        |
pub open spec fn composed<T>(mode: LyricDisplayMode, origin: Option<T>, translation: Option<T>) -> (
    Option<T>,
    Option<T>,
) {
    match mode {
        LyricDisplayMode::ShowBoth => (
            if translation is Some { translation } else { origin },
            if translation is Some && origin is Some { translation } else { None },
        ),
        LyricDisplayMode::ShowBothRev => (origin, translation),
        LyricDisplayMode::Origin => (origin, None),
        LyricDisplayMode::PreferTranslation => (
            if translation is Some { translation } else { origin },
            None,
        ),
    }
}

/// Fills the primary and the secondary slot according to `mode`.
///
/// A translation that stands alone moves up into the primary slot, so the
/// secondary slot of `ShowBoth` is taken only when both lines are there.
pub fn compose<T: Copy>(mode: LyricDisplayMode, origin: Option<T>, translation: Option<T>) -> (slots: (
    Option<T>,
    Option<T>,
))
    ensures
        slots == composed(mode, origin, translation),
{
    match mode {
        LyricDisplayMode::ShowBoth => match translation {
            Some(line) => match origin {
                Some(_) => (Some(line), Some(line)),
                None => (Some(line), None),
            },
            None => (origin, None),
        },
        LyricDisplayMode::ShowBothRev => (origin, translation),
        LyricDisplayMode::Origin => (origin, None),
        LyricDisplayMode::PreferTranslation => match translation {
            Some(line) => (Some(line), None),
            None => (origin, None),
        },
    }
}

/// The slots depend on the mode and the two lines and on nothing else:
/// composing the same inputs again gives the same slots.
pub proof fn lemma_compose_repeatable<T>(
    mode: LyricDisplayMode,
    origin: Option<T>,
    translation: Option<T>,
    first: (Option<T>, Option<T>),
    second: (Option<T>, Option<T>),
)
    requires
        first == composed(mode, origin, translation),
        second == composed(mode, origin, translation),
    ensures
        first == second,
{
}

/// The whole table, one line for each mode and each combination of a present
/// or missing origin `o` and translation `t`.
pub proof fn lemma_mode_table<T>(o: T, t: T)
    ensures
        composed(LyricDisplayMode::ShowBoth, Some(o), Some(t)) == (Some(t), Some(t)),
        composed(LyricDisplayMode::ShowBoth, Some(o), None) == (Some(o), None::<T>),
        composed(LyricDisplayMode::ShowBoth, None, Some(t)) == (Some(t), None::<T>),
        composed(LyricDisplayMode::ShowBoth, None::<T>, None) == (None::<T>, None::<T>),
        composed(LyricDisplayMode::ShowBothRev, Some(o), Some(t)) == (Some(o), Some(t)),
        composed(LyricDisplayMode::ShowBothRev, Some(o), None) == (Some(o), None::<T>),
        composed(LyricDisplayMode::ShowBothRev, None, Some(t)) == (None::<T>, Some(t)),
        composed(LyricDisplayMode::ShowBothRev, None::<T>, None) == (None::<T>, None::<T>),
        composed(LyricDisplayMode::Origin, Some(o), Some(t)) == (Some(o), None::<T>),
        composed(LyricDisplayMode::Origin, Some(o), None) == (Some(o), None::<T>),
        composed(LyricDisplayMode::Origin, None, Some(t)) == (None::<T>, None::<T>),
        composed(LyricDisplayMode::Origin, None::<T>, None) == (None::<T>, None::<T>),
        composed(LyricDisplayMode::PreferTranslation, Some(o), Some(t)) == (Some(t), None::<T>),
        composed(LyricDisplayMode::PreferTranslation, Some(o), None) == (Some(o), None::<T>),
        composed(LyricDisplayMode::PreferTranslation, None, Some(t)) == (Some(t), None::<T>),
        composed(LyricDisplayMode::PreferTranslation, None::<T>, None) == (None::<T>, None::<T>),
{
}

/// Without a translation every mode shows what `Origin` shows: the origin
/// line alone.
pub proof fn lemma_without_translation<T>(mode: LyricDisplayMode, origin: Option<T>)
    ensures
        composed(mode, origin, None) == (origin, None::<T>),
        composed(mode, origin, None) == composed(LyricDisplayMode::Origin, origin, None),
{
}

} // verus!
