//! Lyric lines, tracks and the pair of tracks loaded for the current song.

use vstd::prelude::*;

verus! {

/// One lyric line: the text on display from `start_time` on.
///
/// The text may be empty, which marks a stretch of silence.
#[derive(Clone, Debug, PartialEq, Eq)]
pub struct LyricLine {
    /// Offset from the start of the track, in nanoseconds.
    pub start_time: u128,
    pub text: String,
}

/// One side of a song's lyrics.
#[derive(Clone, Debug, PartialEq, Eq)]
pub enum Lyric {
    /// Lyrics without line timing. They cannot follow the playback position.
    NoTimestamp,
    /// Lines that each carry their own start offset.
    LineTimestamp(Vec<LyricLine>),
}

/// The timestamps of `track` never go down from one line to the next. Equal
/// neighbours are allowed.
pub open spec fn non_decreasing(track: Seq<LyricLine>) -> bool {
    forall|i: int, j: int| 0 <= i <= j < track.len() ==> track[i].start_time <= track[j].start_time
}

/// The lines of a side that can be synchronised, if it has any.
pub open spec fn timed_lines(side: Option<Lyric>) -> Option<Seq<LyricLine>> {
    match side {
        Some(Lyric::LineTimestamp(lines)) => Some(lines@),
        _ => None,
    }
}

/// The line behind an optional reference.
pub open spec fn owned(line: Option<&LyricLine>) -> Option<LyricLine> {
    match line {
        Some(l) => Some(*l),
        None => None,
    }
}

impl LyricLine {
    pub fn new(start_time: u128, text: String) -> (line: LyricLine)
        ensures
            line.start_time == start_time,
            line.text == text,
    {
        LyricLine { start_time, text }
    }
}

/// The lyrics of the song that is loaded: the origin, in the song's own
/// language, and its translation, each of which may be missing.
///
/// The two sides belong to one song, so they are only ever set together.
#[derive(Clone, Debug, PartialEq, Eq)]
pub struct LyricState {
    origin: Option<Lyric>,
    translation: Option<Lyric>,
}

impl LyricState {
    pub closed spec fn spec_origin(&self) -> Option<Lyric> {
        self.origin
    }

    pub closed spec fn spec_translation(&self) -> Option<Lyric> {
        self.translation
    }

    /// The state for a song of which both sides are known.
    pub fn new(origin: Option<Lyric>, translation: Option<Lyric>) -> (state: LyricState)
        ensures
            state.spec_origin() == origin,
            state.spec_translation() == translation,
    {
        LyricState { origin, translation }
    }

    /// The state with no lyrics on either side.
    pub fn empty() -> (state: LyricState)
        ensures
            state.spec_origin() is None,
            state.spec_translation() is None,
    {
        LyricState { origin: None, translation: None }
    }

    /// Puts the lyrics of a new song in place of the old ones, both sides at
    /// once.
    pub fn replace(&mut self, origin: Option<Lyric>, translation: Option<Lyric>)
        ensures
            final(self).spec_origin() == origin,
            final(self).spec_translation() == translation,
    {
        self.origin = origin;
        self.translation = translation;
    }

    /// Drops the lyrics of both sides.
    pub fn clear(&mut self)
        ensures
            final(self).spec_origin() is None,
            final(self).spec_translation() is None,
    {
        self.origin = None;
        self.translation = None;
    }

    /// The lyrics in the song's own language.
    pub fn origin(&self) -> (side: &Option<Lyric>)
        ensures
            *side == self.spec_origin(),
    {
        &self.origin
    }

    /// The translated lyrics.
    pub fn translation(&self) -> (side: &Option<Lyric>)
        ensures
            *side == self.spec_translation(),
    {
        &self.translation
    }
}

/// Tells whether the timestamps of `track` are in non-decreasing order.
pub fn is_non_decreasing(track: &[LyricLine]) -> (sorted: bool)
    ensures
        sorted == non_decreasing(track@),
{
    let n: usize = track.len();
    if n < 2 {
        return true;
    }
    let mut k: usize = 1;
    while k < n
        invariant
            n == track.len(),
            1 <= k <= n,
            forall|i: int, j: int| 0 <= i <= j < k ==> track[i].start_time <= track[j].start_time,
        decreases n - k,
    {
        if track[k - 1].start_time > track[k].start_time {
            return false;
        }
        k += 1;
    }
    true
}

} // verus!
