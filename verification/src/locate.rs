//! Finding the line that is current at a playback position.

use vstd::prelude::*;
use crate::lyric::{LyricLine, non_decreasing};

verus! {

/// The index of the line that is current once `elapsed` has passed: the last
/// line of `track` whose timestamp is not after `elapsed`. `None` if there is
/// no such line, that is if the track is empty or has not started yet.
pub open spec fn current_index(track: Seq<LyricLine>, elapsed: u128) -> Option<int>
    decreases track.len(),
{
    if track.len() == 0 {
        None
    } else if track.last().start_time <= elapsed {
        Some(track.len() - 1)
    } else {
        current_index(track.drop_last(), elapsed)
    }
}

/// The line at `current_index`.
pub open spec fn current_line(track: Seq<LyricLine>, elapsed: u128) -> Option<LyricLine> {
    match current_index(track, elapsed) {
        Some(i) => Some(track[i]),
        None => None,
    }
}

/// `found` answers the question which line of `track` is current at
/// `elapsed`: it is the position of a line that has started and after which
/// no line has started, or `None` where no line has started at all.
pub open spec fn is_current(track: Seq<LyricLine>, elapsed: u128, found: Option<int>) -> bool {
    match found {
        Some(i) => {
            &&& 0 <= i < track.len()
            &&& track[i].start_time <= elapsed
            &&& forall|j: int| i < j < track.len() ==> track[j].start_time > elapsed
        },
        None => forall|j: int| 0 <= j < track.len() ==> track[j].start_time > elapsed,
    }
}

/// `current_index` is an answer in the sense of `is_current`.
pub proof fn lemma_current_index_is_current(track: Seq<LyricLine>, elapsed: u128)
    ensures
        is_current(track, elapsed, current_index(track, elapsed)),
    decreases track.len(),
{
    if track.len() > 0 && track.last().start_time > elapsed {
        let front = track.drop_last();
        lemma_current_index_is_current(front, elapsed);
        assert forall|j: int| 0 <= j < front.len() implies front[j] == track[j] by {}
    }
}

/// There is only one answer: whatever meets `is_current` is `current_index`.
pub proof fn lemma_current_unique(track: Seq<LyricLine>, elapsed: u128, found: Option<int>)
    requires
        is_current(track, elapsed, found),
    ensures
        found == current_index(track, elapsed),
{
    lemma_current_index_is_current(track, elapsed);
}

/// The current line depends on the track and the position and on nothing
/// else: looking the same position up in the same track again gives the same
/// line.
pub proof fn lemma_locate_repeatable(
    track: Seq<LyricLine>,
    elapsed: u128,
    first: Option<int>,
    second: Option<int>,
)
    requires
        is_current(track, elapsed, first),
        is_current(track, elapsed, second),
    ensures
        first == second,
{
    lemma_current_unique(track, elapsed, first);
    lemma_current_unique(track, elapsed, second);
}

/// In a track whose timestamps never go down, the current line carries the
/// greatest timestamp that is not after `elapsed`; and no line is current
/// exactly when every timestamp is after `elapsed`.
pub proof fn lemma_current_has_greatest_timestamp(track: Seq<LyricLine>, elapsed: u128)
    requires
        non_decreasing(track),
    ensures
        match current_index(track, elapsed) {
            Some(i) => {
                &&& 0 <= i < track.len()
                &&& track[i].start_time <= elapsed
                &&& forall|j: int|
                    0 <= j < track.len() && track[j].start_time <= elapsed
                        ==> track[j].start_time <= track[i].start_time
            },
            None => forall|j: int| 0 <= j < track.len() ==> track[j].start_time > elapsed,
        },
{
    lemma_current_index_is_current(track, elapsed);
}

/// As the playback position moves forward the current line never moves
/// backward: a line that was current stays current or gives way to a later
/// one. This holds of every track, sorted or not.
pub proof fn lemma_current_index_monotonic(track: Seq<LyricLine>, earlier: u128, later: u128)
    requires
        earlier <= later,
    ensures
        match (current_index(track, earlier), current_index(track, later)) {
            (Some(a), Some(b)) => a <= b,
            (Some(_), None) => false,
            (None, _) => true,
        },
{
    lemma_current_index_is_current(track, earlier);
    lemma_current_index_is_current(track, later);
}

/// Among lines that share a timestamp the last one wins: at that timestamp
/// the current line is never an earlier one of them.
pub proof fn lemma_tie_goes_to_later_line(track: Seq<LyricLine>, i: int, j: int)
    requires
        0 <= i < j < track.len(),
        track[i].start_time == track[j].start_time,
    ensures
        match current_index(track, track[j].start_time) {
            Some(k) => j <= k,
            None => false,
        },
{
    lemma_current_index_is_current(track, track[j].start_time);
}

/// Among lines that share a timestamp the last one wins: where `j` is the
/// last line with that timestamp in a track whose timestamps never go down,
/// it is the current line at that timestamp.
pub proof fn lemma_tie_break(track: Seq<LyricLine>, i: int, j: int)
    requires
        non_decreasing(track),
        0 <= i < j < track.len(),
        track[i].start_time == track[j].start_time,
        j + 1 < track.len() ==> track[j + 1].start_time > track[j].start_time,
    ensures
        current_index(track, track[j].start_time) == Some(j),
{
    let at = track[j].start_time;
    assert forall|k: int| j < k < track.len() implies track[k].start_time > at by {
        assert(track[j + 1].start_time <= track[k].start_time);
    }
    lemma_current_unique(track, at, Some(j));
}

/// Finds the position of the line that is current at `elapsed`: the last
/// position whose line has started by then, and `None` where no line has.
///
/// The track is taken as it is and is not sorted here. In a track whose
/// timestamps never go down the line found is the one with the greatest
/// timestamp not after `elapsed`.
pub fn locate_index(elapsed: u128, track: &[LyricLine]) -> (found: Option<usize>)
    ensures
        match found {
            Some(i) => {
                &&& i < track.len()
                &&& track[i as int].start_time <= elapsed
                &&& forall|j: int| i < j < track.len() ==> track[j].start_time > elapsed
                &&& current_index(track@, elapsed) == Some(i as int)
            },
            None => {
                &&& forall|j: int| 0 <= j < track.len() ==> track[j].start_time > elapsed
                &&& current_index(track@, elapsed) is None
            },
        },
        non_decreasing(track@) ==> (found matches Some(i) ==> forall|j: int|
            0 <= j < track.len() && track[j].start_time <= elapsed ==> track[j].start_time
                <= track[i as int].start_time),
{
    let mut k: usize = track.len();
    while k > 0
        invariant
            k <= track.len(),
            forall|j: int| k <= j < track.len() ==> track[j].start_time > elapsed,
        decreases k,
    {
        if track[k - 1].start_time <= elapsed {
            proof {
                lemma_current_unique(track@, elapsed, Some(k - 1));
            }
            return Some(k - 1);
        }
        k -= 1;
    }
    proof {
        lemma_current_unique(track@, elapsed, None);
    }
    None
}

/// Finds the line that is current at `elapsed`: the last line of `track`
/// that has started by then, and `None` where no line has.
///
/// The track is taken as it is and is not sorted here. In a track whose
/// timestamps never go down the line found is the one with the greatest
/// timestamp not after `elapsed`.
pub fn locate<'a>(elapsed: u128, track: &'a [LyricLine]) -> (found: Option<&'a LyricLine>)
    ensures
        match found {
            Some(line) => current_line(track@, elapsed) == Some(*line),
            None => current_line(track@, elapsed) is None,
        },
        found is None <==> forall|j: int| 0 <= j < track.len() ==> track[j].start_time > elapsed,
        non_decreasing(track@) ==> (found matches Some(line) ==> line.start_time <= elapsed
            && forall|j: int|
            0 <= j < track.len() && track[j].start_time <= elapsed ==> track[j].start_time
                <= line.start_time),
{
    match locate_index(elapsed, track) {
        Some(i) => Some(&track[i]),
        None => None,
    }
}

} // verus!
