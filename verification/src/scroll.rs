//! The periodic refresh: what each tick of the timer does to the label.

use vstd::prelude::*;
use crate::compose::composed;
use crate::config::{DisplayConfig, LyricDisplayMode};
use crate::label::{blank_label, label_text, set_lyric, set_lyric_with_mode, LabelText, LabelTextView};
use crate::locate::{current_line, locate};
use crate::lyric::{owned, timed_lines, Lyric, LyricLine, LyricState};

verus! {

/// What the player reports of the track at the moment of a tick.
#[derive(Clone, Copy, Debug, PartialEq, Eq, Structural)]
pub struct TrackPlaybackState {
    /// Whether the player has told which track it plays.
    pub metainfo_present: bool,
    pub paused: bool,
    /// Playback time since the track was last anchored, in nanoseconds.
    /// `None` where no anchor is set or the clock could not be read.
    pub elapsed: Option<u128>,
}

/// What a refresh asks of the label.
#[derive(Clone, Debug, PartialEq, Eq)]
pub enum Refresh {
    /// Leave the label as it is.
    Skip,
    /// Show this text.
    Show(LabelText),
}

/// A `Refresh` with its text as plain sequences of characters.
pub enum RefreshView {
    Skip,
    Show(LabelTextView),
}

impl View for Refresh {
    type V = RefreshView;

    open spec fn view(&self) -> RefreshView {
        match self {
            Refresh::Skip => RefreshView::Skip,
            Refresh::Show(label) => RefreshView::Show(label@),
        }
    }
}

/// The line of one side that is current at `elapsed`. A side that is missing
/// or has no line timing has no current line.
pub open spec fn current_of(side: Option<Lyric>, elapsed: u128) -> Option<LyricLine> {
    match timed_lines(side) {
        Some(lines) => current_line(lines, elapsed),
        None => None,
    }
}

/// What a refresh does.
///
/// - While playback is paused and lyrics are not to be shown on pause, the
///   label is blanked, whatever the lyrics and the position are.
/// - Otherwise, without a playback position, or where neither side has line
///   timing, the label is left alone.
/// - Otherwise the label shows what the display mode makes of the current
///   line of each side.
pub open spec fn refreshed(
    config: DisplayConfig,
    lyric: LyricState,
    elapsed: Option<u128>,
    paused: bool,
) -> RefreshView {
    if paused && !config.show_lyric_on_pause {
        RefreshView::Show(blank_label())
    } else {
        match elapsed {
            Some(at) => if timed_lines(lyric.spec_origin()) is None && timed_lines(
                lyric.spec_translation(),
            ) is None {
                RefreshView::Skip
            } else {
                let slots = composed(
                    config.mode,
                    current_of(lyric.spec_origin(), at),
                    current_of(lyric.spec_translation(), at),
                );
                RefreshView::Show(label_text(slots.0, slots.1))
            },
            None => RefreshView::Skip,
        }
    }
}

fn current_in<'a>(side: &'a Option<Lyric>, elapsed: u128) -> (found: Option<&'a LyricLine>)
    ensures
        owned(found) == current_of(*side, elapsed),
{
    match side {
        Some(Lyric::LineTimestamp(lines)) => locate(elapsed, lines.as_slice()),
        _ => None,
    }
}

fn is_timed(side: &Option<Lyric>) -> (timed: bool)
    ensures
        timed == (timed_lines(*side) is Some),
{
    match side {
        Some(Lyric::LineTimestamp(_)) => true,
        _ => false,
    }
}

/// Works out what the label is to show for the lyrics `lyric`, `elapsed`
/// into the track.
pub fn refresh_lyric(
    config: &DisplayConfig,
    lyric: &LyricState,
    elapsed: Option<u128>,
    paused: bool,
) -> (refresh: Refresh)
    ensures
        refresh@ == refreshed(*config, *lyric, elapsed, paused),
{
    if paused && !config.show_lyric_on_pause {
        return Refresh::Show(set_lyric(None, None));
    }
    let at = match elapsed {
        Some(at) => at,
        None => {
            return Refresh::Skip;
        },
    };
    if !is_timed(lyric.origin()) && !is_timed(lyric.translation()) {
        return Refresh::Skip;
    }
    let origin = current_in(lyric.origin(), at);
    let translation = current_in(lyric.translation(), at);
    Refresh::Show(set_lyric_with_mode(config.mode, translation, origin))
}

/// Whether the timer still runs.
#[derive(Clone, Copy, Debug, PartialEq, Eq, Structural)]
pub enum SchedulerState {
    Running,
    /// The label is gone. Nothing is scheduled any more.
    Terminated,
}

/// The periodic refresh of one label.
#[derive(Debug, PartialEq, Eq)]
pub struct Scheduler {
    interval: u128,
    state: SchedulerState,
}

/// What the timer does after a tick.
#[derive(Clone, Debug, PartialEq, Eq)]
pub enum Tick {
    /// Stop the timer. No further tick follows.
    Stop,
    /// Carry the refresh out and keep the timer running.
    Continue(Refresh),
}

/// A `Tick` with its text as plain sequences of characters.
pub enum TickView {
    Stop,
    Continue(RefreshView),
}

impl View for Tick {
    type V = TickView;

    open spec fn view(&self) -> TickView {
        match self {
            Tick::Stop => TickView::Stop,
            Tick::Continue(refresh) => TickView::Continue(refresh@),
        }
    }
}

/// The state after a tick and what the timer is told.
///
/// A scheduler stops for one reason only: its label is gone. Once stopped it
/// stays stopped. While it runs, a tick without track metadata does nothing,
/// and any other tick is a refresh.
pub open spec fn ticked(
    state: SchedulerState,
    surface_alive: bool,
    track: TrackPlaybackState,
    config: DisplayConfig,
    lyric: LyricState,
) -> (SchedulerState, TickView) {
    if state is Terminated || !surface_alive {
        (SchedulerState::Terminated, TickView::Stop)
    } else if !track.metainfo_present {
        (SchedulerState::Running, TickView::Continue(RefreshView::Skip))
    } else {
        (
            SchedulerState::Running,
            TickView::Continue(refreshed(config, lyric, track.elapsed, track.paused)),
        )
    }
}

/// Starts the periodic refresh of a label, one tick every `interval`
/// nanoseconds.
pub fn register_lyric_display(interval: u128) -> (scheduler: Scheduler)
    ensures
        scheduler.state() is Running,
        scheduler.interval() == interval,
{
    Scheduler { interval, state: SchedulerState::Running }
}

impl Scheduler {
    pub closed spec fn spec_state(&self) -> SchedulerState {
        self.state
    }

    pub closed spec fn spec_interval(&self) -> u128 {
        self.interval
    }

    /// Whether the timer still runs.
    #[verifier::when_used_as_spec(spec_state)]
    pub fn state(&self) -> (state: SchedulerState)
        ensures
            state == self.spec_state(),
    {
        self.state
    }

    /// The time between two ticks, in nanoseconds.
    #[verifier::when_used_as_spec(spec_interval)]
    pub fn interval(&self) -> (interval: u128)
        ensures
            interval == self.spec_interval(),
    {
        self.interval
    }

    /// One tick of the timer. `surface_alive` tells whether the label still
    /// exists.
    pub fn tick(
        &mut self,
        surface_alive: bool,
        track: &TrackPlaybackState,
        config: &DisplayConfig,
        lyric: &LyricState,
    ) -> (tick: Tick)
        ensures
            (final(self).state(), tick@) == ticked(
                old(self).state(),
                surface_alive,
                *track,
                *config,
                *lyric,
            ),
            final(self).interval() == old(self).interval(),
    {
        match self.state {
            SchedulerState::Terminated => {
                return Tick::Stop;
            },
            SchedulerState::Running => {},
        }
        if !surface_alive {
            self.state = SchedulerState::Terminated;
            return Tick::Stop;
        }
        if !track.metainfo_present {
            return Tick::Continue(Refresh::Skip);
        }
        Tick::Continue(refresh_lyric(config, lyric, track.elapsed, track.paused))
    }
}

/// A scheduler that has stopped never starts again, and tells the timer to
/// stop at every later tick.
pub proof fn lemma_terminated_stays_terminated(
    surface_alive: bool,
    track: TrackPlaybackState,
    config: DisplayConfig,
    lyric: LyricState,
)
    ensures
        ticked(SchedulerState::Terminated, surface_alive, track, config, lyric) == (
            SchedulerState::Terminated,
            TickView::Stop,
        ),
{
}

/// The tick that finds the label gone stops the scheduler, and nothing else
/// does.
pub proof fn lemma_stops_iff_surface_gone(
    surface_alive: bool,
    track: TrackPlaybackState,
    config: DisplayConfig,
    lyric: LyricState,
)
    ensures
        ticked(SchedulerState::Running, surface_alive, track, config, lyric).0 is Terminated
            <==> !surface_alive,
        ticked(SchedulerState::Running, surface_alive, track, config, lyric).1 is Stop
            <==> !surface_alive,
{
}

/// While playback is paused and lyrics are hidden on pause, a refresh blanks
/// the label, whatever the lyrics and the playback position are.
pub proof fn lemma_hidden_on_pause(config: DisplayConfig, lyric: LyricState, elapsed: Option<u128>)
    requires
        !config.show_lyric_on_pause,
    ensures
        refreshed(config, lyric, elapsed, true) == RefreshView::Show(blank_label()),
        blank_label().primary.len() == 0,
        blank_label().secondary is None,
{
}

/// Where there is no translation with line timing, every mode shows what
/// `Origin` shows.
pub proof fn lemma_origin_only_without_translation(
    config: DisplayConfig,
    lyric: LyricState,
    elapsed: Option<u128>,
    paused: bool,
)
    requires
        timed_lines(lyric.spec_translation()) is None,
    ensures
        refreshed(config, lyric, elapsed, paused) == refreshed(
            DisplayConfig { mode: LyricDisplayMode::Origin, ..config },
            lyric,
            elapsed,
            paused,
        ),
{
}

} // verus!
