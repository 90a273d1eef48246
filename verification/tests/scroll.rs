use lyric_sync::{
    refresh_lyric, register_lyric_display, DisplayConfig, LabelText, Lyric, LyricDisplayMode,
    LyricLine, LyricState, Refresh, SchedulerState, Tick, TrackPlaybackState,
};

const SECOND: u128 = 1_000_000_000;

fn track(lines: &[(u128, &str)]) -> Option<Lyric> {
    Some(Lyric::LineTimestamp(
        lines.iter().map(|(s, t)| LyricLine::new(s * SECOND, t.to_string())).collect(),
    ))
}

fn config(mode: LyricDisplayMode, show_lyric_on_pause: bool) -> DisplayConfig {
    DisplayConfig::new(mode, 14, 10, show_lyric_on_pause)
}

fn show(primary: &str, secondary: Option<&str>) -> Refresh {
    Refresh::Show(LabelText {
        primary: primary.to_string(),
        secondary: secondary.map(|s| s.to_string()),
    })
}

fn playing(elapsed: u128) -> TrackPlaybackState {
    TrackPlaybackState { metainfo_present: true, paused: false, elapsed: Some(elapsed) }
}

const MODES: [LyricDisplayMode; 4] = [
    LyricDisplayMode::ShowBoth,
    LyricDisplayMode::ShowBothRev,
    LyricDisplayMode::Origin,
    LyricDisplayMode::PreferTranslation,
];

#[test]
fn scenario_origin_only_between_two_lines() {
    let lyric = LyricState::new(track(&[(0, "Hello"), (2, "World")]), None);
    let refresh = refresh_lyric(
        &config(LyricDisplayMode::Origin, true),
        &lyric,
        Some(SECOND + SECOND / 2),
        false,
    );
    assert_eq!(refresh, show("Hello", None));
}

#[test]
fn scenario_show_both_after_the_last_line() {
    let lyric = LyricState::new(track(&[(0, "A"), (3, "B")]), track(&[(0, "a"), (3, "b")]));
    let refresh =
        refresh_lyric(&config(LyricDisplayMode::ShowBoth, true), &lyric, Some(4 * SECOND), false);
    assert_eq!(refresh, show("b", Some("b")));
}

#[test]
fn scenario_show_both_rev_after_the_last_line() {
    let lyric = LyricState::new(track(&[(0, "A"), (3, "B")]), track(&[(0, "a"), (3, "b")]));
    let refresh = refresh_lyric(
        &config(LyricDisplayMode::ShowBothRev, true),
        &lyric,
        Some(4 * SECOND),
        false,
    );
    assert_eq!(refresh, show("B", Some("b")));
}

#[test]
fn scenario_without_translation_track_every_mode_is_origin_only() {
    let lyric = LyricState::new(track(&[(0, "A"), (3, "B")]), None);
    for at in [0u128, 1, 2, 3, 4, 100] {
        let expected =
            refresh_lyric(&config(LyricDisplayMode::Origin, true), &lyric, Some(at * SECOND), false);
        for mode in MODES {
            let refresh = refresh_lyric(&config(mode, true), &lyric, Some(at * SECOND), false);
            assert_eq!(refresh, expected);
        }
    }
    let refresh =
        refresh_lyric(&config(LyricDisplayMode::ShowBoth, true), &lyric, Some(4 * SECOND), false);
    assert_eq!(refresh, show("B", None));
}

#[test]
fn untimed_translation_counts_as_no_translation() {
    let lyric = LyricState::new(track(&[(0, "A"), (3, "B")]), Some(Lyric::NoTimestamp));
    for mode in MODES {
        let refresh = refresh_lyric(&config(mode, true), &lyric, Some(SECOND), false);
        assert_eq!(refresh, show("A", None));
    }
}

#[test]
fn scenario_paused_and_hidden_blanks_the_label() {
    let full = LyricState::new(track(&[(0, "A"), (3, "B")]), track(&[(0, "a"), (3, "b")]));
    let none = LyricState::empty();
    let untimed = LyricState::new(Some(Lyric::NoTimestamp), Some(Lyric::NoTimestamp));
    for lyric in [&full, &none, &untimed] {
        for mode in MODES {
            for elapsed in [None, Some(0), Some(4 * SECOND)] {
                let refresh = refresh_lyric(&config(mode, false), lyric, elapsed, true);
                assert_eq!(refresh, show("", None));
            }
        }
    }
}

#[test]
fn paused_but_shown_keeps_computing() {
    let lyric = LyricState::new(track(&[(0, "A"), (3, "B")]), track(&[(0, "a"), (3, "b")]));
    let refresh =
        refresh_lyric(&config(LyricDisplayMode::ShowBoth, true), &lyric, Some(SECOND), true);
    assert_eq!(refresh, show("a", Some("a")));
}

#[test]
fn playing_ignores_the_pause_setting() {
    let lyric = LyricState::new(track(&[(0, "A")]), None);
    for show_on_pause in [true, false] {
        let refresh = refresh_lyric(
            &config(LyricDisplayMode::Origin, show_on_pause),
            &lyric,
            Some(SECOND),
            false,
        );
        assert_eq!(refresh, show("A", None));
    }
}

#[test]
fn refresh_without_position_is_skipped() {
    let lyric = LyricState::new(track(&[(0, "A")]), track(&[(0, "a")]));
    for mode in MODES {
        assert_eq!(refresh_lyric(&config(mode, true), &lyric, None, false), Refresh::Skip);
        assert_eq!(refresh_lyric(&config(mode, true), &lyric, None, true), Refresh::Skip);
        assert_eq!(refresh_lyric(&config(mode, false), &lyric, None, false), Refresh::Skip);
    }
}

#[test]
fn refresh_without_timed_lyrics_is_skipped() {
    let states = [
        LyricState::empty(),
        LyricState::new(Some(Lyric::NoTimestamp), None),
        LyricState::new(None, Some(Lyric::NoTimestamp)),
        LyricState::new(Some(Lyric::NoTimestamp), Some(Lyric::NoTimestamp)),
    ];
    for lyric in &states {
        for mode in MODES {
            assert_eq!(refresh_lyric(&config(mode, true), lyric, Some(SECOND), false), Refresh::Skip);
        }
    }
}

#[test]
fn refresh_before_the_first_line_shows_an_empty_label() {
    let lyric = LyricState::new(track(&[(2, "A")]), track(&[(2, "a")]));
    for mode in MODES {
        assert_eq!(refresh_lyric(&config(mode, true), &lyric, Some(SECOND), false), show("", None));
    }
}

#[test]
fn refresh_with_an_empty_timed_track_shows_an_empty_label() {
    let lyric = LyricState::new(track(&[]), None);
    assert_eq!(
        refresh_lyric(&config(LyricDisplayMode::Origin, true), &lyric, Some(SECOND), false),
        show("", None)
    );
}

#[test]
fn tracks_are_located_independently() {
    let lyric = LyricState::new(track(&[(0, "A"), (5, "B")]), track(&[(3, "a")]));
    let both = config(LyricDisplayMode::ShowBoth, true);
    assert_eq!(refresh_lyric(&both, &lyric, Some(SECOND), false), show("A", None));
    assert_eq!(refresh_lyric(&both, &lyric, Some(4 * SECOND), false), show("a", Some("a")));
    assert_eq!(refresh_lyric(&both, &lyric, Some(6 * SECOND), false), show("a", Some("a")));
    let rev = config(LyricDisplayMode::ShowBothRev, true);
    assert_eq!(refresh_lyric(&rev, &lyric, Some(SECOND), false), show("A", None));
    assert_eq!(refresh_lyric(&rev, &lyric, Some(6 * SECOND), false), show("B", Some("a")));
}

#[test]
fn translation_with_timing_beside_untimed_origin_is_shown_by_mode() {
    let lyric = LyricState::new(Some(Lyric::NoTimestamp), track(&[(0, "a")]));
    assert_eq!(
        refresh_lyric(&config(LyricDisplayMode::ShowBoth, true), &lyric, Some(SECOND), false),
        show("a", None)
    );
    assert_eq!(
        refresh_lyric(&config(LyricDisplayMode::PreferTranslation, true), &lyric, Some(SECOND), false),
        show("a", None)
    );
    assert_eq!(
        refresh_lyric(&config(LyricDisplayMode::Origin, true), &lyric, Some(SECOND), false),
        show("", None)
    );
    assert_eq!(
        refresh_lyric(&config(LyricDisplayMode::ShowBothRev, true), &lyric, Some(SECOND), false),
        show("", Some("a"))
    );
}

#[test]
fn blank_translation_line_leaves_one_line() {
    let lyric = LyricState::new(track(&[(0, "A")]), track(&[(0, "   ")]));
    assert_eq!(
        refresh_lyric(&config(LyricDisplayMode::ShowBothRev, true), &lyric, Some(SECOND), false),
        show("A", None)
    );
}

#[test]
fn refresh_gives_the_same_answer_twice() {
    let lyric = LyricState::new(track(&[(0, "A"), (3, "B")]), track(&[(0, "a"), (3, "b")]));
    let settings = config(LyricDisplayMode::ShowBoth, true);
    let first = refresh_lyric(&settings, &lyric, Some(3 * SECOND), false);
    let second = refresh_lyric(&settings, &lyric, Some(3 * SECOND), false);
    assert_eq!(first, second);
}

#[test]
fn scheduler_starts_running_with_its_interval() {
    let scheduler = register_lyric_display(100_000_000);
    assert_eq!(scheduler.state(), SchedulerState::Running);
    assert_eq!(scheduler.interval(), 100_000_000);
}

#[test]
fn scenario_surface_gone_terminates_the_scheduler() {
    let lyric = LyricState::new(track(&[(0, "A"), (3, "B")]), None);
    let settings = config(LyricDisplayMode::Origin, true);
    let mut scheduler = register_lyric_display(100_000_000);
    for n in 0..5u128 {
        let tick = scheduler.tick(true, &playing(n * SECOND), &settings, &lyric);
        assert!(matches!(tick, Tick::Continue(_)));
        assert_eq!(scheduler.state(), SchedulerState::Running);
    }
    let tick = scheduler.tick(false, &playing(5 * SECOND), &settings, &lyric);
    assert_eq!(tick, Tick::Stop);
    assert_eq!(scheduler.state(), SchedulerState::Terminated);
    let later = scheduler.tick(true, &playing(6 * SECOND), &settings, &lyric);
    assert_eq!(later, Tick::Stop);
    assert_eq!(scheduler.state(), SchedulerState::Terminated);
    assert_eq!(scheduler.interval(), 100_000_000);
}

#[test]
fn tick_without_metadata_idles() {
    let lyric = LyricState::new(track(&[(0, "A")]), None);
    let settings = config(LyricDisplayMode::Origin, false);
    let mut scheduler = register_lyric_display(50_000_000);
    for paused in [true, false] {
        let state = TrackPlaybackState { metainfo_present: false, paused, elapsed: Some(SECOND) };
        assert_eq!(scheduler.tick(true, &state, &settings, &lyric), Tick::Continue(Refresh::Skip));
        assert_eq!(scheduler.state(), SchedulerState::Running);
    }
}

#[test]
fn tick_with_metadata_refreshes() {
    let lyric = LyricState::new(track(&[(0, "A"), (3, "B")]), track(&[(0, "a"), (3, "b")]));
    let settings = config(LyricDisplayMode::ShowBoth, false);
    let mut scheduler = register_lyric_display(100_000_000);
    assert_eq!(
        scheduler.tick(true, &playing(SECOND), &settings, &lyric),
        Tick::Continue(show("a", Some("a")))
    );
    assert_eq!(
        scheduler.tick(true, &playing(3 * SECOND), &settings, &lyric),
        Tick::Continue(show("b", Some("b")))
    );
    let paused = TrackPlaybackState { metainfo_present: true, paused: true, elapsed: Some(SECOND) };
    assert_eq!(scheduler.tick(true, &paused, &settings, &lyric), Tick::Continue(show("", None)));
    let no_clock = TrackPlaybackState { metainfo_present: true, paused: false, elapsed: None };
    assert_eq!(scheduler.tick(true, &no_clock, &settings, &lyric), Tick::Continue(Refresh::Skip));
    assert_eq!(scheduler.state(), SchedulerState::Running);
}

#[test]
fn surface_gone_wins_over_everything_else() {
    let lyric = LyricState::empty();
    let settings = config(LyricDisplayMode::Origin, false);
    let state = TrackPlaybackState { metainfo_present: false, paused: true, elapsed: None };
    let mut scheduler = register_lyric_display(1);
    assert_eq!(scheduler.tick(false, &state, &settings, &lyric), Tick::Stop);
    assert_eq!(scheduler.state(), SchedulerState::Terminated);
}

#[test]
fn lyric_state_is_replaced_as_a_whole() {
    let mut state = LyricState::new(track(&[(0, "A")]), track(&[(0, "a")]));
    assert_eq!(state.origin(), &track(&[(0, "A")]));
    assert_eq!(state.translation(), &track(&[(0, "a")]));
    state.replace(track(&[(1, "B")]), None);
    assert_eq!(state.origin(), &track(&[(1, "B")]));
    assert_eq!(state.translation(), &None);
    state.clear();
    assert_eq!(state, LyricState::empty());
    assert_eq!(state.origin(), &None);
}

#[test]
fn config_setters_change_only_their_fields() {
    let mut settings = DisplayConfig::new(LyricDisplayMode::ShowBoth, 14, 10, true);
    settings.set_display_mode(LyricDisplayMode::Origin);
    assert_eq!(settings, DisplayConfig::new(LyricDisplayMode::Origin, 14, 10, true));
    settings.set_font_sizes(20, 12);
    assert_eq!(settings, DisplayConfig::new(LyricDisplayMode::Origin, 20, 12, true));
}
