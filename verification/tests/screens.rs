use flipclock::app::{App, Rect};
use flipclock::glyph::{choose_card_size, flip_card_cell, glyph7, CardGeom, colon_plan};
use flipclock::modes::{AppMode, ClickAction, SettingsField};
use flipclock::render::{
    buttons_width, controls_for, controls_hint, cycle_dot, display_layout, display_text,
    fallback_message, field_value, header_regions, info_popup, lap_label, lap_split, laps_title,
    mode_info, pomodoro_bar_span, pretty_time, progress_bar_width, progress_fill_width, settings_line,
    settings_popup, stopwatch_status, DotKind, InfoTone, PixelSize,
};
use flipclock::theme::{theme_at, Color};
use flipclock::timers::{FlipState, PomodoroState};

#[test]
fn glyphs_have_seven_rows_of_five() {
    let g = glyph7('8');
    assert_eq!(g[0], " ███ ");
    assert_eq!(g[3], "     ");
    assert!(g.iter().all(|r| r.chars().count() == 5));
    assert_eq!(glyph7('x')[1], "  ?  ");
}

#[test]
fn picks_the_largest_card_that_fits() {
    assert_eq!(choose_card_size(200, 20, 6, 2), Some(CardGeom { w: 13, h: 11, gap: 1, colon_w: 4 }));
    // 6*11 + 5 + 2*3 + 2 + 4 = 83
    assert_eq!(choose_card_size(83, 15, 6, 2), Some(CardGeom { w: 11, h: 11, gap: 1, colon_w: 3 }));
    assert_eq!(choose_card_size(200, 14, 6, 2), Some(CardGeom { w: 10, h: 10, gap: 1, colon_w: 3 }));
    assert_eq!(choose_card_size(10, 10, 6, 2), None);
}

#[test]
fn digit_cards_have_borders_and_glyphs() {
    let th = theme_at(1);
    let (c, s) = flip_card_cell(0, 0, 11, 11, '1', false, &th);
    assert_eq!(c, '┌');
    assert_eq!(s.fg, Some(th.card_border));
    assert_eq!(flip_card_cell(10, 10, 11, 11, '1', false, &th).0, '┘');
    assert_eq!(flip_card_cell(5, 0, 11, 11, '1', false, &th).0, '─');
    // interior 9x9, glyph offset (2, 1): cell (dx, dy) = (5, 2) is glyph (2, 0) of '1'
    let (c, s) = flip_card_cell(5, 2, 11, 11, '1', true, &th);
    assert_eq!(c, '█');
    assert_eq!(s.fg, Some(Color::Rgb(16, 16, 18)));
    assert_eq!(s.bg, Some(th.accent_yellow));
    assert_eq!(flip_card_cell(3, 2, 11, 11, '1', false, &th).0, ' ');
}

#[test]
fn colon_dots_sit_around_the_middle() {
    let th = theme_at(2);
    let p = colon_plan(10, 4, 3, 10, true, false, &th);
    assert_eq!((p.dot_x, p.dot_y1, p.dot_y2), (11, 7, 10));
    assert_eq!(p.color, th.text_main);
    assert_eq!(colon_plan(0, 0, 2, 2, false, true, &th).dot_y1, 0);
}

#[test]
fn progress_bar_geometry() {
    assert_eq!(progress_bar_width(100), 60);
    assert_eq!(progress_bar_width(50), 30);
    assert_eq!(progress_bar_width(25), 20);
    assert_eq!(progress_bar_width(10), 10);
    assert_eq!(progress_fill_width(60, 1_500_000, 750_000), 30);
    assert_eq!(progress_fill_width(60, 1_500_000, 1_500_000), 0);
    assert_eq!(progress_fill_width(60, 1_500_000, 0), 60);
    assert_eq!(progress_fill_width(60, 0, 0), 0);
    let mut p = PomodoroState::new();
    assert_eq!(pomodoro_bar_span(&p), 1_500_000);
    p.work_secs = 0;
    assert_eq!(pomodoro_bar_span(&p), 1000);
}

#[test]
fn cycle_dots_mark_sessions() {
    let mut p = PomodoroState::new();
    p.session_in_cycle = 2;
    assert_eq!(cycle_dot(0, &p), DotKind::Filled);
    assert_eq!(cycle_dot(1, &p), DotKind::Active);
    assert_eq!(cycle_dot(2, &p), DotKind::Empty);
    p.phase = flipclock::modes::PomodoroPhase::ShortBreak;
    p.completed = 2;
    assert_eq!(cycle_dot(1, &p), DotKind::Filled);
}

#[test]
fn stopwatch_status_line() {
    assert_eq!(stopwatch_status(83_456, true), "01:23.45  •  ● RUNNING");
    assert_eq!(stopwatch_status(0, false), "00:00.00  •  ○ PAUSED");
}

#[test]
fn control_rows_per_mode() {
    let mut app = App::default();
    let th = app.theme();
    assert!(controls_for(&app, &th).is_empty());
    app.mode = AppMode::Timer;
    let labels: Vec<&str> = controls_for(&app, &th).iter().map(|b| b.label).collect();
    assert_eq!(labels, vec![" ✎ EDIT ", " ▶ START ", " ↺ RESET "]);
    app.timer.running = true;
    let bs = controls_for(&app, &th);
    assert_eq!(bs[0].label, " ❚❚ PAUSE ");
    assert_eq!(bs[0].action, ClickAction::StartPause);
    app.timer_editing = true;
    let bs = controls_for(&app, &th);
    assert_eq!(bs[1].action, ClickAction::TimerCancel);
    // " ✓ SAVE " is 10 bytes, " ✗ CANCEL " 12: 12 + 14 + 1
    assert_eq!(buttons_width(&bs), 27);
    assert_eq!(controls_hint(AppMode::Stopwatch, false), "space start  •  l lap  •  r reset");
}

#[test]
fn big_time_text() {
    let d: Vec<char> = "123456".chars().collect();
    assert_eq!(pretty_time(AppMode::Clock, &d, true), "12:34:56");
    assert_eq!(pretty_time(AppMode::Clock, &d, false), "12:34");
    assert_eq!(pretty_time(AppMode::Stopwatch, &d, false), "12:34.56");
    let d4: Vec<char> = "2500".chars().collect();
    assert_eq!(pretty_time(AppMode::Pomodoro, &d4, true), "25:00");
    let mut app = App::default();
    app.mode = AppMode::Timer;
    app.timer_editing = true;
    assert_eq!(display_text(&app, &d4), "2500");
    app.timer_buffer = String::from("90s");
    assert_eq!(display_text(&app, &d4), "90s");
}

#[test]
fn big_time_layout() {
    let (fallback, r, _) = display_layout(Rect { x: 0, y: 4, width: 20, height: 12 });
    assert!(fallback);
    assert_eq!((r.y, r.height), (9, 1));
    let (fallback, r, px) = display_layout(Rect { x: 0, y: 4, width: 80, height: 12 });
    assert!(!fallback);
    assert_eq!(px, PixelSize::Quadrant);
    assert_eq!((r.y, r.height), (8, 4));
    let (_, r, px) = display_layout(Rect { x: 0, y: 0, width: 80, height: 9 });
    assert_eq!(px, PixelSize::Sextant);
    assert_eq!((r.y, r.height), (3, 3));
}

#[test]
fn settings_rows() {
    let mut app = App::default();
    assert_eq!(field_value(&app, SettingsField::Work, "x"), "25 min");
    assert_eq!(field_value(&app, SettingsField::Cycles, "x"), "4");
    assert_eq!(field_value(&app, SettingsField::AutoWork, "x"), "OFF");
    app.pomodoro.short_secs = 60;
    assert_eq!(field_value(&app, SettingsField::Short, "x"), "01 min");
    assert_eq!(
        settings_line("Focus", "25 min", true, false, 60),
        "▶ Focus                        25 min  ◀▶"
    );
    assert_eq!(settings_line("Theme", "Everforest", false, true, 10), "  Theme   ");
    let (popup, inner) = settings_popup(Rect { x: 0, y: 0, width: 100, height: 40 }).unwrap();
    assert_eq!(popup, Rect { x: 21, y: 8, width: 58, height: 24 });
    assert_eq!(inner, Rect { x: 23, y: 10, width: 54, height: 20 });
    assert!(settings_popup(Rect { x: 0, y: 0, width: 29, height: 40 }).is_none());
}

#[test]
fn header_tabs_from_the_right() {
    let regions = header_regions(Rect { x: 0, y: 0, width: 80, height: 3 });
    assert_eq!(regions.len(), 5);
    assert_eq!(regions[0], (Rect { x: 74, y: 1, width: 5, height: 1 }, ClickAction::ToggleSettings));
    assert_eq!(regions[1], (Rect { x: 59, y: 1, width: 13, height: 1 }, ClickAction::Mode(AppMode::Stopwatch)));
    assert_eq!(regions[4].1, ClickAction::Mode(AppMode::Clock));
    let narrow = header_regions(Rect { x: 0, y: 0, width: 30, height: 2 });
    assert_eq!(narrow.len(), 2);
    assert!(header_regions(Rect { x: 0, y: 0, width: 19, height: 3 }).is_empty());
}

#[test]
fn line_under_the_header() {
    let mut app = App::default();
    app.mode = AppMode::Pomodoro;
    let spans = mode_info(&app, 80, "", 0);
    let texts: Vec<&str> = spans.iter().map(|(s, _)| s.as_str()).collect();
    assert_eq!(texts, vec![" FOCUS ", "  ", "SESSION 1/4  •  TOTAL 0", "  ", "○ PAUSED"]);
    assert_eq!(spans[0].1, InfoTone::Badge);
    assert_eq!(mode_info(&app, 40, "", 0).len(), 3);
    app.mode = AppMode::Clock;
    app.use_24h = false;
    assert_eq!(mode_info(&app, 80, "MONDAY", 13)[0].0, "MONDAY PM");
    app.mode = AppMode::Stopwatch;
    app.stopwatch.laps.push(5);
    assert_eq!(mode_info(&app, 80, "", 0)[0].0, "1 LAPS  •  ○ PAUSED");
}

#[test]
fn popups_and_fallbacks() {
    assert_eq!(info_popup(Rect { x: 0, y: 0, width: 80, height: 30 }, 20), Some(Rect { x: 27, y: 24, width: 26, height: 3 }));
    assert_eq!(info_popup(Rect { x: 0, y: 0, width: 80, height: 3 }, 20), None);
    let d: Vec<char> = "1234".chars().collect();
    assert_eq!(fallback_message(&d, "Gruvbox Dark", AppMode::Timer), "1234  [Gruvbox Dark]  TIMER  (resize to enlarge, Q quit)");
}

#[test]
fn lap_rows() {
    let laps = vec![1_000, 2_500, 2_000];
    assert_eq!(lap_split(&laps, 1), 1_000);
    assert_eq!(lap_split(&laps, 2), 1_500);
    assert_eq!(lap_split(&laps, 3), 2_000);
    assert_eq!(lap_label(3), " LAP 03 ");
    assert_eq!(laps_title(3), " LAPS (3 total) — newest first ");
}

#[test]
fn flip_card_state_changes() {
    let mut f = FlipState::new('3');
    f.set('3');
    assert!(!f.animating);
    f.set('4');
    assert_eq!((f.current, f.previous, f.progress_milli, f.animating), ('4', '3', 0, true));
    assert_eq!(f.eased(), 0);
    f.tick(50);
    assert_eq!(f.progress_milli, 350);
    assert_eq!(f.eased(), 171);
    f.tick(500);
    assert_eq!(f.eased(), 1000);
}
