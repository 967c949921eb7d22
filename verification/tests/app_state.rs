use flipclock::app::{App, KeyCode, KeyEvent, Notice, Rect};
use flipclock::modes::{AppMode, ClickAction, PomodoroPhase, SettingsField};

fn key(c: char) -> KeyEvent {
    KeyEvent { code: KeyCode::Char(c), ctrl: false, shift: false }
}

fn code(code: KeyCode) -> KeyEvent {
    KeyEvent { code, ctrl: false, shift: false }
}

fn texts(n: Option<Notice>) -> Option<(String, String)> {
    n.map(|n| (n.summary, n.body))
}

#[test]
fn starts_on_the_clock() {
    let app = App::default();
    assert_eq!(app.mode, AppMode::Clock);
    assert!(app.use_24h && app.show_seconds && app.mouse_enabled);
    assert_eq!(app.theme_idx, 0);
    assert_eq!(app.flip_states.len(), 8);
    assert_eq!(app.pomodoro.remaining_ms, 1_500_000);
    assert_eq!(app.timer.set_secs, 300);
    assert!(app.stopwatch.laps.is_empty());
}

#[test]
fn number_keys_and_tab_pick_modes() {
    let mut app = App::default();
    app.handle_key(key('3'));
    assert_eq!(app.mode, AppMode::Timer);
    app.handle_key(code(KeyCode::Tab));
    assert_eq!(app.mode, AppMode::Stopwatch);
    app.handle_key(code(KeyCode::Tab));
    assert_eq!(app.mode, AppMode::Clock);
    app.handle_key(KeyEvent { code: KeyCode::Tab, ctrl: false, shift: true });
    assert_eq!(app.mode, AppMode::Stopwatch);
    app.handle_key(code(KeyCode::BackTab));
    assert_eq!(app.mode, AppMode::Timer);
}

#[test]
fn pomodoro_start_pause_notifies() {
    let mut app = App::default();
    app.handle_key(key('2'));
    let n = texts(app.handle_key(key(' ')));
    assert!(app.pomodoro.running);
    assert_eq!(n, Some(("Pomodoro started".to_string(), "FOCUS — 25:00 left".to_string())));
    let n = texts(app.handle_key(key(' ')));
    assert!(!app.pomodoro.running);
    assert_eq!(n, Some(("Pomodoro paused".to_string(), "FOCUS — 25:00 left".to_string())));
}

#[test]
fn pomodoro_focus_runs_out_into_a_short_break() {
    let mut app = App::default();
    app.mode = AppMode::Pomodoro;
    app.pomodoro.running = true;
    app.pomodoro.remaining_ms = 50;
    let n = texts(app.tick(100));
    assert_eq!(app.pomodoro.phase, PomodoroPhase::ShortBreak);
    assert_eq!(app.pomodoro.completed, 1);
    assert_eq!(app.pomodoro.session_in_cycle, 2);
    assert_eq!(app.pomodoro.remaining_ms, 300_000);
    assert!(app.pomodoro.running);
    assert_eq!(app.flash_timer_ms, 1400);
    assert_eq!(app.info_msg.as_ref().map(|(m, t)| (m.as_str(), *t)), Some(("FOCUS complete!", 2500)));
    assert_eq!(n, Some(("FOCUS complete".to_string(), "Time for SHORT BREAK (05:00)".to_string())));
}

#[test]
fn pomodoro_break_does_not_start_focus_on_its_own() {
    let mut app = App::default();
    app.mode = AppMode::Pomodoro;
    app.pomodoro.phase = PomodoroPhase::ShortBreak;
    app.pomodoro.running = true;
    app.pomodoro.remaining_ms = 10;
    app.tick(10);
    assert_eq!(app.pomodoro.phase, PomodoroPhase::Work);
    assert!(!app.pomodoro.running);
    assert_eq!(app.pomodoro.remaining_ms, 1_500_000);
}

#[test]
fn skipping_cycles_through_a_full_pomodoro() {
    let mut app = App::default();
    app.mode = AppMode::Pomodoro;
    let mut phases = Vec::new();
    for _ in 0..8 {
        app.handle_key(key('s'));
        phases.push(app.pomodoro.phase);
    }
    let (s, w, l) = (PomodoroPhase::ShortBreak, PomodoroPhase::Work, PomodoroPhase::LongBreak);
    assert_eq!(phases, vec![s, w, s, w, s, w, l, w]);
    assert_eq!(app.pomodoro.completed, 4);
    assert_eq!(app.pomodoro.session_in_cycle, 1);
}

#[test]
fn skip_notice_names_the_next_phase() {
    let mut app = App::default();
    app.mode = AppMode::Pomodoro;
    app.flash_timer_ms = 500;
    let n = texts(app.do_action(ClickAction::Skip));
    assert_eq!(n, Some(("Pomodoro skipped".to_string(), "Now: SHORT BREAK (05:00)".to_string())));
    assert_eq!(app.flash_timer_ms, 0);
    app.flash_timer_ms = 500;
    let n = texts(app.handle_key(key('n')));
    assert_eq!(n, Some(("Pomodoro skipped".to_string(), "Now: FOCUS (25:00)".to_string())));
    assert_eq!(app.flash_timer_ms, 500);
}

#[test]
fn timer_counts_down_and_finishes() {
    let mut app = App::default();
    app.mode = AppMode::Timer;
    let n = texts(app.handle_key(key(' ')));
    assert_eq!(n, Some(("Timer started".to_string(), "05:00 left".to_string())));
    app.tick(100);
    assert_eq!(app.timer.remaining_ms, 299_900);
    app.timer.remaining_ms = 100;
    let n = texts(app.tick(100));
    assert!(app.timer.finished && !app.timer.running);
    assert_eq!(app.timer.remaining_ms, 0);
    assert_eq!(app.flash_timer_ms, 10_000);
    assert_eq!(n, Some(("Timer finished".to_string(), "05:00 elapsed — press R to reset".to_string())));
    let n = texts(app.handle_key(key(' ')));
    assert!(app.timer.running && !app.timer.finished);
    assert_eq!(app.timer.remaining_ms, 300_000);
    assert_eq!(n, Some(("Timer started".to_string(), "05:00 left".to_string())));
}

#[test]
fn typing_a_timer_length() {
    let mut app = App::default();
    app.mode = AppMode::Timer;
    app.handle_key(key('e'));
    assert!(app.timer_editing);
    assert_eq!(app.timer_buffer, "05:00");
    for _ in 0..5 {
        app.handle_key(code(KeyCode::Backspace));
    }
    for c in "90S".chars() {
        app.handle_key(key(c));
    }
    assert_eq!(app.timer_buffer, "90s");
    app.handle_key(code(KeyCode::Enter));
    assert!(!app.timer_editing);
    assert_eq!(app.timer.set_secs, 90);
    assert_eq!(app.timer.remaining_ms, 90_000);
    assert_eq!(app.info_msg.as_ref().map(|(m, t)| (m.as_str(), *t)), Some(("Timer set to 01:30", 2000)));
}

#[test]
fn refused_timer_text_keeps_typing() {
    let mut app = App::default();
    app.mode = AppMode::Timer;
    app.handle_key(key('e'));
    app.timer_buffer = String::from("5:99");
    app.handle_key(code(KeyCode::Enter));
    assert!(app.timer_editing);
    assert_eq!(app.timer.set_secs, 300);
    assert_eq!(
        app.info_msg.as_ref().map(|(m, t)| (m.as_str(), *t)),
        Some(("Invalid time — use MM:SS (e.g. 25:00)", 2500))
    );
    app.handle_key(code(KeyCode::Esc));
    assert!(!app.timer_editing);
    assert_eq!(app.timer_buffer, "");
}

#[test]
fn typed_timer_text_stops_at_eight_bytes() {
    let mut app = App::default();
    app.mode = AppMode::Timer;
    app.handle_key(key('e'));
    for c in "123456789x".chars() {
        app.handle_key(key(c));
    }
    assert_eq!(app.timer_buffer, "05:00123");
}

#[test]
fn saving_the_prefilled_text_keeps_the_length() {
    let mut app = App::default();
    app.mode = AppMode::Timer;
    app.timer.set_secs = 3690;
    app.timer.remaining_ms = 3_690_000;
    app.handle_key(key('e'));
    assert_eq!(app.timer_buffer, "01:01:30");
    app.handle_key(code(KeyCode::Enter));
    assert_eq!(app.timer.set_secs, 3690);
}

#[test]
fn stopwatch_laps_and_reset() {
    let mut app = App::default();
    app.mode = AppMode::Stopwatch;
    app.handle_key(key('l'));
    assert!(app.stopwatch.laps.is_empty());
    app.handle_key(key(' '));
    app.tick(100);
    app.tick(50);
    app.handle_key(key('l'));
    app.tick(25);
    app.handle_key(key('L'));
    assert_eq!(app.stopwatch.laps, vec![150, 175]);
    assert_eq!(app.stopwatch.elapsed_ms, 175);
    app.handle_key(key('r'));
    assert!(!app.stopwatch.running);
    assert_eq!(app.stopwatch.elapsed_ms, 0);
    assert!(app.stopwatch.laps.is_empty());
}

#[test]
fn settings_panel_adjusts_lengths_within_limits() {
    let mut app = App::default();
    app.handle_key(key('S'));
    assert!(app.show_settings);
    app.handle_key(code(KeyCode::Down));
    app.handle_key(code(KeyCode::Down));
    assert_eq!(app.settings_field, SettingsField::Work);
    app.handle_key(code(KeyCode::Right));
    assert_eq!(app.pomodoro.work_secs, 26 * 60);
    assert_eq!(app.pomodoro.remaining_ms, 26 * 60 * 1000);
    for _ in 0..40 {
        app.handle_key(key('+'));
    }
    assert_eq!(app.pomodoro.work_secs, 60 * 60);
    app.settings_field = SettingsField::Cycles;
    for _ in 0..10 {
        app.handle_key(key('-'));
    }
    assert_eq!(app.pomodoro.sessions_before_long, 2);
    app.handle_key(key('q'));
    assert!(!app.show_settings);
}

#[test]
fn themes_cycle_both_ways() {
    let mut app = App::default();
    app.handle_key(key('['));
    assert_eq!(app.theme_idx, 6);
    app.handle_key(key(']'));
    assert_eq!(app.theme_idx, 0);
    for _ in 0..7 {
        app.handle_key(key('T'));
    }
    assert_eq!(app.theme_idx, 0);
    assert_eq!(app.theme().name, "System (terminal)");
    app.theme_idx = 1;
    assert_eq!(app.theme().name, "Everforest");
}

#[test]
fn transparent_background_clears_backgrounds_only() {
    let mut app = App::default();
    app.theme_idx = 4;
    let base = app.base_theme();
    app.handle_key(key('b'));
    let th = app.theme();
    assert_eq!(th.bg, flipclock::theme::Color::Reset);
    assert_eq!(th.popup_bg, flipclock::theme::Color::Reset);
    assert_eq!(th.text_main, base.text_main);
    assert_eq!(th.accent_red, base.accent_red);
}

#[test]
fn clicks_hit_the_topmost_region() {
    let mut app = App::default();
    app.clickables.push((Rect { x: 0, y: 0, width: 10, height: 2 }, ClickAction::Mode(AppMode::Timer)));
    app.clickables.push((Rect { x: 5, y: 0, width: 10, height: 1 }, ClickAction::ToggleSettings));
    app.handle_click(6, 0);
    assert!(app.show_settings);
    assert_eq!(app.mode, AppMode::Clock);
    app.handle_click(6, 1);
    assert_eq!(app.mode, AppMode::Timer);
    app.handle_click(40, 40);
    assert_eq!(app.mode, AppMode::Timer);
}

#[test]
fn quitting() {
    let mut app = App::default();
    app.handle_key(KeyEvent { code: KeyCode::Char('q'), ctrl: true, shift: false });
    assert!(app.should_quit);
    let mut app = App::default();
    app.handle_key(code(KeyCode::Esc));
    assert!(app.should_quit);
}

#[test]
fn messages_fade_out() {
    let mut app = App::default();
    app.info_msg = Some((String::from("hi"), 150));
    app.flash_timer_ms = 120;
    app.tick(100);
    assert_eq!(app.info_msg.as_ref().map(|(_, t)| *t), Some(50));
    assert_eq!(app.flash_timer_ms, 20);
    app.tick(100);
    assert!(app.info_msg.is_none());
    assert_eq!(app.flash_timer_ms, 0);
}

#[test]
fn flips_grow_and_settle() {
    let mut app = App::default();
    app.update_flips(&['1', '0', '2', '0', '0', '0', '0', '0', '9']);
    assert_eq!(app.flip_states.len(), 9);
    assert!(app.flip_states[0].animating);
    assert!(!app.flip_states[1].animating);
    app.tick_flips(100);
    assert_eq!(app.flip_states[0].progress_milli, 700);
    app.tick_flips(100);
    assert!(!app.flip_states[0].animating);
    assert_eq!(app.flip_states[0].progress_milli, 1000);
    assert_eq!(app.flip_states[0].previous, '0');
}

#[test]
fn overflow_checks_report_what_would_overflow() {
    let mut app = App::default();
    app.mode = AppMode::Pomodoro;
    app.pomodoro.completed = u32::MAX;
    assert!(!app.can_handle_key(key('s')));
    assert!(app.can_handle_key(key(' ')));
    assert!(!app.can_do(ClickAction::Skip));
    app.pomodoro.running = true;
    app.pomodoro.remaining_ms = 10;
    assert!(!app.can_tick(10));
    assert!(app.can_tick(5));
    app.mode = AppMode::Stopwatch;
    app.stopwatch.running = true;
    app.stopwatch.elapsed_ms = u64::MAX - 1;
    assert!(!app.can_tick(2));
    assert!(app.can_tick(1));
}
