use flipclock::modes::{AppMode, PomodoroPhase, SettingsField};
use flipclock::theme::{theme_at, Color, THEME_COUNT};
use flipclock::timers::{PomodoroState, TimerState};

#[test]
fn modes_cycle() {
    let mut m = AppMode::Clock;
    for _ in 0..4 {
        m = m.next();
    }
    assert_eq!(m, AppMode::Clock);
    assert_eq!(AppMode::Clock.prev(), AppMode::Stopwatch);
    assert_eq!(AppMode::Timer.next().prev(), AppMode::Timer);
}

#[test]
fn settings_rows_cycle() {
    assert_eq!(SettingsField::AutoWork.next(), SettingsField::Theme);
    assert_eq!(SettingsField::Theme.prev(), SettingsField::AutoWork);
    let mut f = SettingsField::Work;
    for _ in 0..8 {
        f = f.next();
    }
    assert_eq!(f, SettingsField::Work);
}

#[test]
fn phase_labels() {
    assert_eq!(PomodoroPhase::Work.label(), "FOCUS");
    assert_eq!(PomodoroPhase::ShortBreak.label(), "SHORT BREAK");
    assert_eq!(PomodoroPhase::LongBreak.label(), "LONG BREAK");
}

#[test]
fn theme_table() {
    let names: Vec<&str> = (0..THEME_COUNT).map(|i| theme_at(i).name).collect();
    assert_eq!(
        names,
        vec!["System (terminal)", "Everforest", "Catppuccin Mocha", "Tokyonight Night", "Gruvbox Dark", "Rosé Pine", "Terafox"]
    );
    assert!(theme_at(0).transparent);
    assert_eq!(theme_at(1).bg, Color::Rgb(43, 51, 57));
    assert_eq!(theme_at(6).accent_yellow, Color::Rgb(231, 203, 123));
}

#[test]
fn pomodoro_phases_and_lengths() {
    let mut p = PomodoroState::new();
    assert_eq!(p.phase_duration(), 1_500_000);
    let th = theme_at(1);
    assert_eq!(p.phase_color(&th), th.accent_red);
    p.sessions_before_long = 1;
    p.advance();
    assert_eq!(p.phase, PomodoroPhase::LongBreak);
    assert_eq!(p.remaining_ms, 900_000);
    assert_eq!(p.phase_color(&th), th.accent_blue);
    p.remaining_ms = 5;
    p.running = true;
    p.reset_current();
    assert_eq!(p.remaining_ms, 900_000);
    assert!(!p.running);
}

#[test]
fn timer_sync_only_when_paused() {
    let mut t = TimerState::new();
    t.set_secs = 60;
    t.finished = true;
    t.sync();
    assert_eq!(t.remaining_ms, 60_000);
    assert!(!t.finished);
    t.running = true;
    t.set_secs = 10;
    t.sync();
    assert_eq!(t.remaining_ms, 60_000);
}
