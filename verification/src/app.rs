use vstd::prelude::*;
use crate::modes::{
    AppMode, ClickAction, PomodoroPhase, SettingsField, phase_label_text, next_field, prev_field,
    next_mode, prev_mode,
};
use crate::parse::{parse_timer_input, timer_secs_from, normalized_input};
use crate::text::{cat2, cat3, cat5, owned, pop_char, push_char};
use crate::theme::{Color, Theme, THEME_COUNT, theme_at, theme_table};
use crate::timefmt::{hms_text, format_duration_hms};
use crate::timers::{
    FlipState, PomodoroState, StopwatchState, TimerState, advanced, can_advance, phase_ms,
    flip_with, flip_ticked,
};

verus! {

/// A screen rectangle in cells.
#[derive(Clone, Copy, PartialEq, Eq, Debug, Structural)]
pub struct Rect {
    pub x: u16,
    pub y: u16,
    pub width: u16,
    pub height: u16,
}

/// Whether the cell `(x, y)` lies inside `r`.
pub open spec fn rect_contains(r: Rect, x: u16, y: u16) -> bool {
    r.x <= x < r.x + r.width && r.y <= y < r.y + r.height
}

/// A key as the clock reads it.
#[derive(Clone, Copy, PartialEq, Eq, Debug, Structural)]
pub enum KeyCode {
    Char(char),
    F(u8),
    Esc,
    Enter,
    Backspace,
    Tab,
    BackTab,
    Up,
    Down,
    Left,
    Right,
    Other,
}

/// A key press with the state of Ctrl and Shift.
#[derive(Clone, Copy, PartialEq, Eq, Debug, Structural)]
pub struct KeyEvent {
    pub code: KeyCode,
    pub ctrl: bool,
    pub shift: bool,
}

/// A desktop notification to be shown: a summary line and a body.
#[derive(Debug)]
pub struct Notice {
    pub summary: String,
    pub body: String,
}

/// The summary and body of a notification, as text.
pub open spec fn notice_view(n: Option<Notice>) -> Option<(Seq<char>, Seq<char>)> {
    match n {
        Some(n) => Some((n.summary@, n.body@)),
        None => None,
    }
}

/// The whole state of the clock. Spans of time are in milliseconds.
pub struct App {
    pub mode: AppMode,
    pub pomodoro: PomodoroState,
    pub timer: TimerState,
    pub stopwatch: StopwatchState,
    pub use_24h: bool,
    pub show_seconds: bool,
    pub show_settings: bool,
    pub settings_field: SettingsField,
    pub flip_states: Vec<FlipState>,
    pub colon_blink: bool,
    pub colon_timer_ms: u64,
    pub flash_timer_ms: u64,
    pub should_quit: bool,
    pub info_msg: Option<(String, u64)>,
    pub theme_idx: usize,
    pub transparent_bg: bool,
    pub mouse_enabled: bool,
    pub clickables: Vec<(Rect, ClickAction)>,
    pub timer_editing: bool,
    pub timer_buffer: String,
}

/// The state of the clock as values: strings as characters, vectors as
/// sequences.
pub struct AppView {
    pub mode: AppMode,
    pub pomodoro: PomodoroState,
    pub timer: TimerState,
    pub elapsed_ms: u64,
    pub stopwatch_running: bool,
    pub laps: Seq<u64>,
    pub use_24h: bool,
    pub show_seconds: bool,
    pub show_settings: bool,
    pub settings_field: SettingsField,
    pub flip_states: Seq<FlipState>,
    pub colon_blink: bool,
    pub colon_timer_ms: u64,
    pub flash_timer_ms: u64,
    pub should_quit: bool,
    pub info_msg: Option<(Seq<char>, u64)>,
    pub theme_idx: usize,
    pub transparent_bg: bool,
    pub mouse_enabled: bool,
    pub clickables: Seq<(Rect, ClickAction)>,
    pub timer_editing: bool,
    pub timer_buffer: Seq<char>,
}

impl View for App {
    type V = AppView;

    open spec fn view(&self) -> AppView {
        AppView {
            mode: self.mode,
            pomodoro: self.pomodoro,
            timer: self.timer,
            elapsed_ms: self.stopwatch.elapsed_ms,
            stopwatch_running: self.stopwatch.running,
            laps: self.stopwatch.laps@,
            use_24h: self.use_24h,
            show_seconds: self.show_seconds,
            show_settings: self.show_settings,
            settings_field: self.settings_field,
            flip_states: self.flip_states@,
            colon_blink: self.colon_blink,
            colon_timer_ms: self.colon_timer_ms,
            flash_timer_ms: self.flash_timer_ms,
            should_quit: self.should_quit,
            info_msg: match self.info_msg {
                Some((s, t)) => Some((s@, t)),
                None => None,
            },
            theme_idx: self.theme_idx,
            transparent_bg: self.transparent_bg,
            mouse_enabled: self.mouse_enabled,
            clickables: self.clickables@,
            timer_editing: self.timer_editing,
            timer_buffer: self.timer_buffer@,
        }
    }
}

/// The state the clock starts in: the wall clock in 24-hour form with
/// seconds, the first theme, eight cards showing `0`, mouse on.
pub open spec fn initial_view() -> AppView {
    AppView {
        mode: AppMode::Clock,
        pomodoro: PomodoroState {
            work_secs: 1500,
            short_secs: 300,
            long_secs: 900,
            sessions_before_long: 4,
            phase: PomodoroPhase::Work,
            remaining_ms: 1500000,
            running: false,
            completed: 0,
            session_in_cycle: 1,
            auto_start_breaks: true,
            auto_start_work: false,
        },
        timer: TimerState { set_secs: 300, remaining_ms: 300000, running: false, finished: false },
        elapsed_ms: 0,
        stopwatch_running: false,
        laps: Seq::empty(),
        use_24h: true,
        show_seconds: true,
        show_settings: false,
        settings_field: SettingsField::Theme,
        flip_states: Seq::new(
            8,
            |i: int| FlipState { current: '0', previous: '0', progress_milli: 1000, animating: false },
        ),
        colon_blink: true,
        colon_timer_ms: 0,
        flash_timer_ms: 0,
        should_quit: false,
        info_msg: None,
        theme_idx: 0,
        transparent_bg: false,
        mouse_enabled: true,
        clickables: Seq::empty(),
        timer_editing: false,
        timer_buffer: Seq::empty(),
    }
}

/// The palette in use: the selected theme, with every background turned to
/// the terminal's own when transparency is on.
pub open spec fn active_theme(v: AppView) -> Theme {
    let th = theme_table((v.theme_idx % THEME_COUNT) as int);
    if v.transparent_bg {
        Theme {
            bg: Color::Reset,
            slab_bg: Color::Reset,
            card_top_bg: Color::Reset,
            card_bottom_bg: Color::Reset,
            popup_bg: Color::Reset,
            ..th
        }
    } else {
        th
    }
}

/// The typed timer length is dropped.
pub open spec fn edit_cancelled(v: AppView) -> AppView {
    AppView { timer_editing: false, timer_buffer: Seq::empty(), ..v }
}

/// Typing a timer length starts, prefilled with the set length; only in
/// Timer mode and while the timer is not running.
pub open spec fn edit_entered(v: AppView) -> AppView {
    if v.mode != AppMode::Timer || v.timer.running {
        v
    } else {
        AppView {
            timer_editing: true,
            timer_buffer: hms_text((v.timer.set_secs * 1000) as u64),
            ..v
        }
    }
}

/// The message shown after typed input is refused.
pub open spec fn invalid_time_text() -> Seq<char> {
    "Invalid time \u{2014} use MM:SS (e.g. 25:00)"@
}

/// The typed timer length is taken: on input the parser reads, the timer is
/// set to it (rewound when paused), typing ends and a confirmation is shown
/// for 2 s; otherwise typing goes on and an error is shown for 2.5 s.
pub open spec fn edit_saved(v: AppView) -> AppView {
    match timer_secs_from(normalized_input(v.timer_buffer)) {
        Some(secs) => {
            let t = TimerState { set_secs: secs, ..v.timer };
            let t2 = if t.running {
                t
            } else {
                TimerState { remaining_ms: (secs * 1000) as u64, finished: false, ..t }
            };
            AppView {
                timer: t2,
                timer_editing: false,
                timer_buffer: Seq::empty(),
                info_msg: Some(("Timer set to "@ + hms_text((secs * 1000) as u64), 2000)),
                ..v
            }
        },
        None => AppView { info_msg: Some((invalid_time_text(), 2500)), ..v },
    }
}

/// `i` moved one theme on, wrapping.
pub open spec fn theme_after(i: usize) -> usize {
    ((i + 1) % (THEME_COUNT as int)) as usize
}

/// `i` moved one theme back, wrapping.
pub open spec fn theme_before(i: usize) -> usize {
    ((i + THEME_COUNT - 1) % (THEME_COUNT as int)) as usize
}

/// The pomodoro rewound to the length of its phase unless it is running.
pub open spec fn pomodoro_synced(p: PomodoroState) -> PomodoroState {
    if p.running {
        p
    } else {
        PomodoroState { remaining_ms: phase_ms(p), ..p }
    }
}

/// Body of the notification for starting or pausing the pomodoro.
pub open spec fn pomodoro_left_text(p: PomodoroState) -> Seq<char> {
    phase_label_text(p.phase) + " \u{2014} "@ + hms_text(p.remaining_ms) + " left"@
}

/// Body of the notification after skipping to the next phase.
pub open spec fn skipped_text(p: PomodoroState) -> Seq<char> {
    "Now: "@ + phase_label_text(p.phase) + " ("@ + hms_text(phase_ms(p)) + ")"@
}

/// Whether `a` can be carried out without an arithmetic overflow: skipping
/// must not overflow the completed count, and the theme index must leave
/// room to move.
pub open spec fn action_ok(v: AppView, a: ClickAction) -> bool {
    match a {
        ClickAction::Skip => v.mode == AppMode::Pomodoro ==> can_advance(v.pomodoro),
        ClickAction::ThemeNext => v.theme_idx < usize::MAX,
        ClickAction::SettingsField(SettingsField::Theme) => v.theme_idx < usize::MAX,
        ClickAction::ThemePrev => v.theme_idx <= usize::MAX - THEME_COUNT,
        _ => true,
    }
}

/// Start/pause: toggles the running mode's clock (a finished timer restarts
/// from its set length) and, for the pomodoro and the timer, tells how much
/// is left.
pub open spec fn after_start_pause(v: AppView) -> (AppView, Option<(Seq<char>, Seq<char>)>) {
    match v.mode {
        AppMode::Pomodoro => {
            let p = PomodoroState { running: !v.pomodoro.running, ..v.pomodoro };
            let summary = if p.running {
                "Pomodoro started"@
            } else {
                "Pomodoro paused"@
            };
            (AppView { pomodoro: p, ..v }, Some((summary, pomodoro_left_text(p))))
        },
        AppMode::Timer => if v.timer.finished {
            let t = TimerState {
                finished: false,
                remaining_ms: (v.timer.set_secs * 1000) as u64,
                running: true,
                ..v.timer
            };
            (
                AppView { timer: t, flash_timer_ms: 0, ..v },
                Some(("Timer started"@, hms_text(t.remaining_ms) + " left"@)),
            )
        } else {
            let t = TimerState { running: !v.timer.running, ..v.timer };
            let summary = if t.running {
                "Timer started"@
            } else {
                "Timer paused"@
            };
            (AppView { timer: t, ..v }, Some((summary, hms_text(t.remaining_ms) + " left"@)))
        },
        AppMode::Stopwatch => (AppView { stopwatch_running: !v.stopwatch_running, ..v }, None),
        AppMode::Clock => (v, None),
    }
}

/// Reset: rewinds the running mode's clock, paused; the stopwatch also
/// loses its laps; on the wall clock it shows or hides the seconds.
pub open spec fn after_reset(v: AppView) -> AppView {
    match v.mode {
        AppMode::Pomodoro => AppView {
            pomodoro: PomodoroState {
                remaining_ms: phase_ms(v.pomodoro),
                running: false,
                ..v.pomodoro
            },
            ..v
        },
        AppMode::Timer => edit_cancelled(
            AppView {
                timer: TimerState {
                    running: false,
                    finished: false,
                    remaining_ms: (v.timer.set_secs * 1000) as u64,
                    ..v.timer
                },
                flash_timer_ms: 0,
                ..v
            },
        ),
        AppMode::Stopwatch => AppView {
            stopwatch_running: false,
            elapsed_ms: 0,
            laps: Seq::empty(),
            ..v
        },
        AppMode::Clock => AppView { show_seconds: !v.show_seconds, ..v },
    }
}

/// The pomodoro moved on to its next phase, paused.
pub open spec fn after_skip(v: AppView) -> AppView {
    AppView { pomodoro: PomodoroState { running: false, ..advanced(v.pomodoro) }, ..v }
}

/// A click on a settings row selects it; on a switch it flips the switch,
/// on the theme row it moves to the next theme. A paused pomodoro is then
/// rewound to the (possibly new) length of its phase.
pub open spec fn after_field(v: AppView, f: SettingsField) -> AppView {
    let v1 = AppView { settings_field: f, ..v };
    let v2 = match f {
        SettingsField::AutoBreak => AppView {
            pomodoro: PomodoroState {
                auto_start_breaks: !v1.pomodoro.auto_start_breaks,
                ..v1.pomodoro
            },
            ..v1
        },
        SettingsField::AutoWork => AppView {
            pomodoro: PomodoroState { auto_start_work: !v1.pomodoro.auto_start_work, ..v1.pomodoro },
            ..v1
        },
        SettingsField::Transparent => AppView { transparent_bg: !v1.transparent_bg, ..v1 },
        SettingsField::Theme => AppView { theme_idx: theme_after(v1.theme_idx), ..v1 },
        _ => v1,
    };
    AppView { pomodoro: pomodoro_synced(v2.pomodoro), ..v2 }
}

/// What a click action does to the clock, and the notification it raises.
#[verifier::opaque]
pub open spec fn after_action(v: AppView, a: ClickAction) -> (AppView, Option<(Seq<char>, Seq<char>)>) {
    match a {
        ClickAction::Mode(m) => (edit_cancelled(AppView { mode: m, ..v }), None),
        ClickAction::StartPause => after_start_pause(v),
        ClickAction::Reset => (after_reset(v), None),
        ClickAction::Skip => if v.mode == AppMode::Pomodoro {
            let v2 = AppView { flash_timer_ms: 0, ..after_skip(v) };
            (v2, Some(("Pomodoro skipped"@, skipped_text(v2.pomodoro))))
        } else {
            (v, None)
        },
        ClickAction::Lap => if v.mode == AppMode::Stopwatch && (v.stopwatch_running || v.elapsed_ms
            > 0) {
            (AppView { laps: v.laps.push(v.elapsed_ms), ..v }, None)
        } else {
            (v, None)
        },
        ClickAction::TimerEdit => (edit_entered(v), None),
        ClickAction::TimerSave => (edit_saved(v), None),
        ClickAction::TimerCancel => (edit_cancelled(v), None),
        ClickAction::ToggleSettings => (AppView { show_settings: !v.show_settings, ..v }, None),
        ClickAction::SettingsClose => (AppView { show_settings: false, ..v }, None),
        ClickAction::SettingsField(f) => (after_field(v, f), None),
        ClickAction::ThemePrev => (AppView { theme_idx: theme_before(v.theme_idx), ..v }, None),
        ClickAction::ThemeNext => (AppView { theme_idx: theme_after(v.theme_idx), ..v }, None),
        ClickAction::Toggle24h => (AppView { use_24h: !v.use_24h, ..v }, None),
        ClickAction::ToggleSeconds => (AppView { show_seconds: !v.show_seconds, ..v }, None),
        ClickAction::ToggleTransparent => (AppView { transparent_bg: !v.transparent_bg, ..v }, None),
    }
}

/// `a - b`, or 0 when `b` is the larger.
pub open spec fn sat_sub(a: u64, b: u64) -> u64 {
    if a > b {
        (a - b) as u64
    } else {
        0
    }
}

/// Whether a tick of `dt` ms can run without an arithmetic overflow: a
/// finishing focus session must not overflow the completed count, and the
/// stopwatch must not overflow.
pub open spec fn tick_ok(v: AppView, dt: u64) -> bool {
    &&& (v.mode == AppMode::Pomodoro && v.pomodoro.running && v.pomodoro.remaining_ms <= dt)
        ==> can_advance(v.pomodoro)
    &&& (v.mode == AppMode::Stopwatch && v.stopwatch_running) ==> v.elapsed_ms + dt <= u64::MAX
}

/// The message shown when the countdown runs out.
pub open spec fn times_up_text() -> Seq<char> {
    "TIME'S UP! Press R to reset"@
}

/// The pomodoro once its running phase has run out: the next phase begins,
/// running when its kind is set to start on its own.
pub open spec fn pomodoro_rolled_over(p: PomodoroState) -> PomodoroState {
    let p1 = advanced(PomodoroState { remaining_ms: 0, ..p });
    let auto = if p1.phase == PomodoroPhase::Work {
        p1.auto_start_work
    } else {
        p1.auto_start_breaks
    };
    PomodoroState { running: auto, ..p1 }
}

/// The parts of a tick shared by every mode: the colon is steady, the
/// flash and the message count down, and the message goes when its time is
/// up.
pub open spec fn tick_base(v: AppView, dt: u64) -> AppView {
    let info = match v.info_msg {
        Some((m, t)) => if t > dt {
            Some((m, (t - dt) as u64))
        } else {
            None
        },
        None => None,
    };
    AppView {
        colon_blink: true,
        colon_timer_ms: 0,
        flash_timer_ms: sat_sub(v.flash_timer_ms, dt),
        info_msg: info,
        ..v
    }
}

/// A running pomodoro counts down; when its phase runs out the next phase
/// begins, with a flash, a message and a notification.
pub open spec fn tick_pomodoro(v: AppView, dt: u64) -> (AppView, Option<(Seq<char>, Seq<char>)>) {
    if !v.pomodoro.running {
        (v, None)
    } else if v.pomodoro.remaining_ms > dt {
        (
            AppView {
                pomodoro: PomodoroState {
                    remaining_ms: (v.pomodoro.remaining_ms - dt) as u64,
                    ..v.pomodoro
                },
                ..v
            },
            None,
        )
    } else {
        let label = phase_label_text(v.pomodoro.phase);
        let p = pomodoro_rolled_over(v.pomodoro);
        (
            AppView {
                pomodoro: p,
                flash_timer_ms: 1400,
                info_msg: Some((label + " complete!"@, 2500)),
                ..v
            },
            Some(
                (
                    label + " complete"@,
                    "Time for "@ + phase_label_text(p.phase) + " ("@ + hms_text(phase_ms(p))
                        + ")"@,
                ),
            ),
        )
    }
}

/// A running countdown counts down; when it runs out it stops, marked
/// finished, with a flash, a message and a notification.
pub open spec fn tick_timer(v: AppView, dt: u64) -> (AppView, Option<(Seq<char>, Seq<char>)>) {
    if !v.timer.running || v.timer.finished {
        (v, None)
    } else if v.timer.remaining_ms > dt {
        (
            AppView {
                timer: TimerState { remaining_ms: (v.timer.remaining_ms - dt) as u64, ..v.timer },
                ..v
            },
            None,
        )
    } else {
        (
            AppView {
                timer: TimerState { remaining_ms: 0, running: false, finished: true, ..v.timer },
                flash_timer_ms: 10000,
                info_msg: Some((times_up_text(), 4000)),
                ..v
            },
            Some(
                (
                    "Timer finished"@,
                    hms_text((v.timer.set_secs * 1000) as u64)
                        + " elapsed \u{2014} press R to reset"@,
                ),
            ),
        )
    }
}

/// What `dt` ms of time do to the clock: `tick_base`, then the clock of the
/// mode on screen moves (a running stopwatch counts up).
pub open spec fn after_tick(v: AppView, dt: u64) -> (AppView, Option<(Seq<char>, Seq<char>)>) {
    let v0 = tick_base(v, dt);
    match v.mode {
        AppMode::Pomodoro => tick_pomodoro(v0, dt),
        AppMode::Timer => tick_timer(v0, dt),
        AppMode::Stopwatch => if v.stopwatch_running {
            (AppView { elapsed_ms: (v.elapsed_ms + dt) as u64, ..v0 }, None)
        } else {
            (v0, None)
        },
        AppMode::Clock => (v0, None),
    }
}

/// A `u32` read as an `i32` the way `as` reads it.
pub open spec fn as_i32(u: u32) -> int {
    if u <= i32::MAX {
        u as int
    } else {
        u - 0x1_0000_0000
    }
}

/// Integer division by 60 rounding toward zero, as `i32` division does.
pub open spec fn div60_toward_zero(x: int) -> int {
    if x >= 0 {
        x / 60
    } else {
        -((-x) / 60)
    }
}

/// `x` clamped to `lo ..= hi`.
pub open spec fn clamp_int(x: int, lo: int, hi: int) -> int {
    if x < lo {
        lo
    } else if x > hi {
        hi
    } else {
        x
    }
}

/// A phase length in seconds moved by `dir` minutes, kept between `lo` and
/// `hi` minutes.
pub open spec fn stepped_minutes(secs: u32, dir: i32, lo: int, hi: int) -> u32 {
    (clamp_int(div60_toward_zero(as_i32(secs)) + dir, lo, hi) * 60) as u32
}

/// Whether moving a phase length by `dir` minutes stays within `i32`.
pub open spec fn minutes_step_ok(secs: u32, dir: i32) -> bool {
    i32::MIN <= div60_toward_zero(as_i32(secs)) + dir <= i32::MAX
}

/// Whether `adjust_setting(dir)` can run without an arithmetic overflow.
pub open spec fn adjust_ok(v: AppView, dir: i32) -> bool {
    match v.settings_field {
        SettingsField::Work => minutes_step_ok(v.pomodoro.work_secs, dir),
        SettingsField::Short => minutes_step_ok(v.pomodoro.short_secs, dir),
        SettingsField::Long => minutes_step_ok(v.pomodoro.long_secs, dir),
        SettingsField::Cycles => i32::MIN <= as_i32(v.pomodoro.sessions_before_long) + dir
            <= i32::MAX,
        SettingsField::Theme => if dir > 0 {
            v.theme_idx < usize::MAX
        } else {
            v.theme_idx <= usize::MAX - THEME_COUNT
        },
        _ => true,
    }
}

/// The selected setting moved by `dir`: lengths by a minute (focus 5..60,
/// short break 1..30, long break 5..45 minutes), sessions per cycle by one
/// (2..8), switches flipped, themes cycled forward for a positive `dir` and
/// back otherwise. A paused pomodoro is then rewound to its phase's length.
pub open spec fn after_adjust(v: AppView, dir: i32) -> AppView {
    let v2 = adjusted_field(v, dir);
    AppView { pomodoro: pomodoro_synced(v2.pomodoro), ..v2 }
}

/// The selected setting moved by `dir`, before the pomodoro is rewound.
pub open spec fn adjusted_field(v: AppView, dir: i32) -> AppView {
    let p = v.pomodoro;
    match v.settings_field {
        SettingsField::Work => AppView {
            pomodoro: PomodoroState { work_secs: stepped_minutes(p.work_secs, dir, 5, 60), ..p },
            ..v
        },
        SettingsField::Short => AppView {
            pomodoro: PomodoroState { short_secs: stepped_minutes(p.short_secs, dir, 1, 30), ..p },
            ..v
        },
        SettingsField::Long => AppView {
            pomodoro: PomodoroState { long_secs: stepped_minutes(p.long_secs, dir, 5, 45), ..p },
            ..v
        },
        SettingsField::Cycles => AppView {
            pomodoro: PomodoroState {
                sessions_before_long: clamp_int(as_i32(p.sessions_before_long) + dir, 2, 8) as u32,
                ..p
            },
            ..v
        },
        SettingsField::AutoBreak => AppView {
            pomodoro: PomodoroState { auto_start_breaks: !p.auto_start_breaks, ..p },
            ..v
        },
        SettingsField::AutoWork => AppView {
            pomodoro: PomodoroState { auto_start_work: !p.auto_start_work, ..p },
            ..v
        },
        SettingsField::Transparent => AppView { transparent_bg: !v.transparent_bg, ..v },
        SettingsField::Theme => if dir > 0 {
            AppView { theme_idx: theme_after(v.theme_idx), ..v }
        } else {
            AppView { theme_idx: theme_before(v.theme_idx), ..v }
        },
    }
}

/// Byte length of text in UTF-8.
pub open spec fn utf8_len(s: Seq<char>) -> usize {
    vstd::utf8::encode_utf8(s).len() as usize
}

/// An ASCII digit or a colon: typed into a timer length as it is.
pub open spec fn is_time_char(c: char) -> bool {
    ('0' as u32 <= c as u32 <= '9' as u32) || c == ':'
}

/// A unit letter typed into a timer length, and its lower-case form.
pub open spec fn unit_lower(c: char) -> Option<char> {
    if c == 'h' || c == 'H' {
        Some('h')
    } else if c == 'm' || c == 'M' {
        Some('m')
    } else if c == 's' || c == 'S' {
        Some('s')
    } else {
        None
    }
}

/// Keys while typing a timer length: Esc drops it, Enter takes it,
/// Backspace deletes a character; digits, `:` and unit letters (lowered)
/// are added while the text is under eight bytes; other keys do nothing.
pub open spec fn key_while_editing(v: AppView, k: KeyEvent) -> AppView {
    match k.code {
        KeyCode::Esc => edit_cancelled(v),
        KeyCode::Enter => edit_saved(v),
        KeyCode::Backspace => AppView {
            timer_buffer: if v.timer_buffer.len() > 0 {
                v.timer_buffer.drop_last()
            } else {
                v.timer_buffer
            },
            ..v
        },
        KeyCode::Char(c) => if is_time_char(c) {
            if utf8_len(v.timer_buffer) < 8 {
                AppView { timer_buffer: v.timer_buffer.push(c), ..v }
            } else {
                v
            }
        } else if unit_lower(c) is Some {
            if utf8_len(v.timer_buffer) < 8 {
                AppView { timer_buffer: v.timer_buffer.push(unit_lower(c)->0), ..v }
            } else {
                v
            }
        } else {
            v
        },
        _ => v,
    }
}

/// Keys while the settings panel is open: Esc, `S`, `q` (without Ctrl) and
/// Enter close it; Up/`k` and Down/`j`/Tab move between rows; Left/`h`/`-`/`_`
/// and Right/`l`/`+`/`=` adjust the row; `[` and `]` cycle themes.
pub open spec fn key_in_settings(v: AppView, k: KeyEvent) -> AppView {
    match k.code {
        KeyCode::Esc | KeyCode::Char('S') => AppView { show_settings: false, ..v },
        KeyCode::Char('q') if !k.ctrl => AppView { show_settings: false, ..v },
        KeyCode::Up | KeyCode::Char('k') => AppView { settings_field: prev_field(v.settings_field), ..v },
        KeyCode::Down | KeyCode::Char('j') | KeyCode::Tab => AppView {
            settings_field: next_field(v.settings_field),
            ..v
        },
        KeyCode::Left | KeyCode::Char('h') | KeyCode::Char('-') | KeyCode::Char('_') => after_adjust(
            v,
            -1i32,
        ),
        KeyCode::Right | KeyCode::Char('l') | KeyCode::Char('+') | KeyCode::Char('=') => after_adjust(
            v,
            1i32,
        ),
        KeyCode::Char('[') => AppView { theme_idx: theme_before(v.theme_idx), ..v },
        KeyCode::Char(']') => AppView { theme_idx: theme_after(v.theme_idx), ..v },
        KeyCode::Enter => AppView { show_settings: false, ..v },
        _ => v,
    }
}





/// Keys on the main screens: `q`/Esc quit; `1`-`4` pick a mode, Tab and
/// Shift-Tab cycle; Space starts or pauses; `r` resets; `s` skips a pomodoro
/// phase (elsewhere opens settings); `S`, `?`, F1 toggle settings, Up opens
/// them in pomodoro mode; `l` laps the stopwatch; `t` switches 12/24 hours
/// on the clock; `T`, `[`, `]` cycle themes; `m` toggles the mouse, `b` the
/// transparent background; `n` moves to the next pomodoro phase; `e` starts
/// typing a timer length.
pub open spec fn key_on_main(v: AppView, k: KeyEvent) -> (AppView, Option<(Seq<char>, Seq<char>)>) {
    match k.code {
        KeyCode::Char('q') | KeyCode::Esc => (AppView { should_quit: true, ..v }, None),
        KeyCode::Char('1') => (AppView { mode: AppMode::Clock, ..v }, None),
        KeyCode::Char('2') => (AppView { mode: AppMode::Pomodoro, ..v }, None),
        KeyCode::Char('3') => (AppView { mode: AppMode::Timer, ..v }, None),
        KeyCode::Char('4') => (AppView { mode: AppMode::Stopwatch, ..v }, None),
        KeyCode::Tab => if k.shift {
            (AppView { mode: prev_mode(v.mode), ..v }, None)
        } else {
            (AppView { mode: next_mode(v.mode), ..v }, None)
        },
        KeyCode::BackTab => (AppView { mode: prev_mode(v.mode), ..v }, None),
        KeyCode::Char(' ') => after_action(v, ClickAction::StartPause),
        KeyCode::Char('r') | KeyCode::Char('R') => after_action(v, ClickAction::Reset),
        KeyCode::Char('s') => if v.mode == AppMode::Pomodoro {
            after_action(v, ClickAction::Skip)
        } else {
            (AppView { show_settings: true, ..v }, None)
        },
        KeyCode::Char('S') | KeyCode::Char('?') | KeyCode::F(1) => (
            AppView { show_settings: !v.show_settings, ..v },
            None,
        ),
        KeyCode::Char('l') | KeyCode::Char('L') => if v.mode == AppMode::Stopwatch {
            after_action(v, ClickAction::Lap)
        } else {
            (v, None)
        },
        KeyCode::Char('t') => if v.mode == AppMode::Clock {
            (AppView { use_24h: !v.use_24h, ..v }, None)
        } else {
            (v, None)
        },
        KeyCode::Char('T') | KeyCode::Char(']') => (
            AppView { theme_idx: theme_after(v.theme_idx), ..v },
            None,
        ),
        KeyCode::Char('[') => (AppView { theme_idx: theme_before(v.theme_idx), ..v }, None),
        KeyCode::Char('m') | KeyCode::Char('M') => (
            AppView { mouse_enabled: !v.mouse_enabled, ..v },
            None,
        ),
        KeyCode::Char('b') | KeyCode::Char('B') => (
            AppView { transparent_bg: !v.transparent_bg, ..v },
            None,
        ),
        KeyCode::Char('n') => if v.mode == AppMode::Pomodoro {
            let v2 = after_skip(v);
            (v2, Some(("Pomodoro skipped"@, skipped_text(v2.pomodoro))))
        } else {
            (v, None)
        },
        KeyCode::Char('e') | KeyCode::Char('E') => if v.mode == AppMode::Timer && !v.timer.running {
            (edit_entered(v), None)
        } else {
            (v, None)
        },
        KeyCode::Up => if v.mode == AppMode::Pomodoro {
            (AppView { show_settings: true, ..v }, None)
        } else {
            (v, None)
        },
        _ => (v, None),
    }
}

/// Whether a key can be handled without an arithmetic overflow.
pub open spec fn key_ok(v: AppView, k: KeyEvent) -> bool {
    if v.timer_editing && !v.show_settings {
        true
    } else if v.show_settings {
        match k.code {
            KeyCode::Left | KeyCode::Char('h') | KeyCode::Char('-') | KeyCode::Char('_') => adjust_ok(
                v,
                -1i32,
            ),
            KeyCode::Right | KeyCode::Char('l') | KeyCode::Char('+') | KeyCode::Char('=') => adjust_ok(
                v,
                1i32,
            ),
            KeyCode::Char('[') => v.theme_idx <= usize::MAX - THEME_COUNT,
            KeyCode::Char(']') => v.theme_idx < usize::MAX,
            _ => true,
        }
    } else {
        match k.code {
            KeyCode::Char('s') | KeyCode::Char('n') => v.mode == AppMode::Pomodoro ==> can_advance(
                v.pomodoro,
            ),
            KeyCode::Char('T') | KeyCode::Char(']') => v.theme_idx < usize::MAX,
            KeyCode::Char('[') => v.theme_idx <= usize::MAX - THEME_COUNT,
            _ => true,
        }
    }
}

/// What a key press does: typing a timer length takes every key unless the
/// settings panel is open; the open panel takes every key; otherwise the
/// main screen's keys apply.
pub open spec fn after_key(v: AppView, k: KeyEvent) -> (AppView, Option<(Seq<char>, Seq<char>)>) {
    if v.timer_editing && !v.show_settings {
        (key_while_editing(v, k), None)
    } else if v.show_settings {
        (key_in_settings(v, k), None)
    } else {
        key_on_main(v, k)
    }
}

/// `div60_toward_zero(as_i32(secs))`, the minutes the settings panel reads.
fn minutes_of(secs: u32) -> (r: i64)
    ensures
        r == div60_toward_zero(as_i32(secs)),
        -35791395 <= r <= 35791394,
{
    if secs <= 2147483647 {
        (secs / 60) as i64
    } else {
        let neg: u64 = 4294967296 - secs as u64;
        -((neg / 60) as i64)
    }
}

/// `as_i32(u)` computed.
fn as_i32_exec(u: u32) -> (r: i64)
    ensures
        r == as_i32(u),
{
    if u <= 2147483647 {
        u as i64
    } else {
        u as i64 - 4294967296
    }
}

fn clamp_exec(x: i64, lo: i64, hi: i64) -> (r: i64)
    requires
        lo <= hi,
    ensures
        r == clamp_int(x as int, lo as int, hi as int),
{
    if x < lo {
        lo
    } else if x > hi {
        hi
    } else {
        x
    }
}

/// A phase length moved by `dir` minutes within `lo ..= hi` minutes.
fn step_minutes(secs: u32, dir: i32, lo: i64, hi: i64) -> (r: u32)
    requires
        minutes_step_ok(secs, dir),
        1 <= lo <= hi <= 60,
    ensures
        r == stepped_minutes(secs, dir, lo as int, hi as int),
{
    let v = clamp_exec(minutes_of(secs) + dir as i64, lo, hi);
    (v as u32) * 60
}

/// Index of the last clickable region holding `(x, y)`: regions drawn
/// later lie on top.
pub open spec fn hit_index(cs: Seq<(Rect, ClickAction)>, x: u16, y: u16) -> Option<int>
    decreases cs.len(),
{
    if cs.len() == 0 {
        None
    } else if rect_contains(cs.last().0, x, y) {
        Some(cs.len() - 1)
    } else {
        hit_index(cs.drop_last(), x, y)
    }
}

/// Whether a click at `(x, y)` can be handled without an overflow.
pub open spec fn click_ok(v: AppView, x: u16, y: u16) -> bool {
    match hit_index(v.clickables, x, y) {
        Some(i) => action_ok(v, v.clickables[i].1),
        None => true,
    }
}

/// A click at `(x, y)` carries out the action of the top-most region under
/// it, if any.
pub open spec fn after_click(v: AppView, x: u16, y: u16) -> (AppView, Option<(Seq<char>, Seq<char>)>) {
    match hit_index(v.clickables, x, y) {
        Some(i) => after_action(v, v.clickables[i].1),
        None => (v, None),
    }
}

/// The cards after making sure there are at least `n`: new cards show `0`.
pub open spec fn flips_grown(fs: Seq<FlipState>, n: nat) -> Seq<FlipState> {
    if fs.len() < n {
        fs + Seq::new(
            (n - fs.len()) as nat,
            |i: int| FlipState { current: '0', previous: '0', progress_milli: 1000, animating: false },
        )
    } else {
        fs
    }
}

/// The cards after being told to show `target`, one character each.
pub open spec fn flips_updated(fs: Seq<FlipState>, target: Seq<char>) -> Seq<FlipState> {
    let g = flips_grown(fs, target.len());
    Seq::new(g.len(), |i: int| if i < target.len() { flip_with(g[i], target[i]) } else { g[i] })
}

/// Laps are recorded in order, none later than the elapsed time.
#[verifier::opaque]
pub open spec fn laps_ordered(laps: Seq<u64>, elapsed: u64) -> bool {
    &&& forall|i: int, j: int| 0 <= i <= j < laps.len() ==> laps[i] <= laps[j]
    &&& forall|i: int| 0 <= i < laps.len() ==> laps[i] <= elapsed
}

/// The pomodoro settings lie in the ranges the settings panel keeps them
/// in: whole minutes, focus 5..60, short break 1..30, long break 5..45,
/// 2..8 sessions per cycle.
#[verifier::opaque]
pub open spec fn settings_in_range(work: u32, short: u32, long: u32, sessions: u32) -> bool {
    &&& 300 <= work <= 3600 && work % 60 == 0
    &&& 60 <= short <= 1800 && short % 60 == 0
    &&& 300 <= long <= 2700 && long % 60 == 0
    &&& 2 <= sessions <= 8
}

/// What holds of every state the clock can reach: the theme index is in the
/// table; laps are ordered; a finished timer is stopped at zero; the
/// session count starts at one; the settings are in range; the timer's
/// length is between five seconds and a day.
pub open spec fn app_inv(v: AppView) -> bool {
    &&& v.theme_idx < THEME_COUNT
    &&& laps_ordered(v.laps, v.elapsed_ms)
    &&& v.timer.finished ==> !v.timer.running && v.timer.remaining_ms == 0
    &&& v.pomodoro.session_in_cycle >= 1
    &&& settings_in_range(
        v.pomodoro.work_secs,
        v.pomodoro.short_secs,
        v.pomodoro.long_secs,
        v.pomodoro.sessions_before_long,
    )
    &&& 5 <= v.timer.set_secs <= 86400
}

fn flips_initial() -> (v: Vec<FlipState>)
    ensures
        v@ == Seq::new(
            8,
            |i: int| FlipState { current: '0', previous: '0', progress_milli: 1000, animating: false },
        ),
{
    let mut v: Vec<FlipState> = Vec::new();
    let mut i: usize = 0;
    while i < 8
        invariant
            i <= 8,
            v@.len() == i,
            forall|k: int|
                0 <= k < i ==> v@[k] == (FlipState {
                    current: '0',
                    previous: '0',
                    progress_milli: 1000,
                    animating: false,
                }),
        decreases 8 - i,
    {
        v.push(FlipState::new('0'));
        i = i + 1;
    }
    assert(v@ =~= Seq::new(
        8,
        |i: int| FlipState { current: '0', previous: '0', progress_milli: 1000, animating: false },
    ));
    v
}

impl Default for App {
    /// The clock as it starts; see `initial_view`.
    fn default() -> (r: Self)
        ensures
            r@ == initial_view(),
    {
        let r = App {
            mode: AppMode::Clock,
            pomodoro: PomodoroState::new(),
            timer: TimerState::new(),
            stopwatch: StopwatchState::new(),
            use_24h: true,
            show_seconds: true,
            show_settings: false,
            settings_field: SettingsField::Theme,
            flip_states: flips_initial(),
            colon_blink: true,
            colon_timer_ms: 0,
            flash_timer_ms: 0,
            should_quit: false,
            info_msg: None,
            theme_idx: 0,
            transparent_bg: false,
            mouse_enabled: true,
            clickables: Vec::new(),
            timer_editing: false,
            timer_buffer: String::new(),
        };
        assert(r@ =~= initial_view());
        r
    }
}

impl App {
    /// The palette in use; see `active_theme`.
    pub fn theme(&self) -> (th: Theme)
        ensures
            th == active_theme(self@),
    {
        let mut th = theme_at(self.theme_idx % THEME_COUNT);
        if self.transparent_bg {
            th.bg = Color::Reset;
            th.slab_bg = Color::Reset;
            th.card_top_bg = Color::Reset;
            th.card_bottom_bg = Color::Reset;
            th.popup_bg = Color::Reset;
        }
        th
    }

    /// The selected theme as it is in the table.
    pub fn base_theme(&self) -> (th: Theme)
        ensures
            th == theme_table((self.theme_idx % THEME_COUNT) as int),
    {
        theme_at(self.theme_idx % THEME_COUNT)
    }

    /// Starts typing a timer length; see `edit_entered`.
    pub fn enter_timer_edit(&mut self)
        ensures
            final(self)@ == edit_entered(old(self)@),
    {
        if self.mode != AppMode::Timer || self.timer.running {
            return;
        }
        self.timer_editing = true;
        self.timer_buffer = format_duration_hms(self.timer.set_secs as u64 * 1000);
    }

    /// Takes the typed timer length; see `edit_saved`.
    pub fn save_timer_edit(&mut self)
        ensures
            final(self)@ == edit_saved(old(self)@),
    {
        match parse_timer_input(self.timer_buffer.as_str()) {
            Some(secs) => {
                self.timer.set_secs = secs;
                self.timer.sync();
                self.timer_editing = false;
                self.timer_buffer = String::new();
                let text = format_duration_hms(secs as u64 * 1000);
                self.info_msg = Some((cat2("Timer set to ", text.as_str()), 2000));
            },
            None => {
                self.info_msg = Some(
                    (owned("Invalid time \u{2014} use MM:SS (e.g. 25:00)"), 2500),
                );
            },
        }
    }

    /// Drops the typed timer length.
    pub fn cancel_timer_edit(&mut self)
        ensures
            final(self)@ == edit_cancelled(old(self)@),
    {
        self.timer_editing = false;
        self.timer_buffer = String::new();
    }

    #[verifier::rlimit(50)]
    fn start_pause(&mut self) -> (n: Option<Notice>)
        ensures
            (final(self)@, notice_view(n)) == after_start_pause(old(self)@),
    {
        match self.mode {
            AppMode::Pomodoro => {
                self.pomodoro.running = !self.pomodoro.running;
                let left = format_duration_hms(self.pomodoro.remaining_ms);
                let body = cat3(self.pomodoro.phase.label(), " \u{2014} ", left.as_str());
                let body = cat2(body.as_str(), " left");
                if self.pomodoro.running {
                    Some(Notice { summary: owned("Pomodoro started"), body })
                } else {
                    Some(Notice { summary: owned("Pomodoro paused"), body })
                }
            },
            AppMode::Timer => {
                if self.timer.finished {
                    self.timer.finished = false;
                    self.timer.remaining_ms = self.timer.set_secs as u64 * 1000;
                    self.timer.running = true;
                    self.flash_timer_ms = 0;
                    let left = format_duration_hms(self.timer.remaining_ms);
                    Some(Notice { summary: owned("Timer started"), body: cat2(left.as_str(), " left") })
                } else {
                    self.timer.running = !self.timer.running;
                    let left = format_duration_hms(self.timer.remaining_ms);
                    let body = cat2(left.as_str(), " left");
                    if self.timer.running {
                        Some(Notice { summary: owned("Timer started"), body })
                    } else {
                        Some(Notice { summary: owned("Timer paused"), body })
                    }
                }
            },
            AppMode::Stopwatch => {
                self.stopwatch.running = !self.stopwatch.running;
                None
            },
            AppMode::Clock => None,
        }
    }

    fn reset(&mut self)
        ensures
            final(self)@ == after_reset(old(self)@),
    {
        match self.mode {
            AppMode::Pomodoro => self.pomodoro.reset_current(),
            AppMode::Timer => {
                self.timer.running = false;
                self.timer.finished = false;
                self.timer.remaining_ms = self.timer.set_secs as u64 * 1000;
                self.flash_timer_ms = 0;
                self.cancel_timer_edit();
            },
            AppMode::Stopwatch => {
                self.stopwatch.running = false;
                self.stopwatch.elapsed_ms = 0;
                self.stopwatch.laps.clear();
            },
            AppMode::Clock => {
                self.show_seconds = !self.show_seconds;
            },
        }
    }

    /// Moves the pomodoro on to its next phase, paused, and describes it.
    fn skip_phase(&mut self) -> (n: Notice)
        requires
            can_advance(old(self).pomodoro),
        ensures
            final(self)@ == after_skip(old(self)@),
            n.summary@ == "Pomodoro skipped"@,
            n.body@ == skipped_text(final(self).pomodoro),
    {
        self.pomodoro.advance();
        self.pomodoro.running = false;
        let len = format_duration_hms(self.pomodoro.phase_duration());
        let body = cat5("Now: ", self.pomodoro.phase.label(), " (", len.as_str(), ")");
        Notice { summary: owned("Pomodoro skipped"), body }
    }

    #[verifier::rlimit(50)]
    fn select_field(&mut self, f: SettingsField)
        requires
            action_ok(old(self)@, ClickAction::SettingsField(f)),
        ensures
            final(self)@ == after_field(old(self)@, f),
    {
        self.settings_field = f;
        match f {
            SettingsField::AutoBreak => {
                self.pomodoro.auto_start_breaks = !self.pomodoro.auto_start_breaks;
            },
            SettingsField::AutoWork => {
                self.pomodoro.auto_start_work = !self.pomodoro.auto_start_work;
            },
            SettingsField::Transparent => {
                self.transparent_bg = !self.transparent_bg;
            },
            SettingsField::Theme => {
                self.theme_idx = (self.theme_idx + 1) % THEME_COUNT;
            },
            _ => {},
        }
        if !self.pomodoro.running {
            self.pomodoro.remaining_ms = self.pomodoro.phase_duration();
        }
    }

    // Each click action has a function of its own, so that each proof sees
    // one case of `after_action` only.
    fn act_mode(&mut self, m: AppMode) -> (n: Option<Notice>)
        requires
            action_ok(old(self)@, ClickAction::Mode(m)),
        ensures
            (final(self)@, notice_view(n)) == after_action(old(self)@, ClickAction::Mode(m)),
    {
        reveal(after_action);
        self.mode = m;
        self.cancel_timer_edit();
        None
    }

    fn act_start_pause(&mut self) -> (n: Option<Notice>)
        requires
            action_ok(old(self)@, ClickAction::StartPause),
        ensures
            (final(self)@, notice_view(n)) == after_action(old(self)@, ClickAction::StartPause),
    {
        reveal(after_action);
        self.start_pause()
    }

    fn act_reset(&mut self) -> (n: Option<Notice>)
        requires
            action_ok(old(self)@, ClickAction::Reset),
        ensures
            (final(self)@, notice_view(n)) == after_action(old(self)@, ClickAction::Reset),
    {
        reveal(after_action);
        self.reset();
        None
    }

    fn act_skip(&mut self) -> (n: Option<Notice>)
        requires
            action_ok(old(self)@, ClickAction::Skip),
        ensures
            (final(self)@, notice_view(n)) == after_action(old(self)@, ClickAction::Skip),
    {
        reveal(after_action);
        if self.mode == AppMode::Pomodoro {
            self.flash_timer_ms = 0;
            Some(self.skip_phase())
        } else {
            None
        }
    }

    fn act_lap(&mut self) -> (n: Option<Notice>)
        requires
            action_ok(old(self)@, ClickAction::Lap),
        ensures
            (final(self)@, notice_view(n)) == after_action(old(self)@, ClickAction::Lap),
    {
        reveal(after_action);
        if self.mode == AppMode::Stopwatch {
            if self.stopwatch.running || self.stopwatch.elapsed_ms > 0 {
                self.stopwatch.laps.push(self.stopwatch.elapsed_ms);
            }
        }
        None
    }

    fn act_timer_edit(&mut self) -> (n: Option<Notice>)
        requires
            action_ok(old(self)@, ClickAction::TimerEdit),
        ensures
            (final(self)@, notice_view(n)) == after_action(old(self)@, ClickAction::TimerEdit),
    {
        reveal(after_action);
        self.enter_timer_edit();
        None
    }

    fn act_timer_save(&mut self) -> (n: Option<Notice>)
        requires
            action_ok(old(self)@, ClickAction::TimerSave),
        ensures
            (final(self)@, notice_view(n)) == after_action(old(self)@, ClickAction::TimerSave),
    {
        reveal(after_action);
        self.save_timer_edit();
        None
    }

    fn act_timer_cancel(&mut self) -> (n: Option<Notice>)
        requires
            action_ok(old(self)@, ClickAction::TimerCancel),
        ensures
            (final(self)@, notice_view(n)) == after_action(old(self)@, ClickAction::TimerCancel),
    {
        reveal(after_action);
        self.cancel_timer_edit();
        None
    }

    fn act_toggle_settings(&mut self) -> (n: Option<Notice>)
        requires
            action_ok(old(self)@, ClickAction::ToggleSettings),
        ensures
            (final(self)@, notice_view(n)) == after_action(old(self)@, ClickAction::ToggleSettings),
    {
        reveal(after_action);
        self.show_settings = !self.show_settings;
        None
    }

    fn act_settings_close(&mut self) -> (n: Option<Notice>)
        requires
            action_ok(old(self)@, ClickAction::SettingsClose),
        ensures
            (final(self)@, notice_view(n)) == after_action(old(self)@, ClickAction::SettingsClose),
    {
        reveal(after_action);
        self.show_settings = false;
        None
    }

    fn act_field(&mut self, f: SettingsField) -> (n: Option<Notice>)
        requires
            action_ok(old(self)@, ClickAction::SettingsField(f)),
        ensures
            (final(self)@, notice_view(n)) == after_action(old(self)@, ClickAction::SettingsField(f)),
    {
        reveal(after_action);
        self.select_field(f);
        None
    }

    fn act_theme_prev(&mut self) -> (n: Option<Notice>)
        requires
            action_ok(old(self)@, ClickAction::ThemePrev),
        ensures
            (final(self)@, notice_view(n)) == after_action(old(self)@, ClickAction::ThemePrev),
    {
        reveal(after_action);
        self.theme_idx = (self.theme_idx + THEME_COUNT - 1) % THEME_COUNT;
        None
    }

    fn act_theme_next(&mut self) -> (n: Option<Notice>)
        requires
            action_ok(old(self)@, ClickAction::ThemeNext),
        ensures
            (final(self)@, notice_view(n)) == after_action(old(self)@, ClickAction::ThemeNext),
    {
        reveal(after_action);
        self.theme_idx = (self.theme_idx + 1) % THEME_COUNT;
        None
    }

    fn act_toggle_24h(&mut self) -> (n: Option<Notice>)
        requires
            action_ok(old(self)@, ClickAction::Toggle24h),
        ensures
            (final(self)@, notice_view(n)) == after_action(old(self)@, ClickAction::Toggle24h),
    {
        reveal(after_action);
        self.use_24h = !self.use_24h;
        None
    }

    fn act_toggle_seconds(&mut self) -> (n: Option<Notice>)
        requires
            action_ok(old(self)@, ClickAction::ToggleSeconds),
        ensures
            (final(self)@, notice_view(n)) == after_action(old(self)@, ClickAction::ToggleSeconds),
    {
        reveal(after_action);
        self.show_seconds = !self.show_seconds;
        None
    }

    fn act_toggle_transparent(&mut self) -> (n: Option<Notice>)
        requires
            action_ok(old(self)@, ClickAction::ToggleTransparent),
        ensures
            (final(self)@, notice_view(n)) == after_action(old(self)@, ClickAction::ToggleTransparent),
    {
        reveal(after_action);
        self.transparent_bg = !self.transparent_bg;
        None
    }

    /// Carries out a click action; see `after_action`. Returns the
    /// notification it raises, if any.
    pub fn do_action(&mut self, action: ClickAction) -> (n: Option<Notice>)
        requires
            action_ok(old(self)@, action),
        ensures
            (final(self)@, notice_view(n)) == after_action(old(self)@, action),
    {
        match action {
            ClickAction::Mode(m) => self.act_mode(m),
            ClickAction::StartPause => self.act_start_pause(),
            ClickAction::Reset => self.act_reset(),
            ClickAction::Skip => self.act_skip(),
            ClickAction::Lap => self.act_lap(),
            ClickAction::TimerEdit => self.act_timer_edit(),
            ClickAction::TimerSave => self.act_timer_save(),
            ClickAction::TimerCancel => self.act_timer_cancel(),
            ClickAction::ToggleSettings => self.act_toggle_settings(),
            ClickAction::SettingsClose => self.act_settings_close(),
            ClickAction::SettingsField(f) => self.act_field(f),
            ClickAction::ThemePrev => self.act_theme_prev(),
            ClickAction::ThemeNext => self.act_theme_next(),
            ClickAction::Toggle24h => self.act_toggle_24h(),
            ClickAction::ToggleSeconds => self.act_toggle_seconds(),
            ClickAction::ToggleTransparent => self.act_toggle_transparent(),
        }
    }

    fn tick_common(&mut self, dt: u64)
        ensures
            final(self)@ == tick_base(old(self)@, dt),
    {
        self.colon_blink = true;
        self.colon_timer_ms = 0;
        if self.flash_timer_ms > dt {
            self.flash_timer_ms = self.flash_timer_ms - dt;
        } else {
            self.flash_timer_ms = 0;
        }
        self.info_msg = match self.info_msg.take() {
            Some((m, t)) => if t > dt {
                Some((m, t - dt))
            } else {
                None
            },
            None => None,
        };
    }

    fn tick_pomodoro(&mut self, dt: u64) -> (n: Option<Notice>)
        requires
            old(self).pomodoro.running && old(self).pomodoro.remaining_ms <= dt ==> can_advance(
                old(self).pomodoro,
            ),
        ensures
            (final(self)@, notice_view(n)) == tick_pomodoro(old(self)@, dt),
    {
        if self.pomodoro.running {
            if self.pomodoro.remaining_ms > dt {
                self.pomodoro.remaining_ms = self.pomodoro.remaining_ms - dt;
                None
            } else {
                let finished_label = self.pomodoro.phase.label();
                self.pomodoro.remaining_ms = 0;
                self.flash_timer_ms = 1400;
                self.info_msg = Some((cat2(finished_label, " complete!"), 2500));
                self.pomodoro.advance();
                let next = self.pomodoro.phase;
                let next_len = format_duration_hms(self.pomodoro.phase_duration());
                let summary = cat2(finished_label, " complete");
                let body = cat5("Time for ", next.label(), " (", next_len.as_str(), ")");
                let auto = match next {
                    PomodoroPhase::Work => self.pomodoro.auto_start_work,
                    _ => self.pomodoro.auto_start_breaks,
                };
                self.pomodoro.running = auto;
                Some(Notice { summary, body })
            }
        } else {
            None
        }
    }

    fn tick_timer(&mut self, dt: u64) -> (n: Option<Notice>)
        ensures
            (final(self)@, notice_view(n)) == tick_timer(old(self)@, dt),
    {
        if self.timer.running && !self.timer.finished {
            if self.timer.remaining_ms > dt {
                self.timer.remaining_ms = self.timer.remaining_ms - dt;
                None
            } else {
                self.timer.remaining_ms = 0;
                self.timer.running = false;
                self.timer.finished = true;
                self.flash_timer_ms = 10000;
                let set = format_duration_hms(self.timer.set_secs as u64 * 1000);
                self.info_msg = Some((owned("TIME'S UP! Press R to reset"), 4000));
                let body = cat2(set.as_str(), " elapsed \u{2014} press R to reset");
                Some(Notice { summary: owned("Timer finished"), body })
            }
        } else {
            None
        }
    }

    /// Lets `dt` milliseconds pass; see `after_tick`. Returns the
    /// notification it raises, if any.
    pub fn tick(&mut self, dt: u64) -> (n: Option<Notice>)
        requires
            tick_ok(old(self)@, dt),
        ensures
            (final(self)@, notice_view(n)) == after_tick(old(self)@, dt),
    {
        self.tick_common(dt);
        match self.mode {
            AppMode::Pomodoro => self.tick_pomodoro(dt),
            AppMode::Timer => self.tick_timer(dt),
            AppMode::Stopwatch => {
                if self.stopwatch.running {
                    self.stopwatch.elapsed_ms = self.stopwatch.elapsed_ms + dt;
                }
                None
            },
            AppMode::Clock => None,
        }
    }

    #[verifier::rlimit(100)]
    #[verifier::spinoff_prover]
    fn adjust_field(&mut self, dir: i32)
        requires
            adjust_ok(old(self)@, dir),
        ensures
            final(self)@ == adjusted_field(old(self)@, dir),
    {
        match self.settings_field {
            SettingsField::Work => {
                self.pomodoro.work_secs = step_minutes(self.pomodoro.work_secs, dir, 5, 60);
            },
            SettingsField::Short => {
                self.pomodoro.short_secs = step_minutes(self.pomodoro.short_secs, dir, 1, 30);
            },
            SettingsField::Long => {
                self.pomodoro.long_secs = step_minutes(self.pomodoro.long_secs, dir, 5, 45);
            },
            SettingsField::Cycles => {
                let v = clamp_exec(as_i32_exec(self.pomodoro.sessions_before_long) + dir as i64, 2, 8);
                self.pomodoro.sessions_before_long = v as u32;
            },
            SettingsField::AutoBreak => {
                self.pomodoro.auto_start_breaks = !self.pomodoro.auto_start_breaks;
            },
            SettingsField::AutoWork => {
                self.pomodoro.auto_start_work = !self.pomodoro.auto_start_work;
            },
            SettingsField::Transparent => {
                self.transparent_bg = !self.transparent_bg;
            },
            SettingsField::Theme => {
                if dir > 0 {
                    self.theme_idx = (self.theme_idx + 1) % THEME_COUNT;
                } else {
                    self.theme_idx = (self.theme_idx + THEME_COUNT - 1) % THEME_COUNT;
                }
            },
        }
    }

    /// Moves the selected setting by `dir`; see `after_adjust`.
    pub fn adjust_setting(&mut self, dir: i32)
        requires
            adjust_ok(old(self)@, dir),
        ensures
            final(self)@ == after_adjust(old(self)@, dir),
    {
        self.adjust_field(dir);
        if !self.pomodoro.running {
            self.pomodoro.remaining_ms = self.pomodoro.phase_duration();
        }
    }

    #[verifier::rlimit(100)]
    #[verifier::spinoff_prover]
    fn key_editing(&mut self, key: KeyEvent)
        ensures
            final(self)@ == key_while_editing(old(self)@, key),
    {
        match key.code {
            KeyCode::Esc => self.cancel_timer_edit(),
            KeyCode::Enter => self.save_timer_edit(),
            KeyCode::Backspace => pop_char(&mut self.timer_buffer),
            KeyCode::Char(c) => {
                let u = c as u32;
                if (48 <= u && u <= 57) || c == ':' {
                    if self.timer_buffer.as_str().len() < 8 {
                        push_char(&mut self.timer_buffer, c);
                    }
                } else if c == 'h' || c == 'H' || c == 'm' || c == 'M' || c == 's' || c == 'S' {
                    if self.timer_buffer.as_str().len() < 8 {
                        let low = if c == 'h' || c == 'H' {
                            'h'
                        } else if c == 'm' || c == 'M' {
                            'm'
                        } else {
                            's'
                        };
                        push_char(&mut self.timer_buffer, low);
                    }
                }
            },
            _ => {},
        }
    }

    #[verifier::rlimit(100)]
    #[verifier::spinoff_prover]
    fn key_settings(&mut self, key: KeyEvent)
        requires
            old(self).show_settings,
            key_ok(old(self)@, key),
            !(old(self).timer_editing && !old(self).show_settings),
        ensures
            final(self)@ == key_in_settings(old(self)@, key),
    {
        match key.code {
            KeyCode::Esc | KeyCode::Char('S') => {
                self.show_settings = false;
            },
            KeyCode::Char('q') if !key.ctrl => {
                self.show_settings = false;
            },
            KeyCode::Up | KeyCode::Char('k') => {
                self.settings_field = self.settings_field.prev();
            },
            KeyCode::Down | KeyCode::Char('j') | KeyCode::Tab => {
                self.settings_field = self.settings_field.next();
            },
            KeyCode::Left | KeyCode::Char('h') | KeyCode::Char('-') | KeyCode::Char('_') => {
                self.adjust_setting(-1);
            },
            KeyCode::Right | KeyCode::Char('l') | KeyCode::Char('+') | KeyCode::Char('=') => {
                self.adjust_setting(1);
            },
            KeyCode::Char('[') => {
                self.theme_idx = (self.theme_idx + THEME_COUNT - 1) % THEME_COUNT;
            },
            KeyCode::Char(']') => {
                self.theme_idx = (self.theme_idx + 1) % THEME_COUNT;
            },
            KeyCode::Enter => {
                self.show_settings = false;
            },
            _ => {},
        }
    }

    #[verifier::rlimit(100)]
    #[verifier::spinoff_prover]
    fn key_main(&mut self, key: KeyEvent) -> (n: Option<Notice>)
        requires
            !old(self).show_settings,
            !old(self).timer_editing || old(self).show_settings,
            key_ok(old(self)@, key),
        ensures
            (final(self)@, notice_view(n)) == key_on_main(old(self)@, key),
    {
        match key.code {
            KeyCode::Char('q') | KeyCode::Esc => {
                self.should_quit = true;
                None
            },
            KeyCode::Char('1') => {
                self.mode = AppMode::Clock;
                None
            },
            KeyCode::Char('2') => {
                self.mode = AppMode::Pomodoro;
                None
            },
            KeyCode::Char('3') => {
                self.mode = AppMode::Timer;
                None
            },
            KeyCode::Char('4') => {
                self.mode = AppMode::Stopwatch;
                None
            },
            KeyCode::Tab => {
                if key.shift {
                    self.mode = self.mode.prev();
                } else {
                    self.mode = self.mode.next();
                }
                None
            },
            KeyCode::BackTab => {
                self.mode = self.mode.prev();
                None
            },
            KeyCode::Char(' ') => self.do_action(ClickAction::StartPause),
            KeyCode::Char('r') | KeyCode::Char('R') => self.do_action(ClickAction::Reset),
            KeyCode::Char('s') => {
                if self.mode == AppMode::Pomodoro {
                    self.do_action(ClickAction::Skip)
                } else {
                    self.show_settings = true;
                    None
                }
            },
            KeyCode::Char('S') | KeyCode::Char('?') | KeyCode::F(1) => {
                self.show_settings = !self.show_settings;
                None
            },
            KeyCode::Char('l') | KeyCode::Char('L') => {
                if self.mode == AppMode::Stopwatch {
                    self.do_action(ClickAction::Lap)
                } else {
                    None
                }
            },
            KeyCode::Char('t') => {
                if self.mode == AppMode::Clock {
                    self.use_24h = !self.use_24h;
                }
                None
            },
            KeyCode::Char('T') | KeyCode::Char(']') => {
                self.theme_idx = (self.theme_idx + 1) % THEME_COUNT;
                None
            },
            KeyCode::Char('[') => {
                self.theme_idx = (self.theme_idx + THEME_COUNT - 1) % THEME_COUNT;
                None
            },
            KeyCode::Char('m') | KeyCode::Char('M') => {
                self.mouse_enabled = !self.mouse_enabled;
                None
            },
            KeyCode::Char('b') | KeyCode::Char('B') => {
                self.transparent_bg = !self.transparent_bg;
                None
            },
            KeyCode::Char('n') => {
                if self.mode == AppMode::Pomodoro {
                    Some(self.skip_phase())
                } else {
                    None
                }
            },
            KeyCode::Char('e') | KeyCode::Char('E') => {
                if self.mode == AppMode::Timer && !self.timer.running {
                    self.enter_timer_edit();
                }
                None
            },
            KeyCode::Up => {
                if self.mode == AppMode::Pomodoro {
                    self.show_settings = true;
                }
                None
            },
            _ => None,
        }
    }

    /// Handles a key press; see `after_key`. Returns the notification it
    /// raises, if any.
    pub fn handle_key(&mut self, key: KeyEvent) -> (n: Option<Notice>)
        requires
            key_ok(old(self)@, key),
        ensures
            (final(self)@, notice_view(n)) == after_key(old(self)@, key),
    {
        if self.timer_editing && !self.show_settings {
            self.key_editing(key);
            return None;
        }
        if self.show_settings {
            self.key_settings(key);
            return None;
        }
        self.key_main(key)
    }

    /// Handles a click at `(x, y)`; see `after_click`.
    pub fn handle_click(&mut self, x: u16, y: u16) -> (n: Option<Notice>)
        requires
            click_ok(old(self)@, x, y),
        ensures
            (final(self)@, notice_view(n)) == after_click(old(self)@, x, y),
    {
        let ghost cs = self.clickables@;
        let mut i: usize = self.clickables.len();
        assert(cs.take(i as int) =~= cs);
        while i > 0
            invariant
                i <= cs.len(),
                cs == self.clickables@,
                self@ == old(self)@,
                click_ok(old(self)@, x, y),
                hit_index(cs, x, y) == hit_index(cs.take(i as int), x, y),
            decreases i,
        {
            let (rect, action) = self.clickables[i - 1];
            assert(cs[i - 1] == (rect, action));
            assert(cs.take(i as int).drop_last() =~= cs.take(i - 1));
            assert(cs.take(i as int).last() == cs[i - 1]);
            if x >= rect.x && (x as u32) < rect.x as u32 + rect.width as u32 && y >= rect.y && (y
                as u32) < rect.y as u32 + rect.height as u32 {
                assert(hit_index(cs.take(i as int), x, y) == Some(i - 1));
                assert(hit_index(cs, x, y) == Some(i - 1));
                return self.do_action(action);
            }
            i = i - 1;
        }
        assert(cs.take(0) =~= Seq::<(Rect, ClickAction)>::empty());
        None
    }

    /// Makes sure there are at least `n` cards; see `flips_grown`.
    pub fn ensure_flip(&mut self, n: usize)
        ensures
            final(self)@ == (AppView { flip_states: flips_grown(old(self).flip_states@, n as nat), ..old(self)@ }),
    {
        let ghost start = self.flip_states@;
        let mut fs: Vec<FlipState> = Vec::new();
        std::mem::swap(&mut fs, &mut self.flip_states);
        if fs.len() < n {
            while fs.len() < n
                invariant
                    start.len() <= fs@.len() <= n,
                    fs@.take(start.len() as int) == start,
                    forall|k: int|
                        start.len() <= k < fs@.len() ==> fs@[k] == (FlipState {
                            current: '0',
                            previous: '0',
                            progress_milli: 1000,
                            animating: false,
                        }),
                decreases n - fs.len(),
            {
                fs.push(FlipState::new('0'));
                assert(fs@.take(start.len() as int) =~= start);
            }
            assert(fs@ =~= flips_grown(start, n as nat));
        }
        self.flip_states = fs;
    }

    /// Tells the cards to show `target`; see `flips_updated`.
    pub fn update_flips(&mut self, target: &[char])
        ensures
            final(self)@ == (AppView { flip_states: flips_updated(old(self).flip_states@, target@), ..old(self)@ }),
    {
        self.ensure_flip(target.len());
        let ghost g = self.flip_states@;
        let mut fs: Vec<FlipState> = Vec::new();
        std::mem::swap(&mut fs, &mut self.flip_states);
        let mut i: usize = 0;
        while i < target.len()
            invariant
                i <= target@.len() <= g.len(),
                fs@.len() == g.len(),
                forall|k: int| 0 <= k < i ==> fs@[k] == flip_with(g[k], target@[k]),
                forall|k: int| i <= k < g.len() ==> fs@[k] == g[k],
            decreases target.len() - i,
        {
            let mut f = fs[i];
            f.set(target[i]);
            fs.set(i, f);
            i = i + 1;
        }
        assert(fs@ =~= flips_updated(old(self).flip_states@, target@));
        self.flip_states = fs;
    }

    /// Moves every card's flip on by `dt_ms` milliseconds.
    pub fn tick_flips(&mut self, dt_ms: u64)
        ensures
            final(self)@ == (AppView {
                flip_states: old(self).flip_states@.map_values(|f: FlipState| flip_ticked(f, dt_ms)),
                ..old(self)@
            }),
    {
        let ghost g = self.flip_states@;
        let mut fs: Vec<FlipState> = Vec::new();
        std::mem::swap(&mut fs, &mut self.flip_states);
        let mut i: usize = 0;
        while i < fs.len()
            invariant
                i <= g.len(),
                fs@.len() == g.len(),
                forall|k: int| 0 <= k < i ==> fs@[k] == flip_ticked(g[k], dt_ms),
                forall|k: int| i <= k < g.len() ==> fs@[k] == g[k],
            decreases g.len() - i,
        {
            let mut f = fs[i];
            f.tick(dt_ms);
            fs.set(i, f);
            i = i + 1;
        }
        assert(fs@ =~= g.map_values(|f: FlipState| flip_ticked(f, dt_ms)));
        self.flip_states = fs;
    }

    /// Whether a tick of `dt_ms` can run without an overflow; see `tick_ok`.
    pub fn can_tick(&self, dt_ms: u64) -> (r: bool)
        ensures
            r == tick_ok(self@, dt_ms),
    {
        let pomodoro_ok = !(self.mode == AppMode::Pomodoro && self.pomodoro.running
            && self.pomodoro.remaining_ms <= dt_ms) || self.pomodoro.phase != PomodoroPhase::Work
            || self.pomodoro.completed < u32::MAX;
        let stopwatch_ok = !(self.mode == AppMode::Stopwatch && self.stopwatch.running)
            || self.stopwatch.elapsed_ms <= u64::MAX - dt_ms;
        pomodoro_ok && stopwatch_ok
    }

    /// Whether a click action can run without an overflow; see `action_ok`.
    pub fn can_do(&self, action: ClickAction) -> (r: bool)
        ensures
            r == action_ok(self@, action),
    {
        match action {
            ClickAction::Skip => self.mode != AppMode::Pomodoro || self.pomodoro.phase
                != PomodoroPhase::Work || self.pomodoro.completed < u32::MAX,
            ClickAction::ThemeNext => self.theme_idx < usize::MAX,
            ClickAction::SettingsField(SettingsField::Theme) => self.theme_idx < usize::MAX,
            ClickAction::ThemePrev => self.theme_idx <= usize::MAX - THEME_COUNT,
            _ => true,
        }
    }

    fn can_adjust(&self, dir: i32) -> (r: bool)
        ensures
            r == adjust_ok(self@, dir),
    {
        match self.settings_field {
            SettingsField::Work => {
                let m = minutes_of(self.pomodoro.work_secs) + dir as i64;
                -2147483648 <= m && m <= 2147483647
            },
            SettingsField::Short => {
                let m = minutes_of(self.pomodoro.short_secs) + dir as i64;
                -2147483648 <= m && m <= 2147483647
            },
            SettingsField::Long => {
                let m = minutes_of(self.pomodoro.long_secs) + dir as i64;
                -2147483648 <= m && m <= 2147483647
            },
            SettingsField::Cycles => {
                let m = as_i32_exec(self.pomodoro.sessions_before_long) + dir as i64;
                -2147483648 <= m && m <= 2147483647
            },
            SettingsField::Theme => if dir > 0 {
                self.theme_idx < usize::MAX
            } else {
                self.theme_idx <= usize::MAX - THEME_COUNT
            },
            _ => true,
        }
    }

    /// Whether a key press can be handled without an overflow; see
    /// `key_ok`.
    pub fn can_handle_key(&self, key: KeyEvent) -> (r: bool)
        ensures
            r == key_ok(self@, key),
    {
        if self.timer_editing && !self.show_settings {
            true
        } else if self.show_settings {
            match key.code {
                KeyCode::Left | KeyCode::Char('h') | KeyCode::Char('-') | KeyCode::Char('_') => self.can_adjust(-1),
                KeyCode::Right | KeyCode::Char('l') | KeyCode::Char('+') | KeyCode::Char('=') => self.can_adjust(1),
                KeyCode::Char('[') => self.theme_idx <= usize::MAX - THEME_COUNT,
                KeyCode::Char(']') => self.theme_idx < usize::MAX,
                _ => true,
            }
        } else {
            match key.code {
                KeyCode::Char('s') | KeyCode::Char('n') => self.mode != AppMode::Pomodoro
                    || self.pomodoro.phase != PomodoroPhase::Work || self.pomodoro.completed
                    < u32::MAX,
                KeyCode::Char('T') | KeyCode::Char(']') => self.theme_idx < usize::MAX,
                KeyCode::Char('[') => self.theme_idx <= usize::MAX - THEME_COUNT,
                _ => true,
            }
        }
    }

    /// Whether a click at `(x, y)` can be handled without an overflow; see
    /// `click_ok`.
    pub fn can_handle_click(&self, x: u16, y: u16) -> (r: bool)
        ensures
            r == click_ok(self@, x, y),
    {
        let ghost cs = self.clickables@;
        let mut i: usize = self.clickables.len();
        assert(cs.take(i as int) =~= cs);
        while i > 0
            invariant
                i <= cs.len(),
                cs == self.clickables@,
                hit_index(cs, x, y) == hit_index(cs.take(i as int), x, y),
            decreases i,
        {
            let (rect, action) = self.clickables[i - 1];
            assert(cs[i - 1] == (rect, action));
            assert(cs.take(i as int).drop_last() =~= cs.take(i - 1));
            assert(cs.take(i as int).last() == cs[i - 1]);
            if x >= rect.x && (x as u32) < rect.x as u32 + rect.width as u32 && y >= rect.y && (y
                as u32) < rect.y as u32 + rect.height as u32 {
                assert(hit_index(cs, x, y) == Some(i - 1));
                return self.can_do(action);
            }
            i = i - 1;
        }
        assert(cs.take(0) =~= Seq::<(Rect, ClickAction)>::empty());
        true
    }
}

} // verus!
