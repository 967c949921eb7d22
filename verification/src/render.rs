//! What the screens show and where: the decisions behind each drawn part,
//! as plain values that a terminal front end paints.

use vstd::prelude::*;
use crate::app::{App, AppView, Rect};
use crate::modes::{AppMode, ClickAction, PomodoroPhase, SettingsField};
use crate::text::{cat2, cat3, owned, pad2, decimal, push_pad2, push_decimal, string_of, chars_of};
use crate::theme::{Color, Theme};
use crate::timefmt::{format_stopwatch, stopwatch_text};
use crate::timers::PomodoroState;

verus! {

/// `a - b`, or 0 when `b` is the larger.
pub open spec fn sub0(a: int, b: int) -> int {
    if a > b {
        a - b
    } else {
        0
    }
}

/// Width of a progress bar in an area `w` cells wide: six tenths of it,
/// between 20 and 60 cells, never wider than the area.
pub open spec fn bar_width(w: u16) -> u16 {
    let six = if w * 6 > u16::MAX {
        u16::MAX as int
    } else {
        w * 6
    };
    let a = six / 10;
    let b = if a > 60 {
        60
    } else {
        a
    };
    let c = if b < 20 {
        20
    } else {
        b
    };
    (if c > w {
        w as int
    } else {
        c
    }) as u16
}

/// Width of a progress bar; see `bar_width`.
pub fn progress_bar_width(w: u16) -> (r: u16)
    ensures
        r == bar_width(w),
{
    let six: u16 = if w > 10922 {
        u16::MAX
    } else {
        w * 6
    };
    let a = six / 10;
    let b = if a > 60 {
        60
    } else {
        a
    };
    let c = if b < 20 {
        20
    } else {
        b
    };
    if c > w {
        w
    } else {
        c
    }
}

/// Filled part of a `bar_w`-cell bar for a countdown with `remain_ms` of
/// `total_ms` left: the elapsed share of the bar, rounded down; empty when
/// the total is zero.
pub open spec fn fill_width(bar_w: u16, total_ms: u64, remain_ms: u64) -> u16 {
    if total_ms == 0 || remain_ms >= total_ms {
        0
    } else {
        (bar_w * (total_ms - remain_ms) / (total_ms as int)) as u16
    }
}

/// Filled part of a progress bar; see `fill_width`.
pub fn progress_fill_width(bar_w: u16, total_ms: u64, remain_ms: u64) -> (r: u16)
    ensures
        r == fill_width(bar_w, total_ms, remain_ms),
        r <= bar_w,
{
    if total_ms == 0 || remain_ms >= total_ms {
        0
    } else {
        let done: u128 = (total_ms - remain_ms) as u128;
        let total: u128 = total_ms as u128;
        let bw: u128 = bar_w as u128;
        assert(bw * done <= bw * total) by (nonlinear_arith)
            requires
                done <= total,
                bw >= 0,
        ;
        assert(bw * total <= 65535 * 18446744073709551615) by (nonlinear_arith)
            requires
                bw <= 65535,
                total <= 18446744073709551615,
        ;
        let q = bw * done / total;
        assert(q <= bw) by (nonlinear_arith)
            requires
                q as int == (bw * done) as int / (total as int),
                bw * done <= bw * total,
                total > 0,
        ;
        q as u16
    }
}

/// The span the pomodoro bar measures against: its phase's length, at least
/// a second.
pub open spec fn pomodoro_bar_total(p: PomodoroState) -> u64 {
    let ms = crate::timers::phase_ms(p);
    if ms < 1000 {
        1000
    } else {
        ms
    }
}

/// The span the pomodoro bar measures against; see `pomodoro_bar_total`.
pub fn pomodoro_bar_span(p: &PomodoroState) -> (r: u64)
    ensures
        r == pomodoro_bar_total(*p),
        r >= 1000,
{
    let ms = p.phase_duration();
    if ms < 1000 {
        1000
    } else {
        ms
    }
}

/// How a session dot of the pomodoro cycle is drawn.
#[derive(Clone, Copy, PartialEq, Eq, Debug, Structural)]
pub enum DotKind {
    Filled,
    Active,
    Empty,
}

/// Dot `i` of the cycle row: filled for finished sessions (the current one
/// too once its break has begun), hollow for the session in progress,
/// empty otherwise; the session count is taken as `u16`, as the row is.
pub open spec fn dot_kind(i: u16, p: PomodoroState) -> DotKind {
    let s = p.session_in_cycle as u16;
    if i + 1 < s || (i + 1 == s && p.phase != PomodoroPhase::Work && p.completed > 0) {
        DotKind::Filled
    } else if i + 1 == s && p.phase == PomodoroPhase::Work {
        DotKind::Active
    } else {
        DotKind::Empty
    }
}

/// How dot `i` of the cycle row is drawn; see `dot_kind`.
pub fn cycle_dot(i: u16, p: &PomodoroState) -> (r: DotKind)
    requires
        i < u16::MAX,
    ensures
        r == dot_kind(i, *p),
{
    let s = p.session_in_cycle as u16;
    if i + 1 < s || (i + 1 == s && p.phase != PomodoroPhase::Work && p.completed > 0) {
        DotKind::Filled
    } else if i + 1 == s && p.phase == PomodoroPhase::Work {
        DotKind::Active
    } else {
        DotKind::Empty
    }
}

/// Width of a row of `cycles` dots two cells apart.
pub fn dot_row_width(cycles: u16) -> (r: u16)
    requires
        cycles + sub0(cycles as int, 1) * 2 <= u16::MAX,
    ensures
        r == cycles + sub0(cycles as int, 1) * 2,
{
    cycles + cycles.saturating_sub(1) * 2
}

/// The stopwatch status line: reading, then running or paused.
pub open spec fn stopwatch_status_text(elapsed_ms: u64, running: bool) -> Seq<char> {
    stopwatch_text(elapsed_ms) + "  \u{2022}  "@ + (if running {
        "\u{25cf} RUNNING"@
    } else {
        "\u{25cb} PAUSED"@
    })
}

/// The stopwatch status line; see `stopwatch_status_text`.
pub fn stopwatch_status(elapsed_ms: u64, running: bool) -> (r: String)
    ensures
        r@ == stopwatch_status_text(elapsed_ms, running),
{
    let reading = format_stopwatch(elapsed_ms);
    let state = if running {
        "\u{25cf} RUNNING"
    } else {
        "\u{25cb} PAUSED"
    };
    cat3(reading.as_str(), "  \u{2022}  ", state)
}

/// A button of the control row.
#[derive(Clone, Copy, Debug)]
pub struct Button {
    pub label: &'static str,
    pub bg: Color,
    pub fg: Color,
    pub action: ClickAction,
}

/// The near-black used for text drawn on an accent colour.
pub open spec fn ink() -> Color {
    Color::Rgb(16, 16, 18)
}

/// A button as label text, colours and action.
pub open spec fn button_view(b: Button) -> (Seq<char>, Color, Color, ClickAction) {
    (b.label@, b.bg, b.fg, b.action)
}

/// The buttons under the digits: none on the clock; start/pause, reset and
/// skip for the pomodoro; save and cancel while typing a timer length,
/// otherwise edit (when idle), start/pause/restart and reset for the timer;
/// start/pause, lap and reset for the stopwatch. A start button is lit in
/// the accent colour with dark text, a pause button is plain.
pub open spec fn controls_of(v: AppView, th: Theme) -> Seq<(Seq<char>, Color, Color, ClickAction)> {
    match v.mode {
        AppMode::Clock => seq![],
        AppMode::Pomodoro => {
            let running = v.pomodoro.running;
            let pc = crate::timers::phase_color_of(v.pomodoro.phase, th);
            seq![
                (if running { " \u{275a}\u{275a} PAUSE "@ } else { " \u{25b6} START "@ },
                    if running { th.slab_bg } else { pc },
                    if running { th.text_main } else { ink() },
                    ClickAction::StartPause),
                (" \u{21ba} RESET "@, th.slab_bg, th.text_main, ClickAction::Reset),
                (" SKIP \u{2192} "@, th.slab_bg, th.text_main, ClickAction::Skip),
            ]
        },
        AppMode::Timer => if v.timer_editing {
            seq![
                (" \u{2713} SAVE "@, th.accent_green, ink(), ClickAction::TimerSave),
                (" \u{2717} CANCEL "@, th.slab_bg, th.text_main, ClickAction::TimerCancel),
            ]
        } else {
            let running = v.timer.running;
            let finished = v.timer.finished;
            let start_label = if finished {
                " \u{21ba} RESTART "@
            } else if running {
                " \u{275a}\u{275a} PAUSE "@
            } else {
                " \u{25b6} START "@
            };
            let lit = finished || !running;
            let start = (
                start_label,
                if lit { th.accent_blue } else { th.slab_bg },
                if lit { ink() } else { th.text_main },
                ClickAction::StartPause,
            );
            let reset = (" \u{21ba} RESET "@, th.slab_bg, th.text_main, ClickAction::Reset);
            if !running && !finished {
                seq![(" \u{270e} EDIT "@, th.slab_bg, th.text_main, ClickAction::TimerEdit), start, reset]
            } else {
                seq![start, reset]
            }
        },
        AppMode::Stopwatch => {
            let running = v.stopwatch_running;
            seq![
                (if running { " \u{275a}\u{275a} PAUSE "@ } else { " \u{25b6} START "@ },
                    if running { th.slab_bg } else { th.accent_green },
                    if running { th.text_main } else { ink() },
                    ClickAction::StartPause),
                (" \u{25ce} LAP "@, th.slab_bg, th.text_main, ClickAction::Lap),
                (" \u{21ba} RESET "@, th.slab_bg, th.text_main, ClickAction::Reset),
            ]
        },
    }
}

/// The buttons of the control row; see `controls_of`.
pub fn controls_for(app: &App, th: &Theme) -> (r: Vec<Button>)
    ensures
        r@.map_values(|b: Button| button_view(b)) == controls_of(app@, *th),
{
    let mut r: Vec<Button> = Vec::new();
    match app.mode {
        AppMode::Clock => {},
        AppMode::Pomodoro => {
            let running = app.pomodoro.running;
            let pc = app.pomodoro.phase_color(th);
            r.push(
                Button {
                    label: if running {
                        " \u{275a}\u{275a} PAUSE "
                    } else {
                        " \u{25b6} START "
                    },
                    bg: if running {
                        th.slab_bg
                    } else {
                        pc
                    },
                    fg: if running {
                        th.text_main
                    } else {
                        Color::Rgb(16, 16, 18)
                    },
                    action: ClickAction::StartPause,
                },
            );
            r.push(Button { label: " \u{21ba} RESET ", bg: th.slab_bg, fg: th.text_main, action: ClickAction::Reset });
            r.push(Button { label: " SKIP \u{2192} ", bg: th.slab_bg, fg: th.text_main, action: ClickAction::Skip });
        },
        AppMode::Timer => {
            if app.timer_editing {
                r.push(
                    Button {
                        label: " \u{2713} SAVE ",
                        bg: th.accent_green,
                        fg: Color::Rgb(16, 16, 18),
                        action: ClickAction::TimerSave,
                    },
                );
                r.push(
                    Button {
                        label: " \u{2717} CANCEL ",
                        bg: th.slab_bg,
                        fg: th.text_main,
                        action: ClickAction::TimerCancel,
                    },
                );
            } else {
                let running = app.timer.running;
                let finished = app.timer.finished;
                let start_label = if finished {
                    " \u{21ba} RESTART "
                } else if running {
                    " \u{275a}\u{275a} PAUSE "
                } else {
                    " \u{25b6} START "
                };
                let lit = finished || !running;
                if !running && !finished {
                    r.push(
                        Button {
                            label: " \u{270e} EDIT ",
                            bg: th.slab_bg,
                            fg: th.text_main,
                            action: ClickAction::TimerEdit,
                        },
                    );
                }
                r.push(
                    Button {
                        label: start_label,
                        bg: if lit {
                            th.accent_blue
                        } else {
                            th.slab_bg
                        },
                        fg: if lit {
                            Color::Rgb(16, 16, 18)
                        } else {
                            th.text_main
                        },
                        action: ClickAction::StartPause,
                    },
                );
                r.push(Button { label: " \u{21ba} RESET ", bg: th.slab_bg, fg: th.text_main, action: ClickAction::Reset });
            }
        },
        AppMode::Stopwatch => {
            let running = app.stopwatch.running;
            r.push(
                Button {
                    label: if running {
                        " \u{275a}\u{275a} PAUSE "
                    } else {
                        " \u{25b6} START "
                    },
                    bg: if running {
                        th.slab_bg
                    } else {
                        th.accent_green
                    },
                    fg: if running {
                        th.text_main
                    } else {
                        Color::Rgb(16, 16, 18)
                    },
                    action: ClickAction::StartPause,
                },
            );
            r.push(Button { label: " \u{25ce} LAP ", bg: th.slab_bg, fg: th.text_main, action: ClickAction::Lap });
            r.push(Button { label: " \u{21ba} RESET ", bg: th.slab_bg, fg: th.text_main, action: ClickAction::Reset });
        },
    }
    assert(r@.map_values(|b: Button| button_view(b)) =~= controls_of(app@, *th));
    r
}

/// The key hint under the buttons of a mode.
pub open spec fn hint_text(mode: AppMode, editing: bool) -> Seq<char> {
    match mode {
        AppMode::Clock => ""@,
        AppMode::Pomodoro => "space start  \u{2022}  r reset  \u{2022}  s skip"@,
        AppMode::Timer => if editing {
            "type MM:SS  \u{2022}  enter save  \u{2022}  esc cancel"@
        } else {
            "space start  \u{2022}  r reset  \u{2022}  e edit time"@
        },
        AppMode::Stopwatch => "space start  \u{2022}  l lap  \u{2022}  r reset"@,
    }
}

/// The key hint under the buttons; see `hint_text`.
pub fn controls_hint(mode: AppMode, editing: bool) -> (r: &'static str)
    ensures
        r@ == hint_text(mode, editing),
{
    match mode {
        AppMode::Clock => "",
        AppMode::Pomodoro => "space start  \u{2022}  r reset  \u{2022}  s skip",
        AppMode::Timer => if editing {
            "type MM:SS  \u{2022}  enter save  \u{2022}  esc cancel"
        } else {
            "space start  \u{2022}  r reset  \u{2022}  e edit time"
        },
        AppMode::Stopwatch => "space start  \u{2022}  l lap  \u{2022}  r reset",
    }
}

/// Byte length of text in UTF-8, as `str::len` reports it.
pub open spec fn byte_len(s: Seq<char>) -> usize {
    vstd::utf8::encode_utf8(s).len() as usize
}

/// Width a button takes: its label's byte length (as a `u16`) and a cell
/// of padding on each side.
pub open spec fn button_width(b: Button) -> int {
    (byte_len(b.label@) as u16) + 2
}

/// Total width of a row of buttons one cell apart.
pub open spec fn buttons_total(bs: Seq<Button>) -> int
    decreases bs.len(),
{
    if bs.len() == 0 {
        0
    } else if bs.len() == 1 {
        button_width(bs[0])
    } else {
        buttons_total(bs.drop_last()) + button_width(bs.last()) + 1
    }
}

/// Total width of a row of buttons; see `buttons_total`.
pub fn buttons_width(bs: &Vec<Button>) -> (r: u16)
    requires
        forall|k: int| 0 <= k <= bs@.len() ==> buttons_total(#[trigger] bs@.take(k)) <= u16::MAX,
    ensures
        r == buttons_total(bs@),
{
    let mut total: u16 = 0;
    let mut i: usize = 0;
    while i < bs.len()
        invariant
            i <= bs@.len(),
            total == buttons_total(bs@.take(i as int)),
            forall|k: int| 0 <= k <= bs@.len() ==> buttons_total(#[trigger] bs@.take(k)) <= u16::MAX,
        decreases bs.len() - i,
    {
        assert(bs@.take(i + 1).drop_last() =~= bs@.take(i as int));
        assert(bs@.take(i + 1).last() == bs@[i as int]);
        assert(buttons_total(bs@.take(i + 1)) <= u16::MAX);
        assert(bs@.take(1)[0] == bs@[0]);
        assert(button_width(bs@[i as int]) <= u16::MAX);
        let w = (bs[i].label.len() as u16) + 2;
        if i == 0 {
            assert(bs@.take(1)[0] == bs@[0]);
            total = w;
        } else {
            total = total + w + 1;
        }
        i = i + 1;
    }
    assert(bs@.take(bs.len() as int) =~= bs@);
    total
}

/// How the big digits are rendered.
#[derive(Clone, Copy, PartialEq, Eq, Debug, Structural)]
pub enum PixelSize {
    Quadrant,
    Sextant,
}

/// Where the big time goes in an area: plain text on one centred line when
/// the area is under 30 x 8; otherwise big text, four rows high in quadrant
/// pixels when the area is at least ten rows, else three rows in sextant
/// pixels, centred vertically.
pub open spec fn display_layout_of(area: Rect) -> (bool, Rect, PixelSize) {
    if area.width < 30 || area.height < 8 {
        let h: u16 = if area.height < 1 {
            area.height
        } else {
            1
        };
        (
            true,
            Rect {
                x: area.x,
                y: (area.y + (area.height - h) / 2) as u16,
                width: area.width,
                height: if h < 1 {
                    1
                } else {
                    h
                },
            },
            PixelSize::Sextant,
        )
    } else {
        let pixel = if area.height >= 10 {
            PixelSize::Quadrant
        } else {
            PixelSize::Sextant
        };
        let want: u16 = if area.height >= 10 {
            4
        } else {
            3
        };
        let rh: u16 = if want < area.height {
            want
        } else {
            area.height
        };
        (
            false,
            Rect {
                x: area.x,
                y: (area.y + (area.height - rh) / 2) as u16,
                width: area.width,
                height: rh,
            },
            pixel,
        )
    }
}

/// Where the big time goes; see `display_layout_of`.
pub fn display_layout(area: Rect) -> (r: (bool, Rect, PixelSize))
    requires
        area.y + area.height <= u16::MAX,
    ensures
        r == display_layout_of(area),
{
    if area.width < 30 || area.height < 8 {
        let h: u16 = if area.height < 1 {
            area.height
        } else {
            1
        };
        let y = area.y + (area.height - h) / 2;
        (true, Rect { x: area.x, y, width: area.width, height: if h < 1 { 1 } else { h } }, PixelSize::Sextant)
    } else {
        let pixel = if area.height >= 10 {
            PixelSize::Quadrant
        } else {
            PixelSize::Sextant
        };
        let want: u16 = if area.height >= 10 {
            4
        } else {
            3
        };
        let rh: u16 = if want < area.height {
            want
        } else {
            area.height
        };
        (false, Rect { x: area.x, y: area.y + (area.height - rh) / 2, width: area.width, height: rh }, pixel)
    }
}

/// Whether the big time is drawn flashing: a finished timer, or a pomodoro
/// whose flash is running.
pub open spec fn flashing_of(v: AppView) -> bool {
    (v.mode == AppMode::Timer && v.timer.finished) || (v.mode == AppMode::Pomodoro
        && v.flash_timer_ms > 0)
}

/// Whether the big time is drawn flashing; see `flashing_of`.
pub fn display_flashing(app: &App) -> (r: bool)
    ensures
        r == flashing_of(app@),
{
    (app.mode == AppMode::Timer && app.timer.finished) || (app.mode == AppMode::Pomodoro
        && app.flash_timer_ms > 0)
}

/// The card digits set out as a time: `HH:MM:SS` or `HH:MM` on the clock,
/// `HH:MM:SS` for six pomodoro or timer digits and `MM:SS` otherwise,
/// `MM:SS.hh` on the stopwatch.
pub open spec fn pretty_time_text(mode: AppMode, d: Seq<char>, show_seconds: bool) -> Seq<char> {
    let hms = d.subrange(0, 2) + seq![':'] + d.subrange(2, 4) + seq![':'] + d.subrange(4, 6);
    let hm = d.subrange(0, 2) + seq![':'] + d.subrange(2, 4);
    match mode {
        AppMode::Clock => if show_seconds {
            hms
        } else {
            hm
        },
        AppMode::Pomodoro | AppMode::Timer => if d.len() == 6 {
            hms
        } else {
            hm
        },
        AppMode::Stopwatch => d.subrange(0, 2) + seq![':'] + d.subrange(2, 4) + seq!['.']
            + d.subrange(4, 6),
    }
}

/// Whether `pretty_time` can cut the digits where it does: enough of them,
/// all ASCII.
pub open spec fn pretty_time_ok(mode: AppMode, d: Seq<char>, show_seconds: bool) -> bool {
    &&& forall|i: int| 0 <= i < d.len() ==> (#[trigger] d[i] as u32) < 128
    &&& d.len() >= 4
    &&& (mode == AppMode::Stopwatch || (mode == AppMode::Clock && show_seconds)) ==> d.len() >= 6
}

fn push_range(out: &mut Vec<char>, d: &Vec<char>, lo: usize, hi: usize)
    requires
        lo <= hi <= d.len(),
    ensures
        final(out)@ == old(out)@ + d@.subrange(lo as int, hi as int),
{
    let mut k = lo;
    while k < hi
        invariant
            lo <= k <= hi <= d.len(),
            out@ == old(out)@ + d@.subrange(lo as int, k as int),
        decreases hi - k,
    {
        out.push(d[k]);
        assert(d@.subrange(lo as int, k + 1) =~= d@.subrange(lo as int, k as int).push(d@[k as int]));
        k = k + 1;
    }
}

/// The card digits set out as a time; see `pretty_time_text`.
pub fn pretty_time(mode: AppMode, d: &Vec<char>, show_seconds: bool) -> (r: String)
    requires
        pretty_time_ok(mode, d@, show_seconds),
    ensures
        r@ == pretty_time_text(mode, d@, show_seconds),
{
    let mut v: Vec<char> = Vec::new();
    push_range(&mut v, d, 0, 2);
    let third = match mode {
        AppMode::Clock => show_seconds,
        AppMode::Pomodoro | AppMode::Timer => d.len() == 6,
        AppMode::Stopwatch => true,
    };
    v.push(':');
    push_range(&mut v, d, 2, 4);
    if third {
        if mode == AppMode::Stopwatch {
            v.push('.');
        } else {
            v.push(':');
        }
        push_range(&mut v, d, 4, 6);
    }
    assert(v@ =~= pretty_time_text(mode, d@, show_seconds));
    crate::text::string_of(&v)
}

/// The text of the big time: while typing a timer length, what is typed
/// (the digits when nothing is); otherwise the digits set out as a time.
pub open spec fn display_text_of(v: AppView, d: Seq<char>) -> Seq<char> {
    if v.mode == AppMode::Timer && v.timer_editing {
        if v.timer_buffer.len() == 0 {
            d
        } else {
            v.timer_buffer
        }
    } else {
        pretty_time_text(v.mode, d, v.show_seconds)
    }
}

/// The text of the big time; see `display_text_of`.
pub fn display_text(app: &App, d: &Vec<char>) -> (r: String)
    requires
        !(app.mode == AppMode::Timer && app.timer_editing) ==> pretty_time_ok(
            app.mode,
            d@,
            app.show_seconds,
        ),
    ensures
        r@ == display_text_of(app@, d@),
{
    if app.mode == AppMode::Timer && app.timer_editing {
        if app.timer_buffer.as_str().is_empty() {
            crate::text::string_of(d)
        } else {
            app.timer_buffer.clone()
        }
    } else {
        pretty_time(app.mode, d, app.show_seconds)
    }
}

/// The caption of a settings row.
pub open spec fn field_label_text(f: SettingsField) -> Seq<char> {
    match f {
        SettingsField::Theme => "Theme"@,
        SettingsField::Transparent => "Transparent BG"@,
        SettingsField::Work => "Focus"@,
        SettingsField::Short => "Short Break"@,
        SettingsField::Long => "Long Break"@,
        SettingsField::Cycles => "Sessions before Long"@,
        SettingsField::AutoBreak => "Auto-start breaks"@,
        SettingsField::AutoWork => "Auto-start focus"@,
    }
}

/// The caption of a settings row; see `field_label_text`.
pub fn field_label(f: SettingsField) -> (r: &'static str)
    ensures
        r@ == field_label_text(f),
{
    match f {
        SettingsField::Theme => "Theme",
        SettingsField::Transparent => "Transparent BG",
        SettingsField::Work => "Focus",
        SettingsField::Short => "Short Break",
        SettingsField::Long => "Long Break",
        SettingsField::Cycles => "Sessions before Long",
        SettingsField::AutoBreak => "Auto-start breaks",
        SettingsField::AutoWork => "Auto-start focus",
    }
}

/// `ON` or `OFF`.
pub open spec fn on_off(b: bool) -> Seq<char> {
    if b {
        "ON"@
    } else {
        "OFF"@
    }
}

/// `secs` as whole minutes, `MM min`.
pub open spec fn minutes_text(secs: u32) -> Seq<char> {
    pad2((secs / 60) as nat) + " min"@
}

/// The value shown in a settings row: the theme's name, a switch's state,
/// a length in minutes or the number of sessions per cycle.
pub open spec fn field_value_text(v: AppView, f: SettingsField, theme_name: Seq<char>) -> Seq<char> {
    match f {
        SettingsField::Theme => theme_name,
        SettingsField::Transparent => on_off(v.transparent_bg),
        SettingsField::Work => minutes_text(v.pomodoro.work_secs),
        SettingsField::Short => minutes_text(v.pomodoro.short_secs),
        SettingsField::Long => minutes_text(v.pomodoro.long_secs),
        SettingsField::Cycles => decimal(v.pomodoro.sessions_before_long as nat),
        SettingsField::AutoBreak => on_off(v.pomodoro.auto_start_breaks),
        SettingsField::AutoWork => on_off(v.pomodoro.auto_start_work),
    }
}

fn on_off_str(b: bool) -> (r: &'static str)
    ensures
        r@ == on_off(b),
{
    if b {
        "ON"
    } else {
        "OFF"
    }
}

fn minutes_string(secs: u32) -> (r: String)
    ensures
        r@ == minutes_text(secs),
{
    let mut v: Vec<char> = Vec::new();
    push_pad2(&mut v, (secs / 60) as u64);
    let m = string_of(&v);
    cat2(m.as_str(), " min")
}

/// The value shown in a settings row; see `field_value_text`.
pub fn field_value(app: &App, f: SettingsField, theme_name: &str) -> (r: String)
    ensures
        r@ == field_value_text(app@, f, theme_name@),
{
    match f {
        SettingsField::Theme => owned(theme_name),
        SettingsField::Transparent => owned(on_off_str(app.transparent_bg)),
        SettingsField::Work => minutes_string(app.pomodoro.work_secs),
        SettingsField::Short => minutes_string(app.pomodoro.short_secs),
        SettingsField::Long => minutes_string(app.pomodoro.long_secs),
        SettingsField::Cycles => {
            let mut v: Vec<char> = Vec::new();
            push_decimal(&mut v, app.pomodoro.sessions_before_long as u64);
            string_of(&v)
        },
        SettingsField::AutoBreak => owned(on_off_str(app.pomodoro.auto_start_breaks)),
        SettingsField::AutoWork => owned(on_off_str(app.pomodoro.auto_start_work)),
    }
}

/// `n` spaces.
pub open spec fn spaces(n: int) -> Seq<char> {
    Seq::new(if n > 0 { n as nat } else { 0 }, |i: int| ' ')
}

/// A settings row as text: a marker for the selected row, the caption
/// left-aligned in 20 columns, the value right-aligned in 14, then `< >` on
/// the theme row or `◀▶` on another selected row; cut to `width`
/// characters.
pub open spec fn settings_line_text(
    label: Seq<char>,
    value: Seq<char>,
    selected: bool,
    is_theme: bool,
    width: u16,
) -> Seq<char> {
    let prefix = if selected {
        "\u{25b6} "@
    } else {
        "  "@
    };
    let suffix = if is_theme {
        "  < >"@
    } else if selected {
        "  \u{25c0}\u{25b6}"@
    } else {
        ""@
    };
    let line = prefix + label + spaces(20 - label.len()) + " "@ + spaces(14 - value.len()) + value
        + suffix;
    if line.len() > width {
        line.take(width as int)
    } else {
        line
    }
}

fn push_str_chars(out: &mut Vec<char>, s: &str)
    ensures
        final(out)@ == old(out)@ + s@,
{
    let cs = chars_of(s);
    let mut k: usize = 0;
    while k < cs.len()
        invariant
            k <= cs.len(),
            out@ == old(out)@ + cs@.take(k as int),
        decreases cs.len() - k,
    {
        out.push(cs[k]);
        assert(cs@.take(k + 1) =~= cs@.take(k as int).push(cs@[k as int]));
        k = k + 1;
    }
    assert(cs@.take(cs.len() as int) =~= cs@);
}

fn push_spaces(out: &mut Vec<char>, n: usize)
    ensures
        final(out)@ == old(out)@ + spaces(n as int),
{
    let mut k: usize = 0;
    while k < n
        invariant
            k <= n,
            out@ == old(out)@ + spaces(k as int),
        decreases n - k,
    {
        out.push(' ');
        assert(spaces(k + 1) =~= spaces(k as int).push(' '));
        k = k + 1;
    }
}

/// A settings row as text; see `settings_line_text`.
pub fn settings_line(label: &str, value: &str, selected: bool, is_theme: bool, width: u16) -> (r:
    String)
    ensures
        r@ == settings_line_text(label@, value@, selected, is_theme, width),
{
    let mut v: Vec<char> = Vec::new();
    push_str_chars(&mut v, if selected {
        "\u{25b6} "
    } else {
        "  "
    });
    let lc = chars_of(label);
    push_str_chars(&mut v, label);
    if lc.len() < 20 {
        push_spaces(&mut v, 20 - lc.len());
    } else {
        assert(spaces(20 - lc@.len()) =~= Seq::<char>::empty());
    }
    v.push(' ');
    let vc = chars_of(value);
    if vc.len() < 14 {
        push_spaces(&mut v, 14 - vc.len());
    } else {
        assert(spaces(14 - vc@.len()) =~= Seq::<char>::empty());
    }
    push_str_chars(&mut v, value);
    push_str_chars(&mut v, if is_theme {
        "  < >"
    } else if selected {
        "  \u{25c0}\u{25b6}"
    } else {
        ""
    });
    proof {
        reveal_strlit(" ");
        assert(" "@ =~= seq![' ']);
    }
    let ghost full = v@;
    assert(full =~= (if selected { "\u{25b6} "@ } else { "  "@ }) + label@ + spaces(20 - label@.len())
        + " "@ + spaces(14 - value@.len()) + value@ + (if is_theme {
        "  < >"@
    } else if selected {
        "  \u{25c0}\u{25b6}"@
    } else {
        ""@
    }));
    if v.len() > width as usize {
        v.truncate(width as usize);
        assert(v@ =~= full.take(width as int));
    }
    string_of(&v)
}

/// Colours of a settings row: the selected row is highlighted (grey where
/// the theme leaves the colour to the terminal), others are dim on the
/// panel background. Returns foreground and background.
pub open spec fn settings_row_colors_of(th: Theme, selected: bool) -> (Color, Color) {
    let bg = if selected {
        th.card_border_dim
    } else {
        th.popup_bg
    };
    let bg2 = if selected && bg == Color::Reset {
        Color::DarkGray
    } else {
        bg
    };
    let fg = if selected {
        th.text_main
    } else {
        th.text_dim
    };
    let fg2 = if selected && fg == Color::Reset {
        Color::White
    } else {
        fg
    };
    (fg2, bg2)
}

/// Colours of a settings row; see `settings_row_colors_of`.
pub fn settings_row_colors(th: &Theme, selected: bool) -> (r: (Color, Color))
    ensures
        r == settings_row_colors_of(*th, selected),
{
    let bg = if selected {
        th.card_border_dim
    } else {
        th.popup_bg
    };
    let bg2 = if selected && bg == Color::Reset {
        Color::DarkGray
    } else {
        bg
    };
    let fg = if selected {
        th.text_main
    } else {
        th.text_dim
    };
    let fg2 = if selected && fg == Color::Reset {
        Color::White
    } else {
        fg
    };
    (fg2, bg2)
}

/// The settings panel and its inner text area in a screen `area`: none on a
/// screen under 30 x 12; otherwise up to 58 x 24 (at least 30 x 14),
/// centred, with a two-cell margin inside.
pub open spec fn settings_popup_of(area: Rect) -> Option<(Rect, Rect)> {
    if area.width < 30 || area.height < 12 {
        None
    } else {
        let w0 = if area.width - 4 < 58 {
            area.width - 4
        } else {
            58
        };
        let w = if w0 < 30 {
            30
        } else {
            w0
        };
        let h0 = if area.height - 4 < 24 {
            area.height - 4
        } else {
            24
        };
        let h = if h0 < 14 {
            14
        } else {
            h0
        };
        let x = area.x + sub0(area.width as int, w) / 2;
        let y = area.y + sub0(area.height as int, h) / 2;
        Some(
            (
                Rect { x: x as u16, y: y as u16, width: w as u16, height: h as u16 },
                Rect { x: (x + 2) as u16, y: (y + 2) as u16, width: (w - 4) as u16, height: (h - 4) as u16 },
            ),
        )
    }
}

/// The settings panel and its inner area; see `settings_popup_of`.
pub fn settings_popup(area: Rect) -> (r: Option<(Rect, Rect)>)
    requires
        area.x + area.width <= u16::MAX,
        area.y + area.height + 2 <= u16::MAX,
    ensures
        r == settings_popup_of(area),
{
    if area.width < 30 || area.height < 12 {
        return None;
    }
    let w0 = if area.width - 4 < 58 {
        area.width - 4
    } else {
        58
    };
    let w = if w0 < 30 {
        30
    } else {
        w0
    };
    let h0 = if area.height - 4 < 24 {
        area.height - 4
    } else {
        24
    };
    let h = if h0 < 14 {
        14
    } else {
        h0
    };
    let x = area.x + (if area.width > w { area.width - w } else { 0 }) / 2;
    let y = area.y + (if area.height > h { area.height - h } else { 0 }) / 2;
    Some((Rect { x, y, width: w, height: h }, Rect { x: x + 2, y: y + 2, width: w - 4, height: h - 4 }))
}

/// The first line of the general settings text: the clock's switches.
pub open spec fn display_switches_text(v: AppView) -> Seq<char> {
    "Display: 24H ["@ + on_off(v.use_24h) + "] SEC ["@ + on_off(v.show_seconds) + "] Mouse ["@
        + on_off(v.mouse_enabled) + "]"@
}

/// The first line of the general settings text; see
/// `display_switches_text`.
pub fn display_switches(app: &App) -> (r: String)
    ensures
        r@ == display_switches_text(app@),
{
    let a = cat3("Display: 24H [", on_off_str(app.use_24h), "] SEC [");
    let b = cat3(a.as_str(), on_off_str(app.show_seconds), "] Mouse [");
    cat3(b.as_str(), on_off_str(app.mouse_enabled), "]")
}

/// The split of lap `idx` (counted from 1): its time less the lap before,
/// or its own time when the earlier lap is later.
pub open spec fn lap_split_of(laps: Seq<u64>, idx: int) -> u64 {
    let prev: u64 = if idx >= 2 {
        laps[idx - 2]
    } else {
        0
    };
    if laps[idx - 1] >= prev {
        (laps[idx - 1] - prev) as u64
    } else {
        laps[idx - 1]
    }
}

/// The split of lap `idx` (counted from 1); see `lap_split_of`.
pub fn lap_split(laps: &Vec<u64>, idx: usize) -> (r: u64)
    requires
        1 <= idx <= laps@.len(),
    ensures
        r == lap_split_of(laps@, idx as int),
{
    let prev = if idx >= 2 {
        laps[idx - 2]
    } else {
        0
    };
    let lap = laps[idx - 1];
    if lap >= prev {
        lap - prev
    } else {
        lap
    }
}

/// Whether the screen is too small for the full layout: under 50 x 14.
pub fn tiny_screen(area: Rect) -> (r: bool)
    ensures
        r == (area.width < 50 || area.height < 14),
{
    area.width < 50 || area.height < 14
}

/// Height of the header: three rows, two on a screen under 24 rows.
pub fn header_height(area_h: u16) -> (r: u16)
    ensures
        r == (if area_h < 24 {
            2u16
        } else {
            3u16
        }),
{
    if area_h < 24 {
        2
    } else {
        3
    }
}

/// The name of a mode in capitals.
pub open spec fn mode_caption_text(m: AppMode) -> Seq<char> {
    match m {
        AppMode::Clock => "CLOCK"@,
        AppMode::Pomodoro => "POMODORO"@,
        AppMode::Timer => "TIMER"@,
        AppMode::Stopwatch => "STOPWATCH"@,
    }
}

/// The name of a mode in capitals; see `mode_caption_text`.
pub fn mode_caption(m: AppMode) -> (r: &'static str)
    ensures
        r@ == mode_caption_text(m),
{
    match m {
        AppMode::Clock => "CLOCK",
        AppMode::Pomodoro => "POMODORO",
        AppMode::Timer => "TIMER",
        AppMode::Stopwatch => "STOPWATCH",
    }
}

/// Where the message box goes for a message of `msg_len` bytes: three rows
/// high, the message's width plus six (at most the screen less four, at
/// least ten), centred, near the bottom; none when it would not fit above
/// the bottom row.
pub open spec fn info_popup_of(area: Rect, msg_len: usize) -> Option<Rect> {
    let w0 = (msg_len as u16) + 6;
    let cap = sub0(area.width as int, 4);
    let w1 = if w0 < cap {
        w0
    } else {
        cap
    };
    let w = if w1 < 10 {
        10
    } else {
        w1
    };
    let x = area.x + sub0(area.width as int, w) / 2;
    let y = area.y + sub0(area.height as int, 6);
    if y + 3 < area.y + area.height {
        Some(Rect { x: x as u16, y: y as u16, width: w as u16, height: 3 })
    } else {
        None
    }
}

/// Where the message box goes; see `info_popup_of`.
pub fn info_popup(area: Rect, msg_len: usize) -> (r: Option<Rect>)
    requires
        (msg_len as u16) + 6 <= u16::MAX,
        area.x + area.width <= u16::MAX,
        area.y + area.height <= u16::MAX,
    ensures
        r == info_popup_of(area, msg_len),
{
    let w0 = (msg_len as u16) + 6;
    let cap = if area.width > 4 {
        area.width - 4
    } else {
        0
    };
    let w1 = if w0 < cap {
        w0
    } else {
        cap
    };
    let w = if w1 < 10 {
        10
    } else {
        w1
    };
    let x = area.x + (if area.width > w { area.width - w } else { 0 }) / 2;
    let y = area.y + (if area.height > 6 { area.height - 6 } else { 0 });
    if (y as u32) + 3 < area.y as u32 + area.height as u32 {
        Some(Rect { x, y, width: w, height: 3 })
    } else {
        None
    }
}

/// `AM`/`PM` after the date on a 12-hour clock; nothing on a 24-hour one.
pub fn am_pm_suffix(hour: u32, use_24h: bool) -> (r: &'static str)
    ensures
        r@ == (if use_24h {
            ""@
        } else if hour >= 12 {
            " PM"@
        } else {
            " AM"@
        }),
{
    if !use_24h {
        if hour >= 12 {
            " PM"
        } else {
            " AM"
        }
    } else {
        ""
    }
}

/// The tabs of the header, left to right.
pub open spec fn tab_mode(i: int) -> AppMode {
    if i == 0 {
        AppMode::Clock
    } else if i == 1 {
        AppMode::Pomodoro
    } else if i == 2 {
        AppMode::Timer
    } else {
        AppMode::Stopwatch
    }
}

/// The label of a header tab.
pub open spec fn tab_label_text(m: AppMode) -> Seq<char> {
    match m {
        AppMode::Clock => " 1 CLOCK "@,
        AppMode::Pomodoro => " 2 POMODORO "@,
        AppMode::Timer => " 3 TIMER "@,
        AppMode::Stopwatch => " 4 STOPWATCH "@,
    }
}

/// Width of a header tab's label in bytes.
pub open spec fn tab_width(i: int) -> int {
    if i == 0 {
        9
    } else if i == 1 {
        12
    } else if i == 2 {
        9
    } else {
        13
    }
}

/// The label of a header tab; see `tab_label_text`.
pub fn tab_label(m: AppMode) -> (r: &'static str)
    ensures
        r@ == tab_label_text(m),
{
    match m {
        AppMode::Clock => " 1 CLOCK ",
        AppMode::Pomodoro => " 2 POMODORO ",
        AppMode::Timer => " 3 TIMER ",
        AppMode::Stopwatch => " 4 STOPWATCH ",
    }
}

/// The row the header's title and tabs sit on.
pub open spec fn header_row_of(area: Rect) -> u16 {
    if area.height >= 3 {
        (area.y + 1) as u16
    } else {
        area.y
    }
}

/// The tabs placed right to left from column `tab_x`, the `k` leftmost
/// still to place, each a cell apart, until one does not fit.
pub open spec fn tabs_from(area: Rect, tab_x: int, k: int) -> Seq<(Rect, ClickAction)>
    decreases k,
{
    if k <= 0 {
        seq![]
    } else {
        let len = tab_width(k - 1);
        if tab_x < area.x + len + 1 {
            seq![]
        } else {
            let nx = tab_x - len - 1;
            seq![
                (
                    Rect { x: nx as u16, y: header_row_of(area), width: len as u16, height: 1 },
                    ClickAction::Mode(tab_mode(k - 1)),
                ),
            ] + tabs_from(
                area,
                if nx > 0 {
                    nx - 1
                } else {
                    nx
                },
                k - 1,
            )
        }
    }
}

/// The clickable regions of the header, in the order they are laid out:
/// the settings gear at the right end, then the mode tabs from right to
/// left as far as they fit. None on an area under 20 cells wide or with no
/// rows.
pub open spec fn header_regions_of(area: Rect) -> Seq<(Rect, ClickAction)> {
    if area.width < 20 || area.height == 0 {
        seq![]
    } else {
        let gx = area.x + area.width - 6;
        seq![(Rect { x: gx as u16, y: header_row_of(area), width: 5, height: 1 }, ClickAction::ToggleSettings)]
            + tabs_from(
            area,
            if gx > 0 {
                gx - 1
            } else {
                gx
            },
            4,
        )
    }
}

/// The clickable regions of the header; see `header_regions_of`.
pub fn header_regions(area: Rect) -> (r: Vec<(Rect, ClickAction)>)
    requires
        area.x + area.width <= u16::MAX,
        area.y + 1 <= u16::MAX,
    ensures
        r@ == header_regions_of(area),
{
    let mut r: Vec<(Rect, ClickAction)> = Vec::new();
    if area.width < 20 || area.height == 0 {
        return r;
    }
    let y = if area.height >= 3 {
        area.y + 1
    } else {
        area.y
    };
    let mut tab_x: u16 = area.x + area.width - 6;
    r.push((Rect { x: tab_x, y, width: 5, height: 1 }, ClickAction::ToggleSettings));
    if tab_x > 0 {
        tab_x = tab_x - 1;
    }
    let ghost full = header_regions_of(area);
    let mut k: usize = 4;
    let mut stop = false;
    while k > 0 && !stop
        invariant
            k <= 4,
            y == header_row_of(area),
            area.x + area.width <= u16::MAX,
            area.width >= 20,
            area.height > 0,
            full == header_regions_of(area),
            !stop ==> r@ + tabs_from(area, tab_x as int, k as int) == full,
            stop ==> r@ == full,
        decreases k, if stop { 0int } else { 1int },
    {
        let len: u16 = if k == 1 {
            9
        } else if k == 2 {
            12
        } else if k == 3 {
            9
        } else {
            13
        };
        let m = if k == 1 {
            AppMode::Clock
        } else if k == 2 {
            AppMode::Pomodoro
        } else if k == 3 {
            AppMode::Timer
        } else {
            AppMode::Stopwatch
        };
        assert(len == tab_width(k - 1) && m == tab_mode(k - 1));
        if (tab_x as u32) < area.x as u32 + len as u32 + 1 {
            assert(tabs_from(area, tab_x as int, k as int) =~= seq![]);
            assert(r@ + seq![] =~= r@);
            stop = true;
        } else {
            let nx = tab_x - len - 1;
            let ghost nx2: int = if nx > 0 {
                nx - 1
            } else {
                nx as int
            };
            let ghost rest = tabs_from(area, nx2, k - 1);
            assert(tabs_from(area, tab_x as int, k as int) == seq![
                (Rect { x: nx, y, width: len, height: 1 }, ClickAction::Mode(m)),
            ] + rest);
            r.push((Rect { x: nx, y, width: len, height: 1 }, ClickAction::Mode(m)));
            tab_x = if nx > 0 {
                nx - 1
            } else {
                nx
            };
            k = k - 1;
            assert(r@ + rest =~= full);
        }
    }
    if !stop {
        assert(tabs_from(area, tab_x as int, 0) =~= seq![]);
        assert(r@ + seq![] =~= r@);
    }
    r
}

/// How a piece of the line under the header is coloured.
#[derive(Clone, Copy, PartialEq, Eq, Debug, Structural)]
pub enum InfoTone {
    Badge,
    Plain,
    Dim,
    Muted,
    Warn,
    Alert,
}

/// The pieces of the line under the header: on the clock, the date (with
/// `AM`/`PM` on a 12-hour clock); for the pomodoro, the phase as a badge,
/// the session count when the line is wider than 60, and running or
/// paused; for the timer, what is being typed, that time is up, that it is
/// counting down, or how to set it; for the stopwatch, the lap count and
/// running or paused.
pub open spec fn mode_info_of(v: AppView, width: u16, date: Seq<char>, hour: u32) -> Seq<
    (Seq<char>, InfoTone),
> {
    match v.mode {
        AppMode::Clock => seq![
            (date + (if v.use_24h { ""@ } else if hour >= 12 { " PM"@ } else { " AM"@ }), InfoTone::Dim),
        ],
        AppMode::Pomodoro => {
            let badge = (" "@ + crate::modes::phase_label_text(v.pomodoro.phase) + " "@, InfoTone::Badge);
            let state = (
                if v.pomodoro.running {
                    "\u{25cf} RUNNING"@
                } else {
                    "\u{25cb} PAUSED"@
                },
                InfoTone::Muted,
            );
            if width > 60 {
                seq![
                    badge,
                    ("  "@, InfoTone::Plain),
                    (
                        "SESSION "@ + decimal(v.pomodoro.session_in_cycle as nat) + "/"@ + decimal(
                            v.pomodoro.sessions_before_long as nat,
                        ) + "  \u{2022}  TOTAL "@ + decimal(v.pomodoro.completed as nat),
                        InfoTone::Dim,
                    ),
                    ("  "@, InfoTone::Plain),
                    state,
                ]
            } else {
                seq![badge, ("  "@, InfoTone::Plain), state]
            }
        },
        AppMode::Timer => if v.timer_editing {
            seq![
                ("SET: "@ + v.timer_buffer + "_  (Enter save \u{2022} Esc cancel)"@, InfoTone::Warn),
            ]
        } else if v.timer.finished {
            seq![("TIME'S UP \u{2014} R TO RESET"@, InfoTone::Alert)]
        } else if v.timer.running {
            seq![("COUNTDOWN"@, InfoTone::Dim)]
        } else {
            seq![("SET TIMER  \u{2022}  e to type time"@, InfoTone::Dim)]
        },
        AppMode::Stopwatch => seq![
            (
                decimal(v.laps.len()) + " LAPS  \u{2022}  "@ + (if v.stopwatch_running {
                    "\u{25cf} RUNNING"@
                } else {
                    "\u{25cb} PAUSED"@
                }),
                InfoTone::Dim,
            ),
        ],
    }
}

/// Text pieces as characters.
pub open spec fn spans_view(s: Seq<(String, InfoTone)>) -> Seq<(Seq<char>, InfoTone)> {
    s.map_values(|p: (String, InfoTone)| (p.0@, p.1))
}

fn decimal_string(n: u64) -> (r: String)
    ensures
        r@ == decimal(n as nat),
{
    let mut v: Vec<char> = Vec::new();
    push_decimal(&mut v, n);
    string_of(&v)
}

/// The pieces of the line under the header; see `mode_info_of`. `date` is
/// the date as shown on the clock screen and `hour` the hour of the day.
pub fn mode_info(app: &App, width: u16, date: &str, hour: u32) -> (r: Vec<(String, InfoTone)>)
    ensures
        spans_view(r@) == mode_info_of(app@, width, date@, hour),
{
    let mut r: Vec<(String, InfoTone)> = Vec::new();
    match app.mode {
        AppMode::Clock => {
            r.push((cat2(date, am_pm_suffix(hour, app.use_24h)), InfoTone::Dim));
        },
        AppMode::Pomodoro => {
            r.push((cat3(" ", app.pomodoro.phase.label(), " "), InfoTone::Badge));
            r.push((owned("  "), InfoTone::Plain));
            if width > 60 {
                let a = decimal_string(app.pomodoro.session_in_cycle as u64);
                let b = decimal_string(app.pomodoro.sessions_before_long as u64);
                let c = decimal_string(app.pomodoro.completed as u64);
                let t1 = cat3("SESSION ", a.as_str(), "/");
                let t2 = cat3(t1.as_str(), b.as_str(), "  \u{2022}  TOTAL ");
                r.push((cat2(t2.as_str(), c.as_str()), InfoTone::Dim));
                r.push((owned("  "), InfoTone::Plain));
            }
            r.push(
                (
                    owned(if app.pomodoro.running {
                        "\u{25cf} RUNNING"
                    } else {
                        "\u{25cb} PAUSED"
                    }),
                    InfoTone::Muted,
                ),
            );
        },
        AppMode::Timer => {
            if app.timer_editing {
                r.push(
                    (
                        cat3("SET: ", app.timer_buffer.as_str(), "_  (Enter save \u{2022} Esc cancel)"),
                        InfoTone::Warn,
                    ),
                );
            } else if app.timer.finished {
                r.push((owned("TIME'S UP \u{2014} R TO RESET"), InfoTone::Alert));
            } else if app.timer.running {
                r.push((owned("COUNTDOWN"), InfoTone::Dim));
            } else {
                r.push((owned("SET TIMER  \u{2022}  e to type time"), InfoTone::Dim));
            }
        },
        AppMode::Stopwatch => {
            let n = decimal_string(app.stopwatch.laps.len() as u64);
            let state = if app.stopwatch.running {
                "\u{25cf} RUNNING"
            } else {
                "\u{25cb} PAUSED"
            };
            r.push((cat3(n.as_str(), " LAPS  \u{2022}  ", state), InfoTone::Dim));
        },
    }
    assert(spans_view(r@) =~= mode_info_of(app@, width, date@, hour));
    r
}

/// The one-line fallback shown on a screen too small for the layout: the
/// digits, the theme's name in brackets and the mode, with a hint.
pub open spec fn fallback_text(digits: Seq<char>, theme_name: Seq<char>, mode: AppMode) -> Seq<char> {
    digits + "  ["@ + theme_name + "]  "@ + mode_caption_text(mode) + "  (resize to enlarge, Q quit)"@
}

/// The one-line fallback for a small screen; see `fallback_text`.
pub fn fallback_message(digits: &Vec<char>, theme_name: &str, mode: AppMode) -> (r: String)
    ensures
        r@ == fallback_text(digits@, theme_name@, mode),
{
    let d = string_of(digits);
    let a = cat3(d.as_str(), "  [", theme_name);
    let b = cat3(a.as_str(), "]  ", mode_caption(mode));
    cat2(b.as_str(), "  (resize to enlarge, Q quit)")
}

/// The title of the lap list.
pub open spec fn laps_title_text(n: nat) -> Seq<char> {
    " LAPS ("@ + decimal(n) + " total) \u{2014} newest first "@
}

/// The title of the lap list; see `laps_title_text`.
pub fn laps_title(n: usize) -> (r: String)
    ensures
        r@ == laps_title_text(n as nat),
{
    let d = decimal_string(n as u64);
    cat3(" LAPS (", d.as_str(), " total) \u{2014} newest first ")
}

/// The caption of lap `idx` in the list.
pub open spec fn lap_label_text(idx: nat) -> Seq<char> {
    " LAP "@ + pad2(idx) + " "@
}

/// The caption of lap `idx` in the list; see `lap_label_text`.
pub fn lap_label(idx: usize) -> (r: String)
    ensures
        r@ == lap_label_text(idx as nat),
{
    let mut v: Vec<char> = Vec::new();
    push_pad2(&mut v, idx as u64);
    let d = string_of(&v);
    cat3(" LAP ", d.as_str(), " ")
}

} // verus!
