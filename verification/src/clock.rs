use vstd::prelude::*;
use chrono::Timelike;
use crate::app::App;
use crate::modes::AppMode;
use crate::text::push_pad2;
use crate::timefmt::{digits_for_duration, digits_for_stopwatch, duration_digits, stopwatch_digits};
use crate::text::pad2;

verus! {

/// The local time of day now, as hour, minute and second, read with
/// `chrono::Local::now` and `Timelike::{hour, minute, second}`. The contract
/// claims only the ranges chrono documents for these (0..=23, 0..=59,
/// 0..=59); which time it is depends on the moment of the call and the
/// machine's time zone, so nothing more is stated.
#[verifier::external_body]
fn local_time_of_day() -> (r: (u32, u32, u32))
    ensures
        r.0 < 24,
        r.1 < 60,
        r.2 < 60,
{
    let now = chrono::Local::now();
    (now.hour(), now.minute(), now.second())
}

/// The hour as shown: unchanged in 24-hour form, otherwise 1..=12.
pub open spec fn shown_hour(h: u32, use_24h: bool) -> nat {
    if use_24h {
        h as nat
    } else if h % 12 == 0 {
        12
    } else {
        (h % 12) as nat
    }
}

/// The wall-clock card digits `HHMM` or `HHMMSS`.
pub open spec fn clock_digits_text(h: u32, m: u32, s: u32, use_24h: bool, show_seconds: bool) -> Seq<
    char,
> {
    let base = pad2(shown_hour(h, use_24h)) + pad2(m as nat);
    if show_seconds {
        base + pad2(s as nat)
    } else {
        base
    }
}

/// The wall-clock card digits for the time `h:m:s`.
pub fn clock_digits(h: u32, m: u32, s: u32, use_24h: bool, show_seconds: bool) -> (v: Vec<char>)
    ensures
        v@ == clock_digits_text(h, m, s, use_24h, show_seconds),
{
    let h_disp = if use_24h {
        h
    } else {
        let h12 = h % 12;
        if h12 == 0 {
            12
        } else {
            h12
        }
    };
    let mut v: Vec<char> = Vec::new();
    push_pad2(&mut v, h_disp as u64);
    push_pad2(&mut v, m as u64);
    if show_seconds {
        push_pad2(&mut v, s as u64);
    }
    v
}

/// The wall-clock card digits for the local time now: for some time of day
/// `h:m:s`, they are `clock_digits_text` of it.
pub fn digits_for_clock(use_24h: bool, show_seconds: bool) -> (v: Vec<char>)
    ensures
        exists|h: u32, m: u32, s: u32|
            h < 24 && m < 60 && s < 60 && v@ == clock_digits_text(h, m, s, use_24h, show_seconds),
{
    let (h, m, s) = local_time_of_day();
    clock_digits(h, m, s, use_24h, show_seconds)
}

/// The card digits of the mode on screen and whether they flash, with the
/// wall clock reading `h:m:s`. The pomodoro flashes while its flash runs and
/// `pulse` is on; the timer flashes once finished. The timer shows hours
/// when it is set to, or has left, an hour or more.
pub open spec fn target_of(app: crate::app::AppView, h: u32, m: u32, s: u32, pulse: bool) -> (
    Seq<char>,
    bool,
) {
    match app.mode {
        AppMode::Clock => (clock_digits_text(h, m, s, app.use_24h, app.show_seconds), false),
        AppMode::Pomodoro => (
            duration_digits(app.pomodoro.remaining_ms, false),
            app.flash_timer_ms > 0 && pulse,
        ),
        AppMode::Timer => (
            duration_digits(
                app.timer.remaining_ms,
                app.timer.set_secs >= 3600 || app.timer.remaining_ms / 1000 >= 3600,
            ),
            app.timer.finished,
        ),
        AppMode::Stopwatch => (stopwatch_digits(app.elapsed_ms), false),
    }
}

/// The card digits of the mode on screen and whether they flash; see
/// `target_of`. `pulse` is the on-phase of the pomodoro flash.
pub fn current_target(app: &App, pulse: bool) -> (r: (Vec<char>, bool))
    ensures
        app.mode != AppMode::Clock ==> (r.0@, r.1) == target_of(app@, 0, 0, 0, pulse),
        app.mode == AppMode::Clock ==> exists|h: u32, m: u32, s: u32|
            h < 24 && m < 60 && s < 60 && (r.0@, r.1) == target_of(app@, h, m, s, pulse),
{
    match app.mode {
        AppMode::Clock => {
            let d = digits_for_clock(app.use_24h, app.show_seconds);
            proof {
                let (h, m, s) = choose|h: u32, m: u32, s: u32|
                    h < 24 && m < 60 && s < 60 && d@ == clock_digits_text(
                        h,
                        m,
                        s,
                        app.use_24h,
                        app.show_seconds,
                    );
                assert((d@, false) == target_of(app@, h, m, s, pulse));
            }
            (d, false)
        },
        AppMode::Pomodoro => {
            let d = digits_for_duration(app.pomodoro.remaining_ms, false);
            (d, app.flash_timer_ms > 0 && pulse)
        },
        AppMode::Timer => {
            let with_h = app.timer.set_secs >= 3600 || app.timer.remaining_ms / 1000 >= 3600;
            (digits_for_duration(app.timer.remaining_ms, with_h), app.timer.finished)
        },
        AppMode::Stopwatch => (digits_for_stopwatch(app.stopwatch.elapsed_ms), false),
    }
}

} // verus!
