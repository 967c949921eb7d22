use vstd::prelude::*;
use crate::modes::PomodoroPhase;
use crate::theme::{Color, Theme};

verus! {

/// The pomodoro: phase lengths, the running countdown and the count of
/// finished focus sessions. Spans are in milliseconds.
#[derive(Clone, Copy, Debug)]
pub struct PomodoroState {
    pub work_secs: u32,
    pub short_secs: u32,
    pub long_secs: u32,
    pub sessions_before_long: u32,
    pub phase: PomodoroPhase,
    pub remaining_ms: u64,
    pub running: bool,
    pub completed: u32,
    pub session_in_cycle: u32,
    pub auto_start_breaks: bool,
    pub auto_start_work: bool,
}

/// Length in milliseconds of the phase `p` is in.
pub open spec fn phase_ms(p: PomodoroState) -> u64 {
    match p.phase {
        PomodoroPhase::Work => (p.work_secs * 1000) as u64,
        PomodoroPhase::ShortBreak => (p.short_secs * 1000) as u64,
        PomodoroPhase::LongBreak => (p.long_secs * 1000) as u64,
    }
}

/// The pomodoro after its current phase ends: a focus session counts as
/// completed and leads to a short break, or to a long break once the cycle
/// is full (which starts a new cycle); a break leads back to focus. The
/// countdown is set to the new phase's length.
pub open spec fn advanced(p: PomodoroState) -> PomodoroState {
    let q = match p.phase {
        PomodoroPhase::Work => if p.session_in_cycle >= p.sessions_before_long {
            PomodoroState {
                phase: PomodoroPhase::LongBreak,
                session_in_cycle: 1,
                completed: (p.completed + 1) as u32,
                ..p
            }
        } else {
            PomodoroState {
                phase: PomodoroPhase::ShortBreak,
                session_in_cycle: (p.session_in_cycle + 1) as u32,
                completed: (p.completed + 1) as u32,
                ..p
            }
        },
        _ => PomodoroState { phase: PomodoroPhase::Work, ..p },
    };
    PomodoroState { remaining_ms: phase_ms(q), ..q }
}

/// Whether `advanced` can run without the completed count overflowing.
pub open spec fn can_advance(p: PomodoroState) -> bool {
    p.phase == PomodoroPhase::Work ==> p.completed < u32::MAX
}

/// The accent colour of a phase in a theme.
pub open spec fn phase_color_of(phase: PomodoroPhase, th: Theme) -> Color {
    match phase {
        PomodoroPhase::Work => th.accent_red,
        PomodoroPhase::ShortBreak => th.accent_green,
        PomodoroPhase::LongBreak => th.accent_blue,
    }
}

impl PomodoroState {
    /// 25 minutes of focus, 5 of short break, 15 of long break, four
    /// sessions per cycle; paused at the start of the first focus session.
    pub fn new() -> (r: Self)
        ensures
            r == (PomodoroState {
                work_secs: 1500,
                short_secs: 300,
                long_secs: 900,
                sessions_before_long: 4,
                phase: PomodoroPhase::Work,
                remaining_ms: 1500000,
                running: false,
                completed: 0,
                session_in_cycle: 1,
                auto_start_breaks: true,
                auto_start_work: false,
            }),
    {
        PomodoroState {
            work_secs: 25 * 60,
            short_secs: 5 * 60,
            long_secs: 15 * 60,
            sessions_before_long: 4,
            phase: PomodoroPhase::Work,
            remaining_ms: 25 * 60 * 1000,
            running: false,
            completed: 0,
            session_in_cycle: 1,
            auto_start_breaks: true,
            auto_start_work: false,
        }
    }

    /// Length in milliseconds of the current phase.
    pub fn phase_duration(&self) -> (r: u64)
        ensures
            r == phase_ms(*self),
    {
        match self.phase {
            PomodoroPhase::Work => self.work_secs as u64 * 1000,
            PomodoroPhase::ShortBreak => self.short_secs as u64 * 1000,
            PomodoroPhase::LongBreak => self.long_secs as u64 * 1000,
        }
    }

    /// The accent colour of the current phase: red for focus, green for a
    /// short break, blue for a long one.
    pub fn phase_color(&self, th: &Theme) -> (r: Color)
        ensures
            r == phase_color_of(self.phase, *th),
    {
        match self.phase {
            PomodoroPhase::Work => th.accent_red,
            PomodoroPhase::ShortBreak => th.accent_green,
            PomodoroPhase::LongBreak => th.accent_blue,
        }
    }

    /// Restarts the current phase, paused.
    pub fn reset_current(&mut self)
        ensures
            *final(self) == (PomodoroState {
                remaining_ms: phase_ms(*old(self)),
                running: false,
                ..*old(self)
            }),
    {
        self.remaining_ms = self.phase_duration();
        self.running = false;
    }

    /// Moves on to the next phase; see `advanced`.
    pub fn advance(&mut self)
        requires
            can_advance(*old(self)),
        ensures
            *final(self) == advanced(*old(self)),
    {
        match self.phase {
            PomodoroPhase::Work => {
                self.completed = self.completed + 1;
                if self.session_in_cycle >= self.sessions_before_long {
                    self.phase = PomodoroPhase::LongBreak;
                    self.session_in_cycle = 1;
                } else {
                    self.phase = PomodoroPhase::ShortBreak;
                    self.session_in_cycle = self.session_in_cycle + 1;
                }
            },
            _ => {
                self.phase = PomodoroPhase::Work;
            },
        }
        self.remaining_ms = self.phase_duration();
    }
}

/// The countdown timer. Spans are in milliseconds.
#[derive(Clone, Copy, Debug)]
pub struct TimerState {
    pub set_secs: u32,
    pub remaining_ms: u64,
    pub running: bool,
    pub finished: bool,
}

impl TimerState {
    /// Five minutes, paused.
    pub fn new() -> (r: Self)
        ensures
            r == (TimerState { set_secs: 300, remaining_ms: 300000, running: false, finished: false }),
    {
        let s: u32 = 5 * 60;
        TimerState { set_secs: s, remaining_ms: s as u64 * 1000, running: false, finished: false }
    }

    /// When paused, rewinds the countdown to the set length and clears the
    /// finished mark; a running timer is left alone.
    pub fn sync(&mut self)
        ensures
            *final(self) == (if old(self).running {
                *old(self)
            } else {
                TimerState {
                    remaining_ms: (old(self).set_secs * 1000) as u64,
                    finished: false,
                    ..*old(self)
                }
            }),
    {
        if !self.running {
            self.remaining_ms = self.set_secs as u64 * 1000;
            self.finished = false;
        }
    }
}

/// The stopwatch: elapsed time and the recorded laps, in milliseconds.
#[derive(Debug)]
pub struct StopwatchState {
    pub elapsed_ms: u64,
    pub running: bool,
    pub laps: Vec<u64>,
}

impl StopwatchState {
    /// At zero, paused, with no laps.
    pub fn new() -> (r: Self)
        ensures
            r.elapsed_ms == 0,
            !r.running,
            r.laps@ == Seq::<u64>::empty(),
    {
        StopwatchState { elapsed_ms: 0, running: false, laps: Vec::new() }
    }
}

/// A flip card: the digit it shows, the one it flips from, and how far the
/// flip has got, in thousandths.
#[derive(Clone, Copy, Debug, PartialEq, Eq, Structural)]
pub struct FlipState {
    pub current: char,
    pub previous: char,
    pub progress_milli: u64,
    pub animating: bool,
}

/// The eased flip position, in thousandths, of a flip `p` thousandths in:
/// cubic ease-in over the first half, cubic ease-out over the second.
pub open spec fn eased_milli(p: u64) -> int {
    let t: int = if p > 1000 { 1000 } else { p as int };
    if t < 500 {
        4 * t * t * t / 1000000
    } else {
        1000 - (2000 - 2 * t) * (2000 - 2 * t) * (2000 - 2 * t) / 2000000
    }
}

/// A card told to show `c`: when `c` differs from the digit shown, a flip
/// from that digit starts.
pub open spec fn flip_with(f: FlipState, c: char) -> FlipState {
    if c != f.current {
        FlipState { current: c, previous: f.current, progress_milli: 0, animating: true }
    } else {
        f
    }
}

/// A card `dt` ms later: a running flip moves on at 7 thousandths per ms
/// and comes to rest when complete.
pub open spec fn flip_ticked(f: FlipState, dt: u64) -> FlipState {
    if f.animating {
        if f.progress_milli + 7 * dt >= 1000 {
            FlipState { progress_milli: 1000, animating: false, ..f }
        } else {
            FlipState { progress_milli: (f.progress_milli + 7 * dt) as u64, ..f }
        }
    } else {
        f
    }
}

impl FlipState {
    /// A card showing `c`, at rest.
    pub fn new(c: char) -> (r: Self)
        ensures
            r == (FlipState { current: c, previous: c, progress_milli: 1000, animating: false }),
    {
        FlipState { current: c, previous: c, progress_milli: 1000, animating: false }
    }

    /// Shows `new_c`; when it differs from the digit shown, a flip from the
    /// old digit starts.
    pub fn set(&mut self, new_c: char)
        ensures
            *final(self) == flip_with(*old(self), new_c),
    {
        if new_c != self.current {
            self.previous = self.current;
            self.current = new_c;
            self.progress_milli = 0;
            self.animating = true;
        }
    }

    /// Advances a running flip by `dt_ms` milliseconds; a flip takes 1/7 s
    /// and comes to rest when complete.
    pub fn tick(&mut self, dt_ms: u64)
        ensures
            *final(self) == flip_ticked(*old(self), dt_ms),
    {
        if self.animating {
            if dt_ms >= 1000 || self.progress_milli >= 1000 || self.progress_milli + 7 * dt_ms
                >= 1000 {
                self.progress_milli = 1000;
                self.animating = false;
            } else {
                self.progress_milli = self.progress_milli + 7 * dt_ms;
            }
        }
    }

    /// The eased flip position in thousandths; see `eased_milli`.
    pub fn eased(&self) -> (r: u64)
        ensures
            r == eased_milli(self.progress_milli),
    {
        let t: u64 = if self.progress_milli > 1000 { 1000 } else { self.progress_milli };
        if t < 500 {
            assert(t * t <= 1000000) by (nonlinear_arith)
                requires
                    t <= 1000,
            ;
            let t2 = t * t;
            assert(t2 * t <= 1000000000) by (nonlinear_arith)
                requires
                    t2 <= 1000000,
                    t <= 1000,
            ;
            let t3 = t2 * t;
            assert(4 * t * t * t == 4 * t3) by (nonlinear_arith)
                requires
                    t3 == t2 * t,
                    t2 == t * t,
            ;
            4 * t3 / 1000000
        } else {
            let u = 2000 - 2 * t;
            assert(u * u <= 1000000) by (nonlinear_arith)
                requires
                    u <= 1000,
            ;
            let u2 = u * u;
            assert(u2 * u <= 1000000000) by (nonlinear_arith)
                requires
                    u2 <= 1000000,
                    u <= 1000,
            ;
            let u3 = u2 * u;
            assert(u * u * u == u3) by (nonlinear_arith)
                requires
                    u3 == u2 * u,
                    u2 == u * u,
            ;
            1000 - u3 / 2000000
        }
    }
}

} // verus!
