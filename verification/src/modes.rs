use vstd::prelude::*;

verus! {

/// The four screens of the clock.
#[derive(Clone, Copy, PartialEq, Eq, Debug, Structural)]
pub enum AppMode {
    Clock,
    Pomodoro,
    Timer,
    Stopwatch,
}

/// Position of a mode in the tab order Clock, Pomodoro, Timer, Stopwatch.
pub open spec fn mode_index(m: AppMode) -> int {
    match m {
        AppMode::Clock => 0,
        AppMode::Pomodoro => 1,
        AppMode::Timer => 2,
        AppMode::Stopwatch => 3,
    }
}

/// The mode to the right of `m`, wrapping.
pub open spec fn next_mode(m: AppMode) -> AppMode {
    match m {
        AppMode::Clock => AppMode::Pomodoro,
        AppMode::Pomodoro => AppMode::Timer,
        AppMode::Timer => AppMode::Stopwatch,
        AppMode::Stopwatch => AppMode::Clock,
    }
}

/// The mode to the left of `m`, wrapping.
pub open spec fn prev_mode(m: AppMode) -> AppMode {
    match m {
        AppMode::Clock => AppMode::Stopwatch,
        AppMode::Pomodoro => AppMode::Clock,
        AppMode::Timer => AppMode::Pomodoro,
        AppMode::Stopwatch => AppMode::Timer,
    }
}

impl AppMode {
    /// The tab to the right, wrapping from Stopwatch back to Clock.
    pub fn next(self) -> (r: Self)
        ensures
            r == next_mode(self),
            mode_index(r) == (mode_index(self) + 1) % 4,
    {
        match self {
            AppMode::Clock => AppMode::Pomodoro,
            AppMode::Pomodoro => AppMode::Timer,
            AppMode::Timer => AppMode::Stopwatch,
            AppMode::Stopwatch => AppMode::Clock,
        }
    }

    /// The tab to the left, wrapping from Clock back to Stopwatch.
    pub fn prev(self) -> (r: Self)
        ensures
            r == prev_mode(self),
            mode_index(r) == (mode_index(self) + 3) % 4,
    {
        match self {
            AppMode::Clock => AppMode::Stopwatch,
            AppMode::Pomodoro => AppMode::Clock,
            AppMode::Timer => AppMode::Pomodoro,
            AppMode::Stopwatch => AppMode::Timer,
        }
    }
}

} // verus!

verus! {

/// The three phases a pomodoro cycle moves through.
#[derive(Clone, Copy, PartialEq, Eq, Debug, Structural)]
pub enum PomodoroPhase {
    Work,
    ShortBreak,
    LongBreak,
}

/// The caption shown for a phase.
pub open spec fn phase_label_text(p: PomodoroPhase) -> Seq<char> {
    match p {
        PomodoroPhase::Work => "FOCUS"@,
        PomodoroPhase::ShortBreak => "SHORT BREAK"@,
        PomodoroPhase::LongBreak => "LONG BREAK"@,
    }
}

impl PomodoroPhase {
    /// The caption shown for the phase: "FOCUS", "SHORT BREAK" or "LONG BREAK".
    pub fn label(self) -> (r: &'static str)
        ensures
            r@ == phase_label_text(self),
    {
        match self {
            PomodoroPhase::Work => "FOCUS",
            PomodoroPhase::ShortBreak => "SHORT BREAK",
            PomodoroPhase::LongBreak => "LONG BREAK",
        }
    }
}

/// The rows of the settings panel, in the order they are shown.
#[derive(Clone, Copy, PartialEq, Eq, Debug, Structural)]
pub enum SettingsField {
    Theme,
    Transparent,
    Work,
    Short,
    Long,
    Cycles,
    AutoBreak,
    AutoWork,
}

/// Position of a settings row, from the top.
pub open spec fn field_index(f: SettingsField) -> int {
    match f {
        SettingsField::Theme => 0,
        SettingsField::Transparent => 1,
        SettingsField::Work => 2,
        SettingsField::Short => 3,
        SettingsField::Long => 4,
        SettingsField::Cycles => 5,
        SettingsField::AutoBreak => 6,
        SettingsField::AutoWork => 7,
    }
}

/// The settings row below `f`, wrapping.
pub open spec fn next_field(f: SettingsField) -> SettingsField {
    match f {
        SettingsField::Theme => SettingsField::Transparent,
        SettingsField::Transparent => SettingsField::Work,
        SettingsField::Work => SettingsField::Short,
        SettingsField::Short => SettingsField::Long,
        SettingsField::Long => SettingsField::Cycles,
        SettingsField::Cycles => SettingsField::AutoBreak,
        SettingsField::AutoBreak => SettingsField::AutoWork,
        SettingsField::AutoWork => SettingsField::Theme,
    }
}

/// The settings row above `f`, wrapping.
pub open spec fn prev_field(f: SettingsField) -> SettingsField {
    match f {
        SettingsField::Theme => SettingsField::AutoWork,
        SettingsField::Transparent => SettingsField::Theme,
        SettingsField::Work => SettingsField::Transparent,
        SettingsField::Short => SettingsField::Work,
        SettingsField::Long => SettingsField::Short,
        SettingsField::Cycles => SettingsField::Long,
        SettingsField::AutoBreak => SettingsField::Cycles,
        SettingsField::AutoWork => SettingsField::AutoBreak,
    }
}

impl SettingsField {
    /// The row below, wrapping from the last row to the first.
    pub fn next(self) -> (r: Self)
        ensures
            r == next_field(self),
            field_index(r) == (field_index(self) + 1) % 8,
    {
        match self {
            SettingsField::Theme => SettingsField::Transparent,
            SettingsField::Transparent => SettingsField::Work,
            SettingsField::Work => SettingsField::Short,
            SettingsField::Short => SettingsField::Long,
            SettingsField::Long => SettingsField::Cycles,
            SettingsField::Cycles => SettingsField::AutoBreak,
            SettingsField::AutoBreak => SettingsField::AutoWork,
            SettingsField::AutoWork => SettingsField::Theme,
        }
    }

    /// The row above, wrapping from the first row to the last.
    pub fn prev(self) -> (r: Self)
        ensures
            r == prev_field(self),
            field_index(r) == (field_index(self) + 7) % 8,
    {
        match self {
            SettingsField::Theme => SettingsField::AutoWork,
            SettingsField::Transparent => SettingsField::Theme,
            SettingsField::Work => SettingsField::Transparent,
            SettingsField::Short => SettingsField::Work,
            SettingsField::Long => SettingsField::Short,
            SettingsField::Cycles => SettingsField::Long,
            SettingsField::AutoBreak => SettingsField::Cycles,
            SettingsField::AutoWork => SettingsField::AutoBreak,
        }
    }
}

/// What a click on a button, tab or settings row asks for.
#[derive(Clone, Copy, PartialEq, Eq, Debug, Structural)]
pub enum ClickAction {
    Mode(AppMode),
    StartPause,
    Reset,
    Skip,
    Lap,
    TimerEdit,
    TimerSave,
    TimerCancel,
    ToggleSettings,
    SettingsField(SettingsField),
    ThemePrev,
    ThemeNext,
    SettingsClose,
    Toggle24h,
    ToggleSeconds,
    ToggleTransparent,
}

} // verus!
