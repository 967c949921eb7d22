# flipclock

A flip-clock for the terminal with four screens: the wall clock, a pomodoro
timer, a countdown timer and a stopwatch, with themes, a settings panel,
mouse support and desktop notifications.

- `src/` is the verified core, checked with Verus:
  - `modes` — the screens, pomodoro phases, settings rows and click actions;
  - `timers` — the pomodoro, countdown, stopwatch and flip-card state;
  - `app` — the whole state, its view as values, and what every key,
    click and tick does to it (`after_key`, `after_click`, `after_tick`,
    `after_action`), with the notifications raised;
  - `parse` — reading typed timer lengths such as `25:00`, `90s`, `530`;
  - `timefmt`, `clock`, `text` — digits and time texts;
  - `theme`, `glyph`, `render` — palettes, digit glyphs and cards, and what
    each screen part shows;
  - `placement` — where the control buttons and their click targets, the
    progress bar and its session dots, the lap rows and the settings rows
    go;
  - `laws` — properties across operations: cycling, the state invariant
    every operation keeps, the pomodoro cycle, and more.
- `app/` is the terminal front end (ratatui, crossterm, tui-big-text,
  notify-rust): it reads events and the clock, paints what `src/` plans and
  shows notifications. `src/placement` itself splits the screen into its
  bands and finds the inside of the lap panel's frame through ratatui's
  `Layout` and `Block`.
