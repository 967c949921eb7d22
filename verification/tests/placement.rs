use flipclock::app::{App, Rect};
use flipclock::modes::{AppMode, ClickAction, SettingsField};
use flipclock::placement::{
    control_rects, dot_columns, lap_panel, lap_rows, progress_bar_place, screen_band_list,
    screen_bands, settings_row_action, settings_rows, Band, LapRow, SettingsRow,
};
use flipclock::render::controls_for;

fn r(x: u16, y: u16, width: u16, height: u16) -> Rect {
    Rect { x, y, width, height }
}

#[test]
fn buttons_are_centred_one_cell_apart() {
    let mut app = App::default();
    app.mode = AppMode::Timer;
    app.timer_editing = true;
    let th = app.theme();
    let bs = controls_for(&app, &th);
    let rects = control_rects(r(0, 10, 80, 2), &bs);
    assert_eq!(
        rects,
        vec![
            (r(26, 10, 12, 1), ClickAction::TimerSave),
            (r(39, 10, 14, 1), ClickAction::TimerCancel),
        ]
    );
    app.mode = AppMode::Clock;
    let none = controls_for(&app, &th);
    assert!(control_rects(r(0, 10, 80, 2), &none).is_empty());
}

#[test]
fn bar_is_centred() {
    assert_eq!(progress_bar_place(r(5, 0, 100, 2)), (25, 60));
    assert_eq!(progress_bar_place(r(0, 0, 10, 2)), (0, 10));
}

#[test]
fn session_dots_three_apart() {
    assert_eq!(dot_columns(r(0, 0, 40, 2), 4, 200), vec![15, 18, 21, 24]);
    assert_eq!(dot_columns(r(0, 0, 40, 2), 4, 20), vec![15, 18]);
    assert_eq!(dot_columns(r(0, 0, 10, 2), 4, 200), Vec::<u16>::new());
    assert_eq!(dot_columns(r(0, 0, 40, 2), 0, 200), Vec::<u16>::new());
}

#[test]
fn lap_list_newest_first_with_dividers() {
    assert_eq!(
        lap_rows(r(1, 5, 30, 4), 3),
        vec![(5, LapRow::Lap(3, true)), (6, LapRow::Divider), (7, LapRow::Lap(2, false)), (8, LapRow::Divider)]
    );
    let all = lap_rows(r(1, 5, 30, 10), 3);
    assert_eq!(all.len(), 5);
    assert_eq!(all[4], (9, LapRow::Lap(1, false)));
    assert!(lap_rows(r(1, 5, 30, 10), 0).is_empty());
}

#[test]
fn settings_panel_rows() {
    let rows = settings_rows(r(2, 3, 40, 20));
    assert_eq!(rows.len(), 17);
    assert_eq!(rows[0], (r(2, 3, 40, 1), SettingsRow::Heading(0)));
    assert_eq!(rows[1], (r(2, 4, 40, 1), SettingsRow::Field(SettingsField::Theme)));
    assert_eq!(rows[3], (r(2, 6, 40, 1), SettingsRow::Heading(1)));
    assert_eq!(rows[9], (r(2, 12, 40, 1), SettingsRow::Field(SettingsField::AutoWork)));
    assert_eq!(rows[10], (r(2, 14, 40, 1), SettingsRow::Note(0)));
    assert_eq!(rows[15], (r(2, 19, 40, 1), SettingsRow::Note(5)));
    assert_eq!(rows[16], (r(2, 22, 40, 1), SettingsRow::Footer));
    assert_eq!(settings_rows(r(2, 3, 40, 11)).len(), 10);
    assert_eq!(settings_rows(r(2, 3, 40, 8)).len(), 8);
    assert!(settings_rows(r(2, 3, 40, 5)).is_empty());
    assert!(settings_rows(r(2, 3, 9, 20)).is_empty());
    let small = settings_rows(r(0, 0, 40, 13));
    assert_eq!(small.len(), 13);
    assert_eq!(small[12], (r(0, 12, 40, 1), SettingsRow::Footer));
}

#[test]
fn settings_clicks() {
    assert_eq!(
        settings_row_action(SettingsRow::Field(SettingsField::Work)),
        Some(ClickAction::SettingsField(SettingsField::Work))
    );
    assert_eq!(settings_row_action(SettingsRow::Footer), Some(ClickAction::SettingsClose));
    assert_eq!(settings_row_action(SettingsRow::Heading(1)), None);
    assert_eq!(settings_row_action(SettingsRow::Note(2)), None);
}

#[test]
fn screen_splits_into_six_bands() {
    assert_eq!(
        screen_band_list(30),
        vec![Band::Length(3), Band::Length(1), Band::Min(12), Band::Length(2), Band::Length(2), Band::Length(1)]
    );
    assert_eq!(screen_band_list(20)[0], Band::Length(2));
    let bands = screen_bands(r(0, 0, 80, 30));
    assert_eq!(
        bands,
        vec![r(0, 0, 80, 3), r(0, 3, 80, 1), r(0, 4, 80, 21), r(0, 25, 80, 2), r(0, 27, 80, 2), r(0, 29, 80, 1)]
    );
    assert_eq!(
        screen_bands(r(2, 5, 60, 20)),
        vec![r(2, 5, 60, 2), r(2, 7, 60, 1), r(2, 8, 60, 12), r(2, 20, 60, 2), r(2, 22, 60, 2), r(2, 24, 60, 1)]
    );
    assert_eq!(
        screen_bands(r(0, 0, 60, 24)),
        vec![r(0, 0, 60, 3), r(0, 3, 60, 1), r(0, 4, 60, 15), r(0, 19, 60, 2), r(0, 21, 60, 2), r(0, 23, 60, 1)]
    );
    let small = screen_bands(r(0, 0, 60, 15));
    assert_eq!(small.len(), 6);
    assert!(small.iter().all(|b| b.x == 0 && b.width == 60));
}

#[test]
fn lap_panel_inside_its_frame() {
    let (inner, rows) = lap_panel(r(0, 20, 40, 6), 3);
    assert_eq!(inner, r(1, 21, 38, 4));
    assert_eq!(rows.len(), 4);
    assert_eq!(rows[0], (21, LapRow::Lap(3, true)));
    let (tiny, rows) = lap_panel(r(5, 5, 1, 1), 2);
    assert_eq!(tiny, r(6, 6, 0, 0));
    assert!(rows.is_empty());
}
