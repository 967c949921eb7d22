//! Where the parts of the screen go: its six bands, the control buttons and
//! their click targets, the progress bar and its session dots, the lap list
//! and the rows of the settings panel.

use vstd::prelude::*;
use crate::app::Rect;
use crate::modes::{ClickAction, SettingsField};
use crate::render::{
    Button, bar_width, button_width, buttons_total, header_height, progress_bar_width, sub0,
};
use ratatui::layout::{Constraint, Layout};
use ratatui::widgets::{Block, Borders};

verus! {

/// Left edge of button `i` from the start of its row: the buttons before it,
/// each followed by one blank cell.
pub open spec fn button_offset(bs: Seq<Button>, i: int) -> int {
    if i == 0 {
        0
    } else {
        buttons_total(bs.take(i)) + 1
    }
}

/// Where the button row starts: centred in `area`.
pub open spec fn buttons_start(area: Rect, bs: Seq<Button>) -> int {
    area.x + (area.width - buttons_total(bs)) / 2
}

/// The click target of button `i` of a centred row: one cell high on the
/// area's top row, as wide as the button, with its action.
pub open spec fn control_rect_of(area: Rect, bs: Seq<Button>, i: int) -> (Rect, ClickAction) {
    (
        Rect {
            x: (buttons_start(area, bs) + button_offset(bs, i)) as u16,
            y: area.y,
            width: button_width(bs[i]) as u16,
            height: 1,
        },
        bs[i].action,
    )
}

proof fn lemma_buttons_step(bs: Seq<Button>, i: int)
    requires
        0 <= i < bs.len(),
    ensures
        buttons_total(bs.take(i + 1)) == button_offset(bs, i) + button_width(bs[i]),
{
    assert(bs.take(i + 1).drop_last() =~= bs.take(i));
    assert(bs.take(i + 1).last() == bs[i]);
    if i == 0 {
        assert(bs.take(1)[0] == bs[0]);
    }
}

proof fn lemma_buttons_monotone(bs: Seq<Button>, j: int, k: int)
    requires
        0 <= j <= k <= bs.len(),
    ensures
        buttons_total(bs.take(j)) <= buttons_total(bs.take(k)),
    decreases k - j,
{
    if j < k {
        lemma_buttons_monotone(bs, j, k - 1);
        lemma_buttons_step(bs, k - 1);
    }
}

/// The click targets of a centred row of buttons, in the order of the
/// buttons: each one cell high on the area's top row, inside the area, the
/// targets running left to right with one blank cell between them.
pub fn control_rects(area: Rect, controls: &Vec<Button>) -> (r: Vec<(Rect, ClickAction)>)
    requires
        forall|k: int|
            0 <= k <= controls@.len() ==> buttons_total(#[trigger] controls@.take(k)) <= u16::MAX,
        buttons_total(controls@) <= area.width,
        area.x + area.width <= u16::MAX,
        controls@.len() > 0 ==> buttons_start(area, controls@) + buttons_total(controls@) + 1
            <= u16::MAX,
    ensures
        r@.len() == controls@.len(),
        forall|i: int| 0 <= i < r@.len() ==> #[trigger] r@[i] == control_rect_of(area, controls@, i),
        forall|i: int|
            0 <= i < r@.len() ==> {
                &&& (#[trigger] r@[i]).1 == controls@[i].action
                &&& r@[i].0.y == area.y
                &&& r@[i].0.height == 1
                &&& area.x <= r@[i].0.x
                &&& r@[i].0.x + r@[i].0.width <= area.x + area.width
            },
        forall|i: int, j: int|
            0 <= i < j < r@.len() ==> (#[trigger] r@[i]).0.x + r@[i].0.width < (#[trigger] r@[j]).0.x,
{
    let ghost bs = controls@;
    let total = crate::render::buttons_width(controls);
    assert(bs.take(bs.len() as int) =~= bs);
    let start = area.x + (area.width - total) / 2;
    let mut r: Vec<(Rect, ClickAction)> = Vec::new();
    let mut cx: u16 = start;
    let mut i: usize = 0;
    while i < controls.len()
        invariant
            bs == controls@,
            i <= bs.len(),
            r@.len() == i,
            start == buttons_start(area, bs),
            total == buttons_total(bs),
            total <= area.width,
            area.x + area.width <= u16::MAX,
            bs.len() > 0 ==> start + total + 1 <= u16::MAX,
            forall|k: int| 0 <= k <= bs.len() ==> buttons_total(#[trigger] bs.take(k)) <= u16::MAX,
            bs.take(bs.len() as int) == bs,
            i < bs.len() ==> cx == start + button_offset(bs, i as int),
            forall|k: int| 0 <= k < i ==> #[trigger] r@[k] == control_rect_of(area, bs, k),
        decreases bs.len() - i,
    {
        proof {
            lemma_buttons_step(bs, i as int);
            lemma_buttons_monotone(bs, i as int + 1, bs.len() as int);
        }
        let w = (controls[i].label.len() as u16) + 2;
        r.push((Rect { x: cx, y: area.y, width: w, height: 1 }, controls[i].action));
        if i + 1 < controls.len() {
            cx = cx + w + 1;
        }
        i = i + 1;
    }
    proof {
        assert forall|i: int, j: int| 0 <= i < j < r@.len() implies (#[trigger] r@[i]).0.x
            + r@[i].0.width < (#[trigger] r@[j]).0.x by {
            lemma_buttons_step(bs, i);
            lemma_buttons_monotone(bs, i + 1, j);
            lemma_buttons_monotone(bs, j, bs.len() as int);
            lemma_buttons_step(bs, j);
            assert(r@[i] == control_rect_of(area, bs, i));
            assert(r@[j] == control_rect_of(area, bs, j));
            assert(buttons_total(bs.take(i + 1)) <= buttons_total(bs));
            assert(button_offset(bs, j) == buttons_total(bs.take(j)) + 1);
            assert(button_width(bs[i]) >= 2);
            assert(button_offset(bs, i) + button_width(bs[i]) <= buttons_total(bs));
            assert(start + total <= area.x + area.width);
            lemma_buttons_monotone(bs, 0, i);
            assert(bs.take(0) =~= Seq::<Button>::empty());
            assert(0 <= start + button_offset(bs, i) <= u16::MAX);
            assert(((start + button_offset(bs, i)) as u16) as int == start + button_offset(bs, i));
            assert(control_rect_of(area, bs, i).0.x == start + button_offset(bs, i));
            assert(r@[i].0.x == start + button_offset(bs, i));
            assert(r@[i].0.width == button_width(bs[i]));
            assert(r@[j].0.x == start + button_offset(bs, j));
        }
        assert forall|i: int| 0 <= i < r@.len() implies {
            &&& (#[trigger] r@[i]).1 == controls@[i].action
            &&& r@[i].0.y == area.y
            &&& r@[i].0.height == 1
            &&& area.x <= r@[i].0.x
            &&& r@[i].0.x + r@[i].0.width <= area.x + area.width
        } by {
            lemma_buttons_step(bs, i);
            lemma_buttons_monotone(bs, i + 1, bs.len() as int);
            assert(r@[i] == control_rect_of(area, bs, i));
            assert(button_width(bs[i]) >= 2);
            assert(button_offset(bs, i) + button_width(bs[i]) <= buttons_total(bs));
            assert(start + total <= area.x + area.width);
            lemma_buttons_monotone(bs, 0, i);
            assert(bs.take(0) =~= Seq::<Button>::empty());
            assert(0 <= start + button_offset(bs, i) <= u16::MAX);
            assert(((start + button_offset(bs, i)) as u16) as int == start + button_offset(bs, i));
            assert(control_rect_of(area, bs, i).0.x == start + button_offset(bs, i));
            assert(r@[i].0.x == start + button_offset(bs, i));
            assert(r@[i].0.width == button_width(bs[i]));
        }
    }
    r
}

/// The progress bar in `area`: its left edge and width, centred in the
/// area's width.
pub fn progress_bar_place(area: Rect) -> (r: (u16, u16))
    requires
        area.x + area.width <= u16::MAX,
    ensures
        r.1 == bar_width(area.width),
        r.0 == area.x + (area.width - r.1) / 2,
        r.0 + r.1 <= area.x + area.width,
{
    let w = progress_bar_width(area.width);
    (area.x + (area.width - w) / 2, w)
}

/// How many of the `cycles` session dots, three cells apart from `dot_x`,
/// fall left of column `buf_w`: they are drawn up to the first that does
/// not.
pub open spec fn dots_shown(dot_x: int, buf_w: int, cycles: int) -> int {
    if dot_x >= buf_w {
        0
    } else if (buf_w - dot_x + 2) / 3 < cycles {
        (buf_w - dot_x + 2) / 3
    } else {
        cycles
    }
}

/// Where the row of session dots starts: centred in `area`.
pub open spec fn dots_start(area: Rect, cycles: u16) -> int {
    area.x + (area.width - (cycles + sub0(cycles as int, 1) * 2)) / 2
}

/// The columns of the session dots under the pomodoro bar, on a screen
/// `buf_w` cells wide: one dot per session of the cycle, three cells apart
/// and centred in `area`, cut at the screen's right edge; none when the row
/// does not fit in the area.
pub fn dot_columns(area: Rect, cycles: u16, buf_w: u16) -> (r: Vec<u16>)
    requires
        cycles + sub0(cycles as int, 1) * 2 <= u16::MAX,
        area.x + area.width <= u16::MAX,
    ensures
        cycles + sub0(cycles as int, 1) * 2 >= area.width ==> r@.len() == 0,
        cycles + sub0(cycles as int, 1) * 2 < area.width ==> {
            &&& r@.len() == dots_shown(dots_start(area, cycles), buf_w as int, cycles as int)
            &&& forall|i: int| 0 <= i < r@.len() ==> #[trigger] r@[i] == dots_start(area, cycles) + 3 * i
        },
{
    let mut r: Vec<u16> = Vec::new();
    let total = crate::render::dot_row_width(cycles);
    if total >= area.width {
        return r;
    }
    let dot_x = area.x + (area.width - total) / 2;
    let mut i: u16 = 0;
    while i < cycles
        invariant
            i <= cycles,
            r@.len() == i,
            dot_x == dots_start(area, cycles),
            total == cycles + sub0(cycles as int, 1) * 2,
            total < area.width,
            area.x + area.width <= u16::MAX,
            forall|k: int| 0 <= k < i ==> #[trigger] r@[k] == dot_x + 3 * k,
            forall|k: int| 0 <= k < i ==> #[trigger] r@[k] < buf_w,
        ensures
            i <= cycles,
            r@.len() == i,
            forall|k: int| 0 <= k < i ==> #[trigger] r@[k] == dot_x + 3 * k,
            forall|k: int| 0 <= k < i ==> #[trigger] r@[k] < buf_w,
            i < cycles ==> dot_x + 3 * i >= buf_w,
        decreases cycles - i,
    {
        let cx = dot_x + i * 3;
        if cx >= buf_w {
            break;
        }
        r.push(cx);
        i = i + 1;
    }
    proof {
        if i < cycles {
            assert(dot_x + 3 * i >= buf_w);
        }
        if i > 0 {
            assert(r@[i - 1] < buf_w);
        }
    }
    r
}

/// A row of the lap list: lap `n` (counted from 1), marked when it is the
/// latest, or the dotted divider between two laps.
#[derive(Clone, Copy, PartialEq, Eq, Debug, Structural)]
pub enum LapRow {
    Lap(usize, bool),
    Divider,
}

/// Row `j` of the lap list of `n` laps, newest first: laps on even rows,
/// dividers between them.
pub open spec fn lap_row_at(n: int, j: int) -> LapRow {
    if j % 2 == 0 {
        LapRow::Lap((n - j / 2) as usize, j == 0)
    } else {
        LapRow::Divider
    }
}

/// How many rows of the lap list of `n` laps fit in `h` rows.
pub open spec fn lap_rows_shown(n: int, h: int) -> int {
    if n == 0 {
        0
    } else if 2 * n - 1 < h {
        2 * n - 1
    } else {
        h
    }
}

/// Rows of a list of `n` laps, newest first: how many there are when all
/// `rev` newest laps are placed.
pub open spec fn lap_prefix(n: int, rev: int) -> int {
    if rev < n {
        2 * rev
    } else if n == 0 {
        0
    } else {
        2 * n - 1
    }
}

/// The rows of the lap list inside `inner`, top down: each with its line,
/// newest lap first, a divider between laps, cut at the bottom of `inner`.
pub fn lap_rows(inner: Rect, n: usize) -> (r: Vec<(u16, LapRow)>)
    requires
        inner.y + inner.height <= u16::MAX,
    ensures
        r@.len() == lap_rows_shown(n as int, inner.height as int),
        forall|j: int|
            0 <= j < r@.len() ==> #[trigger] r@[j] == ((inner.y + j) as u16, lap_row_at(n as int, j)),
{
    let mut r: Vec<(u16, LapRow)> = Vec::new();
    let bottom = inner.y + inner.height;
    let mut y = inner.y;
    let mut rev: usize = 0;
    while rev < n && y < bottom
        invariant
            rev <= n,
            bottom == inner.y + inner.height,
            bottom <= u16::MAX,
            y == inner.y + r@.len(),
            r@.len() == if lap_prefix(n as int, rev as int) < inner.height {
                lap_prefix(n as int, rev as int)
            } else {
                inner.height as int
            },
            forall|j: int|
                0 <= j < r@.len() ==> #[trigger] r@[j] == ((inner.y + j) as u16, lap_row_at(
                    n as int,
                    j,
                )),
        decreases n - rev,
    {
        assert(lap_row_at(n as int, 2 * rev) == LapRow::Lap((n - rev) as usize, rev == 0));
        r.push((y, LapRow::Lap(n - rev, rev == 0)));
        y = y + 1;
        if rev + 1 < n && y < bottom {
            assert(lap_row_at(n as int, 2 * rev + 1) == LapRow::Divider);
            r.push((y, LapRow::Divider));
            y = y + 1;
        }
        rev = rev + 1;
    }
    r
}

/// A row of the settings panel: one of its two section headings (0 for the
/// display, 1 for the pomodoro), a setting, one of the notes under them
/// (counted from 0), or the closing footer.
#[derive(Clone, Copy, PartialEq, Eq, Debug, Structural)]
pub enum SettingsRow {
    Heading(usize),
    Field(SettingsField),
    Note(usize),
    Footer,
}

/// Row `k` (under 10) of the top of the settings panel: the display
/// heading, theme and transparency, the pomodoro heading and its six rows.
pub open spec fn settings_entry(k: int) -> SettingsRow {
    if k == 0 {
        SettingsRow::Heading(0)
    } else if k == 1 {
        SettingsRow::Field(SettingsField::Theme)
    } else if k == 2 {
        SettingsRow::Field(SettingsField::Transparent)
    } else if k == 3 {
        SettingsRow::Heading(1)
    } else if k == 4 {
        SettingsRow::Field(SettingsField::Work)
    } else if k == 5 {
        SettingsRow::Field(SettingsField::Short)
    } else if k == 6 {
        SettingsRow::Field(SettingsField::Long)
    } else if k == 7 {
        SettingsRow::Field(SettingsField::Cycles)
    } else if k == 8 {
        SettingsRow::Field(SettingsField::AutoBreak)
    } else {
        SettingsRow::Field(SettingsField::AutoWork)
    }
}

fn settings_entry_exec(k: u16) -> (r: SettingsRow)
    requires
        k < 10,
    ensures
        r == settings_entry(k as int),
{
    match k {
        0 => SettingsRow::Heading(0),
        1 => SettingsRow::Field(SettingsField::Theme),
        2 => SettingsRow::Field(SettingsField::Transparent),
        3 => SettingsRow::Heading(1),
        4 => SettingsRow::Field(SettingsField::Work),
        5 => SettingsRow::Field(SettingsField::Short),
        6 => SettingsRow::Field(SettingsField::Long),
        7 => SettingsRow::Field(SettingsField::Cycles),
        8 => SettingsRow::Field(SettingsField::AutoBreak),
        _ => SettingsRow::Field(SettingsField::AutoWork),
    }
}

/// The full-width row `off` lines below the top of `inner`.
pub open spec fn panel_line(inner: Rect, off: int) -> Rect {
    Rect { x: inner.x, y: (inner.y + off) as u16, width: inner.width, height: 1 }
}

/// The rows of the settings panel inside `inner`, top down. Nothing on an
/// inside under 10 wide or 6 high. The headings and settings take the rows
/// from the top as far as they fit; when one blank row and more still fit
/// below them (an inside of 12 rows or more), up to six notes follow from
/// row 11, and the footer takes the bottom row.
pub open spec fn settings_rows_of(inner: Rect) -> Seq<(Rect, SettingsRow)> {
    if inner.width < 10 || inner.height < 6 {
        seq![]
    } else {
        let h = inner.height as int;
        let m = if h < 10 {
            h
        } else {
            10
        };
        let base = Seq::new(m as nat, |k: int| (panel_line(inner, k), settings_entry(k)));
        if h < 12 {
            base
        } else {
            let notes = Seq::new(
                (if h - 11 < 6 {
                    h - 11
                } else {
                    6
                }) as nat,
                |k: int| (panel_line(inner, 11 + k), SettingsRow::Note(k as usize)),
            );
            base + notes + seq![(panel_line(inner, h - 1), SettingsRow::Footer)]
        }
    }
}

/// The rows of the settings panel inside `inner`; see `settings_rows_of`.
pub fn settings_rows(inner: Rect) -> (r: Vec<(Rect, SettingsRow)>)
    requires
        inner.y + inner.height < u16::MAX,
    ensures
        r@ == settings_rows_of(inner),
{
    let mut r: Vec<(Rect, SettingsRow)> = Vec::new();
    if inner.width < 10 || inner.height < 6 {
        assert(r@ =~= settings_rows_of(inner));
        return r;
    }
    let h = inner.height;
    let m: u16 = if h < 10 {
        h
    } else {
        10
    };
    let ghost base = Seq::new(m as nat, |k: int| (panel_line(inner, k), settings_entry(k)));
    let mut k: u16 = 0;
    while k < m
        invariant
            k <= m,
            m <= 10,
            m <= h,
            h == inner.height,
            inner.y + inner.height < u16::MAX,
            base == Seq::new(m as nat, |k: int| (panel_line(inner, k), settings_entry(k))),
            r@ =~= base.take(k as int),
        decreases m - k,
    {
        r.push(
            (
                Rect { x: inner.x, y: inner.y + k, width: inner.width, height: 1 },
                settings_entry_exec(k),
            ),
        );
        k = k + 1;
        assert(r@ =~= base.take(k as int));
    }
    assert(base.take(m as int) =~= base);
    if h < 12 {
        assert(r@ =~= settings_rows_of(inner));
        return r;
    }
    let cnt: u16 = if h - 11 < 6 {
        h - 11
    } else {
        6
    };
    let ghost notes = Seq::new(
        cnt as nat,
        |k: int| (panel_line(inner, 11 + k), SettingsRow::Note(k as usize)),
    );
    let mut j: u16 = 0;
    while j < cnt
        invariant
            j <= cnt,
            cnt <= 6,
            11 + cnt <= h,
            h == inner.height,
            inner.y + inner.height < u16::MAX,
            notes == Seq::new(
                cnt as nat,
                |k: int| (panel_line(inner, 11 + k), SettingsRow::Note(k as usize)),
            ),
            r@ =~= base + notes.take(j as int),
        decreases cnt - j,
    {
        r.push(
            (
                Rect { x: inner.x, y: inner.y + 11 + j, width: inner.width, height: 1 },
                SettingsRow::Note(j as usize),
            ),
        );
        j = j + 1;
        assert(r@ =~= base + notes.take(j as int));
    }
    assert(notes.take(cnt as int) =~= notes);
    r.push(
        (
            Rect { x: inner.x, y: inner.y + h - 1, width: inner.width, height: 1 },
            SettingsRow::Footer,
        ),
    );
    assert(r@ =~= settings_rows_of(inner));
    r
}

/// What a click on a settings row does: a setting row selects it, the
/// footer closes the panel, headings and notes do nothing.
pub open spec fn settings_row_click(row: SettingsRow) -> Option<ClickAction> {
    match row {
        SettingsRow::Field(f) => Some(ClickAction::SettingsField(f)),
        SettingsRow::Footer => Some(ClickAction::SettingsClose),
        _ => None,
    }
}

/// What a click on a settings row does; see `settings_row_click`.
pub fn settings_row_action(row: SettingsRow) -> (r: Option<ClickAction>)
    ensures
        r == settings_row_click(row),
{
    match row {
        SettingsRow::Field(f) => Some(ClickAction::SettingsField(f)),
        SettingsRow::Footer => Some(ClickAction::SettingsClose),
        _ => None,
    }
}

/// A band of a screen split top to bottom: a fixed number of rows, or at
/// least that many.
#[derive(Clone, Copy, PartialEq, Eq, Debug, Structural)]
pub enum Band {
    Length(u16),
    Min(u16),
}

/// The rows a band asks for: exactly, or at least.
pub open spec fn band_rows(b: Band) -> int {
    match b {
        Band::Length(n) => n as int,
        Band::Min(n) => n as int,
    }
}

/// The rows all of `bs` ask for together.
pub open spec fn bands_total(bs: Seq<Band>) -> int
    decreases bs.len(),
{
    if bs.len() == 0 {
        0
    } else {
        bands_total(bs.drop_last()) + band_rows(bs.last())
    }
}

/// Whether `bs` fit in `area` with room to spare: the area's bottom edge
/// fits a `u16`, every `Min` asks for at most 32767 rows (the layout reads
/// it as an `i16`), and the bands ask for no more rows than the area has.
pub open spec fn bands_fit(area: Rect, bs: Seq<Band>) -> bool {
    &&& area.y + area.height <= u16::MAX
    &&& forall|i: int| 0 <= i < bs.len() ==> (#[trigger] bs[i] matches Band::Min(n) ==> n <= 32767)
    &&& bands_total(bs) <= area.height
}

/// Splits `area` top to bottom into one rectangle per band, with ratatui's
/// `Layout::vertical(..).split` on `Constraint::Length` / `Constraint::Min`
/// (default flex, no margin, no spacing). The contract claims what the
/// source shows:
/// - always, one rectangle per band, each spanning the area's columns;
/// - when the bands fit (`bands_fit`), the bands are stacked from the
///   area's top row with no gaps and stay inside the area; each `Length(n)`
///   band is `n` rows and each `Min(n)` band at least `n`; and when there
///   is a `Min` band the bands reach the area's bottom row. There every
///   constraint that the solver weighs above the growth terms can be met at
///   once, so the layout is the unique optimum.
/// How the rows are shared when the bands do not fit is left unsaid: the
/// solver then trades equal-weight constraints against each other, and it
/// breaks such ties by walking hash maps whose order each process seeds.
#[verifier::external_body]
fn split_rows(area: Rect, bands: &Vec<Band>) -> (r: Vec<Rect>)
    ensures
        r@.len() == bands@.len(),
        forall|i: int|
            0 <= i < r@.len() ==> (#[trigger] r@[i]).x == area.x && r@[i].width == area.width,
        bands_fit(area, bands@) ==> {
            &&& r@.len() > 0 ==> r@[0].y == area.y
            &&& forall|i: int| 0 < i < r@.len() ==> (#[trigger] r@[i]).y == r@[i - 1].y + r@[i - 1].height
            &&& forall|i: int| 0 <= i < r@.len() ==> r@[i].y + (#[trigger] r@[i]).height <= area.y + area.height
            &&& forall|i: int|
                0 <= i < r@.len() ==> match #[trigger] bands@[i] {
                    Band::Length(n) => r@[i].height == n,
                    Band::Min(n) => r@[i].height >= n,
                }
            &&& (exists|i: int| 0 <= i < bands@.len() && #[trigger] bands@[i] is Min) ==> r@.last().y
                + r@.last().height == area.y + area.height
        },
{
    let cs = bands.iter().map(|b| match *b {
        Band::Length(n) => Constraint::Length(n),
        Band::Min(n) => Constraint::Min(n),
    });
    let whole = ratatui::layout::Rect { x: area.x, y: area.y, width: area.width, height: area.height };
    let parts = Layout::vertical(cs).split(whole);
    parts.iter().map(|p| Rect { x: p.x, y: p.y, width: p.width, height: p.height }).collect()
}

/// The bands of the main screen, top down: the header (two rows, three on
/// a screen of 24 rows or more), the mode line, the cards (at least 12
/// rows), the progress bar, the controls and the footer.
pub open spec fn screen_bands_of(area_h: u16) -> Seq<Band> {
    seq![
        Band::Length(if area_h < 24 { 2u16 } else { 3u16 }),
        Band::Length(1),
        Band::Min(12),
        Band::Length(2),
        Band::Length(2),
        Band::Length(1),
    ]
}

/// The bands of the main screen for a screen `area_h` rows high; see
/// `screen_bands_of`.
pub fn screen_band_list(area_h: u16) -> (r: Vec<Band>)
    ensures
        r@ == screen_bands_of(area_h),
{
    let r = vec![
        Band::Length(header_height(area_h)),
        Band::Length(1),
        Band::Min(12),
        Band::Length(2),
        Band::Length(2),
        Band::Length(1),
    ];
    assert(r@ =~= screen_bands_of(area_h));
    r
}

/// Rows of the header band on a screen `area_h` rows high.
pub open spec fn header_rows(area_h: u16) -> int {
    if area_h < 24 {
        2
    } else {
        3
    }
}

/// The six bands of a screen with room for all of them: the header at the
/// top, the mode line under it, the progress bar, the controls and the
/// footer (2, 2 and 1 rows) at the bottom, and the cards taking every row
/// between.
pub open spec fn screen_band_rects(area: Rect) -> Seq<Rect> {
    let hh = header_rows(area.height);
    let bottom = area.y + area.height;
    let row = |y: int, h: int| Rect { x: area.x, y: y as u16, width: area.width, height: h as u16 };
    seq![
        row(area.y as int, hh),
        row(area.y + hh, 1),
        row(area.y + hh + 1, area.height - hh - 6),
        row(bottom - 5, 2),
        row(bottom - 3, 2),
        row(bottom - 1, 1),
    ]
}

proof fn lemma_screen_bands_total(area_h: u16)
    ensures
        bands_total(screen_bands_of(area_h)) == header_rows(area_h) + 18,
{
    let s = screen_bands_of(area_h);
    assert(s.drop_last() =~= s.take(5));
    assert(s.take(5).drop_last() =~= s.take(4));
    assert(s.take(4).drop_last() =~= s.take(3));
    assert(s.take(3).drop_last() =~= s.take(2));
    assert(s.take(2).drop_last() =~= s.take(1));
    assert(s.take(1).drop_last() =~= s.take(0));
    assert(bands_total(s.take(0)) == 0);
    assert(bands_total(s.take(1)) == header_rows(area_h));
    assert(bands_total(s.take(2)) == header_rows(area_h) + 1);
    assert(bands_total(s.take(3)) == header_rows(area_h) + 13);
    assert(bands_total(s.take(4)) == header_rows(area_h) + 15);
    assert(bands_total(s.take(5)) == header_rows(area_h) + 17);
}

/// The main screen split into its six bands (see `screen_bands_of`), each
/// spanning the screen's columns. On a screen with room for all of them
/// (at least 20 rows, 21 from 24 rows on) they are exactly
/// `screen_band_rects`.
pub fn screen_bands(area: Rect) -> (r: Vec<Rect>)
    ensures
        r@.len() == 6,
        forall|i: int|
            0 <= i < r@.len() ==> (#[trigger] r@[i]).x == area.x && r@[i].width == area.width,
        area.y + area.height <= u16::MAX && area.height >= header_rows(area.height) + 18
            ==> r@ == screen_band_rects(area),
{
    let bands = screen_band_list(area.height);
    let r = split_rows(area, &bands);
    proof {
        let s = bands@;
        if area.y + area.height <= u16::MAX && area.height >= header_rows(area.height) + 18 {
            lemma_screen_bands_total(area.height);
            assert(bands_fit(area, s));
            assert(s[2] is Min);
            let e = screen_band_rects(area);
            assert(r@[0].y == area.y);
            assert(s[0] == Band::Length(header_rows(area.height) as u16));
            assert(r@[0].height == header_rows(area.height));
            assert(r@[1].y == r@[0].y + r@[0].height);
            assert(s[1] == Band::Length(1));
            assert(r@[1].height == 1);
            assert(r@[2].y == r@[1].y + r@[1].height);
            assert(r@[3].y == r@[2].y + r@[2].height);
            assert(r@[4].y == r@[3].y + r@[3].height);
            assert(r@[5].y == r@[4].y + r@[4].height);
            assert(s[3] == Band::Length(2));
            assert(s[4] == Band::Length(2));
            assert(s[5] == Band::Length(1));
            assert(r@[3].height == 2);
            assert(r@[4].height == 2);
            assert(r@[5].height == 1);
            assert(r@.last() == r@[5]);
            assert(r@[5].y + r@[5].height == area.y + area.height);
            assert(r@[0] == e[0]);
            assert(r@[1] == e[1]);
            assert(r@[2] == e[2]);
            assert(r@[3] == e[3]);
            assert(r@[4] == e[4]);
            assert(r@[5] == e[5]);
            assert(r@ =~= e);
        }
    }
    r
}

/// What is left inside a frame drawn on all four sides of `area`: one cell
/// in from each edge, shrinking to nothing on an area too small for it.
pub open spec fn framed_inner_of(area: Rect) -> Rect {
    let right = if area.x + area.width > u16::MAX { u16::MAX as int } else { area.x + area.width };
    let bottom = if area.y + area.height > u16::MAX { u16::MAX as int } else { area.y + area.height };
    let x1 = if area.x + 1 > u16::MAX { u16::MAX as int } else { area.x + 1 };
    let y1 = if area.y + 1 > u16::MAX { u16::MAX as int } else { area.y + 1 };
    Rect {
        x: (if x1 < right { x1 } else { right }) as u16,
        y: (if y1 < bottom { y1 } else { bottom }) as u16,
        width: sub0(area.width as int, 2) as u16,
        height: sub0(area.height as int, 2) as u16,
    }
}

/// The inside of a block framed on all four sides (ratatui's `Block` with
/// `Borders::ALL`, no padding), from `Block::inner`. The contract states
/// what the source computes: one cell in from each edge, with saturating
/// arithmetic (see `framed_inner_of`).
#[verifier::external_body]
fn framed_inner(area: Rect) -> (r: Rect)
    ensures
        r == framed_inner_of(area),
{
    let whole = ratatui::layout::Rect { x: area.x, y: area.y, width: area.width, height: area.height };
    let inner = Block::default().borders(Borders::ALL).inner(whole);
    Rect { x: inner.x, y: inner.y, width: inner.width, height: inner.height }
}

/// The lap panel on `area`, framed on all sides: its inside, and the rows
/// of the list of `n` laps there (see `lap_rows`).
pub fn lap_panel(area: Rect, n: usize) -> (r: (Rect, Vec<(u16, LapRow)>))
    requires
        area.y + area.height <= u16::MAX,
    ensures
        r.0 == framed_inner_of(area),
        r.1@.len() == lap_rows_shown(n as int, r.0.height as int),
        forall|j: int|
            0 <= j < r.1@.len() ==> #[trigger] r.1@[j] == ((r.0.y + j) as u16, lap_row_at(
                n as int,
                j,
            )),
{
    let inner = framed_inner(area);
    let rows = lap_rows(inner, n);
    (inner, rows)
}

} // verus!
