use vstd::prelude::*;
use crate::modes::{
    AppMode, SettingsField, ClickAction, PomodoroPhase, next_mode, prev_mode, next_field,
    prev_field,
};
use crate::theme::THEME_COUNT;
use crate::timers::{PomodoroState, TimerState, advanced, can_advance};
use crate::app::{
    AppView, KeyEvent, after_action, after_click, after_key, after_tick, app_inv, action_ok,
    click_ok, hit_index, initial_view, key_ok, theme_after, theme_before, tick_ok, after_adjust,
    adjust_ok, edit_saved, key_while_editing, key_in_settings, key_on_main, stepped_minutes,
    clamp_int, rect_contains, flips_updated, laps_ordered, settings_in_range,
};
use crate::parse::{
    law_timer_secs_range, normalized_input, timer_secs_from, split_colon, dec_value, trim,
    trim_start, trim_end, lower_no_spaces, is_white_space, colon_form, part_ok, all_digits,
    is_digit, finish_total, lower_ascii,
};
use crate::text::{pad2, digit_char};
use crate::glyph::glyph_rows;
use crate::theme::{Color, theme_table};
use crate::app::{KeyCode, active_theme, utf8_len, edit_cancelled, is_time_char, unit_lower};
use crate::timefmt::{hms_text, stopwatch_text, duration_digits, whole_secs};

verus! {

/// Moving a tab right and then left, or left and then right, comes back to
/// the same mode; four moves right visit every mode and come back.
pub proof fn law_mode_cycle(m: AppMode)
    ensures
        prev_mode(next_mode(m)) == m,
        next_mode(prev_mode(m)) == m,
        next_mode(next_mode(next_mode(next_mode(m)))) == m,
{
}

/// Moving down the settings rows and back up, or up and back down, returns
/// to the same row; eight moves down come back round.
pub proof fn law_field_cycle(f: SettingsField)
    ensures
        prev_field(next_field(f)) == f,
        next_field(prev_field(f)) == f,
        next_field(next_field(next_field(next_field(next_field(next_field(next_field(next_field(f))))))))
            == f,
{
}

/// Cycling themes forward and back returns to the same theme, and the index
/// always lands on a theme of the table.
pub proof fn law_theme_cycle(i: usize)
    requires
        i < THEME_COUNT,
    ensures
        theme_before(theme_after(i)) == i,
        theme_after(theme_before(i)) == i,
        theme_after(i) < THEME_COUNT,
        theme_before(i) < THEME_COUNT,
{
}

/// Seven steps forward through the themes come back to the start.
pub proof fn law_theme_full_turn(i: usize)
    requires
        i < THEME_COUNT,
    ensures
        theme_after(theme_after(theme_after(theme_after(theme_after(theme_after(theme_after(i)))))))
            == i,
{
}

/// The clock starts in a state where the invariant holds.
pub proof fn law_initial_state_is_sound()
    ensures
        app_inv(initial_view()),
{
    reveal(laps_ordered);
    reveal(settings_in_range);
}

/// Under the invariant the only way an action can overflow is a skip that
/// would overflow the count of completed focus sessions.
pub proof fn law_actions_only_overflow_on_skip(v: AppView, a: ClickAction)
    requires
        app_inv(v),
        a != ClickAction::Skip || v.mode != AppMode::Pomodoro || can_advance(v.pomodoro),
    ensures
        action_ok(v, a),
{
}

proof fn lemma_stepped_minutes(secs: u32, dir: i32, lo: int, hi: int)
    requires
        1 <= lo <= hi <= 60,
    ensures
        lo * 60 <= stepped_minutes(secs, dir, lo, hi) <= hi * 60,
        stepped_minutes(secs, dir, lo, hi) % 60 == 0,
{
    let k = clamp_int(crate::app::div60_toward_zero(crate::app::as_i32(secs)) + dir, lo, hi);
    assert(lo <= k <= hi);
    assert((k * 60) % 60 == 0) by (nonlinear_arith)
        requires
            k >= 0,
    ;
}

proof fn lemma_edit_saved_inv(v: AppView)
    requires
        app_inv(v),
    ensures
        app_inv(edit_saved(v)),
{
    law_timer_secs_range(crate::parse::normalized_input(v.timer_buffer));
}

#[verifier::rlimit(100)]
#[verifier::spinoff_prover]
proof fn lemma_adjust_inv(v: AppView, dir: i32)
    requires
        app_inv(v),
    ensures
        app_inv(after_adjust(v, dir)),
{
    reveal(settings_in_range);
    match v.settings_field {
        SettingsField::Work => lemma_stepped_minutes(v.pomodoro.work_secs, dir, 5, 60),
        SettingsField::Short => lemma_stepped_minutes(v.pomodoro.short_secs, dir, 1, 30),
        SettingsField::Long => lemma_stepped_minutes(v.pomodoro.long_secs, dir, 5, 45),
        _ => {},
    }
}

proof fn lemma_laps_push(laps: Seq<u64>, e: u64)
    requires
        laps_ordered(laps, e),
    ensures
        laps_ordered(laps.push(e), e),
{
    reveal(laps_ordered);
    let l2 = laps.push(e);
    assert forall|i: int, j: int| 0 <= i <= j < l2.len() implies l2[i] <= l2[j] by {
        if j < laps.len() {
            assert(l2[i] == laps[i] && l2[j] == laps[j]);
        }
    }
}

proof fn lemma_laps_empty()
    ensures
        laps_ordered(Seq::empty(), 0),
{
    reveal(laps_ordered);
}

proof fn lemma_laps_later(laps: Seq<u64>, e: u64, e2: u64)
    requires
        laps_ordered(laps, e),
        e <= e2,
    ensures
        laps_ordered(laps, e2),
{
    reveal(laps_ordered);
}

/// Every click action keeps the invariant.
#[verifier::rlimit(100)]
#[verifier::spinoff_prover]
pub proof fn law_action_keeps_invariant(v: AppView, a: ClickAction)
    requires
        app_inv(v),
        action_ok(v, a),
    ensures
        app_inv(after_action(v, a).0),
{
    reveal(after_action);
    match a {
        ClickAction::Lap => {
            if v.mode == AppMode::Stopwatch && (v.stopwatch_running || v.elapsed_ms > 0) {
                lemma_laps_push(v.laps, v.elapsed_ms);
            }
        },
        ClickAction::TimerSave => lemma_edit_saved_inv(v),
        ClickAction::StartPause => {},
        ClickAction::Reset => lemma_laps_empty(),
        ClickAction::Skip => {},
        ClickAction::SettingsField(f) => {},
        _ => {},
    }
}

/// Time passing keeps the invariant.
pub proof fn law_tick_keeps_invariant(v: AppView, dt: u64)
    requires
        app_inv(v),
        tick_ok(v, dt),
    ensures
        app_inv(after_tick(v, dt).0),
{
    if v.mode == AppMode::Stopwatch && v.stopwatch_running {
        lemma_laps_later(v.laps, v.elapsed_ms, (v.elapsed_ms + dt) as u64);
    }
}

/// Every key press keeps the invariant.
#[verifier::rlimit(100)]
#[verifier::spinoff_prover]
pub proof fn law_key_keeps_invariant(v: AppView, k: KeyEvent)
    requires
        app_inv(v),
        key_ok(v, k),
    ensures
        app_inv(after_key(v, k).0),
{
    if v.timer_editing && !v.show_settings {
        lemma_edit_saved_inv(v);
    } else if v.show_settings {
        lemma_adjust_inv(v, 1i32);
        lemma_adjust_inv(v, -1i32);
    } else {
        match k.code {
            crate::app::KeyCode::Char(' ') => law_action_keeps_invariant(v, ClickAction::StartPause),
            crate::app::KeyCode::Char('r') | crate::app::KeyCode::Char('R') => law_action_keeps_invariant(
                v,
                ClickAction::Reset,
            ),
            crate::app::KeyCode::Char('s') => {
                if v.mode == AppMode::Pomodoro {
                    law_action_keeps_invariant(v, ClickAction::Skip);
                }
            },
            crate::app::KeyCode::Char('l') | crate::app::KeyCode::Char('L') => {
                if v.mode == AppMode::Stopwatch {
                    law_action_keeps_invariant(v, ClickAction::Lap);
                }
            },
            _ => {},
        }
    }
}

/// A click lands on the last region drawn under it, and on nothing when no
/// region holds it.
pub proof fn law_click_hits_topmost(cs: Seq<(crate::app::Rect, ClickAction)>, x: u16, y: u16)
    ensures
        hit_index(cs, x, y) matches Some(i) ==> 0 <= i < cs.len() && rect_contains(cs[i].0, x, y)
            && forall|j: int| i < j < cs.len() ==> !rect_contains(#[trigger] cs[j].0, x, y),
        hit_index(cs, x, y) is None ==> forall|j: int|
            0 <= j < cs.len() ==> !rect_contains(#[trigger] cs[j].0, x, y),
    decreases cs.len(),
{
    if cs.len() > 0 {
        law_click_hits_topmost(cs.drop_last(), x, y);
        assert forall|j: int| 0 <= j < cs.len() - 1 implies cs.drop_last()[j] == cs[j] by {}
    }
}

/// Every click keeps the invariant.
pub proof fn law_click_keeps_invariant(v: AppView, x: u16, y: u16)
    requires
        app_inv(v),
        click_ok(v, x, y),
    ensures
        app_inv(after_click(v, x, y).0),
{
    law_click_hits_topmost(v.clickables, x, y);
    match hit_index(v.clickables, x, y) {
        Some(i) => law_action_keeps_invariant(v, v.clickables[i].1),
        None => {},
    }
}

/// The pomodoro after `k` phases have ended.
pub open spec fn advance_times(p: PomodoroState, k: nat) -> PomodoroState
    decreases k,
{
    if k == 0 {
        p
    } else {
        advance_times(advanced(p), (k - 1) as nat)
    }
}

/// A cycle of `n` focus sessions: from focus session `j` of the cycle, the
/// remaining `n - j` focus sessions alternate with short breaks, the last
/// one is followed by the long break, and after it the next cycle starts
/// at focus session 1, with `n - j + 1` more sessions completed. The phase
/// lengths and switches are unchanged throughout.
pub proof fn law_pomodoro_cycle(p: PomodoroState)
    requires
        p.phase == PomodoroPhase::Work,
        1 <= p.session_in_cycle <= p.sessions_before_long,
        p.completed + (p.sessions_before_long - p.session_in_cycle + 1) <= u32::MAX,
    ensures
        ({
            let r = (p.sessions_before_long - p.session_in_cycle) as nat;
            &&& advance_times(p, 2 * r + 1).phase == PomodoroPhase::LongBreak
            &&& advance_times(p, 2 * r + 2).phase == PomodoroPhase::Work
            &&& advance_times(p, 2 * r + 2).session_in_cycle == 1
            &&& advance_times(p, 2 * r + 2).completed == p.completed + r + 1
            &&& advance_times(p, 2 * r + 2).work_secs == p.work_secs
            &&& advance_times(p, 2 * r + 2).short_secs == p.short_secs
            &&& advance_times(p, 2 * r + 2).long_secs == p.long_secs
            &&& advance_times(p, 2 * r + 2).sessions_before_long == p.sessions_before_long
            &&& advance_times(p, 2 * r + 2).auto_start_breaks == p.auto_start_breaks
            &&& advance_times(p, 2 * r + 2).auto_start_work == p.auto_start_work
        }),
    decreases p.sessions_before_long - p.session_in_cycle,
{
    let r = (p.sessions_before_long - p.session_in_cycle) as nat;
    let p1 = advanced(p);
    let p2 = advanced(p1);
    if r == 0 {
        assert(advance_times(p, 1) == p1) by {
            assert(advance_times(p1, 0) == p1);
        }
        assert(advance_times(p, 2) == p2) by {
            assert(advance_times(p2, 0) == p2);
            assert(advance_times(p1, 1) == advance_times(p2, 0));
        }
    } else {
        assert(p1.phase == PomodoroPhase::ShortBreak);
        assert(p2.session_in_cycle == p.session_in_cycle + 1);
        law_pomodoro_cycle(p2);
        let r2 = (r - 1) as nat;
        assert(advance_times(p, 2 * r + 1) == advance_times(p2, 2 * r2 + 1)) by {
            assert(advance_times(p, 2 * r + 1) == advance_times(p1, 2 * r));
            assert(advance_times(p1, 2 * r) == advance_times(p2, (2 * r - 1) as nat));
        }
        assert(advance_times(p, 2 * r + 2) == advance_times(p2, 2 * r2 + 2)) by {
            assert(advance_times(p, 2 * r + 2) == advance_times(p1, 2 * r + 1));
            assert(advance_times(p1, 2 * r + 1) == advance_times(p2, 2 * r));
        }
    }
}

proof fn lemma_pad2_small(n: nat)
    requires
        n < 100,
    ensures
        pad2(n).len() == 2,
        all_digits(pad2(n)),
        dec_value(pad2(n)) == n,
        !pad2(n).contains(':'),
        pad2(n)[0] as u32 == 48 + n / 10,
        pad2(n)[1] as u32 == 48 + n % 10,
{
    let t = n / 10;
    let o = n % 10;
    assert(digit_char(o as int) as u32 == 48 + o && digit_char(t as int) as u32 == 48 + t) by {
        lemma_digit_char(o as int);
        lemma_digit_char(t as int);
    }
    if n < 10 {
        let s = pad2(n);
        assert(s =~= seq!['0', digit_char(n as int)]);
        assert(s.drop_last() =~= seq!['0']);
        assert(s.drop_last().drop_last() =~= Seq::<char>::empty());
        assert(dec_value(s.drop_last().drop_last()) == 0);
        assert(('0' as u32) == 48);
        assert(dec_value(s.drop_last()) == 0);
        assert(s.last() == digit_char(n as int));
        assert(dec_value(s) == n);
        assert(s[0] == '0' && s[1] == digit_char(n as int));
    } else {
        let s = pad2(n);
        assert(s =~= seq![digit_char(t as int), digit_char(o as int)]) by {
            reveal_with_fuel(crate::text::decimal, 2);
        }
        assert(s.drop_last() =~= seq![digit_char(t as int)]);
        assert(s.drop_last().drop_last() =~= Seq::<char>::empty());
        assert(dec_value(s.drop_last().drop_last()) == 0);
        assert(dec_value(s.drop_last()) == t);
        assert(s.last() == digit_char(o as int));
        assert(dec_value(s) == t * 10 + o);
        assert(s[0] == digit_char(t as int) && s[1] == digit_char(o as int));
    }
}

proof fn lemma_digit_char(d: int)
    requires
        0 <= d < 10,
    ensures
        digit_char(d) as u32 == 48 + d,
        digit_char(d) != ':',
{
    if d == 0 {
    } else if d == 1 {
    } else if d == 2 {
    } else if d == 3 {
    } else if d == 4 {
    } else if d == 5 {
    } else if d == 6 {
    } else if d == 7 {
    } else if d == 8 {
    } else {
    }
}

/// Text without colons is a single piece.
proof fn lemma_split_no_colon(y: Seq<char>)
    requires
        !y.contains(':'),
    ensures
        split_colon(y) == seq![y],
    decreases y.len(),
{
    if y.len() > 0 {
        assert(!y.drop_last().contains(':')) by {
            if y.drop_last().contains(':') {
                let i = choose|i: int| 0 <= i < y.drop_last().len() && y.drop_last()[i] == ':';
                assert(y[i] == ':');
            }
        }
        lemma_split_no_colon(y.drop_last());
        assert(y.last() != ':') by {
            assert(y[y.len() - 1] == y.last());
        }
        assert(y.drop_last().push(y.last()) =~= y);
        let r = split_colon(y.drop_last());
        assert(r == seq![y.drop_last()]);
        assert(r.len() - 1 == 0);
        assert(r.last() == y.drop_last());
        assert(r.update(0, y) =~= seq![y]);
    } else {
        assert(y =~= Seq::<char>::empty());
    }
}

/// A colon followed by text without colons adds that text as a piece.
proof fn lemma_split_append(x: Seq<char>, y: Seq<char>)
    requires
        !y.contains(':'),
    ensures
        split_colon(x + seq![':'] + y) == split_colon(x).push(y),
    decreases y.len(),
{
    let z = x + seq![':'] + y;
    if y.len() == 0 {
        assert(z =~= x.push(':'));
        assert(z.drop_last() =~= x);
        assert(z.last() == ':');
        assert(y =~= Seq::<char>::empty());
    } else {
        assert(!y.drop_last().contains(':')) by {
            if y.drop_last().contains(':') {
                let i = choose|i: int| 0 <= i < y.drop_last().len() && y.drop_last()[i] == ':';
                assert(y[i] == ':');
            }
        }
        lemma_split_append(x, y.drop_last());
        assert(z.drop_last() =~= x + seq![':'] + y.drop_last());
        assert(z.last() == y.last());
        assert(y.last() != ':') by {
            assert(y[y.len() - 1] == y.last());
        }
        assert(y.drop_last().push(y.last()) =~= y);
        let r = split_colon(x).push(y.drop_last());
        assert(split_colon(z.drop_last()) == r);
        assert(r.last() == y.drop_last());
        assert(r.update(r.len() - 1, y) =~= split_colon(x).push(y));
    }
}

proof fn lemma_digits_text_normal(t: Seq<char>)
    requires
        forall|i: int| 0 <= i < t.len() ==> is_digit(#[trigger] t[i]) || t[i] == ':',
    ensures
        lower_no_spaces(t) == t,
    decreases t.len(),
{
    if t.len() > 0 {
        lemma_digits_text_normal(t.drop_last());
        assert(t.drop_last().push(t.last()) =~= t);
        assert(is_digit(t[t.len() - 1]) || t[t.len() - 1] == ':');
    }
}

/// The text a timer length is prefilled with when typing starts reads back
/// as the same length: entering the editor and saving at once keeps the
/// timer as it was.
pub proof fn law_prefilled_text_reads_back(secs: u32)
    requires
        5 <= secs <= 86400,
    ensures
        timer_secs_from(normalized_input(hms_text((secs * 1000) as u64))) == Some(secs),
{
    let ms = (secs * 1000) as u64;
    assert(whole_secs(ms) == secs);
    let h = (secs / 3600) as nat;
    let m = ((secs % 3600) / 60) as nat;
    let sec = (secs % 60) as nat;
    lemma_pad2_small(h);
    lemma_pad2_small(m);
    lemma_pad2_small(sec);
    let t = hms_text(ms);
    let c = seq![':'];
    reveal_strlit(":");
    assert(":"@ =~= c);
    assert(forall|i: int| 0 <= i < t.len() ==> is_digit(#[trigger] t[i]) || t[i] == ':') by {
        assert forall|i: int| 0 <= i < t.len() implies is_digit(#[trigger] t[i]) || t[i] == ':' by {
            if h > 0 {
                if i < 2 {
                    assert(t[i] == pad2(h)[i]);
                } else if i == 2 {
                } else if i < 5 {
                    assert(t[i] == pad2(m)[i - 3]);
                } else if i == 5 {
                } else {
                    assert(t[i] == pad2(sec)[i - 6]);
                }
            } else {
                if i < 2 {
                    assert(t[i] == pad2(m)[i]);
                } else if i == 2 {
                } else {
                    assert(t[i] == pad2(sec)[i - 3]);
                }
            }
        }
    }
    assert(trim_start(t) == t) by {
        assert(is_digit(t[0]));
    }
    assert(trim_end(t) == t) by {
        assert(is_digit(t[t.len() - 1]));
    }
    lemma_digits_text_normal(t);
    assert(normalized_input(t) == t);
    assert(t.last() == pad2(sec).last());
    assert(is_digit(t.last()));
    assert(t.contains(':')) by {
        assert(t[2] == ':');
    }
    if h > 0 {
        lemma_split_no_colon(pad2(h));
        lemma_split_append(pad2(h), pad2(m));
        lemma_split_append(pad2(h) + c + pad2(m), pad2(sec));
        let ps = split_colon(t);
        assert(ps =~= seq![pad2(h), pad2(m), pad2(sec)]);
        assert(forall|i: int| 0 <= i < ps.len() ==> part_ok(#[trigger] ps[i]));
        assert(h * 3600 + m * 60 + sec == secs);
    } else {
        lemma_split_no_colon(pad2(m));
        lemma_split_append(pad2(m), pad2(sec));
        let ps = split_colon(t);
        assert(ps =~= seq![pad2(m), pad2(sec)]);
        assert(forall|i: int| 0 <= i < ps.len() ==> part_ok(#[trigger] ps[i]));
        assert(m * 60 + sec == secs);
    }
}

/// A stopwatch reading is always eight characters, `MM:SS.hh`.
pub proof fn law_stopwatch_text_width(ms: u64)
    ensures
        stopwatch_text(ms).len() == 8,
{
    let (m, s, h) = crate::timefmt::stopwatch_fields(ms);
    lemma_pad2_small(m);
    lemma_pad2_small(s);
    lemma_pad2_small(h);
    reveal_strlit(":");
    reveal_strlit(".");
}

/// Without hours the cards always show four digits, minutes capped at 99.
pub proof fn law_minute_digits_width(ms: u64)
    ensures
        duration_digits(ms, false).len() == 4,
{
    let s = whole_secs(ms);
    let total_m = s / 60;
    let mm = if total_m < 99 { total_m } else { 99 };
    lemma_pad2_small(mm);
    lemma_pad2_small(s % 60);
}

/// Under an hour, a span reads `MM:SS`: five characters.
pub proof fn law_short_span_text_width(ms: u64)
    requires
        ms < 3600000,
    ensures
        hms_text(ms).len() == 5,
{
    let s = whole_secs(ms);
    lemma_pad2_small((s % 3600) / 60);
    lemma_pad2_small(s % 60);
    reveal_strlit(":");
}

/// Row 3 of every glyph is blank, so a hinge across the middle of a card
/// never cuts a stroke.
pub proof fn law_glyph_middle_row_blank(ch: char)
    ensures
        glyph_rows(ch)[3] == "     "@,
{
}

/// A transparent background turns every background of the theme to the
/// terminal's own and leaves text, border and accent colours as the theme
/// has them.
pub proof fn law_transparency_only_touches_backgrounds(v: AppView)
    ensures
        ({
            let th = active_theme(v);
            let base = theme_table((v.theme_idx % THEME_COUNT) as int);
            &&& th.name == base.name
            &&& th.text_main == base.text_main && th.text_dim == base.text_dim
                && th.text_muted == base.text_muted
            &&& th.card_border == base.card_border && th.card_border_dim == base.card_border_dim
            &&& th.accent_red == base.accent_red && th.accent_green == base.accent_green
                && th.accent_blue == base.accent_blue && th.accent_yellow == base.accent_yellow
            &&& v.transparent_bg ==> th.bg == Color::Reset && th.slab_bg == Color::Reset
                && th.card_top_bg == Color::Reset && th.card_bottom_bg == Color::Reset
                && th.popup_bg == Color::Reset
            &&& !v.transparent_bg ==> th == base
        }),
{
}

/// The colon between the digits is steady: after any tick it is on.
pub proof fn law_colon_steady(v: AppView, dt: u64)
    ensures
        after_tick(v, dt).0.colon_blink,
{
}


/// ASCII lower-case letters raised; every other character kept.
pub open spec fn upper_ascii(c: char) -> char {
    let u = c as u32;
    if 97 <= u <= 122 {
        (u - 32) as char
    } else {
        c
    }
}

/// `s` with its ASCII letters upper-cased, as `str::to_ascii_uppercase`
/// gives it.
pub open spec fn upper_ascii_all(s: Seq<char>) -> Seq<char>
    decreases s.len(),
{
    if s.len() == 0 {
        s
    } else {
        upper_ascii_all(s.drop_last()).push(upper_ascii(s.last()))
    }
}

/// `s` with every space removed, as `str::replace(' ', "")` gives it.
pub open spec fn without_spaces(s: Seq<char>) -> Seq<char>
    decreases s.len(),
{
    if s.len() == 0 {
        s
    } else if s.last() == ' ' {
        without_spaces(s.drop_last())
    } else {
        without_spaces(s.drop_last()).push(s.last())
    }
}

proof fn lemma_case_char(c: char)
    ensures
        lower_ascii(upper_ascii(c)) == lower_ascii(c),
        is_white_space(upper_ascii(c)) == is_white_space(c),
        (upper_ascii(c) == ' ') == (c == ' '),
{
    let u = c as u32;
    if 97 <= u <= 122 {
        let d = upper_ascii(c);
        assert(d as u32 == u - 32);
        assert(lower_ascii(d) == ((u - 32) + 32) as char);
        assert(((u - 32) + 32) as char == c);
    }
}

proof fn lemma_upper_concat(a: Seq<char>, b: Seq<char>)
    ensures
        upper_ascii_all(a + b) == upper_ascii_all(a) + upper_ascii_all(b),
    decreases b.len(),
{
    if b.len() == 0 {
        assert(a + b =~= a);
        assert(upper_ascii_all(a) + upper_ascii_all(b) =~= upper_ascii_all(a));
    } else {
        lemma_upper_concat(a, b.drop_last());
        assert((a + b).drop_last() =~= a + b.drop_last());
        assert(upper_ascii_all(a) + upper_ascii_all(b) =~= (upper_ascii_all(a) + upper_ascii_all(
            b.drop_last(),
        )).push(upper_ascii(b.last())));
    }
}

proof fn lemma_spaces_concat(a: Seq<char>, b: Seq<char>)
    ensures
        without_spaces(a + b) == without_spaces(a) + without_spaces(b),
    decreases b.len(),
{
    if b.len() == 0 {
        assert(a + b =~= a);
        assert(without_spaces(a) + without_spaces(b) =~= without_spaces(a));
    } else {
        lemma_spaces_concat(a, b.drop_last());
        assert((a + b).drop_last() =~= a + b.drop_last());
        if b.last() == ' ' {
        } else {
            assert(without_spaces(a) + without_spaces(b) =~= (without_spaces(a) + without_spaces(
                b.drop_last(),
            )).push(b.last()));
        }
    }
}

proof fn lemma_upper_trim_start(s: Seq<char>)
    ensures
        trim_start(upper_ascii_all(s)) == upper_ascii_all(trim_start(s)),
    decreases s.len(),
{
    if s.len() > 0 {
        let head = seq![s[0]];
        assert(s =~= head + s.drop_first());
        lemma_upper_concat(head, s.drop_first());
        assert(upper_ascii_all(head) =~= seq![upper_ascii(s[0])]) by {
            assert(head.drop_last() =~= Seq::<char>::empty());
            reveal_with_fuel(upper_ascii_all, 2);
        }
        let u = upper_ascii_all(s);
        assert(u =~= seq![upper_ascii(s[0])] + upper_ascii_all(s.drop_first()));
        assert(u.drop_first() =~= upper_ascii_all(s.drop_first()));
        lemma_case_char(s[0]);
        lemma_upper_trim_start(s.drop_first());
    }
}

proof fn lemma_upper_trim_end(s: Seq<char>)
    ensures
        trim_end(upper_ascii_all(s)) == upper_ascii_all(trim_end(s)),
    decreases s.len(),
{
    if s.len() > 0 {
        let u = upper_ascii_all(s);
        assert(u.drop_last() =~= upper_ascii_all(s.drop_last()));
        lemma_case_char(s.last());
        lemma_upper_trim_end(s.drop_last());
    }
}

proof fn lemma_upper_lower(s: Seq<char>)
    ensures
        lower_no_spaces(upper_ascii_all(s)) == lower_no_spaces(s),
    decreases s.len(),
{
    if s.len() > 0 {
        let u = upper_ascii_all(s);
        assert(u.drop_last() =~= upper_ascii_all(s.drop_last()));
        lemma_case_char(s.last());
        lemma_upper_lower(s.drop_last());
    }
}

proof fn lemma_spaces_trim_start(s: Seq<char>)
    ensures
        trim_start(without_spaces(s)) == without_spaces(trim_start(s)),
    decreases s.len(),
{
    if s.len() > 0 {
        let head = seq![s[0]];
        assert(s =~= head + s.drop_first());
        lemma_spaces_concat(head, s.drop_first());
        assert(head.drop_last() =~= Seq::<char>::empty());
        assert(without_spaces(head.drop_last()) =~= Seq::<char>::empty()) by {
            reveal_with_fuel(without_spaces, 2);
        }
        lemma_spaces_trim_start(s.drop_first());
        let w = without_spaces(s);
        if s[0] == ' ' {
            assert(without_spaces(head) =~= Seq::<char>::empty());
            assert(w =~= without_spaces(s.drop_first()));
        } else {
            assert(without_spaces(head) =~= head);
            assert(w =~= head + without_spaces(s.drop_first()));
            assert(w.drop_first() =~= without_spaces(s.drop_first()));
        }
    }
}

proof fn lemma_spaces_trim_end(s: Seq<char>)
    ensures
        trim_end(without_spaces(s)) == without_spaces(trim_end(s)),
    decreases s.len(),
{
    if s.len() > 0 {
        lemma_spaces_trim_end(s.drop_last());
        let w = without_spaces(s);
        if s.last() != ' ' {
            assert(w.drop_last() =~= without_spaces(s.drop_last()));
        }
    }
}

proof fn lemma_spaces_lower(s: Seq<char>)
    ensures
        lower_no_spaces(without_spaces(s)) == lower_no_spaces(s),
    decreases s.len(),
{
    if s.len() > 0 {
        lemma_spaces_lower(s.drop_last());
        let w = without_spaces(s);
        if s.last() != ' ' {
            assert(w.drop_last() =~= without_spaces(s.drop_last()));
        }
    }
}

/// Letter case and spaces never change how timer input reads: upper-casing
/// its ASCII letters, or removing its spaces, gives the same normalized text
/// and so the same length (or the same refusal).
pub proof fn law_case_and_spaces_ignored(s: Seq<char>)
    ensures
        normalized_input(upper_ascii_all(s)) == normalized_input(s),
        normalized_input(without_spaces(s)) == normalized_input(s),
        timer_secs_from(normalized_input(upper_ascii_all(s))) == timer_secs_from(
            normalized_input(s),
        ),
        timer_secs_from(normalized_input(without_spaces(s))) == timer_secs_from(
            normalized_input(s),
        ),
{
    lemma_upper_trim_start(s);
    lemma_upper_trim_end(trim_start(s));
    lemma_upper_lower(trim(s));
    lemma_spaces_trim_start(s);
    lemma_spaces_trim_end(trim_start(s));
    lemma_spaces_lower(trim(s));
}

proof fn lemma_encode_concat(a: Seq<char>, b: Seq<char>)
    ensures
        vstd::utf8::encode_utf8(a + b) == vstd::utf8::encode_utf8(a) + vstd::utf8::encode_utf8(b),
    decreases a.len(),
{
    if a.len() == 0 {
        assert(a + b =~= b);
        assert(vstd::utf8::encode_utf8(a) + vstd::utf8::encode_utf8(b) =~= vstd::utf8::encode_utf8(
            b,
        ));
    } else {
        assert((a + b)[0] == a[0]);
        assert((a + b).drop_first() =~= a.drop_first() + b);
        lemma_encode_concat(a.drop_first(), b);
        assert(vstd::utf8::encode_utf8(a + b) =~= vstd::utf8::encode_scalar(a[0] as u32) + (
        vstd::utf8::encode_utf8(a.drop_first()) + vstd::utf8::encode_utf8(b)));
    }
}

/// Each character typed into a timer length (a digit, `:` or a unit
/// letter, all ASCII) adds exactly one byte to the text's UTF-8 form.
pub proof fn law_typed_character_adds_one_byte(s: Seq<char>, c: char)
    requires
        is_time_char(c) || unit_lower(c) is Some,
    ensures
        vstd::utf8::encode_utf8(s.push(c)).len() == vstd::utf8::encode_utf8(s).len() + 1,
{
    let one = seq![c];
    assert(s.push(c) =~= s + one);
    lemma_encode_concat(s, one);
    assert(one.drop_first() =~= Seq::<char>::empty());
    assert(vstd::utf8::encode_utf8(one.drop_first()) =~= Seq::<u8>::empty());
    assert(vstd::utf8::has_width_1_encoding(c as u32));
    assert(vstd::utf8::encode_utf8(one).len() == 1);
}

/// While a timer length is typed, its text stays ASCII and at most eight
/// characters long, so its byte length (what the eight-byte limit is
/// checked against) is its number of characters: no key makes it longer.
#[verifier::spinoff_prover]
#[verifier::rlimit(50)]
pub proof fn law_typed_text_stays_short(v: AppView, k: KeyEvent)
    requires
        vstd::utf8::is_ascii_chars(v.timer_buffer),
        v.timer_buffer.len() <= 8,
    ensures
        vstd::utf8::is_ascii_chars(key_while_editing(v, k).timer_buffer),
        key_while_editing(v, k).timer_buffer.len() <= 8,
        utf8_len(key_while_editing(v, k).timer_buffer) == key_while_editing(v, k).timer_buffer.len(),
{
    let b = v.timer_buffer;
    vstd::utf8::is_ascii_chars_encode_utf8(b);
    let w = key_while_editing(v, k).timer_buffer;
    match k.code {
        KeyCode::Esc => {
            assert(w =~= Seq::<char>::empty());
        },
        KeyCode::Enter => {
            assert(w == b || w =~= Seq::<char>::empty());
        },
        KeyCode::Backspace => {
            if b.len() > 0 {
                assert(w =~= b.drop_last());
                assert forall|i: int| 0 <= i < w.len() implies '\0' <= #[trigger] w[i] <= '\u{7f}' by {
                    assert(w[i] == b[i]);
                }
            } else {
                assert(w == b);
            }
        },
        KeyCode::Char(c) => {
            if (is_time_char(c) || unit_lower(c) is Some) && utf8_len(b) < 8 {
                let d = if is_time_char(c) {
                    c
                } else {
                    unit_lower(c)->0
                };
                assert(w =~= b.push(d));
                assert forall|i: int| 0 <= i < w.len() implies '\0' <= #[trigger] w[i] <= '\u{7f}' by {
                    if i < b.len() {
                        assert(w[i] == b[i]);
                    }
                }
            } else {
                assert(w == b);
            }
        },
        _ => {
            assert(w == b);
        },
    }
    vstd::utf8::is_ascii_chars_encode_utf8(w);
}

/// A character that reads as the decimal digit `d`.
pub open spec fn shows_digit(c: char, d: int) -> bool {
    c as u32 == 48 + d
}

/// A plain run of one or two digits is a number of minutes: typed as a
/// timer length (with or without spaces or letter case around it), the
/// digits `d` or `dd` of value `v` give `60 * v` seconds, and `0` or `00`
/// gives the shortest length, five seconds.
pub proof fn law_short_digit_runs_are_minutes(s: Seq<char>)
    requires
        1 <= s.len() <= 2,
        forall|i: int| 0 <= i < s.len() ==> '0' <= #[trigger] s[i] <= '9',
    ensures
        ({
            let v = if s.len() == 1 {
                s[0] as int - 48
            } else {
                10 * (s[0] as int - 48) + (s[1] as int - 48)
            };
            &&& timer_secs_from(s) == Some((if v == 0 { 5 } else { 60 * v }) as u32)
            &&& timer_secs_from(normalized_input(s)) == timer_secs_from(s)
        }),
{
    assert(all_digits(s));
    assert(!s.contains(':')) by {
        if s.contains(':') {
            let i = choose|i: int| 0 <= i < s.len() && s[i] == ':';
            assert('0' <= s[i] <= '9');
        }
    }
    assert(s.last() == s[s.len() - 1]);
    if s.len() == 1 {
        assert(s.drop_last() =~= Seq::<char>::empty());
        assert(dec_value(s.drop_last()) == 0);
        assert(dec_value(s) == s[0] as int - 48);
    } else {
        assert(s.drop_last() =~= seq![s[0]]);
        assert(s.drop_last().drop_last() =~= Seq::<char>::empty());
        assert(dec_value(s.drop_last().drop_last()) == 0);
        assert(s.drop_last().last() == s[0]);
        assert(dec_value(s.drop_last()) == s[0] as int - 48);
        assert(dec_value(s) == 10 * (s[0] as int - 48) + (s[1] as int - 48));
    }
    // The input reads the same once normalized: no white space to trim, no
    // spaces, no letters.
    assert(!is_white_space(s[0]));
    assert(!is_white_space(s.last()));
    assert(trim_start(s) == s);
    assert(trim_end(s) == s);
    assert(trim(s) == s);
    assert(lower_no_spaces(s) =~= s) by {
        assert(lower_ascii(s.last()) == s.last());
        assert(lower_ascii(s[0]) == s[0]);
        if s.len() == 1 {
            assert(s.drop_last() =~= Seq::<char>::empty());
            assert(lower_no_spaces(s.drop_last()) =~= Seq::<char>::empty());
        } else {
            let t = s.drop_last();
            assert(t =~= seq![s[0]]);
            assert(t.drop_last() =~= Seq::<char>::empty());
            assert(lower_no_spaces(t.drop_last()) =~= Seq::<char>::empty());
            assert(t.last() == s[0]);
            assert(lower_no_spaces(t) =~= seq![s[0]]);
        }
    }
}

/// A stopwatch reading `ms` reads `MM:SS.hh`: the minutes (counted modulo
/// 100), seconds and hundredths of `ms`, two digits each; its cards show the
/// same six digits. Below 100 minutes the minutes are `ms / 60000` itself.
pub proof fn law_stopwatch_reading(ms: u64)
    ensures
        ({
            let m = (ms / 60000) as int % 100;
            let sec = (ms / 1000) as int % 60;
            let h = (ms / 10) as int % 100;
            let t = stopwatch_text(ms);
            let d = crate::timefmt::stopwatch_digits(ms);
            &&& t.len() == 8 && d.len() == 6
            &&& shows_digit(t[0], m / 10) && shows_digit(t[1], m % 10)
            &&& t[2] == ':'
            &&& shows_digit(t[3], sec / 10) && shows_digit(t[4], sec % 10)
            &&& t[5] == '.'
            &&& shows_digit(t[6], h / 10) && shows_digit(t[7], h % 10)
            &&& d[0] == t[0] && d[1] == t[1] && d[2] == t[3] && d[3] == t[4]
            &&& d[4] == t[6] && d[5] == t[7]
            &&& ms < 6_000_000 ==> shows_digit(t[0], (ms / 60000) as int / 10) && shows_digit(
                t[1],
                (ms / 60000) as int % 10,
            )
        }),
{
    let (m, sec, h) = crate::timefmt::stopwatch_fields(ms);
    lemma_pad2_small(m);
    lemma_pad2_small(sec);
    lemma_pad2_small(h);
    reveal_strlit(":");
    reveal_strlit(".");
    let t = stopwatch_text(ms);
    let d = crate::timefmt::stopwatch_digits(ms);
    assert(t =~= seq![
        pad2(m)[0], pad2(m)[1], ':', pad2(sec)[0], pad2(sec)[1], '.', pad2(h)[0], pad2(h)[1],
    ]);
    assert(d =~= seq![pad2(m)[0], pad2(m)[1], pad2(sec)[0], pad2(sec)[1], pad2(h)[0], pad2(h)[1]]);
}

/// Reset on the countdown timer rewinds it to its full set length, paused
/// and no longer finished, whatever was left before (also after it ran
/// out); typing a length ends. The `r` key on the main screen does the same.
pub proof fn law_timer_reset_rewinds(v: AppView, k: KeyEvent)
    requires
        v.mode == AppMode::Timer,
    ensures
        ({
            let w = after_action(v, ClickAction::Reset).0;
            &&& w.timer.remaining_ms == v.timer.set_secs * 1000
            &&& w.timer.set_secs == v.timer.set_secs
            &&& !w.timer.running
            &&& !w.timer.finished
            &&& !w.timer_editing
            &&& w.mode == AppMode::Timer
        }),
        (k.code == KeyCode::Char('r') || k.code == KeyCode::Char('R')) && !v.timer_editing
            && !v.show_settings ==> after_key(v, k) == after_action(v, ClickAction::Reset),
{
    reveal(after_action);
}

/// When the running phase of the pomodoro runs out on a tick, the next
/// phase begins with its full length: after a focus session a short break,
/// or the long break once the cycle's last session is done (and a new cycle
/// starts); after a break, focus. The new phase runs on its own exactly when
/// its kind is set to: breaks (short or long) by `auto_start_breaks`, focus
/// by `auto_start_work`.
pub proof fn law_phase_end_autostart(v: AppView, dt: u64)
    requires
        v.mode == AppMode::Pomodoro,
        v.pomodoro.running,
        v.pomodoro.remaining_ms <= dt,
    ensures
        ({
            let p = v.pomodoro;
            let w = after_tick(v, dt).0.pomodoro;
            &&& p.phase == PomodoroPhase::Work && p.session_in_cycle >= p.sessions_before_long ==> {
                &&& w.phase == PomodoroPhase::LongBreak
                &&& w.session_in_cycle == 1
                &&& w.remaining_ms == p.long_secs * 1000
                &&& w.running == p.auto_start_breaks
            }
            &&& p.phase == PomodoroPhase::Work && p.session_in_cycle < p.sessions_before_long ==> {
                &&& w.phase == PomodoroPhase::ShortBreak
                &&& w.session_in_cycle == p.session_in_cycle + 1
                &&& w.remaining_ms == p.short_secs * 1000
                &&& w.running == p.auto_start_breaks
            }
            &&& p.phase != PomodoroPhase::Work ==> {
                &&& w.phase == PomodoroPhase::Work
                &&& w.session_in_cycle == p.session_in_cycle
                &&& w.remaining_ms == p.work_secs * 1000
                &&& w.running == p.auto_start_work
            }
            &&& w.auto_start_breaks == p.auto_start_breaks
            &&& w.auto_start_work == p.auto_start_work
        }),
{
}

/// On the settings row for sessions per cycle, one step left or right moves
/// the count by exactly one session, staying within 2..8: from `c` it goes
/// to `c + dir`, except that it stays at 2 going down and at 8 going up. The
/// Left and Right keys in the open panel take such a step.
pub proof fn law_cycles_step_by_one(v: AppView, dir: i32)
    requires
        v.settings_field == SettingsField::Cycles,
        dir == 1 || dir == -1,
        2 <= v.pomodoro.sessions_before_long <= 8,
    ensures
        ({
            let c = v.pomodoro.sessions_before_long as int;
            let n = after_adjust(v, dir).pomodoro.sessions_before_long as int;
            &&& c == 2 && dir == -1 ==> n == 2
            &&& c == 8 && dir == 1 ==> n == 8
            &&& !(c == 2 && dir == -1) && !(c == 8 && dir == 1) ==> n == c + dir
            &&& after_adjust(v, dir).pomodoro.work_secs == v.pomodoro.work_secs
            &&& after_adjust(v, dir).pomodoro.short_secs == v.pomodoro.short_secs
            &&& after_adjust(v, dir).pomodoro.long_secs == v.pomodoro.long_secs
        }),
        v.show_settings && !v.timer_editing ==> after_key(
            v,
            KeyEvent { code: KeyCode::Right, ctrl: false, shift: false },
        ).0 == after_adjust(v, 1i32) && after_key(
            v,
            KeyEvent { code: KeyCode::Left, ctrl: false, shift: false },
        ).0 == after_adjust(v, -1i32),
{
}

/// `x` seconds kept between five seconds and a day.
pub open spec fn within_a_day(x: nat) -> nat {
    if x < 5 {
        5
    } else if x > 86400 {
        86400
    } else {
        x
    }
}

proof fn lemma_digits_no_colon(d: Seq<char>)
    requires
        all_digits(d),
    ensures
        !d.contains(':'),
        !d.contains('s'),
        d.len() > 0 ==> is_digit(d.last()),
{
    if d.contains(':') {
        let i = choose|i: int| 0 <= i < d.len() && d[i] == ':';
        assert(is_digit(d[i]));
    }
    if d.contains('s') {
        let i = choose|i: int| 0 <= i < d.len() && d[i] == 's';
        assert(is_digit(d[i]));
    }
    if d.len() > 0 {
        assert(is_digit(d[d.len() - 1]));
    }
}

/// A number followed by a unit is that many hours, minutes or seconds:
/// `Nh`, `Nm` and `Ns` (for any run of digits `N` whose value fits a `u32`)
/// give `N * 3600`, `N * 60` and `N` seconds, kept between five seconds and
/// a day.
pub proof fn law_unit_suffixes(d: Seq<char>)
    requires
        d.len() > 0,
        all_digits(d),
        dec_value(d) <= u32::MAX,
    ensures
        timer_secs_from(d.push('h')) == Some(within_a_day(dec_value(d) * 3600) as u32),
        timer_secs_from(d.push('m')) == Some(within_a_day(dec_value(d) * 60) as u32),
        timer_secs_from(d.push('s')) == Some(within_a_day(dec_value(d)) as u32),
{
    lemma_digits_no_colon(d);
    assert(d.push('h').drop_last() =~= d);
    assert(d.push('m').drop_last() =~= d);
    assert(d.push('s').drop_last() =~= d);
    assert(is_digit(d[0]));
}

/// `M:SS` (one to three digits each side) is `M` minutes and `SS` seconds,
/// refused when the seconds reach 60, and kept between five seconds and a
/// day.
pub proof fn law_minutes_colon_seconds(a: Seq<char>, b: Seq<char>)
    requires
        1 <= a.len() <= 3,
        1 <= b.len() <= 3,
        all_digits(a),
        all_digits(b),
    ensures
        timer_secs_from(a + seq![':'] + b) == if dec_value(b) >= 60 {
            None
        } else {
            Some(within_a_day(60 * dec_value(a) + dec_value(b)) as u32)
        },
{
    lemma_digits_no_colon(a);
    lemma_digits_no_colon(b);
    let z = a + seq![':'] + b;
    lemma_split_append(a, b);
    lemma_split_no_colon(a);
    let parts = split_colon(z);
    assert(parts =~= seq![a, b]);
    assert(part_ok(a) && part_ok(b));
    assert(forall|i: int| 0 <= i < parts.len() ==> part_ok(#[trigger] parts[i]));
    assert(z.last() == b.last());
    assert(z[a.len() as int] == ':');
    assert(z.contains(':'));
}

/// `H:MM:SS` (one to three digits each) is hours, minutes and seconds,
/// refused when the minutes or the seconds reach 60, and kept between five
/// seconds and a day.
pub proof fn law_hours_minutes_seconds(a: Seq<char>, b: Seq<char>, c: Seq<char>)
    requires
        1 <= a.len() <= 3,
        1 <= b.len() <= 3,
        1 <= c.len() <= 3,
        all_digits(a),
        all_digits(b),
        all_digits(c),
    ensures
        timer_secs_from(a + seq![':'] + b + seq![':'] + c) == if dec_value(b) >= 60 || dec_value(c)
            >= 60 {
            None
        } else {
            Some(within_a_day(3600 * dec_value(a) + 60 * dec_value(b) + dec_value(c)) as u32)
        },
{
    lemma_digits_no_colon(a);
    lemma_digits_no_colon(b);
    lemma_digits_no_colon(c);
    let x = a + seq![':'] + b;
    let z = x + seq![':'] + c;
    lemma_split_append(x, c);
    lemma_split_append(a, b);
    lemma_split_no_colon(a);
    let parts = split_colon(z);
    assert(parts =~= seq![a, b, c]);
    assert(part_ok(a) && part_ok(b) && part_ok(c));
    assert(forall|i: int| 0 <= i < parts.len() ==> part_ok(#[trigger] parts[i]));
    assert(z.last() == c.last());
    assert(z[x.len() as int] == ':');
    assert(z.contains(':'));
    assert(a + seq![':'] + b + seq![':'] + c == z);
}

/// A plain run of three to six digits is read from the right: the last two
/// are seconds, the two before them minutes (with five or six digits) and
/// the rest minutes or hours: `MSS`/`MMSS` is `M` minutes and `SS` seconds,
/// `HMMSS`/`HHMMSS` is `H` hours, `MM` minutes and `SS` seconds; refused when
/// the seconds or those minutes reach 60, and kept between five seconds and
/// a day.
pub proof fn law_digit_runs_read_from_the_right(s: Seq<char>)
    requires
        3 <= s.len() <= 6,
        all_digits(s),
    ensures
        ({
            let n = s.len() as int;
            let sec = dec_value(s.skip(n - 2));
            s.len() <= 4 ==> timer_secs_from(s) == if sec >= 60 {
                None
            } else {
                Some(within_a_day(60 * dec_value(s.take(n - 2)) + sec) as u32)
            }
        }),
        ({
            let n = s.len() as int;
            let sec = dec_value(s.skip(n - 2));
            let m = dec_value(s.subrange(n - 4, n - 2));
            s.len() >= 5 ==> timer_secs_from(s) == if m >= 60 || sec >= 60 {
                None
            } else {
                Some(within_a_day(3600 * dec_value(s.take(n - 4)) + 60 * m + sec) as u32)
            }
        }),
{
    lemma_digits_no_colon(s);
}

/// A running pomodoro whose phase has more than `dt` ms left counts down by
/// `dt` and keeps running in the same phase and session.
pub proof fn law_pomodoro_counts_down(v: AppView, dt: u64)
    requires
        v.mode == AppMode::Pomodoro,
        v.pomodoro.running,
        v.pomodoro.remaining_ms > dt,
    ensures
        after_tick(v, dt).0.pomodoro.remaining_ms == v.pomodoro.remaining_ms - dt,
        after_tick(v, dt).0.pomodoro.running,
        after_tick(v, dt).0.pomodoro.phase == v.pomodoro.phase,
        after_tick(v, dt).0.pomodoro.session_in_cycle == v.pomodoro.session_in_cycle,
        after_tick(v, dt).0.pomodoro.completed == v.pomodoro.completed,
{
}

/// A running countdown counts down by `dt`; once `dt` reaches what is left
/// it stops at zero, finished. A paused or finished countdown does not move.
pub proof fn law_timer_counts_down(v: AppView, dt: u64)
    requires
        v.mode == AppMode::Timer,
    ensures
        v.timer.running && !v.timer.finished && v.timer.remaining_ms > dt ==> {
            &&& after_tick(v, dt).0.timer.remaining_ms == v.timer.remaining_ms - dt
            &&& after_tick(v, dt).0.timer.running
            &&& !after_tick(v, dt).0.timer.finished
        },
        v.timer.running && !v.timer.finished && v.timer.remaining_ms <= dt ==> {
            &&& after_tick(v, dt).0.timer.remaining_ms == 0
            &&& !after_tick(v, dt).0.timer.running
            &&& after_tick(v, dt).0.timer.finished
        },
        !v.timer.running || v.timer.finished ==> after_tick(v, dt).0.timer == v.timer,
        after_tick(v, dt).0.timer.set_secs == v.timer.set_secs,
{
}

/// Start on a finished countdown starts it again from its full set length;
/// otherwise start/pause flips whether it runs and keeps what is left.
pub proof fn law_timer_start_pause(v: AppView)
    requires
        v.mode == AppMode::Timer,
    ensures
        v.timer.finished ==> {
            let w = after_action(v, ClickAction::StartPause).0;
            &&& w.timer.remaining_ms == v.timer.set_secs * 1000
            &&& w.timer.running
            &&& !w.timer.finished
        },
        !v.timer.finished ==> {
            let w = after_action(v, ClickAction::StartPause).0;
            &&& w.timer.remaining_ms == v.timer.remaining_ms
            &&& w.timer.running == !v.timer.running
        },
{
    reveal(after_action);
}

/// Reset on the stopwatch stops it at zero and clears its laps; a lap
/// records the current reading after the earlier laps while it runs or
/// shows time.
pub proof fn law_stopwatch_reset_and_lap(v: AppView)
    requires
        v.mode == AppMode::Stopwatch,
    ensures
        after_action(v, ClickAction::Reset).0.elapsed_ms == 0,
        after_action(v, ClickAction::Reset).0.laps.len() == 0,
        !after_action(v, ClickAction::Reset).0.stopwatch_running,
        (v.stopwatch_running || v.elapsed_ms > 0) ==> after_action(v, ClickAction::Lap).0.laps
            == v.laps.push(v.elapsed_ms),
        (v.stopwatch_running || v.elapsed_ms > 0) ==> after_action(v, ClickAction::Lap).0.elapsed_ms
            == v.elapsed_ms,
{
    reveal(after_action);
}

/// Reset on the pomodoro rewinds the current phase to its full length,
/// paused, in the same phase and session.
pub proof fn law_pomodoro_reset(v: AppView)
    requires
        v.mode == AppMode::Pomodoro,
    ensures
        ({
            let p = v.pomodoro;
            let w = after_action(v, ClickAction::Reset).0.pomodoro;
            &&& w.remaining_ms == (match p.phase {
                PomodoroPhase::Work => p.work_secs * 1000,
                PomodoroPhase::ShortBreak => p.short_secs * 1000,
                PomodoroPhase::LongBreak => p.long_secs * 1000,
            })
            &&& !w.running
            &&& w.phase == p.phase
            &&& w.session_in_cycle == p.session_in_cycle
        }),
{
    reveal(after_action);
}

/// One step on a phase-length row moves that length by exactly one minute,
/// within its range (focus 5..60, short break 1..30, long break 5..45
/// minutes), starting from a whole number of minutes in range; the other
/// lengths stay.
pub proof fn law_lengths_step_by_a_minute(v: AppView, dir: i32)
    requires
        dir == 1 || dir == -1,
    ensures
        ({
            let p = v.pomodoro;
            let q = after_adjust(v, dir).pomodoro;
            &&& v.settings_field == SettingsField::Work && p.work_secs % 60 == 0 && 5 <= p.work_secs
                / 60 <= 60 ==> {
                &&& q.work_secs == 60 * clamp_int(p.work_secs / 60 + dir, 5, 60)
                &&& q.work_secs == p.work_secs + 60 * dir || (q.work_secs == p.work_secs && (
                p.work_secs == 300 && dir == -1 || p.work_secs == 3600 && dir == 1))
                &&& q.short_secs == p.short_secs && q.long_secs == p.long_secs
            }
            &&& v.settings_field == SettingsField::Short && p.short_secs % 60 == 0 && 1
                <= p.short_secs / 60 <= 30 ==> {
                &&& q.short_secs == p.short_secs + 60 * dir || (q.short_secs == p.short_secs && (
                p.short_secs == 60 && dir == -1 || p.short_secs == 1800 && dir == 1))
                &&& q.work_secs == p.work_secs && q.long_secs == p.long_secs
            }
            &&& v.settings_field == SettingsField::Long && p.long_secs % 60 == 0 && 5 <= p.long_secs
                / 60 <= 45 ==> {
                &&& q.long_secs == p.long_secs + 60 * dir || (q.long_secs == p.long_secs && (
                p.long_secs == 300 && dir == -1 || p.long_secs == 2700 && dir == 1))
                &&& q.work_secs == p.work_secs && q.short_secs == p.short_secs
            }
        }),
{
}

/// The wall clock at `h:m:s` shows the hour (in 12-hour form 12 for noon
/// and midnight, 1..11 otherwise; in 24-hour form 0..23), then the minutes,
/// then (when seconds are shown) the seconds, two digits each.
pub proof fn law_clock_reading(h: u32, m: u32, s: u32, use_24h: bool, show_seconds: bool)
    requires
        h < 24,
        m < 60,
        s < 60,
    ensures
        ({
            let hh: int = if use_24h {
                h as int
            } else if h == 0 || h == 12 {
                12
            } else if h < 12 {
                h as int
            } else {
                h - 12
            };
            let d = crate::clock::clock_digits_text(h, m, s, use_24h, show_seconds);
            &&& d.len() == if show_seconds { 6int } else { 4int }
            &&& shows_digit(d[0], hh / 10) && shows_digit(d[1], hh % 10)
            &&& shows_digit(d[2], m as int / 10) && shows_digit(d[3], m as int % 10)
            &&& show_seconds ==> shows_digit(d[4], s as int / 10) && shows_digit(d[5], s as int % 10)
        }),
{
    let hn = crate::clock::shown_hour(h, use_24h);
    lemma_pad2_small(hn);
    lemma_pad2_small(m as nat);
    lemma_pad2_small(s as nat);
    let d = crate::clock::clock_digits_text(h, m, s, use_24h, show_seconds);
    let base = pad2(hn) + pad2(m as nat);
    assert(base =~= seq![pad2(hn)[0], pad2(hn)[1], pad2(m as nat)[0], pad2(m as nat)[1]]);
    if show_seconds {
        assert(d =~= base + pad2(s as nat));
        assert(d[4] == pad2(s as nat)[0] && d[5] == pad2(s as nat)[1]);
    }
}

/// A running stopwatch counts up by `dt`; a stopped one keeps its reading.
pub proof fn law_stopwatch_counts_up(v: AppView, dt: u64)
    requires
        v.mode == AppMode::Stopwatch,
        v.elapsed_ms + dt <= u64::MAX,
    ensures
        v.stopwatch_running ==> after_tick(v, dt).0.elapsed_ms == v.elapsed_ms + dt,
        !v.stopwatch_running ==> after_tick(v, dt).0.elapsed_ms == v.elapsed_ms,
        after_tick(v, dt).0.laps == v.laps,
        after_tick(v, dt).0.stopwatch_running == v.stopwatch_running,
{
}

} // verus!
