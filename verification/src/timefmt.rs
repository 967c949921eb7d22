use vstd::prelude::*;
use crate::text::{decimal, pad2, push_pad2, string_of};

verus! {

/// Whole seconds in a span of milliseconds.
pub open spec fn whole_secs(ms: u64) -> nat {
    (ms / 1000) as nat
}

/// `H:MM:SS`-style text of a span: `HH:MM:SS` when it reaches an hour,
/// otherwise `MM:SS`; the hours are not capped.
pub open spec fn hms_text(ms: u64) -> Seq<char> {
    let s = whole_secs(ms);
    let h = s / 3600;
    let m = (s % 3600) / 60;
    let sec = s % 60;
    if h > 0 {
        pad2(h) + ":"@ + pad2(m) + ":"@ + pad2(sec)
    } else {
        pad2(m) + ":"@ + pad2(sec)
    }
}

/// The digits shown on the cards for a span: `HHMMSS` with hours, otherwise
/// `MMSS` with the minutes capped at 99.
pub open spec fn duration_digits(ms: u64, with_hours: bool) -> Seq<char> {
    let s = whole_secs(ms);
    if with_hours {
        pad2(s / 3600) + pad2((s % 3600) / 60) + pad2(s % 60)
    } else {
        let total_m = s / 60;
        let mm = if total_m < 99 { total_m } else { 99 };
        pad2(mm) + pad2(s % 60)
    }
}

/// Minutes (mod 100), seconds and hundredths of a stopwatch reading.
pub open spec fn stopwatch_fields(ms: u64) -> (nat, nat, nat) {
    (((ms / 60000) % 100) as nat, ((ms / 1000) % 60) as nat, ((ms / 10) % 100) as nat)
}

/// `MM:SS.hh` text of a stopwatch reading.
pub open spec fn stopwatch_text(ms: u64) -> Seq<char> {
    let (m, s, h) = stopwatch_fields(ms);
    pad2(m) + ":"@ + pad2(s) + "."@ + pad2(h)
}

/// The six card digits `MMSShh` of a stopwatch reading.
pub open spec fn stopwatch_digits(ms: u64) -> Seq<char> {
    let (m, s, h) = stopwatch_fields(ms);
    pad2(m) + pad2(s) + pad2(h)
}

/// Card digits for a span of `d` milliseconds.
pub fn digits_for_duration(d: u64, with_hours: bool) -> (v: Vec<char>)
    ensures
        v@ == duration_digits(d, with_hours),
{
    let secs = d / 1000;
    let mut v: Vec<char> = Vec::new();
    if with_hours {
        let h = secs / 3600;
        let m = (secs % 3600) / 60;
        let s = secs % 60;
        push_pad2(&mut v, h);
        push_pad2(&mut v, m);
        push_pad2(&mut v, s);
    } else {
        let total_m = secs / 60;
        let s2 = secs % 60;
        let mm = if total_m < 99 { total_m } else { 99 };
        push_pad2(&mut v, mm);
        push_pad2(&mut v, s2);
    }
    v
}

/// `HH:MM:SS` (or `MM:SS` under an hour) text of a span of `d` milliseconds.
pub fn format_duration_hms(d: u64) -> (r: String)
    ensures
        r@ == hms_text(d),
{
    let s = d / 1000;
    let h = s / 3600;
    let m = (s % 3600) / 60;
    let sec = s % 60;
    let mut v: Vec<char> = Vec::new();
    if h > 0 {
        push_pad2(&mut v, h);
        v.push(':');
    }
    push_pad2(&mut v, m);
    v.push(':');
    push_pad2(&mut v, sec);
    proof {
        reveal_strlit(":");
        assert(v@ =~= hms_text(d));
    }
    string_of(&v)
}

/// `MM:SS.hh` text of a stopwatch reading of `d` milliseconds; the minutes
/// wrap at 100.
pub fn format_stopwatch(d: u64) -> (r: String)
    ensures
        r@ == stopwatch_text(d),
{
    let m = (d / 60000) % 100;
    let s = (d / 1000) % 60;
    let hund = (d / 10) % 100;
    let mut v: Vec<char> = Vec::new();
    push_pad2(&mut v, m);
    v.push(':');
    push_pad2(&mut v, s);
    v.push('.');
    push_pad2(&mut v, hund);
    proof {
        reveal_strlit(":");
        reveal_strlit(".");
        assert(v@ =~= stopwatch_text(d));
    }
    string_of(&v)
}

/// The six card digits `MMSShh` of a stopwatch reading.
pub fn digits_for_stopwatch(d: u64) -> (v: Vec<char>)
    ensures
        v@ == stopwatch_digits(d),
{
    let mut v: Vec<char> = Vec::new();
    push_pad2(&mut v, (d / 60000) % 100);
    push_pad2(&mut v, (d / 1000) % 60);
    push_pad2(&mut v, (d / 10) % 100);
    v
}

} // verus!
