use vstd::prelude::*;
use crate::text::chars_of;

verus! {

/// Characters with the Unicode `White_Space` property: what `str::trim`
/// removes at both ends.
pub open spec fn is_white_space(c: char) -> bool {
    let u = c as u32;
    ||| 9 <= u <= 13
    ||| u == 32
    ||| u == 0x85
    ||| u == 0xa0
    ||| u == 0x1680
    ||| 0x2000 <= u <= 0x200a
    ||| u == 0x2028
    ||| u == 0x2029
    ||| u == 0x202f
    ||| u == 0x205f
    ||| u == 0x3000
}

/// `s` without its leading white space.
pub open spec fn trim_start(s: Seq<char>) -> Seq<char>
    decreases s.len(),
{
    if s.len() > 0 && is_white_space(s[0]) {
        trim_start(s.drop_first())
    } else {
        s
    }
}

/// `s` without its trailing white space.
pub open spec fn trim_end(s: Seq<char>) -> Seq<char>
    decreases s.len(),
{
    if s.len() > 0 && is_white_space(s.last()) {
        trim_end(s.drop_last())
    } else {
        s
    }
}

/// `s` without white space at either end.
pub open spec fn trim(s: Seq<char>) -> Seq<char> {
    trim_end(trim_start(s))
}

/// ASCII upper-case letters lowered; every other character kept.
pub open spec fn lower_ascii(c: char) -> char {
    let u = c as u32;
    if 65 <= u <= 90 {
        (u + 32) as char
    } else {
        c
    }
}

/// `s` lowered and with its spaces removed.
pub open spec fn lower_no_spaces(s: Seq<char>) -> Seq<char>
    decreases s.len(),
{
    if s.len() == 0 {
        s
    } else if s.last() == ' ' {
        lower_no_spaces(s.drop_last())
    } else {
        lower_no_spaces(s.drop_last()).push(lower_ascii(s.last()))
    }
}

/// The form in which typed timer input is read: trimmed, lowered, spaces
/// removed. Only ASCII letters are lowered here; a character outside ASCII
/// is kept as it is, and since neither it nor any lower-case form of it is
/// a digit, `:`, `+` or a unit letter, input holding one is refused either
/// way.
pub open spec fn normalized_input(raw: Seq<char>) -> Seq<char> {
    lower_no_spaces(trim(raw))
}

fn is_white_space_exec(c: char) -> (r: bool)
    ensures
        r == is_white_space(c),
{
    let u = c as u32;
    (9 <= u && u <= 13) || u == 32 || u == 0x85 || u == 0xa0 || u == 0x1680 || (0x2000 <= u
        && u <= 0x200a) || u == 0x2028 || u == 0x2029 || u == 0x202f || u == 0x205f || u
        == 0x3000
}

fn lower_ascii_exec(c: char) -> (r: char)
    ensures
        r == lower_ascii(c),
{
    let u = c as u32;
    if 65 <= u && u <= 90 {
        let b: u8 = (u + 32) as u8;
        let r = b as char;
        assert(r == (u + 32) as char);
        r
    } else {
        c
    }
}

proof fn lemma_trim_start_skip(s: Seq<char>, i: int)
    requires
        0 <= i <= s.len(),
        forall|k: int| 0 <= k < i ==> is_white_space(#[trigger] s[k]),
    ensures
        trim_start(s) == trim_start(s.skip(i)),
    decreases i,
{
    if i > 0 {
        assert(s.skip(1) =~= s.drop_first());
        lemma_trim_start_skip(s.drop_first(), i - 1);
        assert(s.drop_first().skip(i - 1) =~= s.skip(i));
    } else {
        assert(s.skip(0) =~= s);
    }
}

proof fn lemma_trim_end_take(s: Seq<char>, j: int)
    requires
        0 <= j <= s.len(),
        forall|k: int| j <= k < s.len() ==> is_white_space(#[trigger] s[k]),
    ensures
        trim_end(s) == trim_end(s.take(j)),
    decreases s.len() - j,
{
    if j < s.len() {
        lemma_trim_end_take(s.drop_last(), j);
        assert(s.drop_last().take(j) =~= s.take(j));
    } else {
        assert(s.take(j) =~= s);
    }
}

/// The characters of `raw` in the form the timer parser reads them.
pub fn normalize_input(raw: &str) -> (v: Vec<char>)
    ensures
        v@ == normalized_input(raw@),
{
    let cs = chars_of(raw);
    let n = cs.len();
    let mut i: usize = 0;
    while i < n && is_white_space_exec(cs[i])
        invariant
            n == cs@.len(),
            i <= n,
            forall|k: int| 0 <= k < i ==> is_white_space(#[trigger] cs@[k]),
        decreases n - i,
    {
        i = i + 1;
    }
    proof {
        lemma_trim_start_skip(cs@, i as int);
    }
    let ghost rest = cs@.skip(i as int);
    assert(trim_start(rest) == rest);
    let mut j: usize = n;
    while j > i && is_white_space_exec(cs[j - 1])
        invariant
            n == cs@.len(),
            i <= j <= n,
            forall|k: int| j <= k < n ==> is_white_space(#[trigger] cs@[k]),
        decreases j,
    {
        j = j - 1;
    }
    proof {
        lemma_trim_end_take(rest, j - i);
        assert(rest.take(j - i) =~= cs@.subrange(i as int, j as int));
    }
    let ghost t = cs@.subrange(i as int, j as int);
    assert(trim_end(t) == t);
    assert(trim(raw@) == t);
    let mut v: Vec<char> = Vec::new();
    let mut k: usize = i;
    while k < j
        invariant
            n == cs@.len(),
            i <= k <= j <= n,
            t == cs@.subrange(i as int, j as int),
            v@ == lower_no_spaces(t.take(k - i)),
        decreases j - k,
    {
        let c = cs[k];
        assert(t.take(k + 1 - i).drop_last() =~= t.take(k - i));
        if c != ' ' {
            v.push(lower_ascii_exec(c));
        }
        k = k + 1;
    }
    assert(t.take(j - i) =~= t);
    v
}


/// An ASCII decimal digit.
pub open spec fn is_digit(c: char) -> bool {
    48 <= (c as u32) <= 57
}

/// Every character of `s` is an ASCII decimal digit.
pub open spec fn all_digits(s: Seq<char>) -> bool {
    forall|i: int| 0 <= i < s.len() ==> is_digit(#[trigger] s[i])
}

/// The value of a run of decimal digits (0 for the empty run).
pub open spec fn dec_value(s: Seq<char>) -> nat
    decreases s.len(),
{
    if s.len() == 0 {
        0
    } else {
        dec_value(s.drop_last()) * 10 + ((s.last() as u32) - 48) as nat
    }
}

/// Ten to the power `n`.
pub open spec fn pow10(n: nat) -> nat
    decreases n,
{
    if n == 0 {
        1
    } else {
        10 * pow10((n - 1) as nat)
    }
}

/// A run of digits whose value fits a `u32`, read as that value.
pub open spec fn dec_u32(s: Seq<char>) -> Option<u32> {
    if all_digits(s) && dec_value(s) <= u32::MAX {
        Some(dec_value(s) as u32)
    } else {
        None
    }
}

/// What `str::parse::<u32>` gives: an optional leading `+`, then one or more
/// decimal digits whose value fits a `u32`.
pub open spec fn parse_u32_text(s: Seq<char>) -> Option<u32> {
    let d = if s.len() > 0 && s[0] == '+' { s.drop_first() } else { s };
    if d.len() == 0 {
        None
    } else {
        dec_u32(d)
    }
}

/// `x` clamped to the accepted timer range, five seconds to a day.
pub open spec fn clamp_secs(x: int) -> u32 {
    if x < 5 {
        5
    } else if x > 86400 {
        86400
    } else {
        x as u32
    }
}

/// The pieces of `s` between colons (one piece when there is none).
pub open spec fn split_colon(s: Seq<char>) -> Seq<Seq<char>>
    decreases s.len(),
{
    if s.len() == 0 {
        seq![Seq::<char>::empty()]
    } else {
        let r = split_colon(s.drop_last());
        if s.last() == ':' {
            r.push(Seq::<char>::empty())
        } else {
            r.update(r.len() - 1, r.last().push(s.last()))
        }
    }
}

/// A piece of `MM:SS` or `HH:MM:SS` input: one to three digits.
pub open spec fn part_ok(p: Seq<char>) -> bool {
    0 < p.len() <= 3 && all_digits(p)
}

/// The last step shared by the colon and digit forms: the seconds must be
/// under 60, and the total is clamped to five seconds .. a day.
pub open spec fn finish_total(total: nat, last: nat) -> Option<u32> {
    if last >= 60 {
        None
    } else if total < 5 {
        Some(5u32)
    } else if total > 86400 {
        Some(86400u32)
    } else {
        Some(total as u32)
    }
}

/// `MM:SS` or `HH:MM:SS` input.
pub open spec fn colon_form(s: Seq<char>) -> Option<u32> {
    let parts = split_colon(s);
    if parts.len() > 3 || !(forall|i: int| 0 <= i < parts.len() ==> part_ok(#[trigger] parts[i])) {
        None
    } else if parts.len() == 2 {
        finish_total(dec_value(parts[0]) * 60 + dec_value(parts[1]), dec_value(parts[1]))
    } else if parts.len() == 3 {
        if dec_value(parts[1]) >= 60 {
            None
        } else {
            finish_total(
                dec_value(parts[0]) * 3600 + dec_value(parts[1]) * 60 + dec_value(parts[2]),
                dec_value(parts[2]),
            )
        }
    } else {
        None
    }
}

/// A plain run of up to six digits: `M`/`MM` minutes, `MSS`/`MMSS`, or
/// `HMMSS`/`HHMMSS`.
pub open spec fn digits_form(s: Seq<char>) -> Option<u32> {
    if !all_digits(s) || s.len() > 6 {
        None
    } else {
        let n = s.len() as int;
        if n <= 2 {
            finish_total(dec_value(s) * 60, 0)
        } else if n <= 4 {
            let sec = dec_value(s.skip(n - 2));
            finish_total(dec_value(s.take(n - 2)) * 60 + sec, sec)
        } else {
            let h = dec_value(s.take(n - 4));
            let m = dec_value(s.subrange(n - 4, n - 2));
            let sec = dec_value(s.skip(n - 2));
            if m >= 60 {
                None
            } else {
                finish_total(h * 3600 + m * 60 + sec, sec)
            }
        }
    }
}

/// The length in seconds that normalized timer input `s` asks for:
/// `2h`, `25m`, `90s`, `MM:SS`, `HH:MM:SS` or a plain run of digits,
/// clamped to five seconds .. a day; `None` when it is none of these.
pub open spec fn timer_secs_from(s: Seq<char>) -> Option<u32> {
    if s.len() == 0 {
        None
    } else if s.last() == 'h' {
        match parse_u32_text(s.drop_last()) {
            Some(h) => Some(clamp_secs(h * 3600)),
            None => None,
        }
    } else if s.last() == 'm' {
        let num = s.drop_last();
        if num.contains('s') || num.contains(':') {
            None
        } else {
            match parse_u32_text(num) {
                Some(m) => Some(clamp_secs(m * 60)),
                None => None,
            }
        }
    } else if s.last() == 's' {
        let num = s.drop_last();
        if num.contains(':') {
            None
        } else {
            match parse_u32_text(num) {
                Some(x) => Some(clamp_secs(x as int)),
                None => None,
            }
        }
    } else if s.contains(':') {
        colon_form(s)
    } else {
        digits_form(s)
    }
}

proof fn lemma_dec_value_bound(s: Seq<char>)
    requires
        all_digits(s),
    ensures
        dec_value(s) < pow10(s.len()),
    decreases s.len(),
{
    if s.len() > 0 {
        let t = s.drop_last();
        assert(all_digits(t)) by {
            assert forall|i: int| 0 <= i < t.len() implies is_digit(#[trigger] t[i]) by {
                assert(t[i] == s[i]);
            }
        }
        lemma_dec_value_bound(t);
        assert(is_digit(s[s.len() - 1]));
        let d = dec_value(t);
        let p = pow10(t.len());
        let e = ((s.last() as u32) - 48) as nat;
        assert(d * 10 + e < 10 * p) by (nonlinear_arith)
            requires
                d < p,
                e < 10,
        ;
    }
}

proof fn lemma_all_digits_sub(s: Seq<char>, lo: int, hi: int)
    requires
        0 <= lo <= hi <= s.len(),
        all_digits(s),
    ensures
        all_digits(s.subrange(lo, hi)),
{
    assert forall|i: int| 0 <= i < hi - lo implies is_digit(#[trigger] s.subrange(lo, hi)[i]) by {
        assert(s.subrange(lo, hi)[i] == s[lo + i]);
    }
}

/// Whether `c` occurs in `s[lo..hi]`.
fn contains_char(s: &Vec<char>, lo: usize, hi: usize, c: char) -> (r: bool)
    requires
        lo <= hi <= s.len(),
    ensures
        r == s@.subrange(lo as int, hi as int).contains(c),
{
    let mut k = lo;
    while k < hi
        invariant
            lo <= k <= hi <= s.len(),
            forall|t: int| lo <= t < k ==> s@[t] != c,
        decreases hi - k,
    {
        if s[k] == c {
            assert(s@.subrange(lo as int, hi as int)[k - lo] == c);
            return true;
        }
        k = k + 1;
    }
    assert forall|t: int| 0 <= t < hi - lo implies s@.subrange(lo as int, hi as int)[t] != c by {
        assert(s@.subrange(lo as int, hi as int)[t] == s@[lo + t]);
    }
    false
}

/// The value of the digits `s[lo..hi]` when they are all digits and the
/// value fits a `u32`.
fn decimal_value(s: &Vec<char>, lo: usize, hi: usize) -> (r: Option<u32>)
    requires
        lo <= hi <= s.len(),
    ensures
        r == dec_u32(s@.subrange(lo as int, hi as int)),
{
    let ghost sub = s@.subrange(lo as int, hi as int);
    let mut val: u64 = 0;
    let mut over = false;
    let mut k = lo;
    while k < hi
        invariant
            lo <= k <= hi <= s.len(),
            sub == s@.subrange(lo as int, hi as int),
            all_digits(sub.take(k - lo)),
            over <==> dec_value(sub.take(k - lo)) > u32::MAX,
            !over ==> val == dec_value(sub.take(k - lo)),
        decreases hi - k,
    {
        let c = s[k];
        let u = c as u32;
        let ghost pre = sub.take(k - lo);
        let ghost next = sub.take(k + 1 - lo);
        assert(next.drop_last() =~= pre);
        assert(next.last() == c);
        if u < 48 || u > 57 {
            assert(!all_digits(sub)) by {
                assert(sub[k - lo] == c);
            }
            return None;
        }
        assert(all_digits(next)) by {
            assert forall|i: int| 0 <= i < next.len() implies is_digit(#[trigger] next[i]) by {
                if i < pre.len() {
                    assert(next[i] == pre[i]);
                }
            }
        }
        if !over {
            val = val * 10 + (u - 48) as u64;
            if val > 4294967295 {
                over = true;
            }
        }
        k = k + 1;
    }
    assert(sub.take(hi - lo) =~= sub);
    if over {
        None
    } else {
        Some(val as u32)
    }
}

/// `str::parse::<u32>` on `s[lo..hi]`.
fn parse_u32_range(s: &Vec<char>, lo: usize, hi: usize) -> (r: Option<u32>)
    requires
        lo <= hi <= s.len(),
    ensures
        r == parse_u32_text(s@.subrange(lo as int, hi as int)),
{
    let ghost sub = s@.subrange(lo as int, hi as int);
    if lo < hi && s[lo] == '+' {
        assert(sub.drop_first() =~= s@.subrange(lo + 1, hi as int));
        if lo + 1 == hi {
            None
        } else {
            decimal_value(s, lo + 1, hi)
        }
    } else if lo == hi {
        None
    } else {
        decimal_value(s, lo, hi)
    }
}

/// `x * k` clamped to five seconds .. a day.
fn clamp_product(x: u32, k: u32) -> (r: u32)
    requires
        k <= 3600,
    ensures
        r == clamp_secs(x * k),
{
    assert(x as u64 * k as u64 <= 3600 * 4294967295) by (nonlinear_arith)
        requires
            k <= 3600,
            x <= 4294967295u32,
    ;
    let p: u64 = x as u64 * k as u64;
    if p < 5 {
        5
    } else if p > 86400 {
        86400
    } else {
        p as u32
    }
}

fn finish_total_exec(total: u64, last: u64) -> (r: Option<u32>)
    ensures
        r == finish_total(total as nat, last as nat),
{
    if last >= 60 {
        None
    } else if total < 5 {
        Some(5)
    } else if total > 86400 {
        Some(86400)
    } else {
        Some(total as u32)
    }
}

proof fn lemma_pow10_small(n: nat)
    requires
        n <= 6,
    ensures
        pow10(n) <= 1000000,
        n <= 3 ==> pow10(n) <= 1000,
        n <= 2 ==> pow10(n) <= 100,
{
    reveal_with_fuel(pow10, 7);
    if n == 0 {
    } else if n == 1 {
    } else if n == 2 {
    } else if n == 3 {
    } else if n == 4 {
    } else if n == 5 {
    } else {
    }
}

/// The value of the digits `s[lo..hi]`, known to be at most six digits.
fn short_value(s: &Vec<char>, lo: usize, hi: usize) -> (r: u64)
    requires
        lo <= hi <= s.len(),
        hi - lo <= 6,
        all_digits(s@.subrange(lo as int, hi as int)),
    ensures
        r == dec_value(s@.subrange(lo as int, hi as int)),
        r < pow10((hi - lo) as nat),
{
    proof {
        lemma_dec_value_bound(s@.subrange(lo as int, hi as int));
        lemma_pow10_small((hi - lo) as nat);
    }
    match decimal_value(s, lo, hi) {
        Some(v) => v as u64,
        None => 0,
    }
}

proof fn lemma_split_colon_nonempty(s: Seq<char>)
    ensures
        split_colon(s).len() >= 1,
    decreases s.len(),
{
    if s.len() > 0 {
        lemma_split_colon_nonempty(s.drop_last());
    }
}

/// The character sequences held by a list of vectors.
pub open spec fn views_of(parts: Seq<Vec<char>>) -> Seq<Seq<char>> {
    parts.map_values(|v: Vec<char>| v@)
}

/// The pieces of `s` between colons.
fn split_on_colons(s: &Vec<char>) -> (parts: Vec<Vec<char>>)
    ensures
        views_of(parts@) == split_colon(s@),
{
    let mut parts: Vec<Vec<char>> = Vec::new();
    parts.push(Vec::new());
    assert(s@.take(0) =~= Seq::<char>::empty());
    assert(views_of(parts@) =~= split_colon(s@.take(0)));
    let mut k: usize = 0;
    while k < s.len()
        invariant
            k <= s.len(),
            parts.len() >= 1,
            views_of(parts@) == split_colon(s@.take(k as int)),
        decreases s.len() - k,
    {
        let c = s[k];
        let ghost before = views_of(parts@);
        assert(s@.take(k + 1).drop_last() =~= s@.take(k as int));
        if c == ':' {
            parts.push(Vec::new());
            assert(views_of(parts@) =~= before.push(Seq::<char>::empty()));
        } else {
            let mut last = parts.pop().unwrap();
            let ghost last_before = last@;
            assert(last_before == before.last());
            last.push(c);
            parts.push(last);
            assert(views_of(parts@) =~= before.update(before.len() - 1, before.last().push(c)));
        }
        k = k + 1;
    }
    assert(s@.take(s.len() as int) =~= s@);
    parts
}

fn colon_form_exec(s: &Vec<char>) -> (r: Option<u32>)
    ensures
        r == colon_form(s@),
{
    let parts = split_on_colons(s);
    let ghost ps = split_colon(s@);
    let np = parts.len();
    assert(ps.len() == np);
    if np > 3 {
        return None;
    }
    let mut nums: Vec<u64> = Vec::new();
    let mut i: usize = 0;
    while i < np
        invariant
            np == parts.len() <= 3,
            ps.len() == np,
            ps == split_colon(s@),
            views_of(parts@) == ps,
            i <= np,
            nums.len() == i,
            forall|t: int| 0 <= t < i ==> part_ok(#[trigger] ps[t]),
            forall|t: int| 0 <= t < i ==> nums@[t] == dec_value(#[trigger] ps[t]) && nums@[t] < 1000,
        decreases np - i,
    {
        let p = &parts[i];
        assert(p@ == views_of(parts@)[i as int]);
        assert(p@ == ps[i as int]);
        if p.len() == 0 || p.len() > 3 {
            assert(!part_ok(ps[i as int]));
            return None;
        }
        let mut k: usize = 0;
        while k < p.len()
            invariant
                k <= p.len(),
                i < np,
                ps.len() == np,
                ps == split_colon(s@),
                p@ == ps[i as int],
                forall|t: int| 0 <= t < k ==> is_digit(#[trigger] p@[t]),
            decreases p.len() - k,
        {
            let u = p[k] as u32;
            if u < 48 || u > 57 {
                assert(!is_digit(p@[k as int]));
                assert(!all_digits(p@));
                assert(!part_ok(ps[i as int]));
                return None;
            }
            k = k + 1;
        }
        assert(all_digits(p@));
        assert(part_ok(ps[i as int]));
        assert(p@.subrange(0, p.len() as int) =~= p@);
        let v = short_value(p, 0, p.len());
        proof {
            lemma_pow10_small(p.len() as nat);
        }
        nums.push(v);
        i = i + 1;
    }
    if np == 2 {
        finish_total_exec(nums[0] * 60 + nums[1], nums[1])
    } else if np == 3 {
        if nums[1] >= 60 {
            None
        } else {
            finish_total_exec(nums[0] * 3600 + nums[1] * 60 + nums[2], nums[2])
        }
    } else {
        None
    }
}

fn digits_form_exec(s: &Vec<char>) -> (r: Option<u32>)
    ensures
        r == digits_form(s@),
{
    let n = s.len();
    let mut k: usize = 0;
    while k < n
        invariant
            n == s.len(),
            k <= n,
            forall|t: int| 0 <= t < k ==> is_digit(#[trigger] s@[t]),
        decreases n - k,
    {
        let u = s[k] as u32;
        if u < 48 || u > 57 {
            return None;
        }
        k = k + 1;
    }
    if n > 6 {
        return None;
    }
    proof {
        lemma_all_digits_sub(s@, 0, n as int);
        assert(s@.subrange(0, n as int) =~= s@);
    }
    if n <= 2 {
        let v = short_value(s, 0, n);
        proof {
            lemma_pow10_small(n as nat);
        }
        finish_total_exec(v * 60, 0)
    } else if n <= 4 {
        proof {
            lemma_all_digits_sub(s@, 0, n - 2);
            lemma_all_digits_sub(s@, n - 2, n as int);
            assert(s@.subrange(0, n - 2) =~= s@.take(n - 2));
            assert(s@.subrange(n - 2, n as int) =~= s@.skip(n - 2));
            lemma_pow10_small((n - 2) as nat);
            lemma_pow10_small(2);
        }
        let m = short_value(s, 0, n - 2);
        let sec = short_value(s, n - 2, n);
        finish_total_exec(m * 60 + sec, sec)
    } else {
        proof {
            lemma_all_digits_sub(s@, 0, n - 4);
            lemma_all_digits_sub(s@, n - 4, n - 2);
            lemma_all_digits_sub(s@, n - 2, n as int);
            assert(s@.subrange(0, n - 4) =~= s@.take(n - 4));
            assert(s@.subrange(n - 2, n as int) =~= s@.skip(n - 2));
            lemma_pow10_small((n - 4) as nat);
            lemma_pow10_small(2);
        }
        let h = short_value(s, 0, n - 4);
        let m = short_value(s, n - 4, n - 2);
        let sec = short_value(s, n - 2, n);
        if m >= 60 {
            None
        } else {
            finish_total_exec(h * 3600 + m * 60 + sec, sec)
        }
    }
}

/// The length in seconds that normalized timer input asks for; see
/// `timer_secs_from`.
pub fn timer_secs_from_chars(s: &Vec<char>) -> (r: Option<u32>)
    ensures
        r == timer_secs_from(s@),
{
    let n = s.len();
    if n == 0 {
        return None;
    }
    let last = s[n - 1];
    assert(s@.subrange(0, n - 1) =~= s@.drop_last());
    assert(s@.subrange(0, n as int) =~= s@);
    if last == 'h' {
        match parse_u32_range(s, 0, n - 1) {
            Some(h) => Some(clamp_product(h, 3600)),
            None => None,
        }
    } else if last == 'm' {
        if contains_char(s, 0, n - 1, 's') || contains_char(s, 0, n - 1, ':') {
            None
        } else {
            match parse_u32_range(s, 0, n - 1) {
                Some(m) => Some(clamp_product(m, 60)),
                None => None,
            }
        }
    } else if last == 's' {
        if contains_char(s, 0, n - 1, ':') {
            None
        } else {
            match parse_u32_range(s, 0, n - 1) {
                Some(x) => Some(clamp_product(x, 1)),
                None => None,
            }
        }
    } else if contains_char(s, 0, n, ':') {
        colon_form_exec(s)
    } else {
        digits_form_exec(s)
    }
}

/// Reads typed timer input: `MM:SS`, `HH:MM:SS`, `MM`, `25m`, `90s`, `2h`,
/// or runs of digits such as `530` (5:30) and `10130` (1:01:30). Input is
/// trimmed, lowered and freed of spaces first. Every accepted length is
/// clamped to five seconds .. a day.
pub fn parse_timer_input(raw: &str) -> (r: Option<u32>)
    ensures
        r == timer_secs_from(normalized_input(raw@)),
{
    let s = normalize_input(raw);
    timer_secs_from_chars(&s)
}

/// Whatever the parser accepts is a length between five seconds and a day.
pub proof fn law_timer_secs_range(s: Seq<char>)
    ensures
        timer_secs_from(s) matches Some(x) ==> 5 <= x <= 86400,
{
}

} // verus!
