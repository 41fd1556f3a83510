//! The mouse jiggler: how often it ticks (from its schedule), when a tick
//! moves the mouse, and by how much.
use vstd::prelude::*;
use crate::text::{
    chars_of, find_seq, is_white_space, is_white_space_exec, lead_ws, lemma_lead_ws_prefix, occurs_at,
    contains_seq, owned, parse_unsigned, parse_unsigned_exec, slice_range, starts_with, all_digits,
    digits_value, is_digit,
};

verus! {

/// The jiggler's settings.
pub struct JigglerConfig {
    pub inactivity_limit_seconds: i32,
    pub jitter_percentage: i32,
    pub schedule_cron_tab: String,
    pub timezone: Option<String>,
}

impl Default for JigglerConfig {
    fn default() -> (r: Self)
        ensures
            r.inactivity_limit_seconds == 60,
            r.jitter_percentage == 25,
            r.schedule_cron_tab@ == "0 * * * * *"@,
            r.timezone matches Some(t) && t@ == "UTC"@,
    {
        JigglerConfig {
            inactivity_limit_seconds: 60,
            jitter_percentage: 25,
            schedule_cron_tab: owned("0 * * * * *"),
            timezone: Some(owned("UTC")),
        }
    }
}

/// A copy of the settings.
pub fn get_jiggler_config(current: &JigglerConfig) -> (r: JigglerConfig)
    ensures
        r.inactivity_limit_seconds == current.inactivity_limit_seconds,
        r.jitter_percentage == current.jitter_percentage,
        r.schedule_cron_tab@ == current.schedule_cron_tab@,
        crate::discovery::opt_text(r.timezone) == crate::discovery::opt_text(current.timezone),
{
    JigglerConfig {
        inactivity_limit_seconds: current.inactivity_limit_seconds,
        jitter_percentage: current.jitter_percentage,
        schedule_cron_tab: owned(current.schedule_cron_tab.as_str()),
        timezone: match &current.timezone {
            Some(t) => Some(owned(t.as_str())),
            None => None,
        },
    }
}

/// `i` is the first position at which `needle` occurs in `hay`.
pub open spec fn is_first_occurrence(hay: Seq<char>, needle: Seq<char>, i: int) -> bool {
    occurs_at(hay, needle, i) && forall|j: int| 0 <= j < i ==> !occurs_at(hay, needle, j)
}

/// The first position at which `needle` occurs in `hay` (meaningful when it
/// occurs).
pub open spec fn first_occurrence(hay: Seq<char>, needle: Seq<char>) -> int {
    choose|i: int| is_first_occurrence(hay, needle, i)
}

proof fn lemma_first_occurrence(hay: Seq<char>, needle: Seq<char>, i: int)
    requires
        is_first_occurrence(hay, needle, i),
    ensures
        first_occurrence(hay, needle) == i,
{
    let k = first_occurrence(hay, needle);
    assert(is_first_occurrence(hay, needle, k));
    if k < i {
        assert(!occurs_at(hay, needle, k));
    } else if i < k {
        assert(!occurs_at(hay, needle, i));
    }
}

/// The schedule without a leading time-zone setting: when `TZ=` occurs,
/// what follows the first space after it (the whole schedule when no space
/// follows).
pub open spec fn cron_without_tz(s: Seq<char>) -> Seq<char> {
    if contains_seq(s, "TZ="@) {
        let idx = first_occurrence(s, "TZ="@);
        let rest = s.skip(idx);
        if contains_seq(rest, seq![' ']) {
            s.skip(idx + first_occurrence(rest, seq![' ']) + 1)
        } else {
            s
        }
    } else {
        s
    }
}

/// The number of characters before the first white space of `s`.
pub open spec fn field_len(s: Seq<char>) -> nat
    decreases s.len(),
{
    if s.len() > 0 && !is_white_space(s[0]) {
        1 + field_len(s.drop_first())
    } else {
        0
    }
}

/// The first white-space separated field of `s`, if it has one.
pub open spec fn first_field(s: Seq<char>) -> Option<Seq<char>> {
    let t = s.skip(lead_ws(s) as int);
    if t.len() == 0 {
        None
    } else {
        Some(t.take(field_len(t) as int))
    }
}

/// The interval of the jiggler's ticks, in seconds: from a seconds field
/// `*/N` of the schedule, `N` (at least 1; 60 when `N` is not a number), and
/// 60 for any other schedule.
pub open spec fn cron_interval_secs(s: Seq<char>) -> nat {
    let f = match first_field(cron_without_tz(s)) {
        Some(x) => x,
        None => "*"@,
    };
    if starts_with(f, "*/"@) {
        match parse_unsigned(f.skip(2), u64::MAX as nat) {
            Some(n) => if n == 0 {
                1
            } else {
                n
            },
            None => 60,
        }
    } else {
        60
    }
}

/// A run of non-white-space at the front counts towards `field_len`.
pub proof fn lemma_field_len_prefix(s: Seq<char>, i: int)
    requires
        0 <= i <= s.len(),
        forall|j: int| 0 <= j < i ==> !is_white_space(#[trigger] s[j]),
    ensures
        field_len(s) == i + field_len(s.subrange(i, s.len() as int)),
    decreases i,
{
    if i > 0 {
        lemma_field_len_prefix(s.drop_first(), i - 1);
        assert(s.drop_first().subrange(i - 1, s.drop_first().len() as int) =~= s.subrange(i, s.len() as int));
    } else {
        assert(s.subrange(0, s.len() as int) =~= s);
    }
}

fn without_tz(s: &Vec<char>) -> (r: Vec<char>)
    ensures
        r@ == cron_without_tz(s@),
{
    let tz = chars_of("TZ=");
    match find_seq(s.as_slice(), tz.as_slice()) {
        Some(idx) => {
            proof {
                lemma_first_occurrence(s@, "TZ="@, idx as int);
            }
            let rest = slice_range(s.as_slice(), idx, s.len());
            assert(rest@ =~= s@.skip(idx as int));
            let sp = vec![' '];
            match find_seq(rest.as_slice(), sp.as_slice()) {
                Some(j) => {
                    proof {
                        assert(sp@ =~= seq![' ']);
                        lemma_first_occurrence(rest@, seq![' '], j as int);
                    }
                    let r = slice_range(s.as_slice(), idx + j + 1, s.len());
                    assert(r@ =~= s@.skip(idx + j + 1));
                    r
                },
                None => {
                    assert(sp@ =~= seq![' ']);
                    slice_range(s.as_slice(), 0, s.len())
                },
            }
        },
        None => {
            let r = slice_range(s.as_slice(), 0, s.len());
            assert(r@ =~= s@);
            r
        },
    }
}

fn first_field_exec(s: &Vec<char>) -> (r: Option<Vec<char>>)
    ensures
        match r {
            Some(f) => first_field(s@) == Some(f@),
            None => first_field(s@) is None,
        },
{
    let mut a: usize = 0;
    while a < s.len() && is_white_space_exec(s[a])
        invariant
            a <= s@.len(),
            forall|j: int| 0 <= j < a ==> is_white_space(#[trigger] s@[j]),
        decreases s@.len() - a,
    {
        a = a + 1;
    }
    let ghost t = s@.subrange(a as int, s@.len() as int);
    proof {
        lemma_lead_ws_prefix(s@, a as int);
        if t.len() > 0 {
            assert(t[0] == s@[a as int]);
        }
        assert(lead_ws(t) == 0);
        assert(t =~= s@.skip(lead_ws(s@) as int));
    }
    if a == s.len() {
        return None;
    }
    let mut b: usize = a;
    while b < s.len() && !is_white_space_exec(s[b])
        invariant
            a <= b <= s@.len(),
            forall|j: int| a <= j < b ==> !is_white_space(#[trigger] s@[j]),
        decreases s@.len() - b,
    {
        b = b + 1;
    }
    proof {
        let k = (b - a) as int;
        assert forall|j: int| 0 <= j < k implies !is_white_space(#[trigger] t[j]) by {
            assert(t[j] == s@[a + j]);
        }
        lemma_field_len_prefix(t, k);
        let after = t.subrange(k, t.len() as int);
        if after.len() > 0 {
            assert(after[0] == s@[b as int]);
        }
        assert(field_len(after) == 0);
        assert(t.take(k) =~= s@.subrange(a as int, b as int));
    }
    Some(slice_range(s.as_slice(), a, b))
}

/// The interval of the jiggler's ticks for a schedule, in seconds.
pub fn parse_cron_interval(cron_tab: &str) -> (r: u64)
    ensures
        r == cron_interval_secs(cron_tab@),
{
    let s = chars_of(cron_tab);
    let cleaned = without_tz(&s);
    let field = match first_field_exec(&cleaned) {
        Some(f) => f,
        None => chars_of("*"),
    };
    let star = chars_of("*/");
    proof {
        reveal_strlit("*/");
    }
    if crate::text::starts_with_chars(field.as_slice(), star.as_slice()) {
        let digits = slice_range(field.as_slice(), 2, field.len());
        assert(digits@ =~= field@.skip(2));
        match parse_unsigned_exec(digits.as_slice(), u64::MAX) {
            Some(n) => if n == 0 {
                1
            } else {
                n
            },
            None => 60,
        }
    } else {
        60
    }
}

/// Whether a tick moves the mouse: the jiggler is on, and the user has
/// been idle (`idle_nanos`, unbounded when unknown) longer than the limit
/// (its seconds taken as a `u64`, as a cast gives them).
pub open spec fn jiggle_due(enabled: bool, idle_nanos: Option<u128>, limit_secs: i32) -> bool {
    enabled && match idle_nanos {
        Some(n) => n > (limit_secs as u64) as int * 1_000_000_000,
        None => u64::MAX as int * 1_000_000_000 + 999_999_999 > (limit_secs as u64) as int * 1_000_000_000,
    }
}

/// Whether a tick moves the mouse.
pub fn should_jiggle(enabled: bool, idle_nanos: Option<u128>, limit_secs: i32) -> (r: bool)
    ensures
        r == jiggle_due(enabled, idle_nanos, limit_secs),
{
    if !enabled {
        return false;
    }
    let limit: u128 = (limit_secs as u64) as u128 * 1_000_000_000;
    match idle_nanos {
        Some(n) => n > limit,
        None => {
            let max: u128 = u64::MAX as u128 * 1_000_000_000 + 999_999_999;
            max > limit
        },
    }
}

/// One axis of a jiggle: a step of 1 to 3 taken from one clock reading,
/// its sign from another (negative when that reading is even).
pub open spec fn jiggle_step(ns_size: u32, ns_sign: u32) -> int {
    let v = (ns_size % 6) % 3 + 1;
    if ns_sign % 2 == 0 {
        -v
    } else {
        v
    }
}

/// One axis of a jiggle.
pub fn jiggle_offset(ns_size: u32, ns_sign: u32) -> (r: i8)
    ensures
        r == jiggle_step(ns_size, ns_sign),
        -3 <= r <= 3 && r != 0,
{
    let v: i8 = ((ns_size % 6) as i8) % 3 + 1;
    if ns_sign % 2 == 0 {
        -v
    } else {
        v
    }
}

/// The first field of `field` followed by a space and anything is `field`,
/// when `field` is a non-empty run without white space.
proof fn lemma_first_field_of(field: Seq<char>, rest: Seq<char>)
    requires
        field.len() > 0,
        forall|i: int| 0 <= i < field.len() ==> !is_white_space(#[trigger] field[i]),
    ensures
        first_field(field + seq![' '] + rest) == Some(field),
{
    let s = field + seq![' '] + rest;
    assert(s[0] == field[0]);
    assert(lead_ws(s) == 0);
    assert(s.skip(0) =~= s);
    assert forall|j: int| 0 <= j < field.len() implies !is_white_space(#[trigger] s[j]) by {
        assert(s[j] == field[j]);
    }
    lemma_field_len_prefix(s, field.len() as int);
    let after = s.subrange(field.len() as int, s.len() as int);
    assert(after[0] == ' ');
    assert(field_len(after) == 0);
    assert(s.take(field.len() as int) =~= field);
}

/// A schedule that starts with a `TZ=` setting (no space in it) and a
/// space reads as what follows that space.
proof fn lemma_tz_prefix_dropped(tz: Seq<char>, body: Seq<char>)
    requires
        starts_with(tz, "TZ="@),
        forall|i: int| 0 <= i < tz.len() ==> tz[i] != ' ',
    ensures
        cron_without_tz(tz + seq![' '] + body) == body,
{
    let s = tz + seq![' '] + body;
    reveal_strlit("TZ=");
    assert(s.subrange(0, 3) =~= tz.subrange(0, 3));
    assert(occurs_at(s, "TZ="@, 0));
    assert(is_first_occurrence(s, "TZ="@, 0));
    lemma_first_occurrence(s, "TZ="@, 0);
    assert(contains_seq(s, "TZ="@));
    let rest = s.skip(0);
    assert(rest =~= s);
    let k = tz.len() as int;
    assert(s.subrange(k, k + 1) =~= seq![' ']);
    assert(occurs_at(rest, seq![' '], k));
    assert forall|j: int| 0 <= j < k implies !occurs_at(rest, seq![' '], j) by {
        if occurs_at(rest, seq![' '], j) {
            assert(rest.subrange(j, j + 1)[0] == s[j]);
            assert(s[j] == tz[j]);
        }
    }
    assert(is_first_occurrence(rest, seq![' '], k));
    lemma_first_occurrence(rest, seq![' '], k);
    assert(contains_seq(rest, seq![' ']));
    assert(s.skip(k + 1) =~= body);
}

/// The interval a seconds field gives.
proof fn lemma_interval_of_field(s: Seq<char>, field: Seq<char>, rest: Seq<char>)
    requires
        field.len() > 0,
        forall|i: int| 0 <= i < field.len() ==> !is_white_space(#[trigger] field[i]),
        cron_without_tz(s) == field + seq![' '] + rest,
    ensures
        !(field.len() >= 2 && field[0] == '*' && field[1] == '/') ==> cron_interval_secs(s) == 60,
        field.len() > 2 && field[0] == '*' && field[1] == '/' && all_digits(field.skip(2))
            && digits_value(field.skip(2)) <= u64::MAX ==> cron_interval_secs(s) == (if digits_value(
            field.skip(2),
        ) == 0 {
            1
        } else {
            digits_value(field.skip(2))
        }),
{
    lemma_first_field_of(field, rest);
    reveal_strlit("*/");
    if field.len() >= 2 && field[0] == '*' && field[1] == '/' {
        assert(field.subrange(0, 2) =~= "*/"@);
        let d = field.skip(2);
        if d.len() > 0 && all_digits(d) {
            assert(is_digit(d[0]));
            assert(d[0] != '+');
            assert(crate::text::unsigned_digits(d) == d);
        }
    } else {
        if starts_with(field, "*/"@) {
            assert(field.subrange(0, 2)[0] == field[0]);
            assert(field.subrange(0, 2)[1] == field[1]);
        }
    }
}

/// Only a seconds field of the form `*/N` sets the jiggler's interval, to
/// `N` seconds (1 for `*/0`); any other first field of the schedule gives a
/// tick every 60 seconds, whatever the other fields say. The schedule may
/// start with a `TZ=` setting (without spaces) and a space, which does not
/// count as a field.
pub proof fn lemma_cron_interval(tz: Seq<char>, field: Seq<char>, rest: Seq<char>)
    requires
        field.len() > 0,
        forall|i: int| 0 <= i < field.len() ==> !is_white_space(#[trigger] field[i]),
        tz.len() == 0 || (starts_with(tz, "TZ="@) && forall|i: int| 0 <= i < tz.len() ==> tz[i] != ' '),
        tz.len() == 0 ==> !contains_seq(field + seq![' '] + rest, "TZ="@),
    ensures
        ({
            let s = if tz.len() == 0 {
                field + seq![' '] + rest
            } else {
                tz + seq![' '] + (field + seq![' '] + rest)
            };
            &&& !(field.len() >= 2 && field[0] == '*' && field[1] == '/') ==> cron_interval_secs(s) == 60
            &&& field.len() > 2 && field[0] == '*' && field[1] == '/' && all_digits(field.skip(2))
                && digits_value(field.skip(2)) <= u64::MAX ==> cron_interval_secs(s) == (if digits_value(
                field.skip(2),
            ) == 0 {
                1
            } else {
                digits_value(field.skip(2))
            })
        }),
{
    let body = field + seq![' '] + rest;
    if tz.len() == 0 {
        lemma_interval_of_field(body, field, rest);
    } else {
        lemma_tz_prefix_dropped(tz, body);
        lemma_interval_of_field(tz + seq![' '] + body, field, rest);
    }
}

} // verus!
