//! Clock-synchronized Pomodoro schedule.
//!
//! Each hour is partitioned into four fixed segments:
//!
//! - minutes 0..25  — work
//! - minutes 25..30 — rest
//! - minutes 30..55 — work
//! - minutes 55..60 — rest
//!
//! The current mode and the seconds remaining in the current segment are a
//! pure function of the wall-clock minute and second, so the schedule
//! resynchronizes itself after sleep, crash, or restart.

use vstd::prelude::*;

use crate::state::PomodoroMode;
use chrono::Timelike;

verus! {

/// Number of segments in the hourly schedule.
pub open spec fn segment_count() -> int {
    4
}

/// Start minute of segment `i`.
pub open spec fn segment_start(i: int) -> int {
    if i == 0 {
        0
    } else if i == 1 {
        25
    } else if i == 2 {
        30
    } else {
        55
    }
}

/// End minute of segment `i` (60 means the start of the next hour).
pub open spec fn segment_end(i: int) -> int {
    if i == 0 {
        25
    } else if i == 1 {
        30
    } else if i == 2 {
        55
    } else {
        60
    }
}

/// Mode of segment `i`.
pub open spec fn segment_mode(i: int) -> PomodoroMode {
    if i == 1 || i == 3 {
        PomodoroMode::Rest
    } else {
        PomodoroMode::Work
    }
}

/// Whether minute `m` falls inside segment `i`.
pub open spec fn segment_contains(i: int, m: int) -> bool {
    segment_start(i) <= m < segment_end(i)
}

/// Index of the unique segment containing minute `m` (for `0 <= m < 60`).
pub open spec fn segment_index_of(m: int) -> int {
    if m < 25 {
        0
    } else if m < 30 {
        1
    } else if m < 55 {
        2
    } else {
        3
    }
}

/// Mode scheduled at minute `m` of the hour.
pub open spec fn period_mode(m: int) -> PomodoroMode {
    segment_mode(segment_index_of(m))
}

/// Seconds remaining in the segment containing minute `m`, at second `s`.
pub open spec fn period_remaining(m: int, s: int) -> int {
    segment_end(segment_index_of(m)) * 60 - (m * 60 + s)
}

/// The segments partition the hour: every minute of the hour lies in its
/// segment and in no other.
pub proof fn lemma_segments_partition(m: int)
    requires
        0 <= m < 60,
    ensures
        segment_contains(segment_index_of(m), m),
        forall|i: int|
            0 <= i < segment_count() && segment_contains(i, m) ==> i == segment_index_of(m),
{
}

/// Any schedule result for a clock reading is consistent with exactly one
/// segment — the one containing the minute: its mode is that segment's
/// mode, and the remaining time runs to that segment's end, between one
/// second and the full 25 minutes of the longest segment.
pub proof fn lemma_period_in_segment(m: int, s: int)
    requires
        0 <= m < 60,
        0 <= s < 60,
    ensures
        segment_contains(segment_index_of(m), m),
        period_mode(m) == segment_mode(segment_index_of(m)),
        period_remaining(m, s) == segment_end(segment_index_of(m)) * 60 - (m * 60 + s),
        1 <= period_remaining(m, s) <= 1500,
{
    lemma_segments_partition(m);
}

/// The Schedule Calculator is a pure function of the clock reading: any
/// two results that meet its contract for the same minute and second are
/// identical.
pub proof fn lemma_schedule_idempotent(
    m: int,
    s: int,
    r1: (PomodoroMode, i32),
    r2: (PomodoroMode, i32),
)
    requires
        r1.0 == period_mode(m) && r1.1 == period_remaining(m, s),
        r2.0 == period_mode(m) && r2.1 == period_remaining(m, s),
    ensures
        r1 == r2,
{
}

/// The segment table entry at index `i`: (start minute, end minute, mode).
fn segment(i: usize) -> (r: (u32, u32, PomodoroMode))
    requires
        i < 4,
    ensures
        r.0 == segment_start(i as int),
        r.1 == segment_end(i as int),
        r.2 == segment_mode(i as int),
{
    if i == 0 {
        (0, 25, PomodoroMode::Work)
    } else if i == 1 {
        (25, 30, PomodoroMode::Rest)
    } else if i == 2 {
        (30, 55, PomodoroMode::Work)
    } else {
        (55, 60, PomodoroMode::Rest)
    }
}

/// Linear scan for the segment containing `minute`. If no segment matches
/// (impossible for minutes below 60, but handled fail-soft so scheduling
/// can never halt), falls back to the first segment.
fn find_segment(minute: u32) -> (idx: usize)
    ensures
        idx < 4,
        minute < 60 ==> idx == segment_index_of(minute as int),
{
    let mut i: usize = 0;
    while i < 4
        invariant
            i <= 4,
            forall|j: int| 0 <= j < i ==> !segment_contains(j, minute as int),
        decreases 4 - i,
    {
        let (start, end, _) = segment(i);
        if minute >= start && minute < end {
            return i;
        }
        i = i + 1;
    }
    proof {
        if minute < 60 {
            assert(segment_contains(segment_index_of(minute as int), minute as int));
        }
    }
    0
}

/// Determines the current Pomodoro period from a wall-clock reading.
///
/// Returns the scheduled mode together with the seconds remaining until the
/// end of the current segment. The result is a function of the arguments
/// alone, so two calls with the same reading yield identical output.
pub fn get_current_period(minute: u32, second: u32) -> (r: (PomodoroMode, i32))
    requires
        minute < 60,
        second < 60,
    ensures
        r.0 == period_mode(minute as int),
        r.1 == period_remaining(minute as int, second as int),
        1 <= r.1 <= 1500,
{
    let idx = find_segment(minute);
    let (_, end, mode) = segment(idx);
    let current_second: i32 = (minute * 60 + second) as i32;
    let end_second: i32 = (end * 60) as i32;
    let remaining: i32 = end_second - current_second;
    (mode, remaining)
}

/// Decimal digit character for a value below ten.
pub open spec fn digit_char(d: int) -> char {
    if d == 0 {
        '0'
    } else if d == 1 {
        '1'
    } else if d == 2 {
        '2'
    } else if d == 3 {
        '3'
    } else if d == 4 {
        '4'
    } else if d == 5 {
        '5'
    } else if d == 6 {
        '6'
    } else if d == 7 {
        '7'
    } else if d == 8 {
        '8'
    } else {
        '9'
    }
}

/// Decimal representation of a non-negative number, without padding.
pub open spec fn dec_digits(n: int) -> Seq<char>
    decreases n,
{
    if n < 10 {
        seq![digit_char(n)]
    } else {
        dec_digits(n / 10).push(digit_char(n % 10))
    }
}

/// Zero-pads a digit string on the left to a width of two.
pub open spec fn pad2(s: Seq<char>) -> Seq<char> {
    if s.len() < 2 {
        seq!['0'] + s
    } else {
        s
    }
}

/// The "MM:SS" rendering of a non-negative number of seconds. The minutes
/// field is zero-padded to two digits but never clamped, so large values
/// keep their full minute count.
pub open spec fn format_time_spec(seconds: int) -> Seq<char> {
    pad2(dec_digits(seconds / 60)) + seq![':'] + pad2(dec_digits(seconds % 60))
}

/// A decimal representation never is empty, and has a single digit exactly
/// for values below ten.
pub proof fn lemma_dec_digits_len(n: int)
    ensures
        dec_digits(n).len() >= 1,
        n < 10 ==> dec_digits(n).len() == 1,
        n >= 10 ==> dec_digits(n).len() >= 2,
    decreases n,
{
    if n >= 10 {
        lemma_dec_digits_len(n / 10);
    }
}

/// The single-character string for a decimal digit.
fn digit_str(d: u32) -> (r: &'static str)
    requires
        d < 10,
    ensures
        r@ == seq![digit_char(d as int)],
{
    let r: &'static str = if d == 0 {
        "0"
    } else if d == 1 {
        "1"
    } else if d == 2 {
        "2"
    } else if d == 3 {
        "3"
    } else if d == 4 {
        "4"
    } else if d == 5 {
        "5"
    } else if d == 6 {
        "6"
    } else if d == 7 {
        "7"
    } else if d == 8 {
        "8"
    } else {
        "9"
    };
    proof {
        reveal_strlit("0");
        reveal_strlit("1");
        reveal_strlit("2");
        reveal_strlit("3");
        reveal_strlit("4");
        reveal_strlit("5");
        reveal_strlit("6");
        reveal_strlit("7");
        reveal_strlit("8");
        reveal_strlit("9");
        assert(r@ =~= seq![digit_char(d as int)]);
    }
    r
}

/// Appends the decimal representation of `n` to `out`.
fn push_dec(out: &mut String, n: u32)
    ensures
        final(out)@ == old(out)@ + dec_digits(n as int),
    decreases n,
{
    if n >= 10 {
        push_dec(out, n / 10);
    }
    out.append(digit_str(n % 10));
    proof {
        assert(final(out)@ =~= old(out)@ + dec_digits(n as int));
    }
}

/// Formats a number of seconds as "MM:SS" with zero-padded two-digit
/// fields. The minutes component is not clamped, so 3661 seconds render
/// as "61:01".
pub fn format_time(seconds: i32) -> (r: String)
    requires
        seconds >= 0,
    ensures
        r@ == format_time_spec(seconds as int),
{
    let mins: i32 = seconds / 60;
    let secs: i32 = seconds % 60;
    proof {
        lemma_dec_digits_len(mins as int);
        lemma_dec_digits_len(secs as int);
        reveal_strlit("0");
        reveal_strlit(":");
    }
    let mut r = String::new();
    if mins < 10 {
        r.append("0");
    }
    push_dec(&mut r, mins as u32);
    r.append(":");
    if secs < 10 {
        r.append("0");
    }
    push_dec(&mut r, secs as u32);
    proof {
        assert(r@ =~= format_time_spec(seconds as int));
    }
    r
}

/// A per-second snapshot of the schedule, as published to listeners.
#[derive(Debug)]
pub struct TimeUpdate {
    /// Mode of the current segment.
    pub mode_type: PomodoroMode,
    /// Seconds remaining in the current segment.
    pub remaining: i32,
    /// The remaining time rendered as "MM:SS".
    pub formatted_time: String,
}

/// Whether `update` is the snapshot for the clock reading `(m, s)`.
pub open spec fn update_matches(update: TimeUpdate, m: int, s: int) -> bool {
    &&& update.mode_type == period_mode(m)
    &&& update.remaining == period_remaining(m, s)
    &&& update.formatted_time@ == format_time_spec(period_remaining(m, s))
}

/// Whether a tick that observes `current` after `prev` raises the
/// edge-triggered period-change notification.
pub open spec fn mode_changed(prev: Option<PomodoroMode>, current: PomodoroMode) -> bool {
    match prev {
        Some(p) => p != current,
        None => false,
    }
}

/// Reads the local wall clock.
///
/// Relies on chrono: `Local::now()` gives the current local time, and
/// `Timelike::minute` and `Timelike::second` return the minute and second
/// numbers, each documented to lie between 0 and 59.
#[verifier::external_body]
fn local_minute_second() -> (r: (u32, u32))
    ensures
        r.0 < 60,
        r.1 < 60,
{
    let now = chrono::Local::now();
    (now.minute(), now.second())
}

/// The scheduler ticker: recomputes the snapshot once per second and
/// detects mode transitions by remembering the previously published mode.
#[derive(Debug)]
pub struct Ticker {
    /// Mode published by the previous tick, if any.
    pub last_mode: Option<PomodoroMode>,
}

impl Ticker {
    /// A ticker that has not published anything yet. Its first tick never
    /// raises a period-change notification.
    pub fn new() -> (r: Ticker)
        ensures
            r.last_mode is None,
    {
        Ticker { last_mode: None }
    }

    /// One tick of the scheduler for the clock reading `(minute, second)`:
    /// returns the snapshot for that reading, and whether the mode differs
    /// from the previously published one. The notification is raised
    /// exactly when the mode changes, so it fires once per transition.
    pub fn tick(&mut self, minute: u32, second: u32) -> (r: (TimeUpdate, bool))
        requires
            minute < 60,
            second < 60,
        ensures
            update_matches(r.0, minute as int, second as int),
            r.1 == mode_changed(old(self).last_mode, r.0.mode_type),
            final(self).last_mode == Some(r.0.mode_type),
            1 <= r.0.remaining <= 1500,
    {
        let (mode, remaining) = get_current_period(minute, second);
        let formatted = format_time(remaining);
        let changed = match self.last_mode {
            Some(prev) => prev != mode,
            None => false,
        };
        self.last_mode = Some(mode);
        (
            TimeUpdate { mode_type: mode, remaining, formatted_time: formatted },
            changed,
        )
    }

    /// One tick of the scheduler against the local wall clock: the snapshot
    /// for the current minute and second, and whether the mode changed
    /// since the previous tick.
    pub fn tick_now(&mut self) -> (r: (TimeUpdate, bool))
        ensures
            exists|m: int, s: int|
                0 <= m < 60 && 0 <= s < 60 && update_matches(r.0, m, s),
            r.1 == mode_changed(old(self).last_mode, r.0.mode_type),
            final(self).last_mode == Some(r.0.mode_type),
            1 <= r.0.remaining <= 1500,
    {
        let (minute, second) = local_minute_second();
        let r = self.tick(minute, second);
        proof {
            assert(update_matches(r.0, minute as int, second as int));
        }
        r
    }
}

} // verus!
