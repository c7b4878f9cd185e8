//! Uptime against a fixed start instant, and the runtime record reported
//! with every status document.

use std::fmt::Write;
use vstd::prelude::*;
use crate::text::{decimal_text, int_text};

verus! {

/// How far from the Unix epoch, in seconds, an accepted instant may lie.
pub const MAX_SPAN: i64 = 8_000_000_000_000;

/// Nanoseconds in one second.
pub const NANOS_PER_SEC: u32 = 1_000_000_000;

/// A UTC instant: whole seconds since the Unix epoch and the nanoseconds
/// into that second.
pub struct Timestamp {
    pub secs: i64,
    pub nanos: u32,
}

impl Timestamp {
    /// The nanoseconds are below one second, and the seconds lie within
    /// `MAX_SPAN` of the epoch.
    pub open spec fn wf(self) -> bool {
        &&& self.nanos < NANOS_PER_SEC
        &&& -MAX_SPAN <= self.secs <= MAX_SPAN
    }

    /// The instant in nanoseconds since the epoch.
    pub open spec fn instant(self) -> int {
        self.secs * 1_000_000_000 + self.nanos
    }

    /// The instant `secs` seconds and `nanos` nanoseconds after the epoch;
    /// `None` when it is not well formed.
    pub fn new(secs: i64, nanos: u32) -> (r: Option<Timestamp>)
        ensures
            r matches Some(t) ==> t.secs == secs && t.nanos == nanos && t.wf(),
            r is Some <==> (Timestamp { secs, nanos }).wf(),
    {
        if nanos < NANOS_PER_SEC && -MAX_SPAN <= secs && secs <= MAX_SPAN {
            Some(Timestamp { secs, nanos })
        } else {
            None
        }
    }
}

/// Integer division rounding toward zero.
pub open spec fn tdiv(a: int, b: int) -> int {
    if a >= 0 {
        a / b
    } else {
        -((-a) / b)
    }
}

/// The remainder of `tdiv`, with the sign of `a`.
pub open spec fn trem(a: int, b: int) -> int {
    if a >= 0 {
        a % b
    } else {
        -((-a) % b)
    }
}

/// Whole seconds from `start` to `now`, rounded down; zero when `now`
/// precedes `start` (a clock stepped back), so uptime is never negative.
pub open spec fn elapsed_seconds(start: Timestamp, now: Timestamp) -> int {
    if now.instant() < start.instant() {
        0
    } else {
        (now.instant() - start.instant()) / 1_000_000_000
    }
}

/// "<H> hours, <M> minutes" for an elapsed number of seconds: whole hours,
/// and whole minutes past the last whole hour.
pub open spec fn human_text(secs: int) -> Seq<char> {
    int_text(tdiv(secs, 3600)) + " hours, "@ + int_text(trem(tdiv(secs, 60), 60)) + " minutes"@
}

/// The layout of the current-time field: "YYYY-MM-DD HH:MM:SS".
pub const CLOCK_LAYOUT: &'static str = "%Y-%m-%d %H:%M:%S";

/// What chrono renders for the UTC instant `secs` seconds after the epoch in
/// the strftime layout `layout`.
pub uninterp spec fn utc_text_of(secs: int, layout: Seq<char>) -> Seq<char>;

/// Relies on chrono's `DateTime::from_timestamp` and `DateTime::format`: the
/// UTC instant `secs` seconds after the epoch, rendered in a strftime layout.
/// `None` when chrono cannot represent the instant (its range reaches past
/// year 200000 on both sides, beyond `MAX_SPAN`) or the layout holds an
/// unknown specifier (every specifier of `CLOCK_LAYOUT` is known).
#[verifier::external_body]
fn format_utc(secs: i64, layout: &str) -> (r: Option<String>)
    ensures
        r matches Some(s) ==> s@ == utc_text_of(secs as int, layout@),
        -MAX_SPAN <= secs <= MAX_SPAN && layout@ == CLOCK_LAYOUT@ ==> r is Some,
{
    let t = chrono::DateTime::from_timestamp(secs, 0)?;
    let mut out = String::new();
    write!(out, "{}", t.format(layout)).ok()?;
    Some(out)
}

/// What is reported of the running process.
pub struct RuntimeInfo {
    pub uptime_seconds: i64,
    pub uptime_human: String,
    pub current_time: String,
    pub timezone: String,
}

/// Whole seconds from `start` to `now`, rounded down; zero when `now`
/// precedes `start`.
pub fn uptime_seconds(start: &Timestamp, now: &Timestamp) -> (r: i64)
    requires
        start.wf(),
        now.wf(),
    ensures
        r == elapsed_seconds(*start, *now),
        r >= 0,
{
    let d: i128 = (now.secs as i128 - start.secs as i128) * 1_000_000_000 + (now.nanos as i128
        - start.nanos as i128);
    assert(d == now.instant() - start.instant()) by (nonlinear_arith)
        requires
            d == (now.secs as int - start.secs as int) * 1_000_000_000 + (now.nanos as int
                - start.nanos as int),
    ;
    if d < 0 {
        0
    } else {
        let q: i128 = d / 1_000_000_000;
        q as i64
    }
}

/// "<H> hours, <M> minutes" for an elapsed number of seconds.
pub fn uptime_text(secs: i64) -> (r: String)
    ensures
        r@ == human_text(secs as int),
{
    let mag: u64 = if secs >= 0 {
        secs as u64
    } else {
        (-(secs as i128)) as u64
    };
    let hours_mag: u64 = mag / 3600;
    let minutes_mag: u64 = (mag / 60) % 60;
    let hours: i64 = if secs >= 0 {
        hours_mag as i64
    } else {
        -(hours_mag as i64)
    };
    let minutes: i64 = if secs >= 0 {
        minutes_mag as i64
    } else {
        -(minutes_mag as i64)
    };
    let mut out = decimal_text(hours);
    out.append(" hours, ");
    let m = decimal_text(minutes);
    out.append(m.as_str());
    out.append(" minutes");
    assert(out@ =~= human_text(secs as int));
    out
}

/// The runtime record for a request served at `now`, given the rendered
/// current time.
pub fn runtime_info(start: &Timestamp, now: &Timestamp, current_time: String) -> (r: RuntimeInfo)
    requires
        start.wf(),
        now.wf(),
    ensures
        r.uptime_seconds == elapsed_seconds(*start, *now),
        r.uptime_human@ == human_text(elapsed_seconds(*start, *now)),
        r.current_time@ == current_time@,
        r.timezone@ == "UTC"@,
{
    let secs = uptime_seconds(start, now);
    RuntimeInfo {
        uptime_seconds: secs,
        uptime_human: uptime_text(secs),
        current_time,
        timezone: String::from_str("UTC"),
    }
}

/// The runtime record for a request served at `now`, for a process that
/// started at `start`; the current time is `now` in `CLOCK_LAYOUT`.
pub fn compute_uptime(start: &Timestamp, now: &Timestamp) -> (r: RuntimeInfo)
    requires
        start.wf(),
        now.wf(),
    ensures
        r.uptime_seconds == elapsed_seconds(*start, *now),
        r.uptime_human@ == human_text(elapsed_seconds(*start, *now)),
        r.current_time@ == utc_text_of(now.secs as int, CLOCK_LAYOUT@),
        r.timezone@ == "UTC"@,
{
    let text = match format_utc(now.secs, CLOCK_LAYOUT) {
        Some(s) => s,
        None => String::new(),
    };
    runtime_info(start, now, text)
}

/// Uptime is never negative, whatever the clock reads.
pub proof fn lemma_uptime_nonnegative(start: Timestamp, now: Timestamp)
    ensures
        elapsed_seconds(start, now) >= 0,
{
    if now.instant() >= start.instant() {
        vstd::arithmetic::div_mod::lemma_div_pos_is_pos(
            now.instant() - start.instant(),
            1_000_000_000,
        );
    }
}

/// From a start instant to any later one, the uptime is the elapsed time in
/// whole seconds rounded down, and it is never negative.
pub proof fn lemma_uptime_is_floor(start: Timestamp, now: Timestamp)
    requires
        start.instant() <= now.instant(),
    ensures
        elapsed_seconds(start, now) >= 0,
        elapsed_seconds(start, now) * 1_000_000_000 <= now.instant() - start.instant(),
        now.instant() - start.instant() < (elapsed_seconds(start, now) + 1) * 1_000_000_000,
{
    let d = now.instant() - start.instant();
    let e = elapsed_seconds(start, now);
    assert(e == d / 1_000_000_000);
    assert(e >= 0 && e * 1_000_000_000 <= d && d < (e + 1) * 1_000_000_000) by (nonlinear_arith)
        requires
            d >= 0,
            e == d / 1_000_000_000,
    ;
}

/// Uptime never decreases: of two requests, the later one reports at least
/// the uptime of the earlier.
pub proof fn lemma_uptime_monotonic(start: Timestamp, t1: Timestamp, t2: Timestamp)
    requires
        t1.instant() <= t2.instant(),
    ensures
        elapsed_seconds(start, t1) <= elapsed_seconds(start, t2),
{
    lemma_uptime_nonnegative(start, t2);
    if t1.instant() >= start.instant() {
        let d1 = t1.instant() - start.instant();
        let d2 = t2.instant() - start.instant();
        vstd::arithmetic::div_mod::lemma_div_is_ordered(d1, d2, 1_000_000_000);
    }
}

} // verus!
