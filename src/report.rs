//! The reporting tool's logic over alerts read back from the alert log.
use vstd::prelude::*;
use crate::clock::{rfc3339_millis, rfc3339_millis_of};
use crate::netaddr::{all_digits, digits_value, lemma_digits_value_nonneg};
use crate::shared::Alert;
use crate::text::{chars_of, same_text, slice_chars, trim_whitespace, trim_ws, upper_of, uppercase};

verus! {

/// The alert is kept by a severity filter `sev`, compared without case.
pub open spec fn severity_selected(a: Alert, sev: Option<Seq<char>>) -> bool {
    match sev {
        Some(s) => upper_of(a.severity@) == upper_of(s),
        None => true,
    }
}

/// The alerts of `s` that a severity filter keeps, in order.
pub open spec fn select_severity(s: Seq<Alert>, sev: Option<Seq<char>>) -> Seq<Alert>
    decreases s.len(),
{
    if s.len() == 0 {
        s
    } else if severity_selected(s.last(), sev) {
        select_severity(s.drop_last(), sev).push(s.last())
    } else {
        select_severity(s.drop_last(), sev)
    }
}

/// The last `n` entries of `s` (all of them where it has fewer).
pub open spec fn take_last<T>(s: Seq<T>, n: Option<nat>) -> Seq<T> {
    match n {
        Some(n) => if s.len() > n {
            s.subrange(s.len() - n, s.len() as int)
        } else {
            s
        },
        None => s,
    }
}

pub open spec fn opt_view(o: Option<&str>) -> Option<Seq<char>> {
    match o {
        Some(s) => Some(s@),
        None => None,
    }
}

/// Whether the alert is kept by the severity filter.
pub fn matches_severity(a: &Alert, severity: Option<&str>) -> (r: bool)
    ensures
        r == severity_selected(*a, opt_view(severity)),
{
    match severity {
        None => true,
        Some(s) => {
            let x = uppercase(a.severity.as_str());
            let y = uppercase(s);
            same_text(x.as_str(), y.as_str())
        },
    }
}

/// The alerts to list: those of the given severity (compared without case),
/// then only the last `last` of them.
pub fn filter_alerts(alerts: Vec<Alert>, severity: Option<&str>, last: Option<usize>) -> (r: Vec<Alert>)
    ensures
        r@ == take_last(
            select_severity(alerts@, opt_view(severity)),
            match last {
                Some(n) => Some(n as nat),
                None => None,
            },
        ),
{
    let ghost all = alerts@;
    let mut src = alerts;
    let mut kept: Vec<Alert> = Vec::new();
    let ghost mut k: int = 0;
    while src.len() > 0
        invariant
            0 <= k <= all.len(),
            src@ == all.subrange(k, all.len() as int),
            kept@ == select_severity(all.subrange(0, k), opt_view(severity)),
        decreases src.len(),
    {
        let ghost before = src@;
        let a = src.remove(0);
        proof {
            assert(all.subrange(0, k + 1).drop_last() =~= all.subrange(0, k));
            assert(all.subrange(0, k + 1).last() == a);
        }
        if matches_severity(&a, severity) {
            kept.push(a);
        }
        proof {
            k = k + 1;
            assert(src@ =~= all.subrange(k, all.len() as int));
        }
    }
    assert(all.subrange(0, k) =~= all);
    match last {
        None => kept,
        Some(n) => {
            if kept.len() > n {
                let start = kept.len() - n;
                let ghost whole = kept@;
                let rest = kept.split_off(start);
                assert(rest@ =~= whole.subrange(start as int, whole.len() as int));
                rest
            } else {
                kept
            }
        },
    }
}

/// How many alerts of each severity a log holds.
#[derive(Debug, Clone, Copy, PartialEq, Eq)]
pub struct SeverityCounts {
    pub total: usize,
    pub high: usize,
    pub medium: usize,
    pub low: usize,
}

/// How many alerts of `s` carry exactly the severity `name`.
pub open spec fn count_severity(s: Seq<Alert>, name: Seq<char>) -> nat
    decreases s.len(),
{
    if s.len() == 0 {
        0
    } else {
        count_severity(s.drop_last(), name) + if s.last().severity@ == name {
            1nat
        } else {
            0nat
        }
    }
}

/// Counts the alerts, and those whose severity is exactly `HIGH`, `MEDIUM` or `LOW`.
pub fn count_severities(alerts: &Vec<Alert>) -> (r: SeverityCounts)
    ensures
        r.total == alerts@.len(),
        r.high == count_severity(alerts@, "HIGH"@),
        r.medium == count_severity(alerts@, "MEDIUM"@),
        r.low == count_severity(alerts@, "LOW"@),
{
    let mut c = SeverityCounts { total: 0, high: 0, medium: 0, low: 0 };
    let mut i: usize = 0;
    while i < alerts.len()
        invariant
            i <= alerts.len(),
            c.total == i,
            c.high == count_severity(alerts@.subrange(0, i as int), "HIGH"@),
            c.medium == count_severity(alerts@.subrange(0, i as int), "MEDIUM"@),
            c.low == count_severity(alerts@.subrange(0, i as int), "LOW"@),
            c.high <= i && c.medium <= i && c.low <= i,
        decreases alerts.len() - i,
    {
        let ghost pre = alerts@.subrange(0, i as int);
        assert(alerts@.subrange(0, i + 1).drop_last() =~= pre);
        assert(alerts@.subrange(0, i + 1).last() == alerts@[i as int]);
        proof {
            reveal_strlit("HIGH");
            reveal_strlit("MEDIUM");
            reveal_strlit("LOW");
            assert("HIGH"@.len() != "MEDIUM"@.len());
            assert("HIGH"@.len() != "LOW"@.len());
            assert("MEDIUM"@.len() != "LOW"@.len());
        }
        let sev = alerts[i].severity.as_str();
        c.total = c.total + 1;
        if same_text(sev, "HIGH") {
            c.high = c.high + 1;
        } else if same_text(sev, "MEDIUM") {
            c.medium = c.medium + 1;
        } else if same_text(sev, "LOW") {
            c.low = c.low + 1;
        }
        i += 1;
    }
    assert(alerts@.subrange(0, alerts@.len() as int) =~= alerts@);
    c
}

/// Why a time-window text was refused.
#[derive(Debug, Clone, Copy, PartialEq, Eq, Structural)]
pub enum DurationError {
    /// Nothing but whitespace.
    Empty,
    /// The text before the unit is not a whole number.
    InvalidNumber,
    /// The unit is not `m`, `h` or `d`.
    InvalidFormat,
    /// The window does not fit a duration.
    OutOfRange,
}

/// The value that `i64`'s `from_str` reads from `s`: an optional sign, then
/// one or more decimal digits, with a value that fits.
pub open spec fn i64_text_value(s: Seq<char>) -> Option<int> {
    let neg = s.len() > 0 && s[0] == '-';
    let body = if s.len() > 0 && (s[0] == '+' || s[0] == '-') {
        s.drop_first()
    } else {
        s
    };
    let v = if neg {
        -digits_value(body)
    } else {
        digits_value(body)
    };
    if body.len() > 0 && all_digits(body) && i64::MIN <= v <= i64::MAX {
        Some(v)
    } else {
        None
    }
}

/// Reads an `i64` from decimal text, as `str::parse::<i64>` does.
pub fn parse_i64(s: &Vec<char>) -> (r: Option<i64>)
    ensures
        match r {
            Some(v) => i64_text_value(s@) == Some(v as int),
            None => i64_text_value(s@) is None,
        },
{
    let neg = s.len() > 0 && s[0] == '-';
    let start: usize = if s.len() > 0 && (s[0] == '+' || s[0] == '-') {
        1
    } else {
        0
    };
    let ghost body = s@.subrange(start as int, s@.len() as int);
    assert(body =~= if s@.len() > 0 && (s@[0] == '+' || s@[0] == '-') {
        s@.drop_first()
    } else {
        s@
    });
    if start >= s.len() {
        return None;
    }
    let cap: u128 = 0x8000_0000_0000_0001;
    let mut acc: u128 = 0;
    let mut i: usize = start;
    while i < s.len()
        invariant
            start <= i <= s.len(),
            cap == 0x8000_0000_0000_0001u128,
            body == s@.subrange(start as int, s@.len() as int),
            body == (if s@.len() > 0 && (s@[0] == '+' || s@[0] == '-') {
                s@.drop_first()
            } else {
                s@
            }),
            all_digits(s@.subrange(start as int, i as int)),
            acc == if digits_value(s@.subrange(start as int, i as int)) < cap {
                digits_value(s@.subrange(start as int, i as int))
            } else {
                cap as int
            },
        decreases s.len() - i,
    {
        let c = s[i];
        if !('0' <= c && c <= '9') {
            assert(body[i - start] == c);
            return None;
        }
        let d = (c as u32 - '0' as u32) as u128;
        let ghost prev = s@.subrange(start as int, i as int);
        let ghost next = s@.subrange(start as int, i + 1);
        assert(next.drop_last() =~= prev);
        assert(digits_value(next) == 10 * digits_value(prev) + d);
        proof {
            lemma_digits_value_nonneg(prev);
        }
        acc = if acc >= cap || acc * 10 + d >= cap {
            cap
        } else {
            acc * 10 + d
        };
        i += 1;
        assert(all_digits(next));
    }
    assert(s@.subrange(start as int, s@.len() as int) =~= body);
    proof {
        lemma_digits_value_nonneg(body);
    }
    if neg {
        if acc >= cap {
            None
        } else {
            Some((-(acc as i128)) as i64)
        }
    } else {
        if acc >= cap - 1 {
            None
        } else {
            Some(acc as i64)
        }
    }
}

/// Seconds in one unit of a time-window text.
pub open spec fn unit_seconds(c: char) -> Option<int> {
    if c == 'm' {
        Some(60)
    } else if c == 'h' {
        Some(3600)
    } else if c == 'd' {
        Some(86400)
    } else {
        None
    }
}

/// The longest window, in seconds, that a duration holds.
pub const MAX_WINDOW_SECS: i64 = 9_223_372_036_854_775;

/// The window that a text such as `24h`, `30m` or `7d` gives, in seconds.
pub open spec fn duration_value(s: Seq<char>) -> Result<int, DurationError> {
    let t = trim_ws(s);
    if t.len() == 0 {
        Err(DurationError::Empty)
    } else {
        match i64_text_value(t.drop_last()) {
            None => Err(DurationError::InvalidNumber),
            Some(n) => match unit_seconds(t.last()) {
                None => Err(DurationError::InvalidFormat),
                Some(u) => if -MAX_WINDOW_SECS <= n * u <= MAX_WINDOW_SECS {
                    Ok(n * u)
                } else {
                    Err(DurationError::OutOfRange)
                },
            },
        }
    }
}

/// Reads a time window: a whole number followed by `m` (minutes), `h`
/// (hours) or `d` (days), surrounding whitespace ignored. Returns seconds.
pub fn parse_duration(s: &str) -> (r: Result<i64, DurationError>)
    ensures
        match r {
            Ok(v) => duration_value(s@) == Ok::<int, DurationError>(v as int),
            Err(e) => duration_value(s@) == Err::<int, DurationError>(e),
        },
{
    let raw = chars_of(s);
    let t = trim_whitespace(&raw);
    if t.len() == 0 {
        return Err(DurationError::Empty);
    }
    let number = slice_chars(&t, 0, t.len() - 1);
    assert(number@ =~= t@.drop_last());
    let n = match parse_i64(&number) {
        Some(n) => n,
        None => {
            return Err(DurationError::InvalidNumber);
        },
    };
    let unit = t[t.len() - 1];
    let per: i128 = if unit == 'm' {
        60
    } else if unit == 'h' {
        3600
    } else if unit == 'd' {
        86400
    } else {
        return Err(DurationError::InvalidFormat);
    };
    let total: i128 = (n as i128) * per;
    if -(MAX_WINDOW_SECS as i128) <= total && total <= (MAX_WINDOW_SECS as i128) {
        Ok(total as i64)
    } else {
        Err(DurationError::OutOfRange)
    }
}

/// The alert falls inside the trailing window: its time reads and is not
/// before `cutoff`.
pub open spec fn in_window(a: Alert, cutoff: int) -> bool {
    match rfc3339_millis_of(a.time@) {
        Some(t) => t >= cutoff,
        None => false,
    }
}

/// Whether an alert's time falls inside a trailing window of `window_secs`
/// seconds that ends at `now` (milliseconds since the epoch).
pub fn in_timeline(a: &Alert, now: i64, window_secs: i64) -> (r: bool)
    requires
        -MAX_WINDOW_SECS <= window_secs <= MAX_WINDOW_SECS,
    ensures
        r == in_window(*a, now - window_secs * 1000),
{
    match rfc3339_millis(a.time.as_str()) {
        Some(t) => (t as i128) >= (now as i128) - (window_secs as i128) * 1000,
        None => false,
    }
}

} // verus!
