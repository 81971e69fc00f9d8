//! Recovering a process name from the raw payload of a kernel trace record,
//! for records whose process is already gone.
use vstd::prelude::*;
use crate::text::{contains, first_word, first_word_of, has_text, slice_chars, string_of_chars, trim_whitespace, trim_ws};

verus! {

/// Longest run of UTF-16 units read as one candidate string.
pub const MAX_RUN: usize = 260;

/// The little-endian UTF-16 unit at byte `k`.
pub open spec fn unit_at(d: Seq<u8>, k: int) -> int {
    d[k] as int + 256 * (d[k + 1] as int)
}

/// A printable ASCII unit.
pub open spec fn printable(u: int) -> bool {
    32 <= u < 127
}

/// The length, in units, of the printable run that starts at byte `i`,
/// counting from unit `t` and stopping at `MAX_RUN` units or the end of `d`.
pub open spec fn run_from(d: Seq<u8>, i: int, t: int) -> int
    decreases MAX_RUN - t,
{
    if 0 <= t < MAX_RUN && i + t * 2 + 2 <= d.len() && printable(unit_at(d, i + t * 2)) {
        run_from(d, i, t + 1)
    } else {
        t
    }
}

/// The `n` characters of the run at byte `i`.
pub open spec fn run_text(d: Seq<u8>, i: int, n: int) -> Seq<char> {
    Seq::new(n as nat, |k: int| d[i + 2 * k] as char)
}

/// A candidate that looks like a path or an executable.
pub open spec fn looks_like_path(c: Seq<char>) -> bool {
    contains(c, ".exe"@) || contains(c, "\\"@)
}

/// The position of the first `"` of `t` after its first character.
pub open spec fn closing_quote(t: Seq<char>) -> Option<int> {
    if exists|j: int| 1 <= j < t.len() && t[j] == '"' {
        Some(choose|j: int| 1 <= j < t.len() && t[j] == '"' && forall|k: int| 1 <= k < j ==> t[k] != '"')
    } else {
        None
    }
}

/// `t` without its surrounding quotes, where it opens with one that closes.
pub open spec fn unquoted(t: Seq<char>) -> Seq<char> {
    if t.len() > 0 && t[0] == '"' {
        match closing_quote(t) {
            Some(q) => t.subrange(1, q),
            None => t,
        }
    } else {
        t
    }
}

/// The position of the last `\` of `u`.
pub open spec fn last_backslash(u: Seq<char>) -> Option<int> {
    if exists|k: int| 0 <= k < u.len() && u[k] == '\\' {
        Some(choose|k: int| 0 <= k < u.len() && u[k] == '\\' && forall|j: int| k < j < u.len() ==> u[j] != '\\')
    } else {
        None
    }
}

/// The executable name in a cleaned candidate: the first word after its last
/// `\`, or its first word; the candidate itself where there is no word.
pub open spec fn executable_name(u: Seq<char>) -> Seq<char> {
    let tail = match last_backslash(u) {
        Some(k) => u.subrange(k + 1, u.len() as int),
        None => u,
    };
    match first_word(tail) {
        Some(w) => w,
        None => u,
    }
}

/// The name found by scanning `d` from byte `i` on, two bytes at a time: the
/// first printable run of at least four units that looks like a path.
pub open spec fn scan_name(d: Seq<u8>, i: int) -> Seq<char>
    decreases d.len() - i,
{
    if 0 <= i && i + 4 < d.len() {
        let n = run_from(d, i, 0);
        if n >= 4 && looks_like_path(run_text(d, i, n)) {
            executable_name(unquoted(trim_ws(run_text(d, i, n))))
        } else {
            scan_name(d, i + 2)
        }
    } else {
        "Unknown"@
    }
}

fn printable_run(d: &[u8], i: usize) -> (r: usize)
    requires
        i + 4 < d@.len(),
    ensures
        r == run_from(d@, i as int, 0),
        r <= MAX_RUN,
        i + 2 * r <= d@.len(),
{
    let mut t: usize = 0;
    assert(d.len() == d@.len());
    while t < MAX_RUN && t * 2 + 2 <= d.len() - i && printable_exec(
        (d[i + t * 2] as u32) + 256 * (d[i + t * 2 + 1] as u32),
    )
        invariant
            i + 4 < d@.len(),
            d.len() == d@.len(),
            t <= MAX_RUN,
            i + 2 * t <= d@.len(),
            run_from(d@, i as int, 0) == run_from(d@, i as int, t as int),
        decreases MAX_RUN - t,
    {
        t += 1;
    }
    t
}

fn printable_exec(u: u32) -> (r: bool)
    ensures
        r == printable(u as int),
{
    32 <= u && u < 127
}

fn run_chars(d: &[u8], i: usize, n: usize) -> (r: Vec<char>)
    requires
        i + 2 * n <= d@.len(),
    ensures
        r@ == run_text(d@, i as int, n as int),
{
    let mut v: Vec<char> = Vec::new();
    let mut k: usize = 0;
    assert(d.len() == d@.len());
    while k < n
        invariant
            k <= n,
            d.len() == d@.len(),
            i + 2 * n <= d@.len(),
            v@ == run_text(d@, i as int, n as int).subrange(0, k as int),
        decreases n - k,
    {
        v.push(d[i + 2 * k] as char);
        k += 1;
        assert(v@ =~= run_text(d@, i as int, n as int).subrange(0, k as int));
    }
    assert(v@ =~= run_text(d@, i as int, n as int));
    v
}

fn unquote(t: &Vec<char>) -> (r: Vec<char>)
    ensures
        r@ == unquoted(t@),
{
    if t.len() > 0 && t[0] == '"' {
        let mut j: usize = 1;
        while j < t.len()
            invariant
                1 <= j <= t.len(),
                t@[0] == '"',
                forall|k: int| 1 <= k < j ==> t@[k] != '"',
            decreases t.len() - j,
        {
            if t[j] == '"' {
                let ghost q = choose|q: int| 1 <= q < t@.len() && t@[q] == '"' && forall|k: int| 1 <= k < q ==> t@[k] != '"';
                assert(q == j) by {
                    if q < j {
                    } else if q > j {
                        assert(t@[j as int] == '"');
                    }
                }
                return slice_chars(t, 1, j);
            }
            j += 1;
        }
        let r = slice_chars(t, 0, t.len());
        assert(r@ =~= t@);
        r
    } else {
        let r = slice_chars(t, 0, t.len());
        assert(r@ =~= t@);
        r
    }
}

fn name_in(u: &Vec<char>) -> (r: Vec<char>)
    ensures
        r@ == executable_name(u@),
{
    let mut k: usize = u.len();
    while k > 0 && u[k - 1] != '\\'
        invariant
            k <= u.len(),
            forall|j: int| k <= j < u.len() ==> u@[j] != '\\',
        decreases k,
    {
        k -= 1;
    }
    let found: Option<usize> = if k > 0 {
        Some(k - 1)
    } else {
        None
    };
    let tail = match found {
        Some(b) => {
            assert(u@[b as int] == '\\');
            let ghost c = choose|c: int| 0 <= c < u@.len() && u@[c] == '\\' && forall|j: int| c < j < u@.len() ==> u@[j] != '\\';
            assert(c == b) by {
                if c < b {
                } else if c > b {
                }
            }
            slice_chars(u, b + 1, u.len())
        },
        None => {
            let t = slice_chars(u, 0, u.len());
            assert(t@ =~= u@);
            t
        },
    };
    match first_word_of(&tail) {
        Some(w) => w,
        None => {
            let t = slice_chars(u, 0, u.len());
            assert(t@ =~= u@);
            t
        },
    }
}

/// Scans a trace record's payload for a UTF-16 path or executable name and
/// returns the executable's name, or `Unknown` where none is found.
pub fn extract_process_name_from_userdata(data: &[u8]) -> (r: String)
    ensures
        r@ == scan_name(data@, 0),
{
    if data.len() <= 4 {
        proof {
            reveal_strlit("Unknown");
        }
        return "Unknown".to_owned();
    }
    let mut i: usize = 0;
    while i < data.len() - 4
        invariant
            data@.len() > 4,
            scan_name(data@, 0) == scan_name(data@, i as int),
        decreases data.len() - i,
    {
        let n = printable_run(data, i);
        if n >= 4 {
            let cand = run_chars(data, i, n);
            if has_text(&cand, ".exe") || has_text(&cand, "\\") {
                let t = trim_whitespace(&cand);
                let u = unquote(&t);
                let name = name_in(&u);
                return string_of_chars(&name);
            }
        }
        i += 2;
    }
    "Unknown".to_owned()
}

} // verus!
