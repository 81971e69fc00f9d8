//! Classification and rendering of network addresses.
use vstd::prelude::*;
use crate::text::{
    chars_of, decimal, decimal_text, join2, same_text, starts_with, starts_with_text, trim_chars,
    trim_set, trim_whitespace, trim_ws,
};

verus! {

/// The value of a run of decimal digits.
pub open spec fn digits_value(s: Seq<char>) -> int
    decreases s.len(),
{
    if s.len() == 0 {
        0
    } else {
        10 * digits_value(s.drop_last()) + (s.last() as u32 - '0' as u32)
    }
}

pub open spec fn all_digits(s: Seq<char>) -> bool {
    forall|i: int| 0 <= i < s.len() ==> '0' <= #[trigger] s[i] <= '9'
}

/// The value that `u8`'s `from_str` reads from `s`: an optional `+`, then one
/// or more decimal digits, with a value that fits.
pub open spec fn u8_text_value(s: Seq<char>) -> Option<u8> {
    let body = if s.len() > 0 && s[0] == '+' {
        s.drop_first()
    } else {
        s
    };
    if body.len() > 0 && all_digits(body) && digits_value(body) <= 255 {
        Some(digits_value(body) as u8)
    } else {
        None
    }
}

/// The value that an unsigned integer's `from_str` reads from `s` for a type
/// whose largest value is `max`: an optional `+`, then one or more decimal
/// digits, with a value that fits.
pub open spec fn unsigned_value(s: Seq<char>, max: int) -> Option<int> {
    let body = if s.len() > 0 && s[0] == '+' {
        s.drop_first()
    } else {
        s
    };
    if body.len() > 0 && all_digits(body) && digits_value(body) <= max {
        Some(digits_value(body))
    } else {
        None
    }
}

/// Reads an unsigned integer no larger than `max` from decimal text, as
/// `str::parse` does for the unsigned type whose largest value is `max`.
pub fn parse_unsigned(s: &Vec<char>, max: u64) -> (r: Option<u64>)
    requires
        max <= u32::MAX,
    ensures
        match r {
            Some(v) => unsigned_value(s@, max as int) == Some(v as int),
            None => unsigned_value(s@, max as int) is None,
        },
{
    let start: usize = if s.len() > 0 && s[0] == '+' {
        1
    } else {
        0
    };
    let ghost body = s@.subrange(start as int, s@.len() as int);
    assert(body =~= if s@.len() > 0 && s@[0] == '+' {
        s@.drop_first()
    } else {
        s@
    });
    if start >= s.len() {
        return None;
    }
    let cap: u64 = max + 1;
    let mut acc: u64 = 0;
    let mut i: usize = start;
    while i < s.len()
        invariant
            start <= i <= s.len(),
            cap == max + 1,
            max <= u32::MAX,
            body == s@.subrange(start as int, s@.len() as int),
            body == (if s@.len() > 0 && s@[0] == '+' {
                s@.drop_first()
            } else {
                s@
            }),
            all_digits(s@.subrange(start as int, i as int)),
            acc == if digits_value(s@.subrange(start as int, i as int)) < cap {
                digits_value(s@.subrange(start as int, i as int))
            } else {
                cap as int
            },
        decreases s.len() - i,
    {
        let c = s[i];
        if !('0' <= c && c <= '9') {
            assert(body[i - start] == c);
            return None;
        }
        let d = (c as u32 - '0' as u32) as u64;
        let ghost prev = s@.subrange(start as int, i as int);
        let ghost next = s@.subrange(start as int, i + 1);
        assert(next.drop_last() =~= prev);
        assert(digits_value(next) == 10 * digits_value(prev) + d);
        proof {
            lemma_digits_value_nonneg(prev);
        }
        acc = if acc >= cap || acc * 10 + d >= cap {
            cap
        } else {
            acc * 10 + d
        };
        i += 1;
        assert(all_digits(next));
    }
    assert(s@.subrange(start as int, s@.len() as int) =~= body);
    if acc >= cap {
        None
    } else {
        Some(acc)
    }
}

/// Reads a `u8` from decimal text, as `str::parse::<u8>` does.
pub fn parse_u8(s: &Vec<char>) -> (r: Option<u8>)
    ensures
        r == u8_text_value(s@),
{
    match parse_unsigned(s, 255) {
        Some(v) => Some(v as u8),
        None => None,
    }
}

pub proof fn lemma_digits_value_nonneg(s: Seq<char>)
    requires
        all_digits(s),
    ensures
        digits_value(s) >= 0,
    decreases s.len(),
{
    if s.len() > 0 {
        assert(all_digits(s.drop_last()));
        lemma_digits_value_nonneg(s.drop_last());
    }
}

/// The text between the first and the second `.` of `s` (or its end), as
/// `split('.').nth(1)` gives it.
pub open spec fn second_field(s: Seq<char>) -> Option<Seq<char>> {
    if exists|i: int| 0 <= i < s.len() && s[i] == '.' {
        let i = choose|i: int| 0 <= i < s.len() && s[i] == '.' && forall|j: int| 0 <= j < i ==> s[j] != '.';
        let rest = s.subrange(i + 1, s.len() as int);
        if exists|k: int| 0 <= k < rest.len() && rest[k] == '.' {
            let k = choose|k: int| 0 <= k < rest.len() && rest[k] == '.' && forall|j: int| 0 <= j < k ==> rest[j] != '.';
            Some(rest.subrange(0, k))
        } else {
            Some(rest)
        }
    } else {
        None
    }
}

/// `a` with brackets stripped at both ends, then whitespace.
pub open spec fn bare_address(a: Seq<char>) -> Seq<char> {
    trim_ws(trim_set(a, seq!['[', ']']))
}

/// The address is loopback, link-local or in a private range.
pub open spec fn private_or_local(addr: Seq<char>) -> bool {
    let a = bare_address(addr);
    starts_with(a, "127."@) || a == "::1"@ || a == "localhost"@ || starts_with(a, "10."@)
        || starts_with(a, "192.168."@) || starts_with(a, "169.254."@) || (starts_with(a, "172."@)
        && match second_field(a) {
        Some(f) => match u8_text_value(f) {
            Some(n) => 16 <= n <= 31,
            None => false,
        },
        None => false,
    })
}

/// The address is loopback: `127/8`, `::1` or `localhost`, after stripping
/// brackets and whitespace.
pub open spec fn loopback_address(addr: Seq<char>) -> bool {
    let a = bare_address(addr);
    starts_with(a, "127."@) || a == "::1"@ || a == "localhost"@
}

/// Whether an address is loopback.
pub fn is_loopback(addr: &str) -> (r: bool)
    ensures
        r == loopback_address(addr@),
{
    let raw = chars_of(addr);
    let brackets: Vec<char> = vec!['[', ']'];
    assert(brackets@ =~= seq!['[', ']']);
    let stripped = trim_chars(&raw, &brackets);
    let a = trim_whitespace(&stripped);
    let text = crate::text::string_of_chars(&a);
    starts_with_text(&a, "127.") || same_text(text.as_str(), "::1") || same_text(text.as_str(), "localhost")
}

/// The position of the first `.` of `s` at or after `from`.
fn find_dot(s: &Vec<char>, from: usize) -> (r: Option<usize>)
    requires
        from <= s.len(),
    ensures
        match r {
            Some(i) => from <= i < s.len() && s@[i as int] == '.' && forall|j: int|
                from <= j < i ==> s@[j] != '.',
            None => forall|j: int| from <= j < s.len() ==> s@[j] != '.',
        },
{
    let mut i: usize = from;
    while i < s.len()
        invariant
            from <= i <= s.len(),
            forall|j: int| from <= j < i ==> s@[j] != '.',
        decreases s.len() - i,
    {
        if s[i] == '.' {
            return Some(i);
        }
        i += 1;
    }
    None
}

fn second_field_of(s: &Vec<char>) -> (r: Option<Vec<char>>)
    ensures
        match r {
            Some(f) => second_field(s@) == Some(f@),
            None => second_field(s@) is None,
        },
{
    match find_dot(s, 0) {
        None => None,
        Some(i) => {
            let ghost rest = s@.subrange(i + 1, s@.len() as int);
            assert(forall|k: int| 0 <= k < rest.len() ==> rest[k] == s@[i + 1 + k]);
            let ghost first = choose|i: int| 0 <= i < s@.len() && s@[i] == '.' && forall|j: int| 0 <= j < i ==> s@[j] != '.';
            assert(first == i as int) by {
                if first < i {
                } else if first > i {
                    assert(s@[i as int] == '.');
                }
            }
            match find_dot(s, i + 1) {
                None => {
                    Some(slice_from(s, i + 1))
                },
                Some(k) => {
                    let ghost kk = k - (i + 1);
                    let ghost second = choose|k: int| 0 <= k < rest.len() && rest[k] == '.' && forall|j: int| 0 <= j < k ==> rest[j] != '.';
                    assert(rest[kk] == '.');
                    assert(second == kk) by {
                        if second < kk {
                            assert(rest[second] == s@[i + 1 + second]);
                        } else if second > kk {
                        }
                    }
                    let f = crate::text::slice_chars(s, i + 1, k);
                    assert(f@ =~= rest.subrange(0, kk));
                    Some(f)
                },
            }
        },
    }
}

fn slice_from(s: &Vec<char>, a: usize) -> (r: Vec<char>)
    requires
        a <= s.len(),
    ensures
        r@ == s@.subrange(a as int, s@.len() as int),
{
    crate::text::slice_chars(s, a, s.len())
}

/// Whether an address is loopback, link-local or in a private range
/// (`10/8`, `172.16/12`, `192.168/16`, `169.254/16`), after stripping brackets
/// and whitespace.
pub fn is_private_or_local(addr: &str) -> (r: bool)
    ensures
        r == private_or_local(addr@),
{
    let raw = chars_of(addr);
    let brackets: Vec<char> = vec!['[', ']'];
    assert(brackets@ =~= seq!['[', ']']);
    let stripped = trim_chars(&raw, &brackets);
    let a = trim_whitespace(&stripped);
    let text = crate::text::string_of_chars(&a);
    if starts_with_text(&a, "127.") || same_text(text.as_str(), "::1") || same_text(
        text.as_str(),
        "localhost",
    ) {
        return true;
    }
    if starts_with_text(&a, "10.") || starts_with_text(&a, "192.168.") || starts_with_text(
        &a,
        "169.254.",
    ) {
        return true;
    }
    if starts_with_text(&a, "172.") {
        if let Some(second) = second_field_of(&a) {
            if let Some(n) = parse_u8(&second) {
                if n >= 16 && n <= 31 {
                    return true;
                }
            }
        }
    }
    false
}

/// The dotted-quad text of an IPv4 address held least significant byte first.
pub open spec fn dotted_quad(ip: u32) -> Seq<char> {
    decimal((ip % 256) as nat) + "."@ + decimal(((ip / 256) % 256) as nat) + "."@ + decimal(
        ((ip / 65536) % 256) as nat,
    ) + "."@ + decimal((ip / 16777216) as nat)
}

/// Renders an IPv4 address held least significant byte first, as the system's
/// connection tables give it.
pub fn ip_to_string(ip: u32) -> (r: String)
    ensures
        r@ == dotted_quad(ip),
{
    let a = decimal_text((ip % 256) as u64);
    let b = decimal_text(((ip / 256) % 256) as u64);
    let c = decimal_text(((ip / 65536) % 256) as u64);
    let d = decimal_text((ip / 16777216) as u64);
    let mut s = join2(a.as_str(), ".");
    s.append(b.as_str());
    s.append(".");
    s.append(c.as_str());
    s.append(".");
    s.append(d.as_str());
    s
}

} // verus!
