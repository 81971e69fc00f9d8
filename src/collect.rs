//! Pure steps of the sensor's polling collectors: reading connection-table
//! lines and keeping the bounded event buffers.
use vstd::prelude::*;
use crate::netaddr::{parse_unsigned, unsigned_value};
use crate::shared::ProcessEvent;
use crate::text::{
    chars_of, decimal, decimal_text, is_ws_exec, same_text, slice_chars, string_of_chars,
    word_end, ws_end,
};

verus! {

/// Capacity of each shared event buffer; the oldest entry goes first.
pub const BUFFER_CAPACITY: usize = 1000;

/// The whitespace-separated words of `s` from position `i` on.
pub open spec fn words_from(s: Seq<char>, i: int) -> Seq<Seq<char>>
    decreases s.len() - i,
{
    if i < 0 || i >= s.len() {
        seq![]
    } else {
        let a = ws_end(s, i);
        if a >= s.len() {
            seq![]
        } else {
            let b = word_end(s, a);
            if b <= i || b > s.len() {
                seq![]
            } else {
                seq![s.subrange(a, b)] + words_from(s, b)
            }
        }
    }
}

/// The whitespace-separated words of `s`, as `split_whitespace` gives them.
pub open spec fn words(s: Seq<char>) -> Seq<Seq<char>> {
    words_from(s, 0)
}

pub open spec fn word_texts(v: Seq<Vec<char>>) -> Seq<Seq<char>> {
    v.map_values(|w: Vec<char>| w@)
}

/// The whitespace-separated words of `s`.
pub fn words_of(s: &Vec<char>) -> (r: Vec<Vec<char>>)
    ensures
        word_texts(r@) == words(s@),
{
    let mut out: Vec<Vec<char>> = Vec::new();
    let mut pos: usize = 0;
    while pos < s.len()
        invariant
            pos <= s.len(),
            word_texts(out@) + words_from(s@, pos as int) == words(s@),
        decreases s.len() - pos,
    {
        let mut a: usize = pos;
        while a < s.len() && is_ws_exec(s[a])
            invariant
                pos <= a <= s.len(),
                ws_end(s@, pos as int) == ws_end(s@, a as int),
            decreases s.len() - a,
        {
            a += 1;
        }
        if a >= s.len() {
            assert(words_from(s@, pos as int) =~= Seq::<Seq<char>>::empty());
            assert(word_texts(out@) + words_from(s@, s.len() as int) =~= word_texts(out@));
            pos = s.len();
        } else {
            let mut b: usize = a;
            while b < s.len() && !is_ws_exec(s[b])
                invariant
                    a <= b <= s.len(),
                    word_end(s@, a as int) == word_end(s@, b as int),
                decreases s.len() - b,
            {
                b += 1;
            }
            if b <= pos {
                assert(words_from(s@, pos as int) =~= Seq::<Seq<char>>::empty());
                assert(word_texts(out@) + words_from(s@, s.len() as int) =~= word_texts(out@));
                pos = s.len();
            } else {
                let w = slice_chars(s, a, b);
                let ghost before = word_texts(out@);
                out.push(w);
                assert(word_texts(out@) =~= before.push(s@.subrange(a as int, b as int)));
                assert(word_texts(out@) + words_from(s@, b as int) =~= before + words_from(s@, pos as int));
                pos = b;
            }
        }
    }
    assert(words_from(s@, pos as int) =~= Seq::<Seq<char>>::empty());
    assert(word_texts(out@) + words_from(s@, pos as int) =~= word_texts(out@));
    out
}

/// The position of the last `:` of `s`.
pub open spec fn last_colon(s: Seq<char>) -> Option<int> {
    if exists|k: int| 0 <= k < s.len() && s[k] == ':' {
        Some(choose|k: int| 0 <= k < s.len() && s[k] == ':' && forall|j: int| k < j < s.len() ==> s[j] != ':')
    } else {
        None
    }
}

fn find_last_colon(s: &Vec<char>) -> (r: Option<usize>)
    ensures
        match r {
            Some(k) => k < s@.len() && last_colon(s@) == Some(k as int),
            None => last_colon(s@) is None,
        },
{
    let mut i: usize = s.len();
    while i > 0
        invariant
            i <= s.len(),
            forall|j: int| i <= j < s.len() ==> s@[j] != ':',
        decreases i,
    {
        if s[i - 1] == ':' {
            let k = i - 1;
            let ghost c = choose|c: int| 0 <= c < s@.len() && s@[c] == ':' && forall|j: int| c < j < s@.len() ==> s@[j] != ':';
            assert(c == k) by {
                if c < k {
                    assert(s@[k as int] == ':');
                }
            }
            return Some(k);
        }
        i -= 1;
    }
    None
}

/// One established TCP connection read from a connection-table line.
#[derive(Debug, Clone)]
pub struct NetstatEntry {
    pub pid: u32,
    pub local: String,
    pub local_port: u16,
    pub remote: String,
    pub remote_addr: String,
    pub remote_port: u16,
}

/// The port that a port text reads as, `0` where it does not read.
pub open spec fn port_or_zero(t: Seq<char>) -> int {
    match unsigned_value(t, 65535) {
        Some(v) => v,
        None => 0,
    }
}

/// `e` is the entry that the connection-table line `line` describes:
/// `TCP local remote ESTABLISHED pid`, with a nonzero pid and a remote
/// endpoint split at its last `:`.
pub open spec fn netstat_entry(line: Seq<char>, e: NetstatEntry) -> bool {
    let w = words(line);
    &&& w.len() >= 5
    &&& w[0] == "TCP"@
    &&& w[3] == "ESTABLISHED"@
    &&& unsigned_value(w[4], u32::MAX as int) == Some(e.pid as int)
    &&& e.pid > 0
    &&& e.local@ == w[1]
    &&& e.local_port == match last_colon(w[1]) {
        Some(k) => port_or_zero(w[1].subrange(k + 1, w[1].len() as int)),
        None => 0,
    }
    &&& e.remote@ == w[2]
    &&& match last_colon(w[2]) {
        Some(k) => e.remote_addr@ == w[2].subrange(0, k) && e.remote_port == port_or_zero(
            w[2].subrange(k + 1, w[2].len() as int),
        ),
        None => false,
    }
}

/// The line describes some established TCP connection.
pub open spec fn describes_connection(line: Seq<char>) -> bool {
    let w = words(line);
    &&& w.len() >= 5
    &&& w[0] == "TCP"@
    &&& w[3] == "ESTABLISHED"@
    &&& match unsigned_value(w[4], u32::MAX as int) {
        Some(p) => p > 0,
        None => false,
    }
    &&& last_colon(w[2]) is Some
}

/// The port after the last `:` of an endpoint, `0` where none reads.
fn endpoint_port(ep: &Vec<char>) -> (r: u16)
    ensures
        r == match last_colon(ep@) {
            Some(k) => port_or_zero(ep@.subrange(k + 1, ep@.len() as int)),
            None => 0,
        },
{
    match find_last_colon(ep) {
        None => 0,
        Some(k) => {
            assert(k < ep.len());
            let t = slice_chars(ep, k + 1, ep.len());
            match parse_unsigned(&t, 65535) {
                Some(v) => v as u16,
                None => 0,
            }
        },
    }
}

/// Reads one line of the connection table (`Proto Local Remote State PID`);
/// only established TCP connections with a nonzero pid are taken.
pub fn parse_netstat_line(line: &str) -> (r: Option<NetstatEntry>)
    ensures
        match r {
            Some(e) => netstat_entry(line@, e),
            None => !describes_connection(line@),
        },
{
    let h = chars_of(line);
    let w = words_of(&h);
    proof {
        assert(word_texts(w@).len() == w@.len());
    }
    if w.len() < 5 {
        return None;
    }
    assert(word_texts(w@)[0] == w@[0]@);
    assert(word_texts(w@)[1] == w@[1]@);
    assert(word_texts(w@)[2] == w@[2]@);
    assert(word_texts(w@)[3] == w@[3]@);
    assert(word_texts(w@)[4] == w@[4]@);
    let w0 = string_of_chars(&w[0]);
    if !same_text(w0.as_str(), "TCP") {
        return None;
    }
    let pid = match parse_unsigned(&w[4], 0xFFFF_FFFF) {
        Some(p) => p as u32,
        None => {
            return None;
        },
    };
    let w3 = string_of_chars(&w[3]);
    if !same_text(w3.as_str(), "ESTABLISHED") || pid == 0 {
        return None;
    }
    let remote = &w[2];
    match find_last_colon(remote) {
        None => None,
        Some(k) => {
            let addr = slice_chars(remote, 0, k);
            let port_text = slice_chars(remote, k + 1, remote.len());
            let port: u16 = match parse_unsigned(&port_text, 65535) {
                Some(v) => v as u16,
                None => 0,
            };
            Some(
                NetstatEntry {
                    pid,
                    local: string_of_chars(&w[1]),
                    local_port: endpoint_port(&w[1]),
                    remote: string_of_chars(remote),
                    remote_addr: string_of_chars(&addr),
                    remote_port: port,
                },
            )
        },
    }
}

/// The key that identifies a connection across polls: `pid-local-remote`.
pub open spec fn connection_key_text(e: NetstatEntry) -> Seq<char> {
    decimal(e.pid as nat) + "-"@ + e.local@ + "-"@ + e.remote@
}

/// The key that identifies a connection across polls.
pub fn connection_key(e: &NetstatEntry) -> (r: String)
    ensures
        r@ == connection_key_text(*e),
{
    let pid = decimal_text(e.pid as u64);
    let mut s = crate::text::join4(pid.as_str(), "-", e.local.as_str(), "-");
    s.append(e.remote.as_str());
    s
}

/// `s` with `x` appended, then its oldest entry dropped if it holds more than `cap`.
pub open spec fn bounded_push<T>(s: Seq<T>, x: T, cap: nat) -> Seq<T> {
    if s.len() + 1 > cap {
        s.push(x).drop_first()
    } else {
        s.push(x)
    }
}

/// Appends to a buffer that keeps at most `cap` entries, dropping the oldest.
pub fn push_bounded<T>(list: &mut Vec<T>, item: T, cap: usize)
    ensures
        final(list)@ == bounded_push(old(list)@, item, cap as nat),
{
    list.push(item);
    if list.len() > cap {
        list.remove(0);
        assert(list@ =~= old(list)@.push(item).drop_first());
    }
}

/// Some entry of `s` is of process `pid`.
pub open spec fn has_pid(s: Seq<ProcessEvent>, pid: u32) -> bool {
    exists|i: int| 0 <= i < s.len() && s[i].pid == pid
}

/// `i` is the first entry of `s` of process `pid`.
pub open spec fn first_of_pid(s: Seq<ProcessEvent>, pid: u32, i: int) -> bool {
    0 <= i < s.len() && s[i].pid == pid && forall|j: int| 0 <= j < i ==> s[j].pid != pid
}

/// The position of the first entry of process `pid`.
pub fn find_process(list: &Vec<ProcessEvent>, pid: u32) -> (r: Option<usize>)
    ensures
        match r {
            Some(i) => first_of_pid(list@, pid, i as int),
            None => !has_pid(list@, pid),
        },
{
    let mut i: usize = 0;
    while i < list.len()
        invariant
            i <= list.len(),
            forall|j: int| 0 <= j < i ==> list@[j].pid != pid,
        decreases list.len() - i,
    {
        if list[i].pid == pid {
            return Some(i);
        }
        i += 1;
    }
    None
}

/// Whether the buffer holds a record of process `pid`.
pub fn has_process(list: &Vec<ProcessEvent>, pid: u32) -> (r: bool)
    ensures
        r == has_pid(list@, pid),
{
    find_process(list, pid).is_some()
}

/// The parent image that a new record gets: the image of the first buffered
/// record of its parent, else its own.
pub open spec fn parent_image_for(s: Seq<ProcessEvent>, e: ProcessEvent) -> Seq<char> {
    if has_pid(s, e.parent_pid) {
        s[choose|i: int| first_of_pid(s, e.parent_pid, i)].image@
    } else {
        e.parent_image@
    }
}

/// `x` is `e` with its parent image set to `parent`.
pub open spec fn with_parent(x: ProcessEvent, e: ProcessEvent, parent: Seq<char>) -> bool {
    &&& x.timestamp == e.timestamp
    &&& x.pid == e.pid
    &&& x.parent_pid == e.parent_pid
    &&& x.image == e.image
    &&& x.command_line == e.command_line
    &&& x.is_signed == e.is_signed
    &&& x.parent_image@ == parent
}

/// Buffers the record of a process start: a process that the buffer already
/// holds is not recorded again (returns false). A new record first gets its
/// parent image from the buffered record of its parent; the buffer keeps its
/// newest entries.
pub fn record_process(list: &mut Vec<ProcessEvent>, event: ProcessEvent) -> (r: bool)
    ensures
        r == !has_pid(old(list)@, event.pid),
        !r ==> final(list)@ == old(list)@,
        r ==> ({
            let base = if old(list)@.len() + 1 > BUFFER_CAPACITY {
                old(list)@.drop_first()
            } else {
                old(list)@
            };
            &&& final(list)@.len() == base.len() + 1
            &&& forall|i: int| 0 <= i < base.len() ==> final(list)@[i] == base[i]
            &&& with_parent(final(list)@[base.len() as int], event, parent_image_for(old(list)@, event))
        }),
{
    if has_process(list, event.pid) {
        return false;
    }
    let ghost e0 = event;
    let mut event = event;
    match find_process(list, event.parent_pid) {
        Some(i) => {
            event.parent_image = list[i].image.clone();
            proof {
                let k = choose|k: int| first_of_pid(old(list)@, e0.parent_pid, k);
                assert(k == i) by {
                    if k < i {
                    } else if k > i {
                        assert(list@[i as int].pid == e0.parent_pid);
                    }
                }
            }
        },
        None => {},
    }
    let ghost filled = event;
    push_bounded(list, event, BUFFER_CAPACITY);
    assert(final(list)@ == bounded_push(old(list)@, filled, BUFFER_CAPACITY as nat));
    true
}

/// Buffers a record of a process that the buffer does not hold yet; returns
/// whether it was added.
pub fn insert_if_missing(list: &mut Vec<ProcessEvent>, event: ProcessEvent) -> (r: bool)
    ensures
        r == !has_pid(old(list)@, event.pid),
        r ==> final(list)@ == bounded_push(old(list)@, event, BUFFER_CAPACITY as nat),
        !r ==> final(list)@ == old(list)@,
{
    if has_process(list, event.pid) {
        return false;
    }
    push_bounded(list, event, BUFFER_CAPACITY);
    true
}

} // verus!

verus! {

/// The pids of `cur` that `prev` lacks, in the order of `cur`.
pub open spec fn added_pids(prev: Seq<u32>, cur: Seq<u32>) -> Seq<u32> {
    cur.filter(|p: u32| !prev.contains(p))
}

/// The pids of a new process listing that the previous listing lacks; with
/// the listings swapped, the pids that are gone.
pub fn new_pids(prev: &Vec<u32>, cur: &Vec<u32>) -> (r: Vec<u32>)
    ensures
        r@ == added_pids(prev@, cur@),
{
    let mut out: Vec<u32> = Vec::new();
    let mut i: usize = 0;
    while i < cur.len()
        invariant
            i <= cur.len(),
            out@ == added_pids(prev@, cur@.subrange(0, i as int)),
        decreases cur.len() - i,
    {
        let p = cur[i];
        let mut known = false;
        let mut j: usize = 0;
        while j < prev.len()
            invariant
                j <= prev.len(),
                known == exists|k: int| 0 <= k < j && prev@[k] == p,
            decreases prev.len() - j,
        {
            if prev[j] == p {
                known = true;
            }
            j += 1;
        }
        proof {
            reveal(Seq::filter);
            assert(cur@.subrange(0, i + 1).drop_last() =~= cur@.subrange(0, i as int));
            assert(known == prev@.contains(p));
        }
        if !known {
            out.push(p);
        }
        i += 1;
    }
    assert(cur@.subrange(0, cur@.len() as int) =~= cur@);
    out
}

} // verus!

verus! {

/// Texts already seen, such as connection keys.
#[derive(Debug)]
pub struct KeySet {
    pub keys: Vec<String>,
}

impl View for KeySet {
    type V = Set<Seq<char>>;

    open spec fn view(&self) -> Set<Seq<char>> {
        Set::new(|k: Seq<char>| exists|i: int| 0 <= i < self.keys@.len() && self.keys@[i]@ == k)
    }
}

impl KeySet {
    /// A set with no key.
    pub fn new() -> (r: Self)
        ensures
            r@ == Set::<Seq<char>>::empty(),
    {
        let r = KeySet { keys: Vec::new() };
        assert(r@ =~= Set::<Seq<char>>::empty());
        r
    }

    /// How many keys are held.
    pub fn len(&self) -> (r: usize)
        ensures
            r == self.keys@.len(),
    {
        self.keys.len()
    }

    /// Whether the key is held.
    pub fn contains(&self, key: &str) -> (r: bool)
        ensures
            r == self@.contains(key@),
    {
        let mut i: usize = 0;
        while i < self.keys.len()
            invariant
                i <= self.keys@.len(),
                forall|j: int| 0 <= j < i ==> self.keys@[j]@ != key@,
            decreases self.keys.len() - i,
        {
            if same_text(self.keys[i].as_str(), key) {
                return true;
            }
            i += 1;
        }
        false
    }

    /// Adds a key; returns whether it is new.
    pub fn insert(&mut self, key: &str) -> (r: bool)
        ensures
            r == !old(self)@.contains(key@),
            final(self)@ == old(self)@.insert(key@),
    {
        if self.contains(key) {
            assert(self@ =~= old(self)@.insert(key@));
            return false;
        }
        self.keys.push(key.to_owned());
        assert forall|x: Seq<char>| #[trigger] final(self)@.contains(x) == old(self)@.insert(key@).contains(x) by {
            if old(self)@.contains(x) {
                let i = choose|i: int| 0 <= i < old(self).keys@.len() && old(self).keys@[i]@ == x;
                assert(self.keys@[i] == old(self).keys@[i]);
            }
            if final(self)@.contains(x) {
                let i = choose|i: int| 0 <= i < self.keys@.len() && self.keys@[i]@ == x;
                if i < old(self).keys@.len() {
                    assert(self.keys@[i] == old(self).keys@[i]);
                }
            }
            if x == key@ {
                assert(self.keys@[old(self).keys@.len() as int]@ == key@);
            }
        }
        assert(final(self)@ =~= old(self)@.insert(key@));
        true
    }

    /// Forgets every key once more than `cap` are held, to bound memory.
    pub fn clear_if_over(&mut self, cap: usize)
        ensures
            old(self).keys@.len() > cap ==> final(self)@ == Set::<Seq<char>>::empty(),
            old(self).keys@.len() <= cap ==> final(self)@ == old(self)@,
    {
        if self.keys.len() > cap {
            self.keys.clear();
            assert(self@ =~= Set::<Seq<char>>::empty());
        }
    }
}

/// The key of a connection of process `pid` between two endpoints.
pub open spec fn endpoint_key_text(
    pid: u32,
    local: Seq<char>,
    local_port: u16,
    remote: Seq<char>,
    remote_port: u16,
) -> Seq<char> {
    decimal(pid as nat) + "-"@ + local + "-"@ + decimal(local_port as nat) + "-"@ + remote + "-"@
        + decimal(remote_port as nat)
}

/// The key of a connection: `pid-local-localport-remote-remoteport`.
pub fn endpoint_key(pid: u32, local: &str, local_port: u16, remote: &str, remote_port: u16) -> (r: String)
    ensures
        r@ == endpoint_key_text(pid, local@, local_port, remote@, remote_port),
{
    let p = decimal_text(pid as u64);
    let lp = decimal_text(local_port as u64);
    let rp = decimal_text(remote_port as u64);
    let mut s = crate::text::join4(p.as_str(), "-", local, "-");
    s.append(lp.as_str());
    s.append("-");
    s.append(remote);
    s.append("-");
    s.append(rp.as_str());
    s
}

} // verus!
