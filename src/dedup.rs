//! Alert deduplication: at most one alert per process and rule.
//!
//! The policy is a permanent set of `(pid, rule)` keys for the life of the
//! sensor; only the unsigned-network rule keeps, besides, a per-process
//! counter that restarts after it fires (see `rules::NetCounter`).
use vstd::prelude::*;
use crate::text::same_text;

verus! {

/// The dedup key of an alert: process id and rule name.
pub type AlertKey = (u32, Seq<char>);

/// The keys already reported, kept for the life of the sensor.
#[derive(Debug)]
pub struct AlertLedger {
    pub entries: Vec<(u32, String)>,
}

impl View for AlertLedger {
    type V = Set<AlertKey>;

    open spec fn view(&self) -> Set<AlertKey> {
        Set::new(
            |k: AlertKey|
                exists|i: int| 0 <= i < self.entries@.len() && self.entries@[i].0 == k.0 && self.entries@[i].1@ == k.1,
        )
    }
}

impl AlertLedger {
    /// A ledger that has seen nothing.
    pub fn new() -> (r: Self)
        ensures
            r@ == Set::<AlertKey>::empty(),
    {
        let r = AlertLedger { entries: Vec::new() };
        assert(r@ =~= Set::<AlertKey>::empty());
        r
    }

    /// Whether the key has been reported.
    pub fn contains(&self, pid: u32, rule: &str) -> (r: bool)
        ensures
            r == self@.contains((pid, rule@)),
    {
        let mut i: usize = 0;
        while i < self.entries.len()
            invariant
                i <= self.entries@.len(),
                forall|j: int| 0 <= j < i ==> !(self.entries@[j].0 == pid && self.entries@[j].1@ == rule@),
            decreases self.entries.len() - i,
        {
            if self.entries[i].0 == pid && same_text(self.entries[i].1.as_str(), rule) {
                return true;
            }
            i += 1;
        }
        false
    }

    /// Records the key of an alert. Returns whether it is new, that is,
    /// whether the alert is to be persisted; a repeated key is dropped.
    pub fn record(&mut self, pid: u32, rule: &str) -> (r: bool)
        ensures
            r == !old(self)@.contains((pid, rule@)),
            final(self)@ == old(self)@.insert((pid, rule@)),
    {
        if self.contains(pid, rule) {
            assert(self@ =~= old(self)@.insert((pid, rule@)));
            return false;
        }
        self.entries.push((pid, rule.to_owned()));
        assert(self@ =~= old(self)@.insert((pid, rule@))) by {
            assert forall|k: AlertKey| #[trigger] self@.contains(k) == old(self)@.insert((pid, rule@)).contains(k) by {
                if old(self)@.contains(k) {
                    let i = choose|i: int| 0 <= i < old(self).entries@.len() && old(self).entries@[i].0 == k.0 && old(self).entries@[i].1@ == k.1;
                    assert(self.entries@[i] == old(self).entries@[i]);
                }
                if k == (pid, rule@) {
                    let n = old(self).entries@.len() as int;
                    assert(self.entries@[n].0 == k.0 && self.entries@[n].1@ == k.1);
                }
                if self@.contains(k) {
                    let i = choose|i: int| 0 <= i < self.entries@.len() && self.entries@[i].0 == k.0 && self.entries@[i].1@ == k.1;
                    if i < old(self).entries@.len() {
                        assert(old(self).entries@[i] == self.entries@[i]);
                    }
                }
            }
        }
        true
    }
}

/// How many times `k` is admitted when the keys `keys` are offered in turn to
/// a ledger that has seen `seen`.
pub open spec fn admissions(seen: Set<AlertKey>, keys: Seq<AlertKey>, k: AlertKey) -> nat
    decreases keys.len(),
{
    if keys.len() == 0 {
        0
    } else {
        (if keys[0] == k && !seen.contains(k) {
            1nat
        } else {
            0nat
        }) + admissions(seen.insert(keys[0]), keys.drop_first(), k)
    }
}

/// At most one alert per process and rule is ever persisted: whatever keys
/// are offered, each is admitted at most once, and never once it has been seen.
pub proof fn lemma_admitted_at_most_once(seen: Set<AlertKey>, keys: Seq<AlertKey>, k: AlertKey)
    ensures
        admissions(seen, keys, k) <= 1,
        seen.contains(k) ==> admissions(seen, keys, k) == 0,
    decreases keys.len(),
{
    if keys.len() > 0 {
        lemma_admitted_at_most_once(seen.insert(keys[0]), keys.drop_first(), k);
        if keys[0] == k {
            assert(seen.insert(keys[0]).contains(k));
        }
        if seen.contains(k) {
            assert(seen.insert(keys[0]).contains(k));
        }
    }
}

} // verus!
