//! Detection of keyboards that appear after start-up, as keystroke-injection
//! devices do.
use vstd::prelude::*;
use crate::shared::{Alert, alert_header, opt_text};
use crate::text::{join4, same_text};

verus! {

/// A keyboard as the device enumeration reports it.
#[derive(Debug, Clone)]
pub struct KeyboardDevice {
    pub instance_id: String,
    pub friendly_name: String,
}

/// The keyboards seen so far, and whether the first full scan is still to come.
#[derive(Debug)]
pub struct KeyboardWatch {
    pub seen: Vec<String>,
    pub first_scan: bool,
}

/// The identifiers of `v`.
pub open spec fn id_set(v: Seq<String>) -> Set<Seq<char>> {
    Set::new(|id: Seq<char>| exists|i: int| 0 <= i < v.len() && v[i]@ == id)
}

/// The identifiers of the devices `devs`.
pub open spec fn device_ids(devs: Seq<KeyboardDevice>) -> Set<Seq<char>> {
    Set::new(|id: Seq<char>| exists|i: int| 0 <= i < devs.len() && devs[i].instance_id@ == id)
}

/// The devices of `devs` that are new, in order, to a watch that has seen `seen`.
pub open spec fn fresh_devices(seen: Set<Seq<char>>, devs: Seq<KeyboardDevice>) -> Seq<KeyboardDevice>
    decreases devs.len(),
{
    if devs.len() == 0 {
        seq![]
    } else if seen.contains(devs[0].instance_id@) {
        fresh_devices(seen, devs.drop_first())
    } else {
        seq![devs[0]] + fresh_devices(seen.insert(devs[0].instance_id@), devs.drop_first())
    }
}

/// `a` reports the new keyboard `d`.
pub open spec fn keyboard_alert(a: Alert, d: KeyboardDevice) -> bool {
    &&& alert_header(a, "MEDIUM"@, "New USB keyboard device detected"@, d.instance_id@, "system"@)
    &&& a.command_line is None
    &&& opt_text(a.details) == Some("New keyboard: "@ + d.instance_id@ + " - "@ + d.friendly_name@)
}

impl KeyboardWatch {
    pub open spec fn seen_ids(&self) -> Set<Seq<char>> {
        id_set(self.seen@)
    }

    /// A watch that has seen nothing and waits for its first scan.
    pub fn new() -> (r: Self)
        ensures
            r.seen_ids() == Set::<Seq<char>>::empty(),
            r.first_scan,
    {
        let r = KeyboardWatch { seen: Vec::new(), first_scan: true };
        assert(r.seen_ids() =~= Set::<Seq<char>>::empty());
        r
    }

    /// Whether the keyboard has been seen.
    pub fn has_seen(&self, id: &str) -> (r: bool)
        ensures
            r == self.seen_ids().contains(id@),
    {
        let mut i: usize = 0;
        while i < self.seen.len()
            invariant
                i <= self.seen@.len(),
                forall|j: int| 0 <= j < i ==> self.seen@[j]@ != id@,
            decreases self.seen.len() - i,
        {
            if same_text(self.seen[i].as_str(), id) {
                return true;
            }
            i += 1;
        }
        false
    }

    fn remember(&mut self, id: &str)
        ensures
            final(self).seen_ids() == old(self).seen_ids().insert(id@),
            final(self).first_scan == old(self).first_scan,
    {
        if !self.has_seen(id) {
            self.seen.push(id.to_owned());
            assert forall|x: Seq<char>| #[trigger] final(self).seen_ids().contains(x) == old(self).seen_ids().insert(id@).contains(x) by {
                if old(self).seen_ids().contains(x) {
                    let i = choose|i: int| 0 <= i < old(self).seen@.len() && old(self).seen@[i]@ == x;
                    assert(self.seen@[i] == old(self).seen@[i]);
                }
                if final(self).seen_ids().contains(x) {
                    let i = choose|i: int| 0 <= i < self.seen@.len() && self.seen@[i]@ == x;
                    if i < old(self).seen@.len() {
                        assert(self.seen@[i] == old(self).seen@[i]);
                    }
                }
                if x == id@ {
                    assert(self.seen@[old(self).seen@.len() as int]@ == id@);
                }
            }
            assert(final(self).seen_ids() =~= old(self).seen_ids().insert(id@));
        } else {
            assert(final(self).seen_ids() =~= old(self).seen_ids().insert(id@));
        }
    }

    /// Marks the keyboards present at start-up as seen, without alerting.
    pub fn prime(&mut self, ids: &Vec<String>)
        ensures
            final(self).seen_ids() == old(self).seen_ids().union(id_set(ids@)),
            final(self).first_scan == old(self).first_scan,
    {
        let mut i: usize = 0;
        while i < ids.len()
            invariant
                i <= ids.len(),
                self.seen_ids() == old(self).seen_ids().union(id_set(ids@.subrange(0, i as int))),
                self.first_scan == old(self).first_scan,
            decreases ids.len() - i,
        {
            self.remember(ids[i].as_str());
            i += 1;
            assert(id_set(ids@.subrange(0, i as int)) =~= id_set(ids@.subrange(0, i - 1)).insert(ids@[i - 1]@)) by {
                assert forall|x: Seq<char>| #[trigger] id_set(ids@.subrange(0, i as int)).contains(x) implies id_set(ids@.subrange(0, i - 1)).insert(ids@[i - 1]@).contains(x) by {
                    let cur = ids@.subrange(0, i as int);
                    let k = choose|k: int| 0 <= k < cur.len() && cur[k]@ == x;
                    if k < i - 1 {
                        assert(ids@.subrange(0, i - 1)[k] == ids@[k]);
                    }
                }
                assert forall|x: Seq<char>| #[trigger] id_set(ids@.subrange(0, i - 1)).contains(x) implies id_set(ids@.subrange(0, i as int)).contains(x) by {
                    let pre = ids@.subrange(0, i - 1);
                    let k = choose|k: int| 0 <= k < pre.len() && pre[k]@ == x;
                    assert(ids@.subrange(0, i as int)[k] == ids@[k]);
                }
                assert(ids@.subrange(0, i as int)[i - 1] == ids@[i - 1]);
            }
            assert(self.seen_ids() =~= old(self).seen_ids().union(id_set(ids@.subrange(0, i as int))));
        }
        assert(ids@.subrange(0, ids@.len() as int) =~= ids@);
    }

    /// Takes in one successful enumeration. The first one only marks what it
    /// finds as seen; later ones raise one alert per keyboard not seen
    /// before, in order, and mark it seen.
    pub fn observe(&mut self, devices: &Vec<KeyboardDevice>) -> (r: Vec<Alert>)
        ensures
            !final(self).first_scan,
            final(self).seen_ids() == old(self).seen_ids().union(device_ids(devices@)),
            old(self).first_scan ==> r@.len() == 0,
            !old(self).first_scan ==> ({
                let fresh = fresh_devices(old(self).seen_ids(), devices@);
                &&& r@.len() == fresh.len()
                &&& forall|i: int| 0 <= i < fresh.len() ==> keyboard_alert(#[trigger] r@[i], fresh[i])
            }),
    {
        let mut alerts: Vec<Alert> = Vec::new();
        let first = self.first_scan;
        let ghost seen0 = self.seen_ids();
        let mut i: usize = 0;
        assert(devices@.subrange(0, devices@.len() as int) =~= devices@);
        assert(device_ids(devices@.subrange(0, 0)) =~= Set::<Seq<char>>::empty());
        assert(seen0.union(Set::<Seq<char>>::empty()) =~= seen0);
        while i < devices.len()
            invariant
                i <= devices.len(),
                first == old(self).first_scan,
                seen0 == old(self).seen_ids(),
                self.seen_ids() == seen0.union(device_ids(devices@.subrange(0, i as int))),
                first ==> alerts@.len() == 0,
                !first ==> ({
                    let rest = fresh_devices(self.seen_ids(), devices@.subrange(i as int, devices@.len() as int));
                    let all = fresh_devices(seen0, devices@);
                    &&& alerts@.len() + rest.len() == all.len()
                    &&& forall|k: int| 0 <= k < alerts@.len() ==> keyboard_alert(#[trigger] alerts@[k], all[k])
                    &&& forall|k: int| 0 <= k < rest.len() ==> all[alerts@.len() + k] == #[trigger] rest[k]
                }),
            decreases devices.len() - i,
        {
            let d = &devices[i];
            let ghost seen_i = self.seen_ids();
            let ghost tail = devices@.subrange(i as int, devices@.len() as int);
            let ghost rest_i = fresh_devices(seen_i, tail);
            let ghost all = fresh_devices(seen0, devices@);
            let ghost old_alerts = alerts@;
            assert(tail[0] == *d);
            assert(tail.drop_first() =~= devices@.subrange(i + 1, devices@.len() as int));
            let known = self.has_seen(d.instance_id.as_str());
            if !first && !known {
                let mut alert = Alert::new(
                    "MEDIUM",
                    "New USB keyboard device detected",
                    d.instance_id.as_str(),
                    "system",
                );
                alert.details = Some(
                    join4("New keyboard: ", d.instance_id.as_str(), " - ", d.friendly_name.as_str()),
                );
                alerts.push(alert);
                proof {
                    assert(rest_i == seq![*d] + fresh_devices(seen_i.insert(d.instance_id@), tail.drop_first()));
                    assert(rest_i[0] == *d);
                    assert(all[old_alerts.len() as int] == *d);
                    assert(keyboard_alert(alerts@[old_alerts.len() as int], *d));
                    assert forall|k: int| 0 <= k < alerts@.len() implies keyboard_alert(#[trigger] alerts@[k], all[k]) by {
                        if k < old_alerts.len() {
                            assert(alerts@[k] == old_alerts[k]);
                        }
                    }
                    let rest_n = fresh_devices(seen_i.insert(d.instance_id@), tail.drop_first());
                    assert forall|k: int| 0 <= k < rest_n.len() implies all[alerts@.len() + k] == #[trigger] rest_n[k] by {
                        assert(rest_i[k + 1] == rest_n[k]);
                    }
                }
            } else if !first {
                proof {
                    assert(seen_i.insert(d.instance_id@) =~= seen_i);
                    assert(rest_i == fresh_devices(seen_i, tail.drop_first()));
                }
            }
            self.remember(d.instance_id.as_str());
            i += 1;
            assert(device_ids(devices@.subrange(0, i as int)) =~= device_ids(devices@.subrange(0, i - 1)).insert(d.instance_id@)) by {
                assert forall|x: Seq<char>| #[trigger] device_ids(devices@.subrange(0, i as int)).contains(x) implies device_ids(devices@.subrange(0, i - 1)).insert(d.instance_id@).contains(x) by {
                    let cur = devices@.subrange(0, i as int);
                    let k = choose|k: int| 0 <= k < cur.len() && cur[k].instance_id@ == x;
                    if k < i - 1 {
                        assert(devices@.subrange(0, i - 1)[k] == devices@[k]);
                    }
                }
                assert forall|x: Seq<char>| #[trigger] device_ids(devices@.subrange(0, i - 1)).contains(x) implies device_ids(devices@.subrange(0, i as int)).contains(x) by {
                    let pre = devices@.subrange(0, i - 1);
                    let k = choose|k: int| 0 <= k < pre.len() && pre[k].instance_id@ == x;
                    assert(devices@.subrange(0, i as int)[k] == devices@[k]);
                }
                assert(devices@.subrange(0, i as int)[i - 1] == devices@[i - 1]);
            }
            assert(self.seen_ids() =~= seen0.union(device_ids(devices@.subrange(0, i as int))));
        }
        assert(devices@.subrange(0, devices@.len() as int) =~= devices@);
        self.first_scan = false;
        alerts
    }
}

} // verus!
