//! Changes between two snapshots of the monitored registry keys.
use vstd::prelude::*;
use crate::clock::now_rfc3339;
use crate::shared::RegistryEvent;
use crate::text::same_text;

verus! {

/// One value under a registry key, its data rendered as text.
#[derive(Debug, Clone)]
pub struct RegValue {
    pub name: String,
    pub data: String,
}

/// The values of one monitored key, as read at one moment.
#[derive(Debug, Clone)]
pub struct RegKeySnapshot {
    pub key_path: String,
    pub values: Vec<RegValue>,
}

/// How a value changed between two snapshots.
#[derive(Debug, Clone, Copy, PartialEq, Eq, Structural)]
pub enum ChangeKind {
    Created,
    Modified,
    Deleted,
}

/// One value that changed.
#[derive(Debug, Clone)]
pub struct RegistryChange {
    pub key_path: String,
    pub value_name: String,
    pub value_data: String,
    pub kind: ChangeKind,
}

pub type ChangeModel = (Seq<char>, Seq<char>, Seq<char>, ChangeKind);

pub open spec fn change_models(v: Seq<RegistryChange>) -> Seq<ChangeModel> {
    v.map_values(|c: RegistryChange| (c.key_path@, c.value_name@, c.value_data@, c.kind))
}

/// `j` is the first value of `vals` named `name`.
pub open spec fn first_named(vals: Seq<RegValue>, name: Seq<char>, j: int) -> bool {
    0 <= j < vals.len() && vals[j].name@ == name && forall|k: int| 0 <= k < j ==> vals[k].name@ != name
}

pub open spec fn has_named(vals: Seq<RegValue>, name: Seq<char>) -> bool {
    exists|j: int| 0 <= j < vals.len() && vals[j].name@ == name
}

/// The data of the first value of `vals` named `name`.
pub open spec fn data_named(vals: Seq<RegValue>, name: Seq<char>) -> Seq<char> {
    vals[choose|j: int| first_named(vals, name, j)].data@
}

/// What one current value reports against the earlier values of its key.
pub open spec fn value_change(key: Seq<char>, olds: Seq<RegValue>, v: RegValue) -> Seq<ChangeModel> {
    if has_named(olds, v.name@) {
        if data_named(olds, v.name@) != v.data@ {
            seq![(key, v.name@, v.data@, ChangeKind::Modified)]
        } else {
            seq![]
        }
    } else {
        seq![(key, v.name@, v.data@, ChangeKind::Created)]
    }
}

/// The created and modified values of a key, in the current order.
pub open spec fn created_or_modified(key: Seq<char>, olds: Seq<RegValue>, news: Seq<RegValue>) -> Seq<ChangeModel>
    decreases news.len(),
{
    if news.len() == 0 {
        seq![]
    } else {
        created_or_modified(key, olds, news.drop_last()) + value_change(key, olds, news.last())
    }
}

/// The deleted values of a key, in the earlier order.
pub open spec fn deleted_values(key: Seq<char>, olds: Seq<RegValue>, news: Seq<RegValue>) -> Seq<ChangeModel>
    decreases olds.len(),
{
    if olds.len() == 0 {
        seq![]
    } else {
        deleted_values(key, olds.drop_last(), news) + if has_named(news, olds.last().name@) {
            seq![]
        } else {
            seq![(key, olds.last().name@, "<deleted>"@, ChangeKind::Deleted)]
        }
    }
}

/// `j` is the first key snapshot of `keys` with path `path`.
pub open spec fn first_key(keys: Seq<RegKeySnapshot>, path: Seq<char>, j: int) -> bool {
    0 <= j < keys.len() && keys[j].key_path@ == path && forall|k: int| 0 <= k < j ==> keys[k].key_path@ != path
}

pub open spec fn has_key(keys: Seq<RegKeySnapshot>, path: Seq<char>) -> bool {
    exists|j: int| 0 <= j < keys.len() && keys[j].key_path@ == path
}

/// The changes of one current key against the earlier snapshot: none for a
/// key that the earlier snapshot lacks.
pub open spec fn key_change(olds: Seq<RegKeySnapshot>, k: RegKeySnapshot) -> Seq<ChangeModel> {
    if has_key(olds, k.key_path@) {
        let o = olds[choose|j: int| first_key(olds, k.key_path@, j)];
        created_or_modified(k.key_path@, o.values@, k.values@) + deleted_values(k.key_path@, o.values@, k.values@)
    } else {
        seq![]
    }
}

/// All changes, key by key in the current snapshot's order.
pub open spec fn snapshot_changes(olds: Seq<RegKeySnapshot>, news: Seq<RegKeySnapshot>) -> Seq<ChangeModel>
    decreases news.len(),
{
    if news.len() == 0 {
        seq![]
    } else {
        snapshot_changes(olds, news.drop_last()) + key_change(olds, news.last())
    }
}

fn find_named(vals: &Vec<RegValue>, name: &str) -> (r: Option<usize>)
    ensures
        match r {
            Some(j) => first_named(vals@, name@, j as int),
            None => !has_named(vals@, name@),
        },
{
    let mut j: usize = 0;
    while j < vals.len()
        invariant
            j <= vals.len(),
            forall|k: int| 0 <= k < j ==> vals@[k].name@ != name@,
        decreases vals.len() - j,
    {
        if same_text(vals[j].name.as_str(), name) {
            return Some(j);
        }
        j += 1;
    }
    None
}

fn find_key(keys: &Vec<RegKeySnapshot>, path: &str) -> (r: Option<usize>)
    ensures
        match r {
            Some(j) => first_key(keys@, path@, j as int),
            None => !has_key(keys@, path@),
        },
{
    let mut j: usize = 0;
    while j < keys.len()
        invariant
            j <= keys.len(),
            forall|k: int| 0 <= k < j ==> keys@[k].key_path@ != path@,
        decreases keys.len() - j,
    {
        if same_text(keys[j].key_path.as_str(), path) {
            return Some(j);
        }
        j += 1;
    }
    None
}

fn change(key: &str, name: &str, data: &str, kind: ChangeKind) -> (r: RegistryChange)
    ensures
        (r.key_path@, r.value_name@, r.value_data@, r.kind) == (key@, name@, data@, kind),
{
    RegistryChange { key_path: key.to_owned(), value_name: name.to_owned(), value_data: data.to_owned(), kind }
}

fn key_changes_into(out: &mut Vec<RegistryChange>, key: &str, olds: &Vec<RegValue>, news: &Vec<RegValue>)
    ensures
        change_models(final(out)@) == change_models(old(out)@) + created_or_modified(key@, olds@, news@)
            + deleted_values(key@, olds@, news@),
{
    let ghost start = change_models(out@);
    let mut i: usize = 0;
    while i < news.len()
        invariant
            i <= news.len(),
            change_models(out@) == start + created_or_modified(key@, olds@, news@.subrange(0, i as int)),
        decreases news.len() - i,
    {
        let v = &news[i];
        let ghost before = change_models(out@);
        assert(news@.subrange(0, i + 1).drop_last() =~= news@.subrange(0, i as int));
        assert(news@.subrange(0, i + 1).last() == *v);
        match find_named(olds, v.name.as_str()) {
            Some(j) => {
                proof {
                    let c = choose|c: int| first_named(olds@, v.name@, c);
                    assert(c == j) by {
                        if c < j {
                        } else if c > j {
                        }
                    }
                }
                if !same_text(olds[j].data.as_str(), v.data.as_str()) {
                    out.push(change(key, v.name.as_str(), v.data.as_str(), ChangeKind::Modified));
                }
            },
            None => {
                out.push(change(key, v.name.as_str(), v.data.as_str(), ChangeKind::Created));
            },
        }
        i += 1;
        assert(change_models(out@) =~= before + value_change(key@, olds@, *v));
    }
    assert(news@.subrange(0, news@.len() as int) =~= news@);
    let ghost mid = change_models(out@);
    let mut k: usize = 0;
    while k < olds.len()
        invariant
            k <= olds.len(),
            change_models(out@) == mid + deleted_values(key@, olds@.subrange(0, k as int), news@),
        decreases olds.len() - k,
    {
        let o = &olds[k];
        let ghost before = change_models(out@);
        assert(olds@.subrange(0, k + 1).drop_last() =~= olds@.subrange(0, k as int));
        assert(olds@.subrange(0, k + 1).last() == *o);
        if find_named(news, o.name.as_str()).is_none() {
            out.push(change(key, o.name.as_str(), "<deleted>", ChangeKind::Deleted));
        }
        k += 1;
        assert(change_models(out@) =~= before + if has_named(news@, o.name@) {
            seq![]
        } else {
            seq![(key@, o.name@, "<deleted>"@, ChangeKind::Deleted)]
        });
    }
    assert(olds@.subrange(0, olds@.len() as int) =~= olds@);
}

/// The value changes between two snapshots of the monitored keys: for each
/// key present in both, the values created or modified (in the current
/// order), then those deleted (in the earlier order, with data `<deleted>`).
pub fn diff_snapshots(before: &Vec<RegKeySnapshot>, after: &Vec<RegKeySnapshot>) -> (r: Vec<RegistryChange>)
    ensures
        change_models(r@) == snapshot_changes(before@, after@),
{
    let mut out: Vec<RegistryChange> = Vec::new();
    let mut i: usize = 0;
    assert(change_models(out@) =~= Seq::<ChangeModel>::empty());
    while i < after.len()
        invariant
            i <= after.len(),
            change_models(out@) == snapshot_changes(before@, after@.subrange(0, i as int)),
        decreases after.len() - i,
    {
        let k = &after[i];
        let ghost prev = change_models(out@);
        assert(after@.subrange(0, i + 1).drop_last() =~= after@.subrange(0, i as int));
        assert(after@.subrange(0, i + 1).last() == *k);
        match find_key(before, k.key_path.as_str()) {
            Some(j) => {
                proof {
                    let c = choose|c: int| first_key(before@, k.key_path@, c);
                    assert(c == j) by {
                        if c < j {
                        } else if c > j {
                        }
                    }
                }
                key_changes_into(&mut out, k.key_path.as_str(), &before[j].values, &k.values);
                assert(change_models(out@) =~= prev + key_change(before@, *k));
            },
            None => {
                assert(change_models(out@) =~= prev + key_change(before@, *k));
            },
        }
        i += 1;
    }
    assert(after@.subrange(0, after@.len() as int) =~= after@);
    out
}

/// The name of a change kind in the registry log.
pub open spec fn kind_name(k: ChangeKind) -> Seq<char> {
    match k {
        ChangeKind::Created => "created"@,
        ChangeKind::Modified => "modified"@,
        ChangeKind::Deleted => "deleted"@,
    }
}

impl RegistryChange {
    /// The registry-log record of this change, stamped with the current time.
    pub fn to_event(&self) -> (r: RegistryEvent)
        ensures
            r.key_path@ == self.key_path@,
            r.value_name@ == self.value_name@,
            r.value_data@ == self.value_data@,
            r.event_type@ == kind_name(self.kind),
    {
        let kind = match self.kind {
            ChangeKind::Created => "created",
            ChangeKind::Modified => "modified",
            ChangeKind::Deleted => "deleted",
        };
        RegistryEvent {
            timestamp: now_rfc3339(),
            key_path: self.key_path.clone(),
            value_name: self.value_name.clone(),
            value_data: self.value_data.clone(),
            event_type: kind.to_owned(),
        }
    }
}

} // verus!
