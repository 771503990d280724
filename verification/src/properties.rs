//! Key-value properties of classes and accounts, with the property values
//! held as their JSON text.
use vstd::prelude::*;
use crate::text::same_text;

verus! {

/// An entry of properties: a key and a value.
pub open spec fn entry_is(e: (String, String), k: Seq<char>, v: Seq<char>) -> bool {
    e.0@ == k && e.1@ == v
}

/// The properties hold the value `v` under the key `k`.
pub open spec fn has_entry(entries: Seq<(String, String)>, k: Seq<char>, v: Seq<char>) -> bool {
    exists|i: int| 0 <= i < entries.len() && entry_is(#[trigger] entries[i], k, v)
}

/// The properties hold some value under the key `k`.
pub open spec fn has_key(entries: Seq<(String, String)>, k: Seq<char>) -> bool {
    exists|i: int| 0 <= i < entries.len() && (#[trigger] entries[i]).0@ == k
}

/// No key occurs twice.
pub open spec fn keys_unique(entries: Seq<(String, String)>) -> bool {
    forall|i: int, j: int|
        0 <= i < entries.len() && 0 <= j < entries.len() && i != j ==> (#[trigger] entries[i]).0@
            != (#[trigger] entries[j]).0@
}

/// Key-value properties: each key at most once.
pub struct KeyValueProperties {
    pub entries: Vec<(String, String)>,
}

impl KeyValueProperties {
    pub open spec fn well_formed(&self) -> bool {
        keys_unique(self.entries@)
    }

    /// No properties.
    pub fn new() -> (r: KeyValueProperties)
        ensures
            r.well_formed(),
            r.entries@.len() == 0,
    {
        KeyValueProperties { entries: Vec::new() }
    }

    /// The same properties, restricted to the given keys.
    pub fn restricted_to(self, keys: &Vec<String>) -> (r: KeyValueProperties)
        requires
            self.well_formed(),
        ensures
            r.well_formed(),
            forall|k: Seq<char>, v: Seq<char>|
                has_entry(r.entries@, k, v) <==> (has_entry(self.entries@, k, v) && keys@.map_values(
                    |s: String| s@,
                ).contains(k)),
    {
        let ghost orig = self.entries@;
        let ghost ks = keys@.map_values(|s: String| s@);
        let mut props = self.entries;
        let mut out: Vec<(String, String)> = Vec::new();
        for i in 0..keys.len()
            invariant
                ks == keys@.map_values(|s: String| s@),
                keys_unique(props@),
                keys_unique(out@),
                forall|k: Seq<char>, v: Seq<char>|
                    has_entry(orig, k, v) <==> (has_entry(props@, k, v) || has_entry(out@, k, v)),
                forall|k: Seq<char>, v: Seq<char>|
                    has_entry(out@, k, v) ==> ks.take(i as int).contains(k),
                forall|k: Seq<char>| ks.take(i as int).contains(k) ==> !has_key(props@, k),
                forall|k: Seq<char>| has_key(out@, k) ==> !has_key(props@, k),
        {
            let key = keys[i].as_str();
            let ghost prev = ks.take(i as int);
            let ghost next = ks.take(i + 1);
            let mut found: Option<usize> = None;
            for j in 0..props.len()
                invariant
                    found matches Some(f) ==> f < props@.len() && props@[f as int].0@ == key@,
                    found is None ==> forall|x: int| 0 <= x < j ==> props@[x].0@ != key@,
            {
                if found.is_none() && same_text(props[j].0.as_str(), key) {
                    found = Some(j);
                }
            }
            proof {
                assert(ks[i as int] == key@);
                assert(next =~= prev.push(key@));
            }
            match found {
                None => {
                    proof {
                        assert(!has_key(props@, key@));
                        assert forall|k: Seq<char>| next.contains(k) implies !has_key(props@, k) by {
                            if k != key@ {
                                let x = choose|x: int| 0 <= x < next.len() && next[x] == k;
                                assert(prev[x] == k);
                            }
                        }
                        assert forall|k: Seq<char>, v: Seq<char>| has_entry(out@, k, v) implies next.contains(k) by {
                            let x = choose|x: int| 0 <= x < prev.len() && prev[x] == k;
                            assert(next[x] == k);
                        }
                    }
                },
                Some(f) => {
                    let ghost before_props = props@;
                    let ghost before_out = out@;
                    let entry = props.remove(f);
                    out.push(entry);
                    proof {
                        assert(props@ == before_props.remove(f as int));
                        assert forall|x: int, y: int|
                            0 <= x < out@.len() && 0 <= y < out@.len() && x != y implies (#[trigger] out@[x]).0@
                                != (#[trigger] out@[y]).0@ by {
                            if x == out@.len() - 1 {
                                assert(has_key(before_out, out@[y].0@));
                            } else if y == out@.len() - 1 {
                                assert(has_key(before_out, out@[x].0@));
                            }
                        }
                        assert forall|x: int, y: int|
                            0 <= x < props@.len() && 0 <= y < props@.len() && x != y implies (#[trigger] props@[x]).0@
                                != (#[trigger] props@[y]).0@ by {
                            let x0 = if x < f { x } else { x + 1 };
                            let y0 = if y < f { y } else { y + 1 };
                            assert(props@[x] == before_props[x0]);
                            assert(props@[y] == before_props[y0]);
                        }
                        assert forall|k: Seq<char>, v: Seq<char>|
                            has_entry(orig, k, v) <==> (has_entry(props@, k, v) || has_entry(out@, k, v)) by {
                            if has_entry(before_props, k, v) {
                                let x = choose|x: int| 0 <= x < before_props.len() && entry_is(before_props[x], k, v);
                                if x < f {
                                    assert(entry_is(props@[x], k, v));
                                } else if x > f {
                                    assert(entry_is(props@[x - 1], k, v));
                                } else {
                                    assert(entry_is(out@[out@.len() - 1], k, v));
                                }
                            }
                            if has_entry(before_out, k, v) {
                                let x = choose|x: int| 0 <= x < before_out.len() && entry_is(before_out[x], k, v);
                                assert(entry_is(out@[x], k, v));
                            }
                            if has_entry(props@, k, v) {
                                let x = choose|x: int| 0 <= x < props@.len() && entry_is(props@[x], k, v);
                                let x0 = if x < f { x } else { x + 1 };
                                assert(entry_is(before_props[x0], k, v));
                            }
                            if has_entry(out@, k, v) {
                                let x = choose|x: int| 0 <= x < out@.len() && entry_is(out@[x], k, v);
                                if x < before_out.len() {
                                    assert(entry_is(before_out[x], k, v));
                                } else {
                                    assert(entry_is(before_props[f as int], k, v));
                                }
                            }
                        }
                        assert forall|k: Seq<char>, v: Seq<char>| has_entry(out@, k, v) implies next.contains(k) by {
                            let x = choose|x: int| 0 <= x < out@.len() && entry_is(out@[x], k, v);
                            if x < before_out.len() {
                                assert(has_entry(before_out, k, v));
                                let y = choose|y: int| 0 <= y < prev.len() && prev[y] == k;
                                assert(next[y] == k);
                            } else {
                                assert(next[i as int] == k);
                            }
                        }
                        assert forall|k: Seq<char>| next.contains(k) implies !has_key(props@, k) by {
                            if has_key(props@, k) {
                                let x = choose|x: int| 0 <= x < props@.len() && props@[x].0@ == k;
                                let x0 = if x < f { x } else { x + 1 };
                                assert(before_props[x0].0@ == k);
                                assert(has_key(before_props, k));
                                if k == key@ {
                                    assert(x0 != f);
                                    assert(before_props[f as int].0@ == key@);
                                    assert(before_props[x0].0@ != before_props[f as int].0@);
                                } else {
                                    let y = choose|y: int| 0 <= y < next.len() && next[y] == k;
                                    assert(y < i);
                                    assert(prev[y] == k);
                                    assert(prev.contains(k));
                                }
                            }
                        }
                        assert forall|k: Seq<char>| has_key(out@, k) implies !has_key(props@, k) by {
                            if has_key(props@, k) {
                                let x = choose|x: int| 0 <= x < props@.len() && props@[x].0@ == k;
                                let x0 = if x < f { x } else { x + 1 };
                                assert(before_props[x0].0@ == k);
                                let y = choose|y: int| 0 <= y < out@.len() && out@[y].0@ == k;
                                if y < before_out.len() {
                                    assert(has_key(before_out, k));
                                }
                            }
                        }
                    }
                },
            }
        }
        proof {
            assert(ks.take(keys@.len() as int) == ks);
            assert forall|k: Seq<char>, v: Seq<char>|
                has_entry(out@, k, v) <==> (has_entry(orig, k, v) && ks.contains(k)) by {
                if has_entry(orig, k, v) && ks.contains(k) {
                    if has_entry(props@, k, v) {
                        let x = choose|x: int| 0 <= x < props@.len() && entry_is(props@[x], k, v);
                        assert(has_key(props@, k));
                    }
                }
            }
        }
        KeyValueProperties { entries: out }
    }
}

impl KeyValueProperties {
    /// A copy of the properties, entry for entry.
    pub fn duplicate(&self) -> (r: KeyValueProperties)
        ensures
            r.entries@.len() == self.entries@.len(),
            forall|i: int|
                0 <= i < self.entries@.len() ==> r.entries@[i].0@ == self.entries@[i].0@
                    && r.entries@[i].1@ == self.entries@[i].1@,
            self.well_formed() ==> r.well_formed(),
            forall|k: Seq<char>, v: Seq<char>|
                has_entry(r.entries@, k, v) == has_entry(self.entries@, k, v),
    {
        let mut out: Vec<(String, String)> = Vec::new();
        for i in 0..self.entries.len()
            invariant
                out@.len() == i,
                forall|j: int|
                    0 <= j < i ==> out@[j].0@ == self.entries@[j].0@ && out@[j].1@
                        == self.entries@[j].1@,
        {
            out.push((self.entries[i].0.clone(), self.entries[i].1.clone()));
        }
        proof {
            assert forall|k: Seq<char>, v: Seq<char>|
                has_entry(out@, k, v) == has_entry(self.entries@, k, v) by {
                if has_entry(out@, k, v) {
                    let i = choose|i: int| 0 <= i < out@.len() && entry_is(out@[i], k, v);
                    assert(entry_is(self.entries@[i], k, v));
                }
                if has_entry(self.entries@, k, v) {
                    let i = choose|i: int| 0 <= i < self.entries@.len() && entry_is(self.entries@[i], k, v);
                    assert(entry_is(out@[i], k, v));
                }
            }
        }
        KeyValueProperties { entries: out }
    }
}

/// The value held under a key, if any: where keys are unique, that of the
/// one entry with the key.
pub open spec fn spec_get(entries: Seq<(String, String)>, k: Seq<char>) -> Option<Seq<char>> {
    if has_key(entries, k) {
        Some(entries[choose|i: int| 0 <= i < entries.len() && (#[trigger] entries[i]).0@ == k].1@)
    } else {
        None
    }
}

/// With unique keys, the entry with a key is the one at any index that has it.
pub proof fn lemma_get_at(entries: Seq<(String, String)>, i: int, k: Seq<char>)
    requires
        keys_unique(entries),
        0 <= i < entries.len(),
        entries[i].0@ == k,
    ensures
        spec_get(entries, k) == Some(entries[i].1@),
{
    let j = choose|j: int| 0 <= j < entries.len() && (#[trigger] entries[j]).0@ == k;
    assert(entries[j].0@ == k);
    if j != i {
        assert(entries[i].0@ != entries[j].0@);
    }
}

impl KeyValueProperties {
    /// The value under a key.
    pub fn get(&self, key: &str) -> (r: Option<String>)
        requires
            self.well_formed(),
        ensures
            match r {
                Some(v) => spec_get(self.entries@, key@) == Some(v@),
                None => spec_get(self.entries@, key@) is None,
            },
    {
        let mut i: usize = 0;
        while i < self.entries.len()
            invariant
                i <= self.entries@.len(),
                self.well_formed(),
                forall|j: int| 0 <= j < i ==> (#[trigger] self.entries@[j]).0@ != key@,
            decreases self.entries@.len() - i,
        {
            if same_text(self.entries[i].0.as_str(), key) {
                proof {
                    lemma_get_at(self.entries@, i as int, key@);
                }
                return Some(self.entries[i].1.clone());
            }
            i = i + 1;
        }
        None
    }

    /// Sets the value under a key, replacing any it had.
    pub fn insert(&mut self, key: String, value: String)
        requires
            old(self).well_formed(),
        ensures
            final(self).well_formed(),
            forall|k: Seq<char>|
                #![trigger spec_get(final(self).entries@, k)]
                spec_get(final(self).entries@, k) == if k == key@ {
                    Some(value@)
                } else {
                    spec_get(old(self).entries@, k)
                },
    {
        let ghost before = self.entries@;
        let mut found: Option<usize> = None;
        let mut i: usize = 0;
        while i < self.entries.len()
            invariant
                i <= self.entries@.len(),
                found matches Some(f) ==> f < self.entries@.len() && self.entries@[f as int].0@ == key@,
                found is None ==> forall|j: int| 0 <= j < i ==> (#[trigger] self.entries@[j]).0@ != key@,
            decreases self.entries@.len() - i,
        {
            if found.is_none() && same_text(self.entries[i].0.as_str(), key.as_str()) {
                found = Some(i);
            }
            i = i + 1;
        }
        if let Some(fi) = found {
            let ghost f = fi as int;
            let ghost kv = key@;
            let ghost vv = value@;
            self.entries.set(fi, (key, value));
            proof {
                let after = self.entries@;
                assert(after[f].0@ == kv && after[f].1@ == vv);
                assert(after == before.update(f, after[f]));
                assert forall|x: int, y: int|
                    0 <= x < after.len() && 0 <= y < after.len() && x != y implies (#[trigger] after[x]).0@
                        != (#[trigger] after[y]).0@ by {
                    if x != f && y != f {
                        assert(after[x] == before[x] && after[y] == before[y]);
                    } else if x == f {
                        assert(before[f].0@ == after[f].0@);
                        assert(after[y] == before[y]);
                    } else {
                        assert(before[f].0@ == after[f].0@);
                        assert(after[x] == before[x]);
                    }
                }
                assert forall|k: Seq<char>|
                    #![trigger spec_get(after, k)]
                    spec_get(after, k) == if k == after[f].0@ {
                        Some(after[f].1@)
                    } else {
                        spec_get(before, k)
                    } by {
                    if k == after[f].0@ {
                        lemma_get_at(after, f, k);
                    } else {
                        if has_key(before, k) {
                            let j = choose|j: int| 0 <= j < before.len() && (#[trigger] before[j]).0@ == k;
                            assert(j != f);
                            assert(after[j] == before[j]);
                            lemma_get_at(before, j, k);
                            lemma_get_at(after, j, k);
                        } else {
                            if has_key(after, k) {
                                let j = choose|j: int| 0 <= j < after.len() && (#[trigger] after[j]).0@ == k;
                                assert(j != f);
                                assert(after[j] == before[j]);
                            }
                        }
                    }
                }
            }
            return;
        }
        let ghost kv = key@;
        let ghost vv = value@;
        self.entries.push((key, value));
        proof {
            let after = self.entries@;
            let f = before.len() as int;
            assert(after[f].0@ == kv && after[f].1@ == vv);
            assert(after == before.push(after[f]));
            assert forall|x: int, y: int|
                0 <= x < after.len() && 0 <= y < after.len() && x != y implies (#[trigger] after[x]).0@
                    != (#[trigger] after[y]).0@ by {
                if x != f && y != f {
                    assert(after[x] == before[x] && after[y] == before[y]);
                } else if x == f {
                    assert(after[y] == before[y]);
                } else {
                    assert(after[x] == before[x]);
                }
            }
            assert forall|k: Seq<char>|
                #![trigger spec_get(after, k)]
                spec_get(after, k) == if k == after[f].0@ {
                    Some(after[f].1@)
                } else {
                    spec_get(before, k)
                } by {
                if k == after[f].0@ {
                    lemma_get_at(after, f, k);
                } else {
                    if has_key(before, k) {
                        let j = choose|j: int| 0 <= j < before.len() && (#[trigger] before[j]).0@ == k;
                        assert(after[j] == before[j]);
                        lemma_get_at(before, j, k);
                        lemma_get_at(after, j, k);
                    } else {
                        if has_key(after, k) {
                            let j = choose|j: int| 0 <= j < after.len() && (#[trigger] after[j]).0@ == k;
                            assert(j != f);
                            assert(after[j] == before[j]);
                        }
                    }
                }
            }
        }
    }
}

/// With unique keys, the value under a key after an entry is appended is
/// that entry's, for its key, and as before for the others.
pub proof fn lemma_get_push(entries: Seq<(String, String)>, e: (String, String), k: Seq<char>)
    requires
        keys_unique(entries.push(e)),
    ensures
        spec_get(entries.push(e), k) == if k == e.0@ {
            Some(e.1@)
        } else {
            spec_get(entries, k)
        },
{
    let after = entries.push(e);
    let f = entries.len() as int;
    assert(after[f] == e);
    assert forall|x: int, y: int|
        0 <= x < entries.len() && 0 <= y < entries.len() && x != y implies (#[trigger] entries[x]).0@
            != (#[trigger] entries[y]).0@ by {
        assert(after[x] == entries[x] && after[y] == entries[y]);
    }
    if k == e.0@ {
        lemma_get_at(after, f, k);
    } else if has_key(entries, k) {
        let j = choose|j: int| 0 <= j < entries.len() && (#[trigger] entries[j]).0@ == k;
        assert(after[j] == entries[j]);
        lemma_get_at(entries, j, k);
        lemma_get_at(after, j, k);
    } else if has_key(after, k) {
        let j = choose|j: int| 0 <= j < after.len() && (#[trigger] after[j]).0@ == k;
        assert(j != f);
        assert(after[j] == entries[j]);
    }
}

/// Entries with the same keys and values, index by index, hold the same
/// value under every key.
pub proof fn lemma_get_same(a: Seq<(String, String)>, b: Seq<(String, String)>, k: Seq<char>)
    requires
        a.len() == b.len(),
        forall|i: int| 0 <= i < a.len() ==> a[i].0@ == b[i].0@ && a[i].1@ == b[i].1@,
        keys_unique(b),
    ensures
        spec_get(a, k) == spec_get(b, k),
{
    assert forall|x: int, y: int|
        0 <= x < a.len() && 0 <= y < a.len() && x != y implies (#[trigger] a[x]).0@ != (#[trigger] a[y]).0@ by {
        assert(b[x].0@ != b[y].0@);
    }
    if has_key(b, k) {
        let j = choose|j: int| 0 <= j < b.len() && (#[trigger] b[j]).0@ == k;
        lemma_get_at(b, j, k);
        lemma_get_at(a, j, k);
    } else if has_key(a, k) {
        let j = choose|j: int| 0 <= j < a.len() && (#[trigger] a[j]).0@ == k;
        assert(b[j].0@ == k);
    }
}

} // verus!
