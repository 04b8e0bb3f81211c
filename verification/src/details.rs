//! The optional detail mapping carried by runtime error values: string
//! keys to structured payloads, unique keys, overwrite on insertion.

use vstd::prelude::*;

verus! {

/// Whether no two entries share a key.
spec fn keys_unique(s: Seq<(String, serde_value::Value)>) -> bool {
    forall|i: int, j: int| 0 <= i < j < s.len() ==> s[i].0@ != s[j].0@
}

/// The mapping an entry sequence denotes; a later entry overrides an
/// earlier one with the same key.
spec fn entries_map(s: Seq<(String, serde_value::Value)>) -> Map<Seq<char>, serde_value::Value>
    decreases s.len(),
{
    if s.len() == 0 {
        Map::empty()
    } else {
        entries_map(s.drop_last()).insert(s.last().0@, s.last().1)
    }
}

/// With unique keys, the denoted mapping has exactly the entries' keys as
/// its domain and maps each entry's key to that entry's payload.
proof fn lemma_entries_map_props(s: Seq<(String, serde_value::Value)>)
    requires
        keys_unique(s),
    ensures
        forall|k: Seq<char>| #[trigger] entries_map(s).contains_key(k) <==> exists|i: int|
            0 <= i < s.len() && s[i].0@ == k,
        forall|i: int| 0 <= i < s.len() ==> entries_map(s)[(#[trigger] s[i]).0@] == s[i].1,
    decreases s.len(),
{
    if s.len() > 0 {
        let t = s.drop_last();
        let lk = s.last().0@;
        let lv = s.last().1;
        assert(s.last() == s[s.len() - 1]);
        assert(forall|i: int| 0 <= i < t.len() ==> #[trigger] t[i] == s[i]);
        assert(keys_unique(t));
        lemma_entries_map_props(t);
        assert(entries_map(s) == entries_map(t).insert(lk, lv));
        assert forall|k: Seq<char>| #[trigger] entries_map(s).contains_key(k) implies exists|
            i: int,
        | 0 <= i < s.len() && s[i].0@ == k by {
            if k == lk {
                assert(s[s.len() - 1].0@ == k);
            } else {
                assert(entries_map(t).insert(lk, lv).contains_key(k));
                assert(entries_map(t).contains_key(k));
                let i = choose|i: int| 0 <= i < t.len() && t[i].0@ == k;
                assert(t[i] == s[i]);
                assert(s[i].0@ == k);
            }
        }
        assert forall|k: Seq<char>| (exists|i: int| 0 <= i < s.len() && s[i].0@ == k) implies #[trigger] entries_map(
            s,
        ).contains_key(k) by {
            let i = choose|i: int| 0 <= i < s.len() && s[i].0@ == k;
            if i == s.len() - 1 {
                assert(entries_map(s).contains_key(lk));
            } else {
                assert(t[i].0@ == k);
                assert(entries_map(t).contains_key(k));
            }
        }
        assert forall|i: int| 0 <= i < s.len() implies entries_map(s)[(#[trigger] s[i]).0@]
            == s[i].1 by {
            if i < s.len() - 1 {
                assert(t[i] == s[i]);
                assert(s[i].0@ != lk);
                assert(entries_map(t)[t[i].0@] == t[i].1);
                assert(entries_map(s)[s[i].0@] == entries_map(t)[t[i].0@]);
            }
        }
    }
}

/// Replacing the entry that holds a key denotes the same mapping as
/// inserting the replacement pair into the denoted mapping.
proof fn lemma_entries_map_update(
    s: Seq<(String, serde_value::Value)>,
    idx: int,
    p: (String, serde_value::Value),
)
    requires
        keys_unique(s),
        0 <= idx < s.len(),
        s[idx].0@ == p.0@,
    ensures
        entries_map(s.update(idx, p)) == entries_map(s).insert(p.0@, p.1),
    decreases s.len(),
{
    let u = s.update(idx, p);
    let t = s.drop_last();
    if idx == s.len() - 1 {
        assert(u.drop_last() =~= t);
        assert(u.last() == p);
        assert(entries_map(t).insert(s.last().0@, s.last().1).insert(p.0@, p.1) =~= entries_map(
            t,
        ).insert(p.0@, p.1));
    } else {
        assert(forall|i: int| 0 <= i < t.len() ==> #[trigger] t[i] == s[i]);
        assert(u.drop_last() =~= t.update(idx, p));
        assert(u.last() == s.last());
        lemma_entries_map_update(t, idx, p);
        assert(p.0@ != s.last().0@);
        assert(entries_map(t).insert(p.0@, p.1).insert(s.last().0@, s.last().1) =~= entries_map(
            t,
        ).insert(s.last().0@, s.last().1).insert(p.0@, p.1));
    }
}

/// A mapping from string keys to structured detail payloads. Keys are
/// unique; inserting under a held key overwrites its payload.
pub struct DetailMap {
    entries: Vec<(String, serde_value::Value)>,
}

impl View for DetailMap {
    type V = Map<Seq<char>, serde_value::Value>;

    closed spec fn view(&self) -> Map<Seq<char>, serde_value::Value> {
        entries_map(self.entries@)
    }
}

impl DetailMap {
    #[verifier::type_invariant]
    closed spec fn inv(self) -> bool {
        keys_unique(self.entries@)
    }

    /// Creates the empty mapping.
    pub fn new() -> (r: DetailMap)
        ensures
            r@ == Map::<Seq<char>, serde_value::Value>::empty(),
    {
        DetailMap { entries: Vec::new() }
    }

    /// Stores `value` under `key`, fully replacing any payload the key
    /// already held.
    pub fn insert(&mut self, key: String, value: serde_value::Value)
        ensures
            final(self)@ == old(self)@.insert(key@, value),
    {
        proof {
            use_type_invariant(&*self);
        }
        let mut entries: Vec<(String, serde_value::Value)> = Vec::new();
        core::mem::swap(&mut entries, &mut self.entries);
        let ghost s0 = entries@;
        let pair = (key, value);
        let n = entries.len();
        let mut idx: usize = n;
        let mut i: usize = 0;
        while i < n
            invariant
                n == s0.len(),
                i <= n,
                idx <= n,
                entries@ == s0,
                keys_unique(s0),
                idx == n ==> forall|j: int| 0 <= j < i ==> (#[trigger] s0[j]).0@ != pair.0@,
                idx < n ==> s0[idx as int].0@ == pair.0@,
            decreases n - i,
        {
            if idx == n {
                if entries[i].0 == pair.0 {
                    idx = i;
                } else {
                    proof {
                        assert(s0[i as int].0@ != pair.0@);
                    }
                }
            }
            i += 1;
        }
        if idx < n {
            let ghost gpair = pair;
            proof {
                lemma_entries_map_update(s0, idx as int, gpair);
            }
            entries[idx] = pair;
            proof {
                assert(keys_unique(entries@));
            }
        } else {
            let ghost gpair = pair;
            entries.push(pair);
            proof {
                assert(keys_unique(entries@));
                assert(entries@.drop_last() =~= s0);
                assert(entries@.last() == gpair);
            }
        }
        core::mem::swap(&mut entries, &mut self.entries);
    }

    /// Looks up the payload stored under `key`.
    pub fn get(&self, key: &String) -> (r: Option<&serde_value::Value>)
        ensures
            match r {
                Some(v) => self@.contains_key(key@) && *v == self@[key@],
                None => !self@.contains_key(key@),
            },
    {
        proof {
            use_type_invariant(&*self);
            lemma_entries_map_props(self.entries@);
        }
        let n = self.entries.len();
        let mut i: usize = 0;
        while i < n
            invariant
                n == self.entries@.len(),
                i <= n,
                forall|j: int| 0 <= j < i ==> (#[trigger] self.entries@[j]).0@ != key@,
            decreases n - i,
        {
            if self.entries[i].0 == *key {
                proof {
                    use_type_invariant(&*self);
                    lemma_entries_map_props(self.entries@);
                }
                return Some(&self.entries[i].1);
            }
            i += 1;
        }
        None
    }
}

} // verus!
