//! The environment variables accumulated for a channel.
//!
//! Insertion order is not observable through the lookup interface, so the
//! map is kept as a vector of pairs with pairwise-distinct keys; a later
//! insert of a present key replaces its value in place.

use vstd::prelude::*;

verus! {

/// A mapping from environment-variable name to value.
#[derive(Debug, PartialEq, Eq)]
pub struct EnvMap {
    entries: Vec<(String, String)>,
}

/// True when no two entries of `s` share a key.
pub open spec fn distinct_keys(s: Seq<(Seq<char>, Seq<char>)>) -> bool {
    forall|i: int, j: int| 0 <= i < j < s.len() ==> s[i].0 != s[j].0
}

/// Whether some entry of `s` has key `k`.
pub open spec fn has_key(s: Seq<(Seq<char>, Seq<char>)>, k: Seq<char>) -> bool {
    exists|i: int| 0 <= i < s.len() && s[i].0 == k
}

/// The value of the entry of `s` with key `k`.
pub open spec fn value_of(s: Seq<(Seq<char>, Seq<char>)>, k: Seq<char>) -> Seq<char>
    recommends
        has_key(s, k),
{
    s[choose|i: int| 0 <= i < s.len() && s[i].0 == k].1
}

/// `s` with `k` bound to `v`: the entry with key `k` is replaced, or the
/// pair is appended when no entry has that key.
pub open spec fn spec_insert(
    s: Seq<(Seq<char>, Seq<char>)>,
    k: Seq<char>,
    v: Seq<char>,
) -> Seq<(Seq<char>, Seq<char>)> {
    if has_key(s, k) {
        s.update(choose|i: int| 0 <= i < s.len() && s[i].0 == k, (k, v))
    } else {
        s.push((k, v))
    }
}

/// The entries read as a mathematical map, the shape the spec-level laws
/// are stated over.
pub open spec fn interp(s: Seq<(Seq<char>, Seq<char>)>) -> Map<Seq<char>, Seq<char>> {
    Map::new(|k: Seq<char>| has_key(s, k), |k: Seq<char>| value_of(s, k))
}

impl View for EnvMap {
    type V = Seq<(Seq<char>, Seq<char>)>;

    closed spec fn view(&self) -> Seq<(Seq<char>, Seq<char>)> {
        self.entries.deep_view()
    }
}

/// The index of the entry of `entries` whose key is `name`, if any.
fn find_key(entries: &Vec<(String, String)>, name: &String) -> (r: Option<usize>)
    ensures
        match r {
            Some(i) => i < entries.deep_view().len() && entries.deep_view()[i as int].0 == name@,
            None => !has_key(entries.deep_view(), name@),
        },
{
    let n = entries.len();
    for i in 0..n
        invariant
            n == entries.deep_view().len(),
            n == entries@.len(),
            forall|j: int| 0 <= j < i ==> entries.deep_view()[j].0 != name@,
    {
        proof {
            assert(entries.deep_view()[i as int].0 == entries@[i as int].0@);
        }
        if entries[i].0 == *name {
            return Some(i);
        }
    }
    None
}

/// On entries with distinct keys, binding a variable acts as insertion
/// on the mathematical map: insertion order is not observable through
/// the map reading.
pub proof fn lemma_insert_is_map_insert(s: Seq<(Seq<char>, Seq<char>)>, k: Seq<char>, v: Seq<char>)
    requires
        distinct_keys(s),
    ensures
        interp(spec_insert(s, k, v)) =~= interp(s).insert(k, v),
{
    let t = spec_insert(s, k, v);
    if has_key(s, k) {
        let i = choose|i: int| 0 <= i < s.len() && s[i].0 == k;
        assert(t[i] == (k, v));
        assert forall|k2: Seq<char>| has_key(t, k2) <==> (has_key(s, k2) || k2 == k) by {
            if has_key(t, k2) {
                let j = choose|j: int| 0 <= j < t.len() && t[j].0 == k2;
                if j == i {
                } else {
                    assert(s[j].0 == k2);
                }
            }
            if has_key(s, k2) {
                let j = choose|j: int| 0 <= j < s.len() && s[j].0 == k2;
                if j == i {
                    assert(t[i].0 == k);
                } else {
                    assert(t[j].0 == k2);
                }
            }
        }
        assert forall|k2: Seq<char>| #[trigger] has_key(t, k2) implies value_of(t, k2) == (if k2
            == k {
            v
        } else {
            value_of(s, k2)
        }) by {
            let j = choose|j: int| 0 <= j < t.len() && t[j].0 == k2;
            if k2 == k {
                assert(forall|a: int| 0 <= a < t.len() && a != i ==> #[trigger] t[a].0 == s[a].0);
                assert(j == i);
            } else {
                assert(j != i);
                assert(s[j].0 == k2);
                let j2 = choose|j2: int| 0 <= j2 < s.len() && s[j2].0 == k2;
                assert(j2 == j);
            }
        }
    } else {
        assert forall|k2: Seq<char>| has_key(t, k2) <==> (has_key(s, k2) || k2 == k) by {
            if has_key(t, k2) {
                let j = choose|j: int| 0 <= j < t.len() && t[j].0 == k2;
                if j < s.len() {
                    assert(s[j].0 == k2);
                }
            }
            if has_key(s, k2) {
                let j = choose|j: int| 0 <= j < s.len() && s[j].0 == k2;
                assert(t[j].0 == k2);
            }
            assert(t[s.len() as int].0 == k);
        }
        assert forall|k2: Seq<char>| #[trigger] has_key(t, k2) implies value_of(t, k2) == (if k2
            == k {
            v
        } else {
            value_of(s, k2)
        }) by {
            let j = choose|j: int| 0 <= j < t.len() && t[j].0 == k2;
            if k2 == k {
                if j < s.len() {
                    assert(s[j].0 == k);
                }
                assert(j == s.len());
            } else {
                assert(j < s.len());
                let j2 = choose|j2: int| 0 <= j2 < s.len() && s[j2].0 == k2;
                assert(j2 == j);
            }
        }
    }
}

impl EnvMap {
    /// Keys are pairwise distinct.
    #[verifier::type_invariant]
    pub open spec fn wf(&self) -> bool {
        distinct_keys(self@)
    }

    /// The map read as a mathematical map.
    pub open spec fn as_map(&self) -> Map<Seq<char>, Seq<char>> {
        interp(self@)
    }

    /// An empty map.
    pub fn new() -> (r: EnvMap)
        ensures
            r@ =~= Seq::<(Seq<char>, Seq<char>)>::empty(),
    {
        EnvMap { entries: Vec::new() }
    }

    /// The number of variables held.
    pub fn len(&self) -> (r: usize)
        ensures
            r == self@.len(),
    {
        self.entries.len()
    }

    /// True when no variable is held.
    pub fn is_empty(&self) -> (r: bool)
        ensures
            r == (self@.len() == 0),
    {
        self.entries.len() == 0
    }

    /// The value bound to `name`, if any.
    pub fn get(&self, name: &String) -> (r: Option<&String>)
        ensures
            match r {
                Some(v) => has_key(self@, name@) && v@ == value_of(self@, name@),
                None => !has_key(self@, name@),
            },
    {
        proof {
            use_type_invariant(&*self);
        }
        match find_key(&self.entries, name) {
            Some(i) => {
                proof {
                    let j = choose|j: int|
                        0 <= j < self@.len() && self@[j].0 == name@;
                    assert(self@[i as int].0 == name@);
                    assert(j == i);
                }
                Some(&self.entries[i].1)
            },
            None => None,
        }
    }

    /// Bind `name` to `value`, replacing any earlier binding.
    pub fn insert(&mut self, name: String, value: String)
        ensures
            final(self)@ =~= spec_insert(old(self)@, name@, value@),
    {
        proof {
            use_type_invariant(&*self);
        }
        let ghost nm: Seq<char> = name@;
        let ghost vv: Seq<char> = value@;
        let mut entries: Vec<(String, String)> = Vec::new();
        std::mem::swap(&mut entries, &mut self.entries);
        let ghost olds: Seq<(Seq<char>, Seq<char>)> = entries.deep_view();
        match find_key(&entries, &name) {
            Some(i) => {
                entries[i] = (name, value);
                proof {
                    assert(entries.deep_view() =~= olds.update(i as int, (nm, vv)));
                    let j = choose|j: int| 0 <= j < olds.len() && olds[j].0 == nm;
                    assert(olds[i as int].0 == nm);
                    assert(j == i);
                    assert forall|a: int, b: int|
                        0 <= a < b < entries.deep_view().len() implies entries.deep_view()[a].0
                        != entries.deep_view()[b].0 by {
                        assert(entries.deep_view()[a].0 == olds[a].0);
                        assert(entries.deep_view()[b].0 == olds[b].0);
                    }
                }
            },
            None => {
                entries.push((name, value));
                proof {
                    assert(entries.deep_view() =~= olds.push((nm, vv)));
                    assert forall|a: int, b: int|
                        0 <= a < b < entries.deep_view().len() implies entries.deep_view()[a].0
                        != entries.deep_view()[b].0 by {
                        if b == olds.len() {
                            assert(!has_key(olds, nm));
                            assert(entries.deep_view()[a].0 == olds[a].0);
                        }
                    }
                }
            },
        }
        self.entries = entries;
    }

    /// The entries, in insertion order of their first occurrence.
    pub fn entries(&self) -> (r: &Vec<(String, String)>)
        ensures
            r.deep_view() == self@,
    {
        &self.entries
    }
}

} // verus!
