//! A small keyed table: texts as keys, each at most once, with the entries
//! kept in the order in which their keys first came.

use crate::text::same_text;
use vstd::prelude::*;

verus! {

pub struct Table<V> {
    keys: Vec<String>,
    values: Vec<V>,
}

impl<V> Table<V> {
    #[verifier::type_invariant]
    closed spec fn inv(self) -> bool {
        &&& self.keys.len() == self.values.len()
        &&& forall|i: int, j: int|
            0 <= i < j < self.keys.len() ==> self.keys[i]@ != self.keys[j]@
    }

    /// The keys, in the order in which they first came.
    pub closed spec fn spec_keys(self) -> Seq<Seq<char>> {
        Seq::new(self.keys.len() as nat, |i: int| self.keys[i]@)
    }

    /// The values, each at the position of its key.
    pub closed spec fn spec_values(self) -> Seq<V> {
        self.values@
    }

    /// The table as a map from key to value.
    pub closed spec fn view(self) -> Map<Seq<char>, V> {
        Map::new(
            |k: Seq<char>| exists|i: int| 0 <= i < self.keys.len() && self.keys[i]@ == k,
            |k: Seq<char>| self.values[choose|i: int| 0 <= i < self.keys.len() && self.keys[i]@ == k],
        )
    }

    /// What the positions have to do with the map: every position holds an
    /// entry of the map, every entry of the map has one position.
    pub open spec fn listed(self) -> bool {
        &&& self.spec_keys().len() == self.spec_values().len()
        &&& forall|i: int, j: int|
            0 <= i < j < self.spec_keys().len() ==> self.spec_keys()[i] != self.spec_keys()[j]
        &&& forall|i: int|
            0 <= i < self.spec_keys().len() ==> #[trigger] self@.contains_key(self.spec_keys()[i])
                && self@[self.spec_keys()[i]] == self.spec_values()[i]
        &&& forall|k: Seq<char>| #[trigger]
            self@.contains_key(k) ==> exists|i: int|
                0 <= i < self.spec_keys().len() && self.spec_keys()[i] == k
    }

    pub fn new() -> (t: Self)
        ensures
            t@ == Map::<Seq<char>, V>::empty(),
            t.spec_keys().len() == 0,
    {
        let t = Table { keys: Vec::new(), values: Vec::new() };
        assert(t@ =~= Map::<Seq<char>, V>::empty());
        t
    }

    /// The number of entries.
    pub fn len(&self) -> (n: usize)
        ensures
            n == self.spec_keys().len(),
            self.listed(),
    {
        proof {
            use_type_invariant(self);
            assert forall|i: int| 0 <= i < self.spec_keys().len() implies #[trigger]
                self@.contains_key(self.spec_keys()[i]) && self@[self.spec_keys()[i]]
                == self.spec_values()[i] by {
                let k = self.spec_keys()[i];
                let c = choose|c: int| 0 <= c < self.keys.len() && self.keys[c]@ == k;
                assert(c == i);
            }
            assert forall|k: Seq<char>| #[trigger] self@.contains_key(k) implies exists|i: int|
                0 <= i < self.spec_keys().len() && self.spec_keys()[i] == k by {
                let c = choose|c: int| 0 <= c < self.keys.len() && self.keys[c]@ == k;
                assert(self.spec_keys()[c] == k);
            }
        }
        self.keys.len()
    }

    fn position(&self, key: &str) -> (r: Option<usize>)
        ensures
            match r {
                Some(i) => {
                    &&& i < self.spec_keys().len()
                    &&& self.spec_keys()[i as int] == key@
                    &&& self@.contains_key(key@)
                    &&& self@[key@] == self.spec_values()[i as int]
                },
                None => !self@.contains_key(key@),
            },
    {
        proof {
            use_type_invariant(self);
        }
        let mut i: usize = 0;
        while i < self.keys.len()
            invariant
                i <= self.keys.len(),
                self.keys.len() == self.values.len(),
                forall|a: int, b: int| 0 <= a < b < self.keys.len() ==> self.keys[a]@ != self.keys[b]@,
                forall|j: int| 0 <= j < i ==> self.keys[j]@ != key@,
            decreases self.keys.len() - i,
        {
            if same_text(self.keys[i].as_str(), key) {
                proof {
                    let c = choose|c: int| 0 <= c < self.keys.len() && self.keys[c]@ == key@;
                    assert(c == i);
                }
                return Some(i);
            }
            i = i + 1;
        }
        None
    }

    /// The key at a position.
    pub fn key_at(&self, i: usize) -> (k: &String)
        requires
            i < self.spec_keys().len(),
        ensures
            k@ == self.spec_keys()[i as int],
    {
        &self.keys[i]
    }

    /// The value at a position.
    pub fn value_at(&self, i: usize) -> (v: &V)
        requires
            i < self.spec_keys().len(),
        ensures
            *v == self.spec_values()[i as int],
    {
        proof {
            use_type_invariant(self);
        }
        &self.values[i]
    }

    /// The value under a key, if the table has the key.
    pub fn get(&self, key: &str) -> (r: Option<&V>)
        ensures
            match r {
                Some(v) => self@.contains_key(key@) && *v == self@[key@],
                None => !self@.contains_key(key@),
            },
    {
        match self.position(key) {
            Some(i) => {
                proof {
                    use_type_invariant(self);
                }
                Some(&self.values[i])
            },
            None => None,
        }
    }

    /// Puts a value under a key, in place of the one that was there, if any.
    pub fn insert(&mut self, key: String, value: V)
        ensures
            final(self)@ == old(self)@.insert(key@, value),
    {
        let ghost before = *self;
        match self.position(key.as_str()) {
            Some(i) => {
                proof {
                    use_type_invariant(&*self);
                }
                let mut taken = Table::new();
                core::mem::swap(self, &mut taken);
                let Table { keys, mut values } = taken;
                values.set(i, value);
                *self = Table { keys, values };
                proof {
                    assert forall|k: Seq<char>| #[trigger] self@.contains_key(k) implies (
                    before@.insert(key@, value).contains_key(k) && self@[k] == before@.insert(
                        key@,
                        value,
                    )[k]) by {
                        let c = choose|c: int| 0 <= c < self.keys.len() && self.keys[c]@ == k;
                        let b = choose|b: int| 0 <= b < before.keys.len() && before.keys[b]@ == k;
                        assert(before.keys[c]@ == k);
                        assert(b == c);
                    }
                    assert(self@ =~= before@.insert(key@, value));
                }
            },
            None => {
                proof {
                    use_type_invariant(&*self);
                }
                let ghost key_view = key@;
                let mut taken = Table::new();
                core::mem::swap(self, &mut taken);
                let Table { mut keys, mut values } = taken;
                keys.push(key);
                values.push(value);
                *self = Table { keys, values };
                proof {
                    let last = before.keys.len() as int;
                    assert(self.keys[last]@ == key_view);
                    assert forall|k: Seq<char>| #[trigger]
                        before@.insert(key_view, value).contains_key(k) implies self@.contains_key(
                        k,
                    ) && self@[k] == before@.insert(key_view, value)[k] by {
                        if k == key_view {
                            let c = choose|c: int| 0 <= c < self.keys.len() && self.keys[c]@ == k;
                            assert(c == last);
                        } else {
                            let b = choose|b: int|
                                0 <= b < before.keys.len() && before.keys[b]@ == k;
                            assert(self.keys[b]@ == k);
                            let c = choose|c: int| 0 <= c < self.keys.len() && self.keys[c]@ == k;
                            assert(c == b);
                        }
                    }
                    assert forall|k: Seq<char>| #[trigger] self@.contains_key(k) implies before@.insert(
                        key_view,
                        value,
                    ).contains_key(k) by {
                        let c = choose|c: int| 0 <= c < self.keys.len() && self.keys[c]@ == k;
                        if c < last {
                            assert(before.keys[c]@ == k);
                        }
                    }
                    assert(self@ =~= before@.insert(key_view, value));
                }
            },
        }
    }

    /// Takes a key and its value out, if the table has the key.
    pub fn remove(&mut self, key: &str) -> (removed: bool)
        ensures
            removed == old(self)@.contains_key(key@),
            final(self)@ == old(self)@.remove(key@),
    {
        let ghost before = *self;
        match self.position(key) {
            Some(i) => {
                proof {
                    use_type_invariant(&*self);
                }
                let mut taken = Table::new();
                core::mem::swap(self, &mut taken);
                let Table { mut keys, mut values } = taken;
                keys.remove(i);
                values.remove(i);
                *self = Table { keys, values };
                proof {
                    assert forall|k: Seq<char>| #[trigger] self@.contains_key(k) implies before@.remove(
                        key@,
                    ).contains_key(k) && self@[k] == before@[k] by {
                        let c = choose|c: int| 0 <= c < self.keys.len() && self.keys[c]@ == k;
                        let o = if c < i { c } else { c + 1 };
                        assert(before.keys[o]@ == k);
                        let b = choose|b: int| 0 <= b < before.keys.len() && before.keys[b]@ == k;
                        assert(b == o);
                    }
                    assert forall|k: Seq<char>| #[trigger]
                        before@.remove(key@).contains_key(k) implies self@.contains_key(k) by {
                        let b = choose|b: int| 0 <= b < before.keys.len() && before.keys[b]@ == k;
                        let c = if b < i { b } else { b - 1 };
                        assert(self.keys[c]@ == k);
                    }
                    assert(self@ =~= before@.remove(key@));
                }
                true
            },
            None => {
                proof {
                    assert(self@ =~= before@.remove(key@));
                }
                false
            },
        }
    }
}

} // verus!
