use vstd::prelude::*;

use crate::text::str_eq;

verus! {

// A small name-keyed mapping with the same observable behaviour as a
// hash map over owned strings: unique keys, and insertion that overrides
// an existing binding. Insertion order of fresh keys is kept, which the
// contracts expose only through the key sequence.

pub struct StringMap<V> {
    pub keys: Vec<String>,
    pub vals: Vec<V>,
}

impl<V> StringMap<V> {
    /// The keys as character sequences, in insertion order.
    pub open spec fn spec_key_seq(self) -> Seq<Seq<char>> {
        Seq::new(self.keys@.len(), |i: int| self.keys@[i]@)
    }

    /// Well-formedness: one value per key, and no key occurs twice.
    pub open spec fn wf(self) -> bool {
        self.keys@.len() == self.vals@.len() && (forall|i: int, j: int|
            0 <= i < j < self.spec_key_seq().len() ==> self.spec_key_seq()[i]
                != self.spec_key_seq()[j])
    }

    pub open spec fn spec_contains(self, name: Seq<char>) -> bool {
        exists|i: int|
            0 <= i < self.spec_key_seq().len() && self.spec_key_seq()[i] == name
    }

    /// The value bound to `name`, if any.
    pub open spec fn spec_get(self, name: Seq<char>) -> Option<V> {
        if self.spec_contains(name) {
            let i = choose|i: int|
                0 <= i < self.spec_key_seq().len() && self.spec_key_seq()[i] == name;
            Some(self.vals@[i])
        } else {
            None
        }
    }

    /// In a well-formed map, the binding at any index is the binding of its
    /// key.
    pub proof fn lemma_get_at(self, name: Seq<char>, i: int)
        requires
            self.wf(),
            0 <= i < self.spec_key_seq().len(),
            self.spec_key_seq()[i] == name,
        ensures
            self.spec_get(name) == Some(self.vals@[i]),
    {
        assert(self.spec_contains(name));
        let j = choose|j: int|
            0 <= j < self.spec_key_seq().len() && self.spec_key_seq()[j] == name;
        if i < j {
            assert(self.spec_key_seq()[i] != self.spec_key_seq()[j]);
        } else if j < i {
            assert(self.spec_key_seq()[j] != self.spec_key_seq()[i]);
        }
    }

    pub fn new() -> (r: StringMap<V>)
        ensures
            r.wf(),
            r.spec_key_seq() == Seq::<Seq<char>>::empty(),
            forall|name: Seq<char>| r.spec_get(name) is None,
    {
        let r = StringMap { keys: Vec::new(), vals: Vec::new() };
        proof {
            assert(r.spec_key_seq() =~= Seq::<Seq<char>>::empty());
        }
        r
    }

    pub fn len(&self) -> (r: usize)
        ensures
            r == self.spec_key_seq().len(),
    {
        self.keys.len()
    }

    /// The position of `name` among the keys, if it is bound.
    pub fn index_of(&self, name: &str) -> (r: Option<usize>)
        ensures
            match r {
                Some(i) => i < self.spec_key_seq().len() && self.spec_key_seq()[i as int]
                    == name@,
                None => !self.spec_contains(name@),
            },
    {
        let n = self.keys.len();
        let mut k: usize = 0;
        while k < n
            invariant
                n == self.keys@.len(),
                k <= n,
                forall|j: int| 0 <= j < k ==> self.spec_key_seq()[j] != name@,
            decreases n - k,
        {
            if str_eq(self.keys[k].as_str(), name) {
                return Some(k);
            }
            k = k + 1;
        }
        None
    }

    pub fn get(&self, name: &str) -> (r: Option<&V>)
        requires
            self.wf(),
        ensures
            match r {
                Some(v) => self.spec_get(name@) == Some(*v),
                None => self.spec_get(name@) is None,
            },
    {
        match self.index_of(name) {
            Some(i) => {
                proof {
                    self.lemma_get_at(name@, i as int);
                }
                Some(&self.vals[i])
            },
            None => None,
        }
    }

    /// Bind `key` to `val`, overriding an existing binding for the same key;
    /// a fresh key is appended after the existing ones.
    pub fn insert(&mut self, key: String, val: V)
        requires
            old(self).wf(),
        ensures
            final(self).wf(),
            final(self).spec_key_seq() == if old(self).spec_contains(key@) {
                old(self).spec_key_seq()
            } else {
                old(self).spec_key_seq().push(key@)
            },
            forall|name: Seq<char>|
                final(self).spec_get(name) == if name == key@ {
                    Some(val)
                } else {
                    old(self).spec_get(name)
                },
    {
        let ghost old_self = *self;
        match self.index_of(key.as_str()) {
            Some(i) => {
                self.vals.remove(i);
                self.vals.insert(i, val);
                proof {
                    assert(self.spec_key_seq() =~= old_self.spec_key_seq());
                    assert(self.vals@ =~= old_self.vals@.update(i as int, val));
                    assert forall|name: Seq<char>|
                        self.spec_get(name) == if name == key@ {
                            Some(val)
                        } else {
                            old_self.spec_get(name)
                        } by {
                        if name == key@ {
                            self.lemma_get_at(name, i as int);
                        } else {
                            if old_self.spec_contains(name) {
                                let j = choose|j: int|
                                    0 <= j < old_self.spec_key_seq().len()
                                        && old_self.spec_key_seq()[j] == name;
                                old_self.lemma_get_at(name, j);
                                self.lemma_get_at(name, j);
                            }
                        }
                    }
                }
            },
            None => {
                let ghost keyv = key@;
                self.keys.push(key);
                self.vals.push(val);
                proof {
                    assert(self.spec_key_seq() =~= old_self.spec_key_seq().push(keyv));
                    let n = old_self.spec_key_seq().len() as int;
                    assert forall|i: int, j: int|
                        0 <= i < j < self.spec_key_seq().len() implies self.spec_key_seq()[i]
                        != self.spec_key_seq()[j] by {
                        if j < n {
                        } else {
                            assert(self.spec_key_seq()[j] == keyv);
                            assert(!old_self.spec_contains(keyv));
                        }
                    }
                    assert forall|name: Seq<char>|
                        self.spec_get(name) == if name == keyv {
                            Some(val)
                        } else {
                            old_self.spec_get(name)
                        } by {
                        if name == keyv {
                            self.lemma_get_at(name, n);
                        } else {
                            if old_self.spec_contains(name) {
                                let j = choose|j: int|
                                    0 <= j < old_self.spec_key_seq().len()
                                        && old_self.spec_key_seq()[j] == name;
                                old_self.lemma_get_at(name, j);
                                self.lemma_get_at(name, j);
                            } else {
                                assert(!self.spec_contains(name));
                            }
                        }
                    }
                }
            },
        }
    }
}

} // verus!
