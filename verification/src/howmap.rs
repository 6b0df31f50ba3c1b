//! Keyed storage over owning wrappers.
//!
//! An association from wrapped keys to values, with the two lookup routes
//! the wrapper design exists for: inserting compares stored keys to the new
//! key through the wrapper's own equality, so two present cached codes that
//! differ skip the full key comparison; looking up takes a borrowed view,
//! owns nothing, and uses the view's transient code to pre-filter stored
//! keys whose cached code already rules them out.

use vstd::prelude::*;
use vstd::std_specs::cmp::PartialEqSpec;

use crate::alg::DefaultHashAlg;
use crate::alg::HashAlg;
use crate::borrowed::Borrowed;
use crate::code::code_of;
use crate::code::FromHash;
use crate::how::hash_respects_eq;
use crate::how::lemma_eq_shortcut_sound;
use crate::how::How;
use crate::storer::CellStorer;
use crate::storer::HashStorer;

verus! {

/// A map from wrapped keys to values, kept as an association list in
/// insertion order.  Lookups accept a borrowed view in place of an owning
/// key, with equality and hashing agreeing between the two.
pub struct HowMap<T, V, H = DefaultHashAlg, S = CellStorer<u64>> {
    entries: Vec<(How<T, H, S>, V)>,
}

impl<T: PartialEq, V, H: HashAlg<T>, S: HashStorer> HowMap<T, V, H, S> {
    /// The association this map holds: each key's value paired with its
    /// mapped value, in insertion order.
    pub closed spec fn spec_entries(&self) -> Seq<(T, V)> {
        Seq::new(
            self.entries@.len(),
            |i: int| (self.entries@[i].0.spec_value(), self.entries@[i].1),
        )
    }

    /// Whether some stored key equals `k` by the value type's own equality.
    pub open spec fn contains_key(&self, k: T) -> bool {
        exists|i: int|
            0 <= i < self.spec_entries().len() && (#[trigger] self.spec_entries()[i]).0.eq_spec(&k)
    }

    /// Well-formed: every stored key is well-formed, and, as far as the
    /// value type's equality is meaningful, no two stored keys are equal.
    pub closed spec fn wf(&self) -> bool {
        &&& forall|i: int|
            0 <= i < self.entries@.len() ==> (#[trigger] self.entries@[i].0.wf())
        &&& T::obeys_eq_spec() ==> forall|i: int, j: int|
            0 <= i < j < self.entries@.len()
                ==> !(#[trigger] self.entries@[i].0.spec_value().eq_spec(
                &self.entries@[j].0.spec_value(),
            ))
    }

    /// An empty map.
    pub fn new() -> (r: Self)
        ensures
            r.wf(),
            r.spec_entries() == Seq::<(T, V)>::empty(),
    {
        let r = HowMap { entries: Vec::new() };
        proof {
            assert(r.spec_entries() =~= Seq::<(T, V)>::empty());
        }
        r
    }

    /// How many keys the map holds.
    pub fn len(&self) -> (r: usize)
        ensures
            r == self.spec_entries().len(),
    {
        self.entries.len()
    }

    /// Insert a key-value pair.  If a stored key equals the new one, its
    /// value is replaced, the stored key and its cache are kept, and the
    /// old value is returned; otherwise the pair is appended.  Stored keys
    /// whose cached code differs from the new key's cached code are skipped
    /// without a full comparison.
    #[verifier::loop_isolation(false)]
    pub fn insert(&mut self, key: How<T, H, S>, value: V) -> (r: Option<V>)
        requires
            old(self).wf(),
            key.wf(),
            hash_respects_eq::<T, H>(),
        ensures
            final(self).wf(),
            T::obeys_eq_spec() ==> match r {
                Some(old_v) => exists|i: int|
                    {
                        &&& 0 <= i < old(self).spec_entries().len()
                        &&& (#[trigger] old(self).spec_entries()[i]).0.eq_spec(&key.spec_value())
                        &&& old_v == old(self).spec_entries()[i].1
                        &&& final(self).spec_entries() == old(self).spec_entries().update(
                            i,
                            (old(self).spec_entries()[i].0, value),
                        )
                    },
                None => !old(self).contains_key(key.spec_value()) && final(self).spec_entries()
                    == old(self).spec_entries().push((key.spec_value(), value)),
            },
    {
        let ghost entries0 = self.spec_entries();
        let ghost vec0 = self.entries@;
        let ghost gvalue = value;
        let ghost gkey = key;
        let mut i: usize = 0;
        while i < self.entries.len()
            invariant
                i <= self.entries.len(),
                self.wf(),
                key.wf(),
                key == gkey,
                value == gvalue,
                hash_respects_eq::<T, H>(),
                self.entries@ == vec0,
                self.spec_entries() == entries0,
                T::obeys_eq_spec() ==> forall|j: int|
                    0 <= j < i ==> !(#[trigger] self.spec_entries()[j]).0.eq_spec(
                        &key.spec_value(),
                    ),
            decreases self.entries.len() - i,
        {
            let hit = self.entries[i].0.eq(&key);
            proof {
                assert(self.entries@[i as int].0.wf());
                lemma_eq_shortcut_sound(self.entries@[i as int].0, key);
            }
            if hit {
                let kept = self.entries.remove(i);
                let ghost vec1 = self.entries@;
                let (kept_key, old_value) = kept;
                self.entries.insert(i, (kept_key, value));
                proof {
                    let pos = i as int;
                    let elem = (vec0[pos].0, gvalue);
                    assert(vec1 == vec0.remove(pos));
                    assert(self.entries@ == vec1.insert(pos, elem));
                    vec0.remove_ensures(pos);
                    vec0.remove(pos).insert_ensures(pos, elem);
                    assert(self.entries@ == vec0.remove(pos).insert(pos, elem));
                    assert forall|j: int| 0 <= j < self.entries@.len() implies self.entries@[j]
                        == vec0.update(pos, elem)[j] by {
                        if j < pos {
                            assert(vec0.remove(pos)[j] == vec0[j]);
                            assert(vec0.remove(pos).insert(pos, elem)[j] == vec0.remove(pos)[j]);
                        } else if j > pos {
                            assert(vec0.remove(pos)[j - 1] == vec0[j]);
                            assert(vec0.remove(pos).insert(pos, elem)[(j - 1) + 1] == vec0.remove(
                                pos,
                            )[j - 1]);
                        }
                    }
                    assert(self.entries@ =~= vec0.update(pos, elem));
                    assert(self.spec_entries() =~= entries0.update(
                        pos,
                        (entries0[pos].0, gvalue),
                    ));
                }
                return Some(old_value);
            }
            proof {
                if T::obeys_eq_spec() {
                    assert(!(self.spec_entries()[i as int].0.eq_spec(&key.spec_value())));
                }
            }
            i += 1;
        }
        self.entries.push((key, value));
        proof {
            assert(self.spec_entries() =~= entries0.push((gkey.spec_value(), gvalue)));
            assert forall|i2: int| 0 <= i2 < self.entries@.len() implies (
            #[trigger] self.entries@[i2].0.wf()) by {
                if i2 + 1 == self.entries@.len() {
                    assert(self.entries@[i2].0 == gkey);
                } else {
                    assert(self.entries@[i2] == vec0[i2]);
                    assert(vec0[i2].0.wf());
                }
            }
            if T::obeys_eq_spec() {
                assert forall|i2: int, j2: int| 0 <= i2 < j2 < self.entries@.len() implies !(
                #[trigger] self.entries@[i2].0.spec_value().eq_spec(
                    &self.entries@[j2].0.spec_value(),
                )) by {
                    if j2 + 1 == self.entries@.len() {
                        assert(!(self.spec_entries()[i2].0.eq_spec(&gkey.spec_value())));
                    } else {
                        assert(self.entries@[i2] == vec0[i2]);
                        assert(self.entries@[j2] == vec0[j2]);
                    }
                }
            }
        }
        None
    }

    /// Look a key up with an owning wrapper, as when the probe key is
    /// itself stored elsewhere.  Stored keys and the lookup key compare
    /// through the wrapper's own equality, so two present cached codes that
    /// differ skip the full value comparison.
    pub fn get_with(&self, key: &How<T, H, S>) -> (r: Option<&V>)
        requires
            self.wf(),
            key.wf(),
            hash_respects_eq::<T, H>(),
        ensures
            T::obeys_eq_spec() ==> match r {
                Some(v) => exists|i: int|
                    {
                        &&& 0 <= i < self.spec_entries().len()
                        &&& (#[trigger] self.spec_entries()[i]).0.eq_spec(&key.spec_value())
                        &&& *v == self.spec_entries()[i].1
                    },
                None => !self.contains_key(key.spec_value()),
            },
    {
        let mut i: usize = 0;
        while i < self.entries.len()
            invariant
                i <= self.entries.len(),
                self.wf(),
                key.wf(),
                hash_respects_eq::<T, H>(),
                T::obeys_eq_spec() ==> forall|j: int|
                    0 <= j < i ==> !(#[trigger] self.spec_entries()[j]).0.eq_spec(
                        &key.spec_value(),
                    ),
            decreases self.entries.len() - i,
        {
            let pair = &self.entries[i];
            let hit = pair.0.eq(key);
            proof {
                assert(self.entries@[i as int].0.wf());
                lemma_eq_shortcut_sound(self.entries@[i as int].0, *key);
            }
            if hit {
                proof {
                    if T::obeys_eq_spec() {
                        assert((self.spec_entries()[i as int]).0.eq_spec(&key.spec_value()));
                    }
                }
                return Some(&pair.1);
            }
            proof {
                if T::obeys_eq_spec() {
                    assert(!(self.spec_entries()[i as int].0.eq_spec(&key.spec_value())));
                }
            }
            i += 1;
        }
        None
    }

    /// Look a key up through a borrowed view: no owning wrapper and no
    /// cache slot are needed on the lookup side.  The view's code is
    /// computed once; stored keys whose cached code differs are skipped
    /// without a full comparison, which is sound because a well-formed
    /// cached code is a function of the key it belongs to.
    pub fn get(&self, key: &Borrowed<T, H, S>) -> (r: Option<&V>)
        requires
            self.wf(),
            hash_respects_eq::<T, H>(),
        ensures
            T::obeys_eq_spec() ==> match r {
                Some(v) => exists|i: int|
                    {
                        &&& 0 <= i < self.spec_entries().len()
                        &&& (#[trigger] self.spec_entries()[i]).0.eq_spec(&key.value)
                        &&& *v == self.spec_entries()[i].1
                    },
                None => !self.contains_key(key.value),
            },
    {
        let vcode = key.make_hash();
        let mut i: usize = 0;
        while i < self.entries.len()
            invariant
                i <= self.entries.len(),
                self.wf(),
                hash_respects_eq::<T, H>(),
                S::caches() ==> vcode == code_of::<T, H, S::HashCode>(key.value),
                T::obeys_eq_spec() ==> forall|j: int|
                    0 <= j < i ==> !(#[trigger] self.spec_entries()[j]).0.eq_spec(&key.value),
            decreases self.entries.len() - i,
        {
            let pair = &self.entries[i];
            let skip = match How::hash_code(&pair.0) {
                Some(c) => !c.eq_code(&vcode),
                None => false,
            };
            proof {
                assert(self.entries@[i as int].0.wf());
                if skip && T::obeys_eq_spec() {
                    pair.0.lemma_code_needs_caching();
                    if pair.0.spec_value().eq_spec(&key.value) {
                        assert(H::hash_spec(pair.0.spec_value()) == H::hash_spec(key.value));
                        assert(false);
                    }
                }
            }
            if !skip {
                if pair.0.eq(key) {
                    proof {
                        if T::obeys_eq_spec() {
                            assert((self.spec_entries()[i as int]).0.eq_spec(&key.value));
                        }
                    }
                    return Some(&pair.1);
                }
            }
            proof {
                if T::obeys_eq_spec() {
                    assert(!(self.spec_entries()[i as int].0.eq_spec(&key.value)));
                }
            }
            i += 1;
        }
        None
    }
}

} // verus!
