//! Sets of protocol values that a compositor advertises.
use std::collections::HashSet;
use std::marker::PhantomData;

use vstd::prelude::*;
use vstd::std_specs::hash::spec_hash_keys_iter;
use vstd::std_specs::iter::IteratorSpec;

use crate::protocol::ProtocolValue;

verus! {

/// Whether `seq` lists the members of `set`, each of them once.
pub open spec fn lists<T>(seq: Seq<T>, set: Set<T>) -> bool {
    &&& seq.no_duplicates()
    &&& seq.to_set() == set
}

/// A set of protocol values, kept as the hash set of their codes.
///
/// The view is the set of the values themselves.
#[derive(Debug)]
pub struct Advertised<T: ProtocolValue> {
    codes: HashSet<u64>,
    values: PhantomData<T>,
}

impl<T: ProtocolValue> View for Advertised<T> {
    type V = Set<T>;

    closed spec fn view(&self) -> Set<T> {
        Set::new(|value: T| self.codes@.contains(value.code_spec()))
    }
}

impl<T: ProtocolValue> Advertised<T> {
    /// Every code in the set stands for a value.
    #[verifier::type_invariant]
    spec fn wf(self) -> bool {
        forall|code: u64| #[trigger]
            self.codes@.contains(code) ==> exists|value: T| #[trigger] value.code_spec() == code
    }

    /// The empty set.
    pub fn empty() -> (set: Self)
        ensures
            set@ == Set::<T>::empty(),
    {
        let set = Advertised { codes: HashSet::new(), values: PhantomData };
        assert(set@ =~= Set::<T>::empty());
        set
    }

    /// The set with `value` added to it.
    pub fn with(self, value: T) -> (set: Self)
        ensures
            set@ == self@.insert(value),
    {
        proof {
            use_type_invariant(&self);
        }
        let ghost before = self@;
        let mut codes = self.codes;
        let ghost old_codes = codes@;
        codes.insert(value.code());
        assert forall|code: u64| #[trigger] codes@.contains(code) implies exists|v: T| #[trigger]
            v.code_spec() == code by {
            if code == value.code_spec() {
                assert(value.code_spec() == code);
            } else {
                assert(old_codes.contains(code));
            }
        }
        let set = Advertised { codes, values: PhantomData };
        assert(set@ =~= before.insert(value)) by {
            assert forall|v: T| set@.contains(v) == before.insert(value).contains(v) by {
                if v.code_spec() == value.code_spec() {
                    T::lemma_code_injective(v, value);
                }
            }
        }
        set
    }

    /// Whether `value` is in the set.
    pub fn contains(&self, value: T) -> (found: bool)
        ensures
            found == self@.contains(value),
    {
        self.codes.contains(&value.code())
    }

    /// The members of the set, each of them once, in the order in which the hash set is
    /// walked.
    pub fn to_vec(&self) -> (values: Vec<T>)
        ensures
            lists(values@, self@),
    {
        proof {
            use_type_invariant(self);
        }
        let mut values: Vec<T> = Vec::new();
        let ghost keys = spec_hash_keys_iter(&self.codes).remaining().unref();
        for code in iter: self.codes.iter()
            invariant
                self.wf(),
                keys == iter.seq().unref(),
                keys.to_set() == self.codes@,
                values@.len() == iter.index(),
                forall|i: int|
                    0 <= i < values@.len() ==> #[trigger] values@[i].code_spec() == keys[i],
        {
            let ghost index = iter.index();
            assert(*code == keys[index]);
            assert(keys.to_set().contains(*code));
            match T::from_code(*code) {
                Some(value) => values.push(value),
                None => {
                    assert(self.codes@.contains(*code));
                    assert(false);
                },
            }
        }
        proof {
            assert(values@.len() == keys.len());
            assert(keys.no_duplicates());
            assert(values@.no_duplicates()) by {
                assert forall|i: int, j: int|
                    0 <= i < values@.len() && 0 <= j < values@.len() && i != j implies values@[i]
                    != values@[j] by {
                    assert(values@[i].code_spec() == keys[i] && values@[j].code_spec() == keys[j]);
                    assert(keys[i] != keys[j]);
                }
            }
            assert(values@.to_set() =~= self@) by {
                assert forall|v: T| values@.to_set().contains(v) == self@.contains(v) by {
                    if values@.contains(v) {
                        let i = values@.index_of(v);
                        assert(keys[i] == v.code_spec());
                        assert(keys.to_set().contains(keys[i]));
                    }
                    if self@.contains(v) {
                        assert(keys.to_set().contains(v.code_spec()));
                        let i = keys.index_of(v.code_spec());
                        assert(values@[i].code_spec() == v.code_spec());
                        T::lemma_code_injective(values@[i], v);
                    }
                }
            }
        }
        values
    }
}

impl<T: ProtocolValue> Clone for Advertised<T> {
    fn clone(&self) -> (copy: Self)
        ensures
            copy@ == self@,
    {
        let values = self.to_vec();
        let ghost all = values@;
        let mut copy = Advertised::empty();
        assert(copy@ =~= all.take(0).to_set());
        for value in iter: values
            invariant
                iter.seq() == all,
                copy@ == all.take(iter.index()).to_set(),
        {
            let ghost index = iter.index();
            copy = copy.with(value);
            proof {
                let before = all.take(index);
                let after = all.take(index + 1);
                assert(after =~= before.push(value));
                assert forall|v: T| after.to_set().contains(v) == before.to_set().insert(
                    value,
                ).contains(v) by {
                    if before.contains(v) {
                        let i = before.index_of(v);
                        assert(after[i] == v);
                    }
                    assert(after[index] == value);
                }
                assert(after.to_set() =~= before.to_set().insert(value));
            }
        }
        assert(all.take(all.len() as int) =~= all);
        copy
    }
}

/// A listing holds each member of the set once, and nothing else.
pub proof fn lemma_listing_is_exact<T>(seq: Seq<T>, set: Set<T>)
    requires
        lists(seq, set),
    ensures
        forall|value: T| set.contains(value) <==> #[trigger] seq.contains(value),
        forall|i: int, j: int|
            0 <= i < j < seq.len() ==> #[trigger] seq[i] != #[trigger] seq[j],
{
    assert forall|value: T| set.contains(value) <==> #[trigger] seq.contains(value) by {
        assert(seq.to_set().contains(value) <==> seq.contains(value));
    }
}

} // verus!
