//! A label-keyed resource registry: the single owner of the handles the
//! renderer creates. Labels are unique; submitting under an existing label
//! replaces the prior entry, and the replaced handle is dropped.

use vstd::prelude::*;

verus! {

/// A registry of values keyed by string labels. Its abstract state, `self@`,
/// is the map from label (as a character sequence) to the stored value; the
/// internal vectors hold exactly one entry per label.
#[verifier::reject_recursive_types(T)]
pub struct Registry<T> {
    labels: Vec<String>,
    values: Vec<T>,
    table: Ghost<Map<Seq<char>, T>>,
}

impl<T> View for Registry<T> {
    type V = Map<Seq<char>, T>;

    closed spec fn view(&self) -> Map<Seq<char>, T> {
        self.table@
    }
}

impl<T> Registry<T> {
    /// The number of entries: one per registered label.
    pub closed spec fn len_spec(self) -> nat {
        self.labels@.len()
    }

    /// Well-formedness: labels and values run in parallel, labels are
    /// pairwise distinct, and the ghost table mirrors them exactly.
    pub closed spec fn wf(self) -> bool {
        &&& self.labels@.len() == self.values@.len()
        &&& forall|i: int, j: int|
            0 <= i < j < self.labels@.len() ==> self.labels@[i]@ != self.labels@[j]@
        &&& forall|i: int|
            0 <= i < self.labels@.len() ==> #[trigger] self.table@.contains_key(self.labels@[i]@)
                && self.table@[self.labels@[i]@] == self.values@[i]
        &&& forall|l: Seq<char>|
            #[trigger] self.table@.contains_key(l) ==> exists|i: int|
                0 <= i < self.labels@.len() && self.labels@[i]@ == l
    }

    /// Builds an empty registry.
    pub fn New() -> (r: Self)
        ensures
            r.wf(),
            r@ == Map::<Seq<char>, T>::empty(),
            r.len_spec() == 0,
    {
        Registry {
            labels: Vec::new(),
            values: Vec::new(),
            table: Ghost(Map::empty()),
        }
    }

    /// The number of entries held.
    pub fn Len(&self) -> (r: usize)
        ensures
            r == self.len_spec(),
    {
        self.labels.len()
    }

    /// Registers `value` under `label`. An existing entry under the same
    /// label is overwritten (the old value is dropped) and the entry count
    /// stays; a new label appends one entry.
    #[verifier::loop_isolation(false)]
    pub fn Submit(&mut self, label: String, value: T)
        requires
            old(self).wf(),
        ensures
            final(self).wf(),
            final(self)@ == old(self)@.insert(label@, value),
            old(self)@.contains_key(label@) ==> final(self).len_spec() == old(self).len_spec(),
            !old(self)@.contains_key(label@) ==> final(self).len_spec() == old(self).len_spec()
                + 1,
    {
        let ghost v = value;
        let n = self.labels.len();
        let mut i: usize = 0;
        while i < n
            invariant
                self == old(self),
                n == self.labels@.len(),
                0 <= i <= n,
                forall|j: int| 0 <= j < i ==> self.labels@[j]@ != label@,
            decreases n - i,
        {
            if self.labels[i].eq(&label) {
                self.values[i] = value;
                proof {
                    self.table@ = self.table@.insert(label@, v);
                    assert(self.labels@[i as int]@ == label@);
                    assert forall|k: int|
                        0 <= k < self.labels@.len() implies #[trigger] self.table@.contains_key(
                        self.labels@[k]@,
                    ) && self.table@[self.labels@[k]@] == self.values@[k] by {
                        if k != i {
                            assert(self.labels@[k]@ != label@);
                        }
                    }
                    assert forall|l: Seq<char>| #[trigger]
                        self.table@.contains_key(l) implies exists|k: int|
                        0 <= k < self.labels@.len() && self.labels@[k]@ == l by {
                        if l == label@ {
                            assert(self.labels@[i as int]@ == l);
                        } else {
                            assert(old(self).table@.contains_key(l));
                        }
                    }
                }
                assert(final(self)@ =~= old(self)@.insert(label@, v));
                return;
            }
            i += 1;
        }
        proof {
            if old(self)@.contains_key(label@) {
                let wit = choose|k: int|
                    0 <= k < self.labels@.len() && self.labels@[k]@ == label@;
                assert(false);
            }
        }
        self.labels.push(label);
        self.values.push(value);
        proof {
            let ghost ln = self.labels@.len() - 1;
            self.table@ = self.table@.insert(self.labels@[ln]@, v);
            assert(self.labels@[ln]@ == label@);
            assert forall|k: int|
                0 <= k < self.labels@.len() implies #[trigger] self.table@.contains_key(
                self.labels@[k]@,
            ) && self.table@[self.labels@[k]@] == self.values@[k] by {
                if k < ln {
                    assert(self.labels@[k] == old(self).labels@[k]);
                    assert(self.labels@[k]@ != label@);
                }
            }
            assert forall|l: Seq<char>| #[trigger]
                self.table@.contains_key(l) implies exists|k: int|
                0 <= k < self.labels@.len() && self.labels@[k]@ == l by {
                if l == label@ {
                    assert(self.labels@[ln]@ == l);
                } else {
                    assert(old(self).table@.contains_key(l));
                    let wit = choose|k: int|
                        0 <= k < old(self).labels@.len() && old(self).labels@[k]@ == l;
                    assert(self.labels@[wit]@ == l);
                }
            }
        }
        assert(final(self)@ =~= old(self)@.insert(label@, v));
    }

    /// Looks up the value registered under `label`, if any.
    #[verifier::loop_isolation(false)]
    pub fn Get<'a>(&'a self, label: &String) -> (r: Option<&'a T>)
        requires
            self.wf(),
        ensures
            match r {
                Some(value) => self@.contains_key(label@) && *value == self@[label@],
                None => !self@.contains_key(label@),
            },
    {
        let n = self.labels.len();
        let mut i: usize = 0;
        while i < n
            invariant
                0 <= i <= n,
                forall|j: int| 0 <= j < i ==> self.labels@[j]@ != label@,
            decreases n - i,
        {
            if self.labels[i].eq(label) {
                return Some(&self.values[i]);
            }
            i += 1;
        }
        proof {
            if self@.contains_key(label@) {
                let wit = choose|k: int|
                    0 <= k < self.labels@.len() && self.labels@[k]@ == label@;
                assert(false);
            }
        }
        None
    }

    /// Reports whether a value is registered under `label`.
    pub fn Contains(&self, label: &String) -> (r: bool)
        requires
            self.wf(),
        ensures
            r == self@.contains_key(label@),
    {
        match self.Get(label) {
            Some(_) => true,
            None => false,
        }
    }
}

/// Submitting a value under one label and then a second value under the same
/// label leaves the registry exactly as if only the second submission had
/// happened: the map holds one entry for that label, and it holds the second
/// value.
pub proof fn law_overwrite<T>(m: Map<Seq<char>, T>, l: Seq<char>, v1: T, v2: T)
    ensures
        m.insert(l, v1).insert(l, v2) =~= m.insert(l, v2),
        m.insert(l, v1).insert(l, v2)[l] == v2,
{
}

} // verus!
