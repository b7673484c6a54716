//! Python `set` and `frozenset` objects: the part they share.
use crate::err::{PyErr, PyResult};
use crate::types::any::{any_model, any_seq, hashable, PyAny, PyAnyModel};
use vstd::prelude::*;

verus! {

/// Whether a sequence of objects can be the elements of a set: each can be hashed, and no
/// two are equal.
pub open spec fn set_wf(s: Seq<PyAnyModel>) -> bool {
    &&& forall|i: int| 0 <= i < s.len() ==> hashable(#[trigger] s[i])
    &&& forall|i: int, j: int| 0 <= i < j < s.len() ==> s[i] != s[j]
}

/// Represents either a Python `set` or `frozenset`.
///
/// Its elements are held in the order in which they were added.
pub struct PyAnySet {
    items: Vec<PyAny>,
}

impl View for PyAnySet {
    type V = Seq<PyAnyModel>;

    closed spec fn view(&self) -> Seq<PyAnyModel> {
        any_seq(self.items@)
    }
}

impl PyAnySet {
    #[verifier::type_invariant]
    spec fn inv(self) -> bool {
        set_wf(any_seq(self.items@))
    }
}

proof fn lemma_any_seq_len(s: Seq<PyAny>)
    ensures
        any_seq(s).len() == s.len(),
{
}

proof fn lemma_any_seq_push(s: Seq<PyAny>, v: PyAny)
    ensures
        any_seq(s.push(v)) == any_seq(s).push(any_model(v)),
{
    assert(any_seq(s.push(v)) =~= any_seq(s).push(any_model(v)));
}

proof fn lemma_any_seq_remove(s: Seq<PyAny>, i: int)
    requires
        0 <= i < s.len(),
    ensures
        any_seq(s.remove(i)) == any_seq(s).remove(i),
{
    assert(any_seq(s.remove(i)) =~= any_seq(s).remove(i));
}

/// Implementation of functionality shared by Python `set` and `frozenset` objects.
pub trait PyAnySetMethods {
    /// Returns the number of items in the set.
    ///
    /// This is equivalent to the Python expression `len(self)`.
    fn len(&self) -> usize;

    /// Checks if set is empty.
    fn is_empty(&self) -> bool;

    /// Determines if the set contains the specified key.
    ///
    /// This is equivalent to the Python expression `key in self`.
    fn contains(&self, key: PyAny) -> PyResult<bool>;
}

impl PyAnySet {
    /// An empty set.
    pub fn new_empty() -> (s: PyAnySet)
        ensures
            s@ == Seq::<PyAnyModel>::empty(),
    {
        let s = PyAnySet { items: Vec::new() };
        assert(any_seq(s.items@) =~= Seq::<PyAnyModel>::empty());
        s
    }

    /// The place of the element equal to `key`, if there is one.
    pub fn find(&self, key: &PyAny) -> (r: Option<usize>)
        ensures
            match r {
                Some(i) => i < self@.len() && self@[i as int] == key@,
                None => !self@.contains(key@),
            },
            set_wf(self@),
    {
        proof {
            use_type_invariant(self);
        }
        let ghost ms = any_seq(self.items@);
        let mut i: usize = 0;
        while i < self.items.len()
            invariant
                0 <= i <= self.items@.len(),
                ms == any_seq(self.items@),
                ms.len() == self.items@.len(),
                set_wf(ms),
                forall|j: int| 0 <= j < i ==> ms[j] != key@,
            decreases self.items.len() - i,
        {
            if self.items[i].py_eq(key) {
                return Some(i);
            }
            i += 1;
        }
        None
    }

    /// Adds `key`, which the set does not hold yet.
    pub(crate) fn push_new(&mut self, key: PyAny)
        requires
            hashable(key@),
            !old(self)@.contains(key@),
        ensures
            final(self)@ == old(self)@.push(key@),
            set_wf(final(self)@),
    {
        proof {
            use_type_invariant(&*self);
            lemma_any_seq_push(self.items@, key);
        }
        let mut items: Vec<PyAny> = Vec::new();
        std::mem::swap(&mut items, &mut self.items);
        items.push(key);
        self.items = items;
        proof {
            use_type_invariant(&*self);
        }
    }

    /// Removes and returns the element at place `i`.
    pub(crate) fn remove_at(&mut self, i: usize) -> (r: PyAny)
        requires
            i < old(self)@.len(),
        ensures
            r@ == old(self)@[i as int],
            final(self)@ == old(self)@.remove(i as int),
            !final(self)@.contains(old(self)@[i as int]),
            set_wf(final(self)@),
    {
        proof {
            use_type_invariant(&*self);
            lemma_any_seq_len(self.items@);
            lemma_any_seq_remove(self.items@, i as int);
        }
        let mut items: Vec<PyAny> = Vec::new();
        std::mem::swap(&mut items, &mut self.items);
        let r = items.remove(i);
        self.items = items;
        proof {
            use_type_invariant(&*self);
            let after = any_seq(self.items@);
            if after.contains(r@) {
                let k = choose|k: int| 0 <= k < after.len() && after[k] == r@;
                if k < i {
                    assert(old(self)@[k] == r@);
                } else {
                    assert(old(self)@[k + 1] == r@);
                }
            }
        }
        r
    }

    /// Removes every element.
    pub(crate) fn remove_all(&mut self)
        ensures
            final(self)@ == Seq::<PyAnyModel>::empty(),
    {
        self.items = Vec::new();
        assert(any_seq(self.items@) =~= Seq::<PyAnyModel>::empty());
    }

    /// A copy of the element at position `i`.
    pub(crate) fn item_at(&self, i: usize) -> (r: PyAny)
        requires
            i < self@.len(),
        ensures
            r@ == self@[i as int],
    {
        self.items[i].duplicate()
    }

    /// Copies of the elements, in order.
    pub(crate) fn items_copy(&self) -> (r: Vec<PyAny>)
        ensures
            any_seq(r@) == self@,
    {
        let mut r: Vec<PyAny> = Vec::new();
        let mut i: usize = 0;
        while i < self.items.len()
            invariant
                0 <= i <= self.items@.len(),
                r@.len() == i,
                forall|j: int| 0 <= j < i ==> any_model(#[trigger] r@[j]) == any_model(
                    self.items@[j],
                ),
            decreases self.items.len() - i,
        {
            r.push(self.items[i].duplicate());
            i += 1;
        }
        assert(any_seq(r@) =~= any_seq(self.items@));
        r
    }

    /// Copies this set.
    pub fn duplicate(&self) -> (r: PyAnySet)
        ensures
            r@ == self@,
    {
        proof {
            use_type_invariant(self);
        }
        PyAnySet { items: self.items_copy() }
    }
}

impl PyAnySetMethods for PyAnySet {
    fn len(&self) -> (n: usize)
        ensures
            n == self@.len(),
            set_wf(self@),
    {
        proof {
            use_type_invariant(self);
            lemma_any_seq_len(self.items@);
        }
        self.items.len()
    }

    fn is_empty(&self) -> (b: bool)
        ensures
            b == (self@.len() == 0),
    {
        self.len() == 0
    }

    /// Fails with `TypeError` where `key` cannot be hashed.
    fn contains(&self, key: PyAny) -> (r: PyResult<bool>)
        ensures
            hashable(key@) ==> r == Ok::<bool, PyErr>(self@.contains(key@)),
            !hashable(key@) ==> r == Err::<bool, PyErr>(PyErr::TypeError),
    {
        if !key.is_hashable() {
            return Err(PyErr::TypeError);
        }
        match self.find(&key) {
            Some(_) => Ok(true),
            None => Ok(false),
        }
    }
}

} // verus!
