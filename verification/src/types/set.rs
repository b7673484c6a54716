//! The Python `set` type.
use crate::err::{PyErr, PyResult};
use crate::types::any::{any_seq, hashable, PyAny, PyAnyModel};
use crate::types::anyset::{set_wf, PyAnySet, PyAnySetMethods};
use vstd::prelude::*;

verus! {

/// Represents a Python `set`.
///
/// For APIs available on `set` objects, see the [`PySetMethods`] trait.
pub struct PySet {
    set: PyAnySet,
}

impl View for PySet {
    type V = Seq<PyAnyModel>;

    closed spec fn view(&self) -> Seq<PyAnyModel> {
        self.set@
    }
}

/// The elements of `s` in order, each kept at its first occurrence only.
pub open spec fn dedup(s: Seq<PyAnyModel>) -> Seq<PyAnyModel>
    decreases s.len(),
{
    if s.len() == 0 {
        Seq::empty()
    } else {
        let d = dedup(s.drop_last());
        if d.contains(s.last()) {
            d
        } else {
            d.push(s.last())
        }
    }
}

/// Whether every object of a sequence can be hashed.
pub open spec fn each_hashable(s: Seq<PyAnyModel>) -> bool {
    forall|i: int| 0 <= i < s.len() ==> hashable(#[trigger] s[i])
}

/// A set built from a list of hashable elements holds each of them once, and nothing else.
pub proof fn lemma_dedup_elements(s: Seq<PyAnyModel>)
    requires
        each_hashable(s),
    ensures
        set_wf(dedup(s)),
        forall|x: PyAnyModel| dedup(s).contains(x) <==> s.contains(x),
        dedup(s).len() <= s.len(),
    decreases s.len(),
{
    if s.len() > 0 {
        let p = s.drop_last();
        assert forall|i: int| 0 <= i < p.len() implies hashable(#[trigger] p[i]) by {
            assert(p[i] == s[i]);
        }
        lemma_dedup_elements(p);
        let d = dedup(p);
        assert forall|x: PyAnyModel| dedup(s).contains(x) <==> s.contains(x) by {
            if s.contains(x) && x != s.last() {
                let k = choose|k: int| 0 <= k < s.len() && s[k] == x;
                assert(p[k] == x);
            }
            if p.contains(x) {
                let k = choose|k: int| 0 <= k < p.len() && p[k] == x;
                assert(s[k] == x);
            }
            if !d.contains(s.last()) {
                if d.push(s.last()).contains(x) && x != s.last() {
                    let k = choose|k: int| 0 <= k < d.push(s.last()).len() && d.push(s.last())[k] == x;
                    assert(d[k] == x);
                }
                if d.contains(x) {
                    let k = choose|k: int| 0 <= k < d.len() && d[k] == x;
                    assert(d.push(s.last())[k] == x);
                }
                assert(d.push(s.last())[d.len() as int] == s.last());
            }
            assert(s[s.len() - 1] == s.last());
        }
        if !d.contains(s.last()) {
            let e = d.push(s.last());
            assert(hashable(s[s.len() - 1]));
            assert forall|i: int, j: int| 0 <= i < j < e.len() implies e[i] != e[j] by {
                if j == d.len() {
                    assert(e[j] == s.last());
                    assert(e[i] == d[i]);
                }
            }
        }
    }
}

/// The set `s` after `add(k)`: unchanged where it holds `k`, else with `k` last.
pub open spec fn set_add(s: Seq<PyAnyModel>, k: PyAnyModel) -> Seq<PyAnyModel> {
    if s.contains(k) {
        s
    } else {
        s.push(k)
    }
}

/// The set `s` after `discard(k)`: without `k` where it holds it, else unchanged.
pub open spec fn set_discard(s: Seq<PyAnyModel>, k: PyAnyModel) -> Seq<PyAnyModel> {
    if s.contains(k) {
        s.remove(choose|i: int| 0 <= i < s.len() && s[i] == k)
    } else {
        s
    }
}

/// In a well-formed set, an element stands at one place only.
proof fn lemma_place_unique(s: Seq<PyAnyModel>, k: PyAnyModel, i: int)
    requires
        set_wf(s),
        0 <= i < s.len(),
        s[i] == k,
    ensures
        (choose|j: int| 0 <= j < s.len() && s[j] == k) == i,
{
    let j = choose|j: int| 0 <= j < s.len() && s[j] == k;
    assert(s.contains(k));
    if j < i {
        assert(s[j] != s[i]);
    } else if j > i {
        assert(s[i] != s[j]);
    }
}

/// Adding an element that can be hashed keeps a set well formed, and the set then holds it.
pub proof fn lemma_add_then_contains(s: Seq<PyAnyModel>, k: PyAnyModel)
    requires
        set_wf(s),
        hashable(k),
    ensures
        set_wf(set_add(s, k)),
        set_add(s, k).contains(k),
        forall|x: PyAnyModel| s.contains(x) ==> set_add(s, k).contains(x),
{
    if !s.contains(k) {
        let t = s.push(k);
        assert(t[s.len() as int] == k);
        assert forall|x: PyAnyModel| s.contains(x) implies t.contains(x) by {
            let i = choose|i: int| 0 <= i < s.len() && s[i] == x;
            assert(t[i] == x);
        }
        assert forall|i: int, j: int| 0 <= i < j < t.len() implies t[i] != t[j] by {
            if j == s.len() {
                assert(t[i] == s[i]);
            }
        }
    }
}

/// Adding an element twice leaves what adding it once does.
pub proof fn lemma_add_idempotent(s: Seq<PyAnyModel>, k: PyAnyModel)
    ensures
        set_add(set_add(s, k), k) == set_add(s, k),
{
    if !s.contains(k) {
        assert(s.push(k)[s.len() as int] == k);
    }
}

/// Discarding an element leaves a well-formed set without it, and with every other element.
pub proof fn lemma_discard_then_not_contains(s: Seq<PyAnyModel>, k: PyAnyModel)
    requires
        set_wf(s),
    ensures
        set_wf(set_discard(s, k)),
        !set_discard(s, k).contains(k),
        forall|x: PyAnyModel| x != k ==> (set_discard(s, k).contains(x) <==> s.contains(x)),
{
    if s.contains(k) {
        let i = choose|i: int| 0 <= i < s.len() && s[i] == k;
        let t = s.remove(i);
        assert forall|a: int, b: int| 0 <= a < b < t.len() implies t[a] != t[b] by {
            if b < i {
            } else if a < i {
                assert(t[b] == s[b + 1]);
            } else {
                assert(t[a] == s[a + 1] && t[b] == s[b + 1]);
            }
        }
        assert forall|j: int| 0 <= j < t.len() implies hashable(#[trigger] t[j]) by {
            if j < i {
                assert(t[j] == s[j]);
            } else {
                assert(t[j] == s[j + 1]);
            }
        }
        if t.contains(k) {
            let j = choose|j: int| 0 <= j < t.len() && t[j] == k;
            if j < i {
                assert(s[j] == k);
            } else {
                assert(s[j + 1] == k);
            }
        }
        assert forall|x: PyAnyModel| x != k implies (t.contains(x) <==> s.contains(x)) by {
            if s.contains(x) {
                let j = choose|j: int| 0 <= j < s.len() && s[j] == x;
                if j < i {
                    assert(t[j] == x);
                } else {
                    assert(j != i);
                    assert(t[j - 1] == x);
                }
            }
            if t.contains(x) {
                let j = choose|j: int| 0 <= j < t.len() && t[j] == x;
                if j < i {
                    assert(s[j] == x);
                } else {
                    assert(s[j + 1] == x);
                }
            }
        }
    }
}

/// Discarding an element that was just added to a set that did not hold it gives the set
/// back.
pub proof fn lemma_discard_undoes_add(s: Seq<PyAnyModel>, k: PyAnyModel)
    requires
        set_wf(s),
        hashable(k),
        !s.contains(k),
    ensures
        set_discard(set_add(s, k), k) == s,
{
    let t = s.push(k);
    assert(t[s.len() as int] == k);
    lemma_add_then_contains(s, k);
    lemma_place_unique(t, k, s.len() as int);
    assert(t.remove(s.len() as int) =~= s);
}

proof fn lemma_each_hashable_step(s: Seq<PyAnyModel>, i: int)
    requires
        0 <= i < s.len(),
        each_hashable(s.take(i)),
        hashable(s[i]),
    ensures
        each_hashable(s.take(i + 1)),
{
    assert forall|j: int| 0 <= j < s.take(i + 1).len() implies hashable(#[trigger] s.take(i + 1)[j]) by {
        if j < i {
            assert(s.take(i + 1)[j] == s.take(i)[j]);
        }
    }
}

impl PySet {
    /// Creates a new set with the given elements, each once.
    ///
    /// Returns an error if some element is not hashable.
    pub fn new(elements: Vec<PyAny>) -> (r: PyResult<PySet>)
        ensures
            each_hashable(any_seq(elements@)) ==> (r matches Ok(s) && s@ == dedup(
                any_seq(elements@),
            ) && set_wf(s@)),
            !each_hashable(any_seq(elements@)) ==> r == Err::<PySet, PyErr>(PyErr::TypeError),
    {
        let ghost es = any_seq(elements@);
        let mut set = Self::empty();
        let mut i: usize = 0;
        assert(es.take(0) =~= Seq::<PyAnyModel>::empty());
        while i < elements.len()
            invariant
                0 <= i <= elements@.len(),
                es == any_seq(elements@),
                es.len() == elements@.len(),
                each_hashable(es.take(i as int)),
                set@ == dedup(es.take(i as int)),
            decreases elements.len() - i,
        {
            assert(es.take(i + 1).drop_last() =~= es.take(i as int));
            assert(es.take(i + 1).last() == es[i as int]);
            let e = elements[i].duplicate();
            match set.add(e) {
                Ok(()) => {},
                Err(err) => {
                    assert(!hashable(es[i as int]));
                    assert(!each_hashable(es));
                    return Err(err);
                },
            }
            proof {
                lemma_each_hashable_step(es, i as int);
            }
            i += 1;
        }
        assert(es.take(elements@.len() as int) =~= es);
        proof {
            lemma_dedup_elements(es);
        }
        Ok(set)
    }

    /// Creates a new empty set.
    pub fn empty() -> (s: PySet)
        ensures
            s@ == Seq::<PyAnyModel>::empty(),
    {
        PySet { set: PyAnySet::new_empty() }
    }
}

/// Implementation of functionality for [`PySet`].
pub trait PySetMethods {
    /// Removes all elements from the set.
    fn clear(&mut self);

    /// Returns the number of items in the set.
    ///
    /// This is equivalent to the Python expression `len(self)`.
    fn len(&self) -> usize;

    /// Checks if set is empty.
    fn is_empty(&self) -> bool;

    /// Determines if the set contains the specified key.
    ///
    /// This is equivalent to the Python expression `key in self`.
    fn contains(&self, key: PyAny) -> PyResult<bool>;

    /// Removes the element from the set if it is present.
    ///
    /// Returns `true` if the element was present in the set.
    fn discard(&mut self, key: PyAny) -> PyResult<bool>;

    /// Adds an element to the set.
    fn add(&mut self, key: PyAny) -> PyResult<()>;

    /// Removes and returns an arbitrary element from the set.
    fn pop(&mut self) -> Option<PyAny>;

    /// Returns `self` cast as [`PyAnySet`].
    fn as_any_set(&self) -> &PyAnySet;

    /// Returns `self` cast as [`PyAnySet`].
    fn into_any_set(self) -> PyAnySet;

    /// Returns an iterator of values in this set.
    ///
    /// The iterator borrows the set, so the set cannot change while it is in use.
    fn iter(&self) -> BoundSetIterator<'_>;
}

impl PySetMethods for PySet {
    fn clear(&mut self)
        ensures
            final(self)@ == Seq::<PyAnyModel>::empty(),
            set_wf(final(self)@),
    {
        self.set.remove_all();
    }

    fn len(&self) -> (n: usize)
        ensures
            n == self@.len(),
            set_wf(self@),
    {
        self.as_any_set().len()
    }

    fn is_empty(&self) -> (b: bool)
        ensures
            b == (self@.len() == 0),
    {
        self.len() == 0
    }

    /// Fails with `TypeError` where `key` cannot be hashed.
    fn contains(&self, key: PyAny) -> (r: PyResult<bool>)
        ensures
            hashable(key@) ==> r == Ok::<bool, PyErr>(self@.contains(key@)),
            !hashable(key@) ==> r == Err::<bool, PyErr>(PyErr::TypeError),
    {
        self.as_any_set().contains(key)
    }

    /// Fails with `TypeError`, changing nothing, where `key` cannot be hashed.
    fn discard(&mut self, key: PyAny) -> (r: PyResult<bool>)
        ensures
            hashable(key@) ==> {
                &&& r == Ok::<bool, PyErr>(old(self)@.contains(key@))
                &&& final(self)@ == set_discard(old(self)@, key@)
            },
            !hashable(key@) ==> r == Err::<bool, PyErr>(PyErr::TypeError) && final(self)@ == old(
                self,
            )@,
            set_wf(final(self)@),
    {
        let found = self.set.find(&key);
        if !key.is_hashable() {
            return Err(PyErr::TypeError);
        }
        match found {
            Some(i) => {
                proof {
                    lemma_place_unique(self@, key@, i as int);
                }
                let _removed = self.set.remove_at(i);
                Ok(true)
            },
            None => Ok(false),
        }
    }

    /// Fails with `TypeError`, changing nothing, where `key` cannot be hashed.
    fn add(&mut self, key: PyAny) -> (r: PyResult<()>)
        ensures
            hashable(key@) ==> r == Ok::<(), PyErr>(()) && final(self)@ == set_add(old(self)@, key@),
            !hashable(key@) ==> r == Err::<(), PyErr>(PyErr::TypeError) && final(self)@ == old(
                self,
            )@,
            set_wf(final(self)@),
    {
        let found = self.set.find(&key);
        if !key.is_hashable() {
            return Err(PyErr::TypeError);
        }
        match found {
            Some(_) => Ok(()),
            None => {
                self.set.push_new(key);
                Ok(())
            },
        }
    }

    fn pop(&mut self) -> (r: Option<PyAny>)
        ensures
            set_wf(final(self)@),
            old(self)@.len() == 0 ==> r is None && final(self)@ == old(self)@,
            old(self)@.len() > 0 ==> (r matches Some(x) && exists|i: int|
                0 <= i < old(self)@.len() && old(self)@[i] == x@ && final(self)@ == old(
                    self,
                )@.remove(i)),
    {
        let n = self.len();
        if n == 0 {
            return None;
        }
        let x = self.set.remove_at(n - 1);
        Some(x)
    }

    fn as_any_set(&self) -> (s: &PyAnySet)
        ensures
            s@ == self@,
    {
        &self.set
    }

    fn into_any_set(self) -> (s: PyAnySet)
        ensures
            s@ == self@,
    {
        self.set
    }

    fn iter(&self) -> (it: BoundSetIterator<'_>)
        ensures
            it@.items == self@,
            it@.index == 0,
    {
        BoundSetIterator::new(SetSource::Borrowed(&self.set))
    }
}

impl PySet {
    /// Returns an iterator of values in this set, consuming it.
    pub fn into_iter(self) -> (it: BoundSetIterator<'static>)
        ensures
            it@.items == self@,
            it@.index == 0,
    {
        BoundSetIterator::new(SetSource::Owned(self.set))
    }
}

/// An iterator over the values of a set: the values it will yield, and how many it has
/// yielded.
pub struct SetIteratorModel {
    pub items: Seq<PyAnyModel>,
    pub index: nat,
}

/// The set that an iterator walks: borrowed from a `PySet`, or taken over from one.
enum SetSource<'a> {
    Borrowed(&'a PyAnySet),
    Owned(PyAnySet),
}

impl<'a> SetSource<'a> {
    spec fn elements(&self) -> Seq<PyAnyModel> {
        match self {
            SetSource::Borrowed(s) => s@,
            SetSource::Owned(s) => s@,
        }
    }

    fn set(&self) -> (s: &PyAnySet)
        ensures
            s@ == self.elements(),
    {
        match self {
            SetSource::Borrowed(s) => s,
            SetSource::Owned(s) => s,
        }
    }
}

/// An iterator for a Python `set` object.
///
/// It holds the set it walks, borrowed or owned, so the set cannot change under it.
pub struct BoundSetIterator<'a> {
    source: SetSource<'a>,
    index: usize,
}

impl<'a> View for BoundSetIterator<'a> {
    type V = SetIteratorModel;

    closed spec fn view(&self) -> SetIteratorModel {
        SetIteratorModel { items: self.source.elements(), index: self.index as nat }
    }
}

impl<'a> BoundSetIterator<'a> {
    #[verifier::type_invariant]
    spec fn inv(self) -> bool {
        self.index <= self.source.elements().len()
    }

    fn new(source: SetSource<'a>) -> (it: BoundSetIterator<'a>)
        ensures
            it@.items == source.elements(),
            it@.index == 0,
    {
        BoundSetIterator { source, index: 0 }
    }

    /// The next value, if any is left.
    pub fn next(&mut self) -> (r: Option<PyAny>)
        ensures
            final(self)@.items == old(self)@.items,
            old(self)@.index < old(self)@.items.len() ==> (r matches Some(x) && x@ == old(
                self,
            )@.items[old(self)@.index as int] && final(self)@.index == old(self)@.index + 1),
            old(self)@.index >= old(self)@.items.len() ==> r is None && final(self)@.index == old(
                self,
            )@.index,
    {
        proof {
            use_type_invariant(&*self);
        }
        let set = self.source.set();
        if self.index < set.len() {
            let x = set.item_at(self.index);
            self.index = self.index + 1;
            Some(x)
        } else {
            None
        }
    }

    /// The number of values left.
    pub fn len(&self) -> (n: usize)
        ensures
            n == self@.items.len() - self@.index,
    {
        proof {
            use_type_invariant(self);
        }
        self.source.set().len() - self.index
    }

    /// Bounds on the number of values left, which here are exact.
    pub fn size_hint(&self) -> (r: (usize, Option<usize>))
        ensures
            r.0 == self@.items.len() - self@.index,
            r.1 == Some(r.0),
    {
        let len = self.len();
        (len, Some(len))
    }

    /// The number of values left, consuming the iterator.
    pub fn count(self) -> (n: usize)
        ensures
            n == self@.items.len() - self@.index,
    {
        self.len()
    }
}

} // verus!
