//! The Python `frozendict` type.
use crate::err::{PyErr, PyResult};
use crate::types::any::{any_model, hashable, PyAny, PyAnyModel};
use crate::types::anydict::{
    dict_insert, dict_wf, entries_view, lemma_insert_lookup, lookup, PyAnyDict, PyAnyDictMethods,
};
use vstd::prelude::*;

verus! {

/// Represents a Python `frozendict`: a dictionary that cannot change.
///
/// For APIs available on `frozendict` objects, see the [`PyFrozenDictMethods`] trait.
pub struct PyFrozenDict {
    dict: PyAnyDict,
}

impl View for PyFrozenDict {
    type V = Seq<(PyAnyModel, PyAnyModel)>;

    closed spec fn view(&self) -> Seq<(PyAnyModel, PyAnyModel)> {
        self.dict@
    }
}

/// The dictionary built from `pairs` inserted one after the other: a repeated key keeps the
/// place of its first entry and takes the value of its last.
pub open spec fn dict_from_pairs(pairs: Seq<(PyAnyModel, PyAnyModel)>) -> Seq<
    (PyAnyModel, PyAnyModel),
>
    decreases pairs.len(),
{
    if pairs.len() == 0 {
        Seq::empty()
    } else {
        dict_insert(dict_from_pairs(pairs.drop_last()), pairs.last().0, pairs.last().1)
    }
}

/// Whether every key of a sequence of pairs can be hashed.
pub open spec fn keys_hashable(pairs: Seq<(PyAnyModel, PyAnyModel)>) -> bool {
    forall|i: int| 0 <= i < pairs.len() ==> hashable(#[trigger] pairs[i].0)
}

/// The value that the last pair with key `k` gives it, if any pair has that key.
pub open spec fn last_value(pairs: Seq<(PyAnyModel, PyAnyModel)>, k: PyAnyModel) -> Option<
    PyAnyModel,
>
    decreases pairs.len(),
{
    if pairs.len() == 0 {
        None
    } else if pairs.last().0 == k {
        Some(pairs.last().1)
    } else {
        last_value(pairs.drop_last(), k)
    }
}

/// A frozendict built from pairs is well formed, and each key reads the value of the last
/// pair that has it; a key that no pair has reads nothing.
pub proof fn lemma_from_pairs_lookup(pairs: Seq<(PyAnyModel, PyAnyModel)>, k: PyAnyModel)
    requires
        keys_hashable(pairs),
    ensures
        dict_wf(dict_from_pairs(pairs)),
        lookup(dict_from_pairs(pairs), k) == last_value(pairs, k),
    decreases pairs.len(),
{
    if pairs.len() > 0 {
        let p = pairs.drop_last();
        assert forall|i: int| 0 <= i < p.len() implies hashable(#[trigger] p[i].0) by {
            assert(p[i] == pairs[i]);
        }
        lemma_from_pairs_lookup(p, k);
        assert(hashable(pairs[pairs.len() - 1].0));
        lemma_insert_lookup(dict_from_pairs(p), pairs.last().0, pairs.last().1, k);
    }
}

impl PyFrozenDict {
    /// Creates a new frozendict from `(key, value)` pairs.
    ///
    /// Fails with `TypeError` where some key cannot be hashed.
    pub fn new(iterable: Vec<(PyAny, PyAny)>) -> (r: PyResult<PyFrozenDict>)
        ensures
            keys_hashable(entries_view(iterable@)) ==> (r matches Ok(d) && d@ == dict_from_pairs(
                entries_view(iterable@),
            ) && dict_wf(d@)),
            !keys_hashable(entries_view(iterable@)) ==> r == Err::<PyFrozenDict, PyErr>(
                PyErr::TypeError,
            ),
    {
        let ghost ps = entries_view(iterable@);
        let mut dict = PyAnyDict::new_empty();
        let mut i: usize = 0;
        assert(ps.take(0) =~= Seq::<(PyAnyModel, PyAnyModel)>::empty());
        while i < iterable.len()
            invariant
                0 <= i <= iterable@.len(),
                ps == entries_view(iterable@),
                keys_hashable(ps.take(i as int)),
                dict@ == dict_from_pairs(ps.take(i as int)),
                dict_wf(dict@),
            decreases iterable.len() - i,
        {
            assert(ps.take(i + 1).drop_last() =~= ps.take(i as int));
            assert(ps.take(i + 1).last() == ps[i as int]);
            if !iterable[i].0.is_hashable() {
                assert(!hashable(ps[i as int].0));
                assert(!keys_hashable(ps));
                return Err(PyErr::TypeError);
            }
            let k = iterable[i].0.duplicate();
            let v = iterable[i].1.duplicate();
            dict.insert(k, v);
            assert forall|j: int| 0 <= j < ps.take(i + 1).len() implies hashable(
                #[trigger] ps.take(i + 1)[j].0,
            ) by {
                if j < i {
                    assert(ps.take(i + 1)[j] == ps.take(i as int)[j]);
                }
            }
            i += 1;
        }
        assert(ps.take(iterable@.len() as int) =~= ps);
        Ok(PyFrozenDict { dict })
    }

    /// Creates a new empty frozendict.
    pub fn empty() -> (d: PyFrozenDict)
        ensures
            d@ == Seq::<(PyAnyModel, PyAnyModel)>::empty(),
    {
        PyFrozenDict { dict: PyAnyDict::new_empty() }
    }

    /// Returns an iterator over the `(key, value)` pairs in this frozendict, consuming it.
    pub fn into_iter(self) -> (it: BoundFrozenDictIterator)
        ensures
            it@.entries == self@,
            it@.pos == 0,
    {
        BoundFrozenDictIterator::new(self)
    }
}

/// Implementation of functionality for [`PyFrozenDict`].
pub trait PyFrozenDictMethods {
    /// Returns `self` cast as [`PyAnyDict`].
    fn as_any_dict(&self) -> &PyAnyDict;

    /// Returns `self` cast as [`PyAnyDict`].
    fn into_any_dict(self) -> PyAnyDict;

    /// Returns an iterator of `(key, value)` tuples in this frozendict.
    ///
    /// Since `frozendict` objects are immutable, iteration walks a stable snapshot.
    fn iter(&self) -> BoundFrozenDictIterator;
}

impl PyFrozenDictMethods for PyFrozenDict {
    fn as_any_dict(&self) -> (d: &PyAnyDict)
        ensures
            d@ == self@,
    {
        &self.dict
    }

    fn into_any_dict(self) -> (d: PyAnyDict)
        ensures
            d@ == self@,
    {
        self.dict
    }

    fn iter(&self) -> (it: BoundFrozenDictIterator)
        ensures
            it@.entries == self@,
            it@.pos == 0,
    {
        BoundFrozenDictIterator::new(self.duplicate())
    }
}

impl PyFrozenDict {
    /// Copies this frozendict.
    pub fn duplicate(&self) -> (d: PyFrozenDict)
        ensures
            d@ == self@,
    {
        PyFrozenDict { dict: self.dict.duplicate() }
    }
}

/// An iterator over the entries of a frozendict: the entries it walks, and how many it
/// has yielded.
pub struct FrozenDictIteratorModel {
    pub entries: Seq<(PyAnyModel, PyAnyModel)>,
    pub pos: nat,
}

/// An iterator over the items in a frozendict.
///
/// Because the underlying mapping cannot be mutated, this iterator simply walks the
/// contents as a stable snapshot.
pub struct BoundFrozenDictIterator {
    fd: PyFrozenDict,
    cursor: Cursor,
}

/// Where an iterator stands: the place of the next entry, and how many entries are left.
struct Cursor {
    ppos: usize,
    remaining: usize,
}

impl View for BoundFrozenDictIterator {
    type V = FrozenDictIteratorModel;

    closed spec fn view(&self) -> FrozenDictIteratorModel {
        FrozenDictIteratorModel { entries: self.fd@, pos: self.cursor.ppos as nat }
    }
}

impl BoundFrozenDictIterator {
    #[verifier::type_invariant]
    spec fn inv(self) -> bool {
        &&& self.cursor.ppos <= self.fd@.len()
        &&& self.cursor.remaining == self.fd@.len() - self.cursor.ppos
    }

    /// An iterator at the first entry of `fd`.
    pub fn new(fd: PyFrozenDict) -> (it: BoundFrozenDictIterator)
        ensures
            it@.entries == fd@,
            it@.pos == 0,
    {
        let remaining = fd.as_any_dict().len();
        BoundFrozenDictIterator { fd, cursor: Cursor { ppos: 0, remaining } }
    }

    /// The next `(key, value)` pair, if any is left.
    pub fn next(&mut self) -> (r: Option<(PyAny, PyAny)>)
        ensures
            final(self)@.entries == old(self)@.entries,
            old(self)@.pos < old(self)@.entries.len() ==> (r matches Some(e) && (
            any_model(e.0),
            any_model(e.1),
            ) == old(self)@.entries[old(self)@.pos as int] && final(self)@.pos == old(self)@.pos
                + 1),
            old(self)@.pos >= old(self)@.entries.len() ==> r is None && final(self)@.pos == old(
                self,
            )@.pos,
    {
        proof {
            use_type_invariant(&*self);
        }
        let ppos = self.cursor.ppos;
        if ppos < self.fd.dict.len() {
            let e = self.fd.dict.entry_at(ppos);
            self.cursor = Cursor { ppos: ppos + 1, remaining: self.cursor.remaining - 1 };
            Some(e)
        } else {
            None
        }
    }

    /// The number of entries left.
    pub fn len(&self) -> (n: usize)
        ensures
            n == self@.entries.len() - self@.pos,
    {
        proof {
            use_type_invariant(self);
        }
        self.cursor.remaining
    }

    /// Bounds on the number of entries left, which here are exact.
    pub fn size_hint(&self) -> (r: (usize, Option<usize>))
        ensures
            r.0 == self@.entries.len() - self@.pos,
            r.1 == Some(r.0),
    {
        let len = self.len();
        (len, Some(len))
    }

    /// The number of entries left, consuming the iterator.
    pub fn count(self) -> (n: usize)
        ensures
            n == self@.entries.len() - self@.pos,
    {
        self.len()
    }
}

} // verus!
