//! Python `dict` and `frozendict` objects: the part they share.
use crate::err::{PyErr, PyResult};
use crate::types::any::{any_model, any_seq, hashable, PyAny, PyAnyModel};
use vstd::prelude::*;

verus! {

/// Whether a sequence of entries can be the contents of a dictionary: each key can be
/// hashed, and no two keys are equal.
pub open spec fn dict_wf(s: Seq<(PyAnyModel, PyAnyModel)>) -> bool {
    &&& forall|i: int| 0 <= i < s.len() ==> hashable(#[trigger] s[i].0)
    &&& forall|i: int, j: int| 0 <= i < j < s.len() ==> s[i].0 != s[j].0
}

/// Whether the dictionary `s` has an entry with key `k`.
pub open spec fn has_key(s: Seq<(PyAnyModel, PyAnyModel)>, k: PyAnyModel) -> bool {
    exists|i: int| 0 <= i < s.len() && #[trigger] s[i].0 == k
}

/// The models of a sequence of entries.
pub open spec fn entries_view(s: Seq<(PyAny, PyAny)>) -> Seq<(PyAnyModel, PyAnyModel)> {
    Seq::new(s.len(), |i: int| (any_model(s[i].0), any_model(s[i].1)))
}

/// Represents either a Python `dict` or `frozendict`.
///
/// Its entries are held in the order in which their keys were first inserted.
pub struct PyAnyDict {
    entries: Vec<(PyAny, PyAny)>,
}

impl View for PyAnyDict {
    type V = Seq<(PyAnyModel, PyAnyModel)>;

    closed spec fn view(&self) -> Seq<(PyAnyModel, PyAnyModel)> {
        entries_view(self.entries@)
    }
}

impl PyAnyDict {
    #[verifier::type_invariant]
    spec fn inv(self) -> bool {
        dict_wf(entries_view(self.entries@))
    }
}

/// Implementation of functionality shared by Python `dict` and `frozendict` objects.
pub trait PyAnyDictMethods {
    /// Return the number of items in the dictionary.
    ///
    /// This is equivalent to the Python expression `len(self)`.
    fn len(&self) -> usize;

    /// Checks if the dictionary is empty, i.e. `len(self) == 0`.
    fn is_empty(&self) -> bool;

    /// Determines if the dictionary contains the specified key.
    ///
    /// This is equivalent to the Python expression `key in self`.
    fn contains(&self, key: PyAny) -> PyResult<bool>;

    /// Gets an item from the dictionary.
    ///
    /// Returns `None` if the item is not present, or if an error occurs.
    fn get_item(&self, key: PyAny) -> PyResult<Option<PyAny>>;

    /// Returns a list of dictionary keys.
    ///
    /// This is equivalent to the Python expression `list(self.keys())`.
    fn keys(&self) -> Vec<PyAny>;

    /// Returns a list of dictionary values.
    ///
    /// This is equivalent to the Python expression `list(self.values())`.
    fn values(&self) -> Vec<PyAny>;

    /// Returns a list of dictionary items, each a `(key, value)` tuple.
    ///
    /// This is equivalent to the Python expression `list(self.items())`.
    fn items(&self) -> Vec<PyAny>;
}

impl PyAnyDict {
    /// An empty dictionary.
    pub fn new_empty() -> (d: PyAnyDict)
        ensures
            d@ == Seq::<(PyAnyModel, PyAnyModel)>::empty(),
    {
        let d = PyAnyDict { entries: Vec::new() };
        assert(entries_view(d.entries@) =~= Seq::<(PyAnyModel, PyAnyModel)>::empty());
        d
    }

    /// The place of the entry whose key equals `key`, if there is one.
    pub fn find(&self, key: &PyAny) -> (r: Option<usize>)
        ensures
            match r {
                Some(i) => i < self@.len() && self@[i as int].0 == key@,
                None => !has_key(self@, key@),
            },
            dict_wf(self@),
    {
        proof {
            use_type_invariant(self);
        }
        let ghost ms = entries_view(self.entries@);
        let mut i: usize = 0;
        while i < self.entries.len()
            invariant
                0 <= i <= self.entries@.len(),
                ms == entries_view(self.entries@),
                dict_wf(ms),
                forall|j: int| 0 <= j < i ==> ms[j].0 != key@,
            decreases self.entries.len() - i,
        {
            if self.entries[i].0.py_eq(key) {
                return Some(i);
            }
            i += 1;
        }
        None
    }

    /// Sets the value of `key` to `value`: in place where the key is present, else as a new
    /// last entry.
    pub(crate) fn insert(&mut self, key: PyAny, value: PyAny)
        requires
            hashable(key@),
        ensures
            final(self)@ == dict_insert(old(self)@, key@, value@),
            dict_wf(final(self)@),
    {
        let found = self.find(&key);
        let ghost d = self@;
        let mut entries: Vec<(PyAny, PyAny)> = Vec::new();
        std::mem::swap(&mut entries, &mut self.entries);
        match found {
            Some(i) => {
                let old_key = entries[i].0.duplicate();
                entries.set(i, (old_key, value));
                proof {
                    lemma_key_place_unique(d, key@, i as int);
                }
                assert(entries_view(entries@) =~= d.update(i as int, (d[i as int].0, value@)));
            },
            None => {
                entries.push((key, value));
                assert(entries_view(entries@) =~= d.push((key@, value@)));
            },
        }
        self.entries = entries;
        proof {
            use_type_invariant(&*self);
        }
    }

    /// A copy of the entry at place `i`.
    pub(crate) fn entry_at(&self, i: usize) -> (e: (PyAny, PyAny))
        requires
            i < self@.len(),
        ensures
            (any_model(e.0), any_model(e.1)) == self@[i as int],
    {
        (self.entries[i].0.duplicate(), self.entries[i].1.duplicate())
    }

    /// Copies this dictionary.
    pub fn duplicate(&self) -> (d: PyAnyDict)
        ensures
            d@ == self@,
    {
        proof {
            use_type_invariant(self);
        }
        PyAnyDict { entries: self.entries_copy() }
    }

    /// Copies of the entries, in order.
    pub(crate) fn entries_copy(&self) -> (r: Vec<(PyAny, PyAny)>)
        ensures
            entries_view(r@) == self@,
    {
        let mut r: Vec<(PyAny, PyAny)> = Vec::new();
        let mut i: usize = 0;
        while i < self.entries.len()
            invariant
                0 <= i <= self.entries@.len(),
                r@.len() == i,
                forall|j: int|
                    0 <= j < i ==> any_model(#[trigger] r@[j].0) == any_model(self.entries@[j].0)
                        && any_model(r@[j].1) == any_model(self.entries@[j].1),
            decreases self.entries.len() - i,
        {
            let k = self.entries[i].0.duplicate();
            let v = self.entries[i].1.duplicate();
            r.push((k, v));
            i += 1;
        }
        assert(entries_view(r@) =~= entries_view(self.entries@));
        r
    }
}

/// The dictionary `d` with `key` set to `value`: a present key keeps its place and gets the
/// new value; a new key is added last.
pub open spec fn dict_insert(
    d: Seq<(PyAnyModel, PyAnyModel)>,
    key: PyAnyModel,
    value: PyAnyModel,
) -> Seq<(PyAnyModel, PyAnyModel)> {
    if has_key(d, key) {
        let i = choose|i: int| 0 <= i < d.len() && #[trigger] d[i].0 == key;
        d.update(i, (d[i].0, value))
    } else {
        d.push((key, value))
    }
}

/// In a well-formed dictionary, the entry of a key is at one place only.
proof fn lemma_key_place_unique(d: Seq<(PyAnyModel, PyAnyModel)>, key: PyAnyModel, i: int)
    requires
        dict_wf(d),
        0 <= i < d.len(),
        d[i].0 == key,
    ensures
        (choose|j: int| 0 <= j < d.len() && #[trigger] d[j].0 == key) == i,
{
    let j = choose|j: int| 0 <= j < d.len() && #[trigger] d[j].0 == key;
    assert(has_key(d, key));
    if j != i {
        if j < i {
            assert(d[j].0 != d[i].0);
        } else {
            assert(d[i].0 != d[j].0);
        }
    }
}

/// The value of `key` in the dictionary `d`, if it has one.
pub open spec fn lookup(d: Seq<(PyAnyModel, PyAnyModel)>, key: PyAnyModel) -> Option<PyAnyModel> {
    if has_key(d, key) {
        let i = choose|i: int| 0 <= i < d.len() && #[trigger] d[i].0 == key;
        Some(d[i].1)
    } else {
        None
    }
}

/// Setting a key gives a well-formed dictionary in which the key reads back the value set,
/// and every other key reads what it did before.
pub proof fn lemma_insert_lookup(
    d: Seq<(PyAnyModel, PyAnyModel)>,
    k: PyAnyModel,
    v: PyAnyModel,
    other: PyAnyModel,
)
    requires
        dict_wf(d),
        hashable(k),
    ensures
        dict_wf(dict_insert(d, k, v)),
        lookup(dict_insert(d, k, v), k) == Some(v),
        other != k ==> lookup(dict_insert(d, k, v), other) == lookup(d, other),
{
    let t = dict_insert(d, k, v);
    if has_key(d, k) {
        let i = choose|i: int| 0 <= i < d.len() && #[trigger] d[i].0 == k;
        assert(t == d.update(i, (d[i].0, v)));
        assert forall|a: int| 0 <= a < t.len() implies t[a].0 == d[a].0 by {}
        assert(dict_wf(t));
        assert(t[i].0 == k);
        lemma_key_place_unique(t, k, i);
        if other != k && has_key(d, other) {
            let j = choose|j: int| 0 <= j < d.len() && #[trigger] d[j].0 == other;
            lemma_key_place_unique(d, other, j);
            assert(t[j].0 == other);
            lemma_key_place_unique(t, other, j);
        }
        if other != k && has_key(t, other) {
            let j = choose|j: int| 0 <= j < t.len() && #[trigger] t[j].0 == other;
            assert(d[j].0 == other);
        }
    } else {
        assert(t == d.push((k, v)));
        assert forall|a: int, b: int| 0 <= a < b < t.len() implies t[a].0 != t[b].0 by {
            if b == d.len() {
                assert(t[a] == d[a]);
                assert(t[b].0 == k);
            }
        }
        assert forall|a: int| 0 <= a < t.len() implies hashable(#[trigger] t[a].0) by {
            if a < d.len() {
                assert(t[a] == d[a]);
            }
        }
        assert(t[d.len() as int].0 == k);
        lemma_key_place_unique(t, k, d.len() as int);
        if other != k && has_key(d, other) {
            let j = choose|j: int| 0 <= j < d.len() && #[trigger] d[j].0 == other;
            lemma_key_place_unique(d, other, j);
            assert(t[j] == d[j]);
            lemma_key_place_unique(t, other, j);
        }
        if other != k && has_key(t, other) {
            let j = choose|j: int| 0 <= j < t.len() && #[trigger] t[j].0 == other;
            assert(j < d.len());
            assert(d[j].0 == other);
        }
    }
}

impl PyAnyDictMethods for PyAnyDict {
    fn len(&self) -> (n: usize)
        ensures
            n == self@.len(),
    {
        self.entries.len()
    }

    fn is_empty(&self) -> (b: bool)
        ensures
            b == (self@.len() == 0),
    {
        self.len() == 0
    }

    /// Fails with `TypeError` where `key` cannot be hashed.
    fn contains(&self, key: PyAny) -> (r: PyResult<bool>)
        ensures
            hashable(key@) ==> r == Ok::<bool, PyErr>(has_key(self@, key@)),
            !hashable(key@) ==> r == Err::<bool, PyErr>(PyErr::TypeError),
    {
        if !key.is_hashable() {
            return Err(PyErr::TypeError);
        }
        match self.find(&key) {
            Some(_) => Ok(true),
            None => Ok(false),
        }
    }

    /// An error (a key that cannot be hashed) gives `None` too.
    fn get_item(&self, key: PyAny) -> (r: PyResult<Option<PyAny>>)
        ensures
            hashable(key@) ==> match r {
                Ok(Some(v)) => lookup(self@, key@) == Some(v@),
                Ok(None) => lookup(self@, key@) is None,
                Err(_) => false,
            },
            !hashable(key@) ==> r matches Ok(None),
    {
        if !key.is_hashable() {
            return Ok(None);
        }
        match self.find(&key) {
            Some(i) => {
                proof {
                    lemma_key_place_unique(self@, key@, i as int);
                }
                Ok(Some(self.entries[i].1.duplicate()))
            },
            None => Ok(None),
        }
    }

    fn keys(&self) -> (r: Vec<PyAny>)
        ensures
            any_seq(r@) == self@.map_values(|e: (PyAnyModel, PyAnyModel)| e.0),
    {
        let mut r: Vec<PyAny> = Vec::new();
        let mut i: usize = 0;
        while i < self.entries.len()
            invariant
                0 <= i <= self.entries@.len(),
                r@.len() == i,
                forall|j: int|
                    0 <= j < i ==> any_model(#[trigger] r@[j]) == any_model(self.entries@[j].0),
            decreases self.entries.len() - i,
        {
            r.push(self.entries[i].0.duplicate());
            i += 1;
        }
        assert(any_seq(r@) =~= self@.map_values(|e: (PyAnyModel, PyAnyModel)| e.0));
        r
    }

    fn values(&self) -> (r: Vec<PyAny>)
        ensures
            any_seq(r@) == self@.map_values(|e: (PyAnyModel, PyAnyModel)| e.1),
    {
        let mut r: Vec<PyAny> = Vec::new();
        let mut i: usize = 0;
        while i < self.entries.len()
            invariant
                0 <= i <= self.entries@.len(),
                r@.len() == i,
                forall|j: int|
                    0 <= j < i ==> any_model(#[trigger] r@[j]) == any_model(self.entries@[j].1),
            decreases self.entries.len() - i,
        {
            r.push(self.entries[i].1.duplicate());
            i += 1;
        }
        assert(any_seq(r@) =~= self@.map_values(|e: (PyAnyModel, PyAnyModel)| e.1));
        r
    }

    fn items(&self) -> (r: Vec<PyAny>)
        ensures
            any_seq(r@) == self@.map_values(
                |e: (PyAnyModel, PyAnyModel)| PyAnyModel::Tuple(seq![e.0, e.1]),
            ),
    {
        let mut r: Vec<PyAny> = Vec::new();
        let mut i: usize = 0;
        while i < self.entries.len()
            invariant
                0 <= i <= self.entries@.len(),
                r@.len() == i,
                forall|j: int|
                    0 <= j < i ==> any_model(#[trigger] r@[j]) == PyAnyModel::Tuple(
                        seq![any_model(self.entries@[j].0), any_model(self.entries@[j].1)],
                    ),
            decreases self.entries.len() - i,
        {
            let pair = vec![self.entries[i].0.duplicate(), self.entries[i].1.duplicate()];
            let item = PyAny::Tuple(pair);
            assert(any_seq(pair@) =~= seq![
                any_model(self.entries@[i as int].0),
                any_model(self.entries@[i as int].1),
            ]);
            r.push(item);
            i += 1;
        }
        assert(any_seq(r@) =~= self@.map_values(
            |e: (PyAnyModel, PyAnyModel)| PyAnyModel::Tuple(seq![e.0, e.1]),
        ));
        r
    }
}

} // verus!
