//! Python objects held by value.
use vstd::prelude::*;

verus! {

/// A Python object: one of the values that sets and dictionaries hold.
#[derive(Debug, PartialEq, Eq)]
pub enum PyAny {
    /// The object `None`.
    PyNone,
    /// An `int`.
    Int(i64),
    /// A `str`.
    Str(String),
    /// A `tuple`.
    Tuple(Vec<PyAny>),
    /// A `list`.
    List(Vec<PyAny>),
}

/// Mathematical value of a [`PyAny`].
pub enum PyAnyModel {
    PyNone,
    Int(int),
    Str(Seq<char>),
    Tuple(Seq<PyAnyModel>),
    List(Seq<PyAnyModel>),
}

/// The models of a sequence of objects, element by element.
pub open spec fn any_seq(s: Seq<PyAny>) -> Seq<PyAnyModel>
    decreases s,
{
    Seq::new(
        s.len(),
        |i: int|
            if 0 <= i < s.len() {
                any_model(s[i])
            } else {
                PyAnyModel::PyNone
            },
    )
}

/// The model of an object.
pub open spec fn any_model(v: PyAny) -> PyAnyModel
    decreases v,
{
    match v {
        PyAny::PyNone => PyAnyModel::PyNone,
        PyAny::Int(i) => PyAnyModel::Int(i as int),
        PyAny::Str(s) => PyAnyModel::Str(s@),
        PyAny::Tuple(items) => PyAnyModel::Tuple(any_seq(items@)),
        PyAny::List(items) => PyAnyModel::List(any_seq(items@)),
    }
}

impl View for PyAny {
    type V = PyAnyModel;

    open spec fn view(&self) -> PyAnyModel {
        any_model(*self)
    }
}

/// Whether an object can be hashed, and so be held in a set or be a dictionary key:
/// a `list` cannot, nor a `tuple` that holds something that cannot.
pub open spec fn hashable(v: PyAnyModel) -> bool
    decreases v,
{
    match v {
        PyAnyModel::List(_) => false,
        PyAnyModel::Tuple(items) => all_hashable(items),
        _ => true,
    }
}

/// Whether every object of a sequence can be hashed.
pub open spec fn all_hashable(s: Seq<PyAnyModel>) -> bool
    decreases s,
{
    if s.len() == 0 {
        true
    } else {
        all_hashable(s.drop_last()) && hashable(s.last())
    }
}

proof fn lemma_any_seq_index(s: Seq<PyAny>, i: int)
    requires
        0 <= i < s.len(),
    ensures
        any_seq(s).len() == s.len(),
        any_seq(s)[i] == any_model(s[i]),
{
}

proof fn lemma_all_hashable_prefix(s: Seq<PyAnyModel>, i: int)
    requires
        0 <= i < s.len(),
        all_hashable(s.take(i)),
    ensures
        all_hashable(s.take(i + 1)) == hashable(s[i]),
{
    assert(s.take(i + 1).drop_last() =~= s.take(i));
}

/// A sequence of objects can all be hashed exactly when each of them can.
proof fn lemma_all_hashable_each(s: Seq<PyAnyModel>)
    ensures
        all_hashable(s) <==> forall|i: int| 0 <= i < s.len() ==> hashable(#[trigger] s[i]),
    decreases s.len(),
{
    if s.len() > 0 {
        lemma_all_hashable_each(s.drop_last());
        if all_hashable(s) {
            assert forall|i: int| 0 <= i < s.len() implies hashable(#[trigger] s[i]) by {
                if i < s.len() - 1 {
                    assert(s.drop_last()[i] == s[i]);
                }
            }
        } else if hashable(s.last()) {
            let j = choose|j: int| 0 <= j < s.drop_last().len() && !hashable(#[trigger] s.drop_last()[j]);
            assert(s.drop_last()[j] == s[j]);
        }
    }
}

/// Which objects can be hashed: `None`, an int and a string always can, a list never can,
/// and a tuple can exactly when every item it holds can, so the empty tuple can.
pub proof fn lemma_hashable_objects(v: PyAnyModel)
    ensures
        (v is PyNone || v is Int || v is Str) ==> hashable(v),
        v is List ==> !hashable(v),
        v matches PyAnyModel::Tuple(items) ==> (hashable(v) <==> forall|i: int|
            0 <= i < items.len() ==> hashable(#[trigger] items[i])),
        hashable(PyAnyModel::Tuple(Seq::empty())),
{
    if let PyAnyModel::Tuple(items) = v {
        lemma_all_hashable_each(items);
    }
    lemma_all_hashable_each(Seq::<PyAnyModel>::empty());
}

impl PyAny {
    /// Copies this object, with all the objects it holds.
    pub fn duplicate(&self) -> (r: PyAny)
        ensures
            r@ == self@,
        decreases self,
    {
        match self {
            PyAny::PyNone => PyAny::PyNone,
            PyAny::Int(i) => PyAny::Int(*i),
            PyAny::Str(s) => PyAny::Str(s.clone()),
            PyAny::Tuple(items) => PyAny::Tuple(clone_items(items)),
            PyAny::List(items) => PyAny::List(clone_items(items)),
        }
    }

    /// Whether this object can be hashed (`hash(self)` does not raise `TypeError`).
    pub fn is_hashable(&self) -> (r: bool)
        ensures
            r == hashable(self@),
        decreases self,
    {
        match self {
            PyAny::List(_) => false,
            PyAny::Tuple(items) => items_hashable(items),
            _ => true,
        }
    }

    /// Python's `==` on these objects: equal values of the same type.
    pub fn py_eq(&self, other: &PyAny) -> (r: bool)
        ensures
            r == (self@ == other@),
        decreases self,
    {
        match (self, other) {
            (PyAny::PyNone, PyAny::PyNone) => true,
            (PyAny::Int(a), PyAny::Int(b)) => *a == *b,
            (PyAny::Str(a), PyAny::Str(b)) => *a == *b,
            (PyAny::Tuple(a), PyAny::Tuple(b)) => items_eq(a, b),
            (PyAny::List(a), PyAny::List(b)) => items_eq(a, b),
            _ => false,
        }
    }
}

/// Once a prefix holds something that cannot be hashed, every longer prefix does.
proof fn lemma_all_hashable_prefix_closed(s: Seq<PyAnyModel>, i: int)
    requires
        0 < i <= s.len(),
        !all_hashable(s.take(i)),
    ensures
        !all_hashable(s),
    decreases s.len() - i,
{
    if i < s.len() {
        assert(s.take(i + 1).drop_last() =~= s.take(i));
        lemma_all_hashable_prefix_closed(s, i + 1);
    } else {
        assert(s.take(i) =~= s);
    }
}

/// Whether every object of a list can be hashed.
fn items_hashable(items: &Vec<PyAny>) -> (r: bool)
    ensures
        r == all_hashable(any_seq(items@)),
    decreases items,
{
    let ghost ms = any_seq(items@);
    let mut i: usize = 0;
    assert(ms.take(0) =~= Seq::<PyAnyModel>::empty());
    while i < items.len()
        invariant
            0 <= i <= items.len(),
            ms == any_seq(items@),
            all_hashable(ms.take(i as int)),
        decreases items.len() - i,
    {
        proof {
            lemma_any_seq_index(items@, i as int);
            lemma_all_hashable_prefix(ms, i as int);
        }
        if !items[i].is_hashable() {
            proof {
                lemma_all_hashable_prefix_closed(ms, (i + 1) as int);
            }
            return false;
        }
        i += 1;
    }
    assert(ms.take(items.len() as int) =~= ms);
    true
}

/// Copies a list of objects.
fn clone_items(v: &Vec<PyAny>) -> (r: Vec<PyAny>)
    ensures
        any_seq(r@) == any_seq(v@),
    decreases v,
{
    let mut r: Vec<PyAny> = Vec::new();
    let mut i: usize = 0;
    while i < v.len()
        invariant
            0 <= i <= v.len(),
            r@.len() == i,
            forall|j: int| 0 <= j < i ==> any_model(#[trigger] r@[j]) == any_model(v@[j]),
        decreases v.len() - i,
    {
        let item = v[i].duplicate();
        r.push(item);
        i += 1;
    }
    assert(any_seq(r@) =~= any_seq(v@));
    r
}

/// Whether two lists of objects are equal element by element.
fn items_eq(a: &Vec<PyAny>, b: &Vec<PyAny>) -> (r: bool)
    ensures
        r == (any_seq(a@) == any_seq(b@)),
    decreases a,
{
    if a.len() != b.len() {
        assert(any_seq(a@).len() != any_seq(b@).len());
        return false;
    }
    let mut i: usize = 0;
    while i < a.len()
        invariant
            0 <= i <= a.len(),
            a.len() == b.len(),
            forall|j: int| 0 <= j < i ==> any_model(#[trigger] a@[j]) == any_model(b@[j]),
        decreases a.len() - i,
    {
        if !a[i].py_eq(&b[i]) {
            proof {
                lemma_any_seq_index(a@, i as int);
                lemma_any_seq_index(b@, i as int);
            }
            return false;
        }
        i += 1;
    }
    assert(any_seq(a@) =~= any_seq(b@));
    true
}

impl Clone for PyAny {
    fn clone(&self) -> (r: Self)
        ensures
            r@ == self@,
    {
        self.duplicate()
    }
}

} // verus!
