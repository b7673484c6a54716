use pyo3_model::err::PyErr;
use pyo3_model::types::any::PyAny;
use pyo3_model::types::anyset::PyAnySetMethods;
use pyo3_model::types::set::{PySet, PySetMethods};
use std::collections::HashSet;

fn py_int(i: i64) -> PyAny {
    PyAny::Int(i)
}

#[test]
fn test_set_new() {
    let set = PySet::new(vec![py_int(1)]).unwrap();
    assert_eq!(1, set.len());

    let v = PyAny::List(vec![py_int(1)]);
    assert!(PySet::new(vec![v]).is_err());
}

#[test]
fn test_set_empty() {
    let set = PySet::empty();
    assert_eq!(0, set.len());
    assert!(set.is_empty());
}

#[test]
fn test_set_len() {
    let mut v = HashSet::<i32>::new();
    let set = PySet::new(v.iter().map(|i| py_int(*i as i64)).collect()).unwrap();
    assert_eq!(0, set.len());
    v.insert(7);
    let set2 = PySet::new(v.iter().map(|i| py_int(*i as i64)).collect()).unwrap();
    assert_eq!(1, set2.len());
}

#[test]
fn test_set_clear() {
    let mut set = PySet::new(vec![py_int(1)]).unwrap();
    assert_eq!(1, set.len());
    set.clear();
    assert_eq!(0, set.len());
}

#[test]
fn test_set_contains() {
    let set = PySet::new(vec![py_int(1)]).unwrap();
    assert!(set.contains(py_int(1)).unwrap());
}

#[test]
fn test_set_discard() {
    let mut set = PySet::new(vec![py_int(1)]).unwrap();
    assert!(!set.discard(py_int(2)).unwrap());
    assert_eq!(1, set.len());

    assert!(set.discard(py_int(1)).unwrap());
    assert_eq!(0, set.len());
    assert!(!set.discard(py_int(1)).unwrap());

    assert!(set.discard(PyAny::List(vec![py_int(1), py_int(2)])).is_err());
}

#[test]
fn test_set_add() {
    let mut set = PySet::new(vec![py_int(1), py_int(2)]).unwrap();
    set.add(py_int(1)).unwrap();
    assert!(set.contains(py_int(1)).unwrap());
}

#[test]
fn test_set_pop() {
    let mut set = PySet::new(vec![py_int(1)]).unwrap();
    let val = set.pop();
    assert!(val.is_some());
    let val2 = set.pop();
    assert!(val2.is_none());
}

#[test]
fn test_set_iter() {
    let set = PySet::new(vec![py_int(1)]).unwrap();

    let mut iter = set.into_iter();
    while let Some(el) = iter.next() {
        assert_eq!(py_int(1), el);
    }
}

#[test]
fn test_set_iter_bound() {
    let set = PySet::new(vec![py_int(1)]).unwrap();

    let mut iter = set.iter();
    while let Some(el) = iter.next() {
        assert_eq!(py_int(1), el);
    }
}

#[test]
fn test_set_iter_size_hint() {
    let set = PySet::new(vec![py_int(1)]).unwrap();
    let mut iter = set.iter();

    assert_eq!(iter.len(), 1);
    assert_eq!(iter.size_hint(), (1, Some(1)));
    iter.next();
    assert_eq!(iter.len(), 0);
    assert_eq!(iter.size_hint(), (0, Some(0)));
}

#[test]
fn test_iter_count() {
    let set = PySet::new(vec![py_int(1), py_int(2), py_int(3)]).unwrap();
    assert_eq!(set.iter().count(), 3);
}

#[test]
fn set_holds_each_element_once() {
    let set = PySet::new(vec![py_int(3), py_int(1), py_int(3), py_int(2), py_int(1)]).unwrap();
    assert_eq!(set.len(), 3);
    let mut iter = set.iter();
    assert_eq!(iter.next(), Some(py_int(3)));
    assert_eq!(iter.next(), Some(py_int(1)));
    assert_eq!(iter.next(), Some(py_int(2)));
    assert_eq!(iter.next(), None);
}

#[test]
fn set_rejects_unhashable_tuple() {
    let tuple = PyAny::Tuple(vec![py_int(1), PyAny::List(vec![])]);
    assert_eq!(PySet::new(vec![py_int(1), tuple.clone()]).err(), Some(PyErr::TypeError));
    let mut set = PySet::empty();
    assert_eq!(set.add(tuple.clone()), Err(PyErr::TypeError));
    assert_eq!(set.contains(tuple), Err(PyErr::TypeError));
    assert!(set.is_empty());
}

#[test]
fn set_holds_hashable_tuples_and_strings() {
    let pair = PyAny::Tuple(vec![PyAny::Str("a".to_string()), py_int(1)]);
    let mut set = PySet::new(vec![pair.clone(), PyAny::Str("a".to_string()), PyAny::PyNone]).unwrap();
    assert_eq!(set.len(), 3);
    assert!(set.contains(pair.clone()).unwrap());
    assert!(!set.contains(PyAny::Str("b".to_string())).unwrap());
    set.add(pair.clone()).unwrap();
    assert_eq!(set.len(), 3);
    assert!(set.discard(pair.clone()).unwrap());
    assert!(!set.contains(pair).unwrap());
    assert_eq!(set.as_any_set().len(), 2);
}
