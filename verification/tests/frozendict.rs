use pyo3_model::err::PyErr;
use pyo3_model::types::any::PyAny;
use pyo3_model::types::anydict::{PyAnyDict, PyAnyDictMethods};
use pyo3_model::types::frozendict::{PyFrozenDict, PyFrozenDictMethods};

fn s(text: &str) -> PyAny {
    PyAny::Str(text.to_string())
}

fn py_int(i: i64) -> PyAny {
    PyAny::Int(i)
}

fn a1_b2() -> Vec<(PyAny, PyAny)> {
    vec![(s("a"), py_int(1)), (s("b"), py_int(2))]
}

#[test]
fn test_deref_dict() {
    let dict = PyFrozenDict::empty();
    let _anydict: &PyAnyDict = dict.as_any_dict();
}

#[test]
fn test_frozendict_new() {
    let fd = PyFrozenDict::new(a1_b2()).unwrap();
    assert_eq!(fd.as_any_dict().len(), 2);
}

#[test]
fn test_frozendict_empty() {
    let fd = PyFrozenDict::empty();
    assert!(fd.as_any_dict().is_empty());
    assert_eq!(fd.as_any_dict().len(), 0);
}

#[test]
fn test_frozendict_contains() {
    let fd = PyFrozenDict::new(a1_b2()).unwrap();
    assert!(fd.as_any_dict().contains(s("a")).unwrap());
    assert!(!fd.as_any_dict().contains(s("c")).unwrap());
}

#[test]
fn test_frozendict_get_item() {
    let fd = PyFrozenDict::new(a1_b2()).unwrap();
    let val = fd.as_any_dict().get_item(s("a")).unwrap();
    assert!(val.is_some_and(|v| v == py_int(1)));
}

#[test]
fn test_frozendict_keys() {
    let fd = PyFrozenDict::new(a1_b2()).unwrap();
    let keys = fd.as_any_dict().keys();
    assert_eq!(keys.len(), 2);
    assert!(keys.contains(&s("a")));
    assert!(keys.contains(&s("b")));
}

#[test]
fn test_frozendict_values() {
    let fd = PyFrozenDict::new(a1_b2()).unwrap();
    let values = fd.as_any_dict().values();
    assert_eq!(values.len(), 2);
    assert!(values.contains(&py_int(1)));
    assert!(values.contains(&py_int(2)));
}

#[test]
fn test_frozendict_items() {
    let fd = PyFrozenDict::new(a1_b2()).unwrap();
    let items = fd.as_any_dict().items();
    assert_eq!(items.len(), 2);
    assert!(items.contains(&PyAny::Tuple(vec![s("a"), py_int(1)])));
    assert!(items.contains(&PyAny::Tuple(vec![s("b"), py_int(2)])));
}

#[test]
fn test_frozendict_iter() {
    let fd = PyFrozenDict::new(a1_b2()).unwrap();
    let mut count = 0;
    let expected = [("a", 1), ("b", 2)];
    let mut iter = fd.iter();
    for (expected_k, expected_v) in expected.iter() {
        let (k, v) = iter.next().unwrap();
        count += 1;
        assert_eq!((k, v), (s(expected_k), py_int(*expected_v)));
    }
    assert_eq!(count, 2);
}

#[test]
fn test_frozendict_iter_size_hint() {
    let fd = PyFrozenDict::new(a1_b2()).unwrap();

    let mut iter = fd.iter();
    assert_eq!(iter.size_hint(), (2, Some(2)));
    iter.next();
    assert_eq!(iter.size_hint(), (1, Some(1)));

    while iter.next().is_some() {}
    assert_eq!(iter.size_hint(), (0, Some(0)));
    assert!(iter.next().is_none());
}

#[test]
fn test_frozendict_into_iter() {
    let fd = PyFrozenDict::new(a1_b2()).unwrap();
    let mut items = Vec::new();

    let mut iter = fd.into_iter();
    while let Some((key, value)) = iter.next() {
        items.push((key, value));
    }

    assert_eq!(items.len(), 2);
    assert!(items.contains(&(s("a"), py_int(1))));
    assert!(items.contains(&(s("b"), py_int(2))));
}

#[test]
fn frozendict_repeated_key_keeps_first_place_and_last_value() {
    let fd = PyFrozenDict::new(vec![(s("a"), py_int(1)), (s("b"), py_int(2)), (s("a"), py_int(3))]).unwrap();
    assert_eq!(fd.as_any_dict().len(), 2);
    assert_eq!(fd.as_any_dict().keys(), vec![s("a"), s("b")]);
    assert_eq!(fd.as_any_dict().values(), vec![py_int(3), py_int(2)]);
    assert_eq!(fd.as_any_dict().get_item(s("a")).unwrap(), Some(py_int(3)));
}

#[test]
fn frozendict_unhashable_key() {
    let list = PyAny::List(vec![py_int(1)]);
    assert_eq!(PyFrozenDict::new(vec![(list.clone(), py_int(1))]).err(), Some(PyErr::TypeError));
    let fd = PyFrozenDict::new(a1_b2()).unwrap();
    assert_eq!(fd.as_any_dict().contains(list.clone()), Err(PyErr::TypeError));
    assert_eq!(fd.as_any_dict().get_item(list).unwrap(), None);
    assert_eq!(fd.as_any_dict().get_item(s("z")).unwrap(), None);
    assert_eq!(fd.iter().count(), 2);
}
