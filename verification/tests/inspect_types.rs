use pyo3_model::inspect::types::{ModuleName, TypeInfo};

fn assert_display(t: &TypeInfo, expected: &str) {
    assert_eq!(t.fmt(), expected)
}

#[test]
fn basic() {
    assert_display(&TypeInfo::Any, "Any");
    assert_display(&TypeInfo::NoneType, "None");
    assert_display(&TypeInfo::NoReturn, "NoReturn");

    assert_display(&TypeInfo::builtin("int"), "int");
}

#[test]
fn callable() {
    let any_to_int = TypeInfo::Callable(None, Box::new(TypeInfo::builtin("int")));
    assert_display(&any_to_int, "Callable[..., int]");

    let sum = TypeInfo::Callable(
        Some(vec![TypeInfo::builtin("int"), TypeInfo::builtin("int")]),
        Box::new(TypeInfo::builtin("int")),
    );
    assert_display(&sum, "Callable[[int, int], int]");
}

#[test]
fn tuple() {
    let any = TypeInfo::Tuple(None);
    assert_display(&any, "Tuple[...]");

    let triple = TypeInfo::Tuple(Some(vec![
        TypeInfo::builtin("int"),
        TypeInfo::builtin("str"),
        TypeInfo::builtin("bool"),
    ]));
    assert_display(&triple, "Tuple[int, str, bool]");

    let empty = TypeInfo::Tuple(Some(vec![]));
    assert_display(&empty, "Tuple[()]");

    let typed = TypeInfo::UnsizedTypedTuple(Box::new(TypeInfo::builtin("bool")));
    assert_display(&typed, "Tuple[bool, ...]");
}

#[test]
fn class() {
    let class1 = TypeInfo::Class {
        module: ModuleName::CurrentModule,
        name: String::from("MyClass"),
        type_vars: vec![],
    };
    assert_display(&class1, "MyClass");

    let class2 = TypeInfo::Class {
        module: ModuleName::CurrentModule,
        name: String::from("MyClass"),
        type_vars: vec![TypeInfo::builtin("int"), TypeInfo::builtin("bool")],
    };
    assert_display(&class2, "MyClass[int, bool]");
}

#[test]
fn types_collections() {
    let int = TypeInfo::builtin("int");
    let bool = TypeInfo::builtin("bool");
    let str = TypeInfo::builtin("str");

    let list = TypeInfo::list_of(int.clone());
    assert_display(&list, "List[int]");

    let sequence = TypeInfo::sequence_of(bool.clone());
    assert_display(&sequence, "Sequence[bool]");

    let optional = TypeInfo::optional_of(str.clone());
    assert_display(&optional, "Optional[str]");

    let iterable = TypeInfo::iterable_of(int.clone());
    assert_display(&iterable, "Iterable[int]");

    let iterator = TypeInfo::iterator_of(bool);
    assert_display(&iterator, "Iterator[bool]");

    let dict = TypeInfo::dict_of(int.clone(), str.clone());
    assert_display(&dict, "Dict[int, str]");

    let mapping = TypeInfo::mapping_of(int, str.clone());
    assert_display(&mapping, "Mapping[int, str]");

    let set = TypeInfo::set_of(str.clone());
    assert_display(&set, "Set[str]");

    let frozen_set = TypeInfo::frozen_set_of(str);
    assert_display(&frozen_set, "FrozenSet[str]");
}

#[test]
fn complicated() {
    let int = TypeInfo::builtin("int");
    assert_display(&int, "int");

    let bool = TypeInfo::builtin("bool");
    assert_display(&bool, "bool");

    let str = TypeInfo::builtin("str");
    assert_display(&str, "str");

    let any = TypeInfo::Any;
    assert_display(&any, "Any");

    let params = TypeInfo::union_of(&[int.clone(), str]);
    assert_display(&params, "Union[int, str]");

    let func = TypeInfo::Callable(Some(vec![params, any]), Box::new(bool));
    assert_display(&func, "Callable[[Union[int, str], Any], bool]");

    let dict = TypeInfo::mapping_of(int, func);
    assert_display(
        &dict,
        "Mapping[int, Callable[[Union[int, str], Any], bool]]",
    );
}
