use pyo3_model::inspect::types::{ModuleName, TypeInfo};

#[test]
fn names_and_modules() {
    assert_eq!(TypeInfo::Any.name(), "Any");
    assert_eq!(TypeInfo::NoneType.name(), "None");
    assert_eq!(TypeInfo::Tuple(None).name(), "Tuple");
    assert_eq!(TypeInfo::list_of(TypeInfo::builtin("int")).name(), "List");
    assert_eq!(TypeInfo::Any.module_name(), Some("typing"));
    assert_eq!(TypeInfo::builtin("int").module_name(), Some("builtins"));
    assert_eq!(TypeInfo::class("collections", "OrderedDict").module_name(), Some("collections"));
    let local = TypeInfo::Class {
        module: ModuleName::CurrentModule,
        name: String::from("Local"),
        type_vars: vec![],
    };
    assert_eq!(local.module_name(), None);
    assert_eq!(TypeInfo::optional_of(TypeInfo::Any).module_name(), Some("typing"));
}

#[test]
fn name_begins_the_hint() {
    let t = TypeInfo::dict_of(TypeInfo::builtin("str"), TypeInfo::builtin("int"));
    assert!(t.fmt().starts_with(t.name()));
    let c = TypeInfo::callable(Some(vec![TypeInfo::Any]), TypeInfo::NoReturn);
    assert_eq!(c.fmt(), "Callable[[Any], NoReturn]");
    assert!(c.fmt().starts_with(c.name()));
}

#[test]
fn const_factories_build_the_same_types() {
    let int = TypeInfo::builtin("int");
    let pair = [TypeInfo::builtin("str"), TypeInfo::builtin("int")];
    assert_eq!(TypeInfo::optional_of_const(&int).fmt(), "Optional[int]");
    assert_eq!(TypeInfo::list_of_const(&int).fmt(), "List[int]");
    assert_eq!(TypeInfo::sequence_of_const(&int).fmt(), "Sequence[int]");
    assert_eq!(TypeInfo::set_of_const(&int).fmt(), "Set[int]");
    assert_eq!(TypeInfo::frozen_set_of_const(&int).fmt(), "FrozenSet[int]");
    assert_eq!(TypeInfo::iterable_of_const(&int).fmt(), "Iterable[int]");
    assert_eq!(TypeInfo::iterator_of_const(&int).fmt(), "Iterator[int]");
    assert_eq!(TypeInfo::union_of_const(&pair).fmt(), "Union[str, int]");
    assert_eq!(TypeInfo::dict_of_const(&pair).fmt(), "Dict[str, int]");
    assert_eq!(TypeInfo::mapping_of_const(&pair).fmt(), "Mapping[str, int]");
    assert_eq!(TypeInfo::class("mod", "Thing").fmt(), "Thing");
}

#[test]
fn static_callable_shows_like_callable() {
    let out = TypeInfo::builtin("int");
    let c = TypeInfo::callable_const(None, &out);
    assert_eq!(c.name(), "Callable");
    assert_eq!(c.fmt(), "Callable[..., int]");
    let args = [TypeInfo::builtin("str"), TypeInfo::Any];
    let with_args = TypeInfo::callable_const(Some(&args), &out);
    let owned = TypeInfo::callable(Some(args.to_vec()), out.clone());
    assert_eq!(with_args.fmt(), owned.fmt());
    assert_eq!(with_args.fmt(), "Callable[[str, Any], int]");
    assert_eq!(TypeInfo::list_of(c).fmt(), "List[Callable[..., int]]");
}

#[test]
fn composite_hints() {
    let ints = TypeInfo::list_of(TypeInfo::builtin("int"));
    let u = TypeInfo::union_of(&[TypeInfo::builtin("bytes"), ints]);
    assert_eq!(u.fmt(), "Union[bytes, List[int]]");
    let d = TypeInfo::dict_of(TypeInfo::builtin("int"), TypeInfo::builtin("float"));
    assert_eq!(d.fmt(), "Dict[int, float]");
    let t = TypeInfo::Tuple(Some(vec![TypeInfo::builtin("int"), TypeInfo::builtin("float")]));
    assert_eq!(t.fmt(), "Tuple[int, float]");
    assert_eq!(TypeInfo::Tuple(Some(vec![])).fmt(), "Tuple[()]");
    assert_eq!(TypeInfo::Tuple(None).fmt(), "Tuple[...]");
    assert_eq!(TypeInfo::optional_of(TypeInfo::builtin("str")).fmt(), "Optional[str]");
}

#[test]
fn clone_keeps_the_hint() {
    let t = TypeInfo::mapping_of(
        TypeInfo::builtin("int"),
        TypeInfo::Tuple(Some(vec![TypeInfo::UnsizedTypedTuple(Box::new(TypeInfo::Any))])),
    );
    assert_eq!(t.clone().fmt(), t.fmt());
    assert_eq!(t.fmt(), "Mapping[int, Tuple[Tuple[Any, ...]]]");
}
