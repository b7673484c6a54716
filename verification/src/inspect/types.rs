//! Data types used to describe runtime Python types.
use vstd::prelude::*;
use vstd::string::*;

verus! {

/// Designation of a Python type.
///
/// This enum is used to handle advanced types, such as types with generics.
/// Its method [`TypeInfo::fmt`] converts it to the type hint notation (e.g. `List[int]`).
pub enum TypeInfo {
    /// The type `typing.Any`, which represents any possible value (unknown type).
    Any,
    /// The type `typing.None`.
    NoneType,
    /// The type `typing.NoReturn`, which represents functions that never return.
    NoReturn,
    /// The type `typing.Callable`.
    ///
    /// The first argument represents the parameters of the callable:
    /// - `Some` of a vector of types to represent the signature,
    /// - `None` if the signature is unknown (allows any number of arguments with type `Any`).
    ///
    /// The second argument represents the return type.
    Callable(Option<Vec<TypeInfo>>, Box<TypeInfo>),
    /// The type `typing.Callable`, as built by the `_const` factories.
    ///
    /// Its arguments mean what those of [`TypeInfo::Callable`] mean, and its hint is the same.
    CallableStatic(Option<Vec<TypeInfo>>, Box<TypeInfo>),
    /// The type `typing.tuple`.
    ///
    /// The argument represents the contents of the tuple:
    /// - `Some` of a vector of types to represent the accepted types,
    /// - `Some` of an empty vector for the empty tuple,
    /// - `None` if the number and type of accepted values is unknown.
    ///
    /// If the number of accepted values is unknown, but their type is, use [`Self::UnsizedTypedTuple`].
    Tuple(Option<Vec<TypeInfo>>),
    /// The type `typing.Tuple`.
    ///
    /// Use this variant to represent a tuple of unknown size but of known types.
    UnsizedTypedTuple(Box<TypeInfo>),
    /// A Python class.
    Class {
        /// The module this class comes from.
        module: ModuleName,
        /// The name of this class, as it appears in a type hint.
        name: String,
        /// The generics accepted by this class (empty vector if this class is not generic).
        type_vars: Vec<TypeInfo>,
    },
}

/// Declares which module a type is a part of.
pub enum ModuleName {
    /// The type is built-in: it doesn't need to be imported.
    Builtin,
    /// The type is in the current module: it doesn't need to be imported in this module,
    /// but needs to be imported in others.
    CurrentModule,
    /// The type is in the specified module.
    Module(String),
}

/// Mathematical value of a [`ModuleName`].
pub enum ModuleNameModel {
    Builtin,
    CurrentModule,
    Module(Seq<char>),
}

/// Mathematical value of a [`TypeInfo`]: the same tree, with sequences in place of
/// vectors and strings.
pub enum TypeInfoModel {
    Any,
    NoneType,
    NoReturn,
    Callable(Option<Seq<TypeInfoModel>>, Box<TypeInfoModel>),
    CallableStatic(Option<Seq<TypeInfoModel>>, Box<TypeInfoModel>),
    Tuple(Option<Seq<TypeInfoModel>>),
    UnsizedTypedTuple(Box<TypeInfoModel>),
    Class { module: ModuleNameModel, name: Seq<char>, type_vars: Seq<TypeInfoModel> },
}

impl View for ModuleName {
    type V = ModuleNameModel;

    open spec fn view(&self) -> ModuleNameModel {
        match self {
            ModuleName::Builtin => ModuleNameModel::Builtin,
            ModuleName::CurrentModule => ModuleNameModel::CurrentModule,
            ModuleName::Module(m) => ModuleNameModel::Module(m@),
        }
    }
}

/// The models of a sequence of types, element by element.
pub open spec fn model_seq(s: Seq<TypeInfo>) -> Seq<TypeInfoModel>
    decreases s,
{
    Seq::new(
        s.len(),
        |i: int|
            if 0 <= i < s.len() {
                model_of(s[i])
            } else {
                TypeInfoModel::Any
            },
    )
}

/// The model of an optional list of types.
pub open spec fn model_opt(a: Option<Vec<TypeInfo>>) -> Option<Seq<TypeInfoModel>>
    decreases a,
{
    match a {
        Some(v) => Some(model_seq(v@)),
        None => None,
    }
}

/// The model of a type.
pub open spec fn model_of(t: TypeInfo) -> TypeInfoModel
    decreases t,
{
    match t {
        TypeInfo::Any => TypeInfoModel::Any,
        TypeInfo::NoneType => TypeInfoModel::NoneType,
        TypeInfo::NoReturn => TypeInfoModel::NoReturn,
        TypeInfo::Callable(a, o) => TypeInfoModel::Callable(model_opt(a), Box::new(model_of(*o))),
        TypeInfo::CallableStatic(a, o) => TypeInfoModel::CallableStatic(
            model_opt(a),
            Box::new(model_of(*o)),
        ),
        TypeInfo::Tuple(a) => TypeInfoModel::Tuple(model_opt(a)),
        TypeInfo::UnsizedTypedTuple(o) => TypeInfoModel::UnsizedTypedTuple(Box::new(model_of(*o))),
        TypeInfo::Class { module, name, type_vars } => TypeInfoModel::Class {
            module: module@,
            name: name@,
            type_vars: model_seq(type_vars@),
        },
    }
}

impl View for TypeInfo {
    type V = TypeInfoModel;

    open spec fn view(&self) -> TypeInfoModel {
        model_of(*self)
    }
}

/// The module in which a type is declared; `None` for the current module.
pub open spec fn module_name_of(t: TypeInfoModel) -> Option<Seq<char>> {
    match t {
        TypeInfoModel::Class { module, .. } => match module {
            ModuleNameModel::Builtin => Some("builtins"@),
            ModuleNameModel::CurrentModule => None,
            ModuleNameModel::Module(m) => Some(m),
        },
        _ => Some("typing"@),
    }
}

/// The name of a type: the part of its hint that is not generic.
pub open spec fn name_of(t: TypeInfoModel) -> Seq<char> {
    match t {
        TypeInfoModel::Any => "Any"@,
        TypeInfoModel::NoneType => "None"@,
        TypeInfoModel::NoReturn => "NoReturn"@,
        TypeInfoModel::Callable(_, _) => "Callable"@,
        TypeInfoModel::CallableStatic(_, _) => "Callable"@,
        TypeInfoModel::Tuple(_) => "Tuple"@,
        TypeInfoModel::UnsizedTypedTuple(_) => "Tuple"@,
        TypeInfoModel::Class { name, .. } => name,
    }
}

/// The hints of a sequence of types, separated by `", "`.
pub open spec fn joined(s: Seq<TypeInfoModel>) -> Seq<char>
    decreases s,
{
    if s.len() == 0 {
        Seq::empty()
    } else if s.len() == 1 {
        hint(s[0])
    } else {
        joined(s.drop_last()) + ", "@ + hint(s.last())
    }
}

/// The type hint notation of a type (e.g. `List[int]`).
pub open spec fn hint(t: TypeInfoModel) -> Seq<char>
    decreases t,
{
    match t {
        TypeInfoModel::Callable(a, o) | TypeInfoModel::CallableStatic(a, o) => "Callable["@ + match a {
            Some(s) => "["@ + joined(s) + "]"@,
            None => "..."@,
        } + ", "@ + hint(*o) + "]"@,
        TypeInfoModel::Tuple(a) => "Tuple["@ + match a {
            Some(s) => if s.len() == 0 {
                "()"@
            } else {
                joined(s)
            },
            None => "..."@,
        } + "]"@,
        TypeInfoModel::UnsizedTypedTuple(o) => "Tuple["@ + hint(*o) + ", ...]"@,
        TypeInfoModel::Class { name, type_vars, .. } => if type_vars.len() == 0 {
            name
        } else {
            name + "["@ + joined(type_vars) + "]"@
        },
        _ => name_of(t),
    }
}

/// A class of the module `typing` with the given name and type arguments.
pub open spec fn typing_class(name: Seq<char>, args: Seq<TypeInfoModel>) -> TypeInfoModel {
    TypeInfoModel::Class { module: ModuleNameModel::Module("typing"@), name, type_vars: args }
}

proof fn lemma_model_seq_index(s: Seq<TypeInfo>, i: int)
    requires
        0 <= i < s.len(),
    ensures
        model_seq(s).len() == s.len(),
        model_seq(s)[i] == model_of(s[i]),
{
}

fn typing_module() -> (m: ModuleName)
    ensures
        m@ == ModuleNameModel::Module("typing"@),
{
    ModuleName::Module(String::from_str("typing"))
}

/// Copies a list of types.
fn clone_list(v: &Vec<TypeInfo>) -> (r: Vec<TypeInfo>)
    ensures
        model_seq(r@) == model_seq(v@),
    decreases v,
{
    let mut r: Vec<TypeInfo> = Vec::new();
    let mut i: usize = 0;
    while i < v.len()
        invariant
            0 <= i <= v.len(),
            r@.len() == i,
            forall|j: int| 0 <= j < i ==> model_of(#[trigger] r@[j]) == model_of(v@[j]),
        decreases v.len() - i,
    {
        let item = v[i].duplicate();
        r.push(item);
        i += 1;
    }
    assert(model_seq(r@) =~= model_seq(v@));
    r
}

/// Copies an optional list of types.
fn clone_opt_list(a: &Option<Vec<TypeInfo>>) -> (r: Option<Vec<TypeInfo>>)
    ensures
        model_opt(r) == model_opt(*a),
    decreases a,
{
    match a {
        Some(v) => Some(clone_list(v)),
        None => None,
    }
}

/// Copies a list of types given as a slice.
fn list_from_slice(types: &[TypeInfo]) -> (r: Vec<TypeInfo>)
    ensures
        model_seq(r@) == model_seq(types@),
{
    let mut r: Vec<TypeInfo> = Vec::new();
    let mut i: usize = 0;
    while i < types.len()
        invariant
            0 <= i <= types.len(),
            r@.len() == i,
            forall|j: int| 0 <= j < i ==> model_of(#[trigger] r@[j]) == model_of(types@[j]),
        decreases types.len() - i,
    {
        let item = types[i].duplicate();
        r.push(item);
        i += 1;
    }
    assert(model_seq(r@) =~= model_seq(types@));
    r
}

impl ModuleName {
    /// Copies this module name.
    pub fn duplicate(&self) -> (r: ModuleName)
        ensures
            r@ == self@,
    {
        match self {
            ModuleName::Builtin => ModuleName::Builtin,
            ModuleName::CurrentModule => ModuleName::CurrentModule,
            ModuleName::Module(m) => ModuleName::Module(m.clone()),
        }
    }
}

impl Clone for ModuleName {
    fn clone(&self) -> (r: Self)
        ensures
            r@ == self@,
    {
        self.duplicate()
    }
}

impl TypeInfo {
    /// Copies this type, with all the types it holds.
    pub fn duplicate(&self) -> (r: TypeInfo)
        ensures
            r@ == self@,
        decreases self,
    {
        match self {
            TypeInfo::Any => TypeInfo::Any,
            TypeInfo::NoneType => TypeInfo::NoneType,
            TypeInfo::NoReturn => TypeInfo::NoReturn,
            TypeInfo::Callable(a, o) => {
                let a2 = clone_opt_list(a);
                let o2 = (**o).duplicate();
                TypeInfo::Callable(a2, Box::new(o2))
            },
            TypeInfo::CallableStatic(a, o) => {
                let a2 = clone_opt_list(a);
                let o2 = (**o).duplicate();
                TypeInfo::CallableStatic(a2, Box::new(o2))
            },
            TypeInfo::Tuple(a) => TypeInfo::Tuple(clone_opt_list(a)),
            TypeInfo::UnsizedTypedTuple(o) => {
                let o2 = (**o).duplicate();
                TypeInfo::UnsizedTypedTuple(Box::new(o2))
            },
            TypeInfo::Class { module, name, type_vars } => TypeInfo::Class {
                module: module.duplicate(),
                name: name.clone(),
                type_vars: clone_list(type_vars),
            },
        }
    }
}

impl Clone for TypeInfo {
    fn clone(&self) -> (r: Self)
        ensures
            r@ == self@,
    {
        self.duplicate()
    }
}


impl TypeInfo {
    /// Returns the module in which a type is declared.
    ///
    /// Returns `None` if the type is declared in the current module.
    pub fn module_name(&self) -> (r: Option<&str>)
        ensures
            match r {
                Some(m) => module_name_of(self@) == Some(m@),
                None => module_name_of(self@) is None,
            },
    {
        match self {
            TypeInfo::Any
            | TypeInfo::NoneType
            | TypeInfo::NoReturn
            | TypeInfo::CallableStatic(_, _)
            | TypeInfo::Callable(_, _)
            | TypeInfo::Tuple(_)
            | TypeInfo::UnsizedTypedTuple(_) => Some("typing"),
            TypeInfo::Class { module, .. } => match module {
                ModuleName::Builtin => Some("builtins"),
                ModuleName::CurrentModule => None,
                ModuleName::Module(name) => Some(name.as_str()),
            },
        }
    }

    /// Returns the name of a type.
    ///
    /// The name of a type is the part of the hint that is not generic (e.g. `List` instead of `List[int]`).
    pub fn name(&self) -> (r: &str)
        ensures
            r@ == name_of(self@),
    {
        match self {
            TypeInfo::Any => "Any",
            TypeInfo::NoneType => "None",
            TypeInfo::NoReturn => "NoReturn",
            TypeInfo::CallableStatic(_, _) => "Callable",
            TypeInfo::Callable(_, _) => "Callable",
            TypeInfo::Tuple(_) => "Tuple",
            TypeInfo::UnsizedTypedTuple(_) => "Tuple",
            TypeInfo::Class { name, .. } => name.as_str(),
        }
    }
}


/// A list of one type.
fn list_of_one(t: TypeInfo) -> (v: Vec<TypeInfo>)
    ensures
        model_seq(v@) == seq![t@],
{
    let v = vec![t];
    assert(model_seq(v@) =~= seq![t@]);
    v
}

/// A list of two types.
fn list_of_two(a: TypeInfo, b: TypeInfo) -> (v: Vec<TypeInfo>)
    ensures
        model_seq(v@) == seq![a@, b@],
{
    let v = vec![a, b];
    assert(model_seq(v@) =~= seq![a@, b@]);
    v
}

// Utilities for easily instantiating TypeInfo structures for built-in/common types.
impl TypeInfo {
    /// The Python `Optional` type.
    pub fn optional_of(t: TypeInfo) -> (r: TypeInfo)
        ensures
            r@ == typing_class("Optional"@, seq![t@]),
    {
        TypeInfo::Class {
            module: typing_module(),
            name: String::from_str("Optional"),
            type_vars: list_of_one(t),
        }
    }

    /// The Python `Optional` type.
    pub fn optional_of_const(t: &TypeInfo) -> (r: TypeInfo)
        ensures
            r@ == typing_class("Optional"@, seq![t@]),
    {
        TypeInfo::Class {
            module: typing_module(),
            name: String::from_str("Optional"),
            type_vars: list_of_one(t.duplicate()),
        }
    }

    /// The Python `Union` type.
    pub fn union_of(types: &[TypeInfo]) -> (r: TypeInfo)
        ensures
            r@ == typing_class("Union"@, model_seq(types@)),
    {
        TypeInfo::Class {
            module: typing_module(),
            name: String::from_str("Union"),
            type_vars: list_from_slice(types),
        }
    }

    /// The Python `Union` type.
    pub fn union_of_const(types: &[TypeInfo]) -> (r: TypeInfo)
        ensures
            r@ == typing_class("Union"@, model_seq(types@)),
    {
        TypeInfo::Class {
            module: typing_module(),
            name: String::from_str("Union"),
            type_vars: list_from_slice(types),
        }
    }

    /// The Python `List` type.
    pub fn list_of(t: TypeInfo) -> (r: TypeInfo)
        ensures
            r@ == typing_class("List"@, seq![t@]),
    {
        TypeInfo::Class {
            module: typing_module(),
            name: String::from_str("List"),
            type_vars: list_of_one(t),
        }
    }

    /// The Python `List` type.
    pub fn list_of_const(t: &TypeInfo) -> (r: TypeInfo)
        ensures
            r@ == typing_class("List"@, seq![t@]),
    {
        TypeInfo::Class {
            module: typing_module(),
            name: String::from_str("List"),
            type_vars: list_of_one(t.duplicate()),
        }
    }

    /// The Python `Sequence` type.
    pub fn sequence_of(t: TypeInfo) -> (r: TypeInfo)
        ensures
            r@ == typing_class("Sequence"@, seq![t@]),
    {
        TypeInfo::Class {
            module: typing_module(),
            name: String::from_str("Sequence"),
            type_vars: list_of_one(t),
        }
    }

    /// The Python `Sequence` type.
    pub fn sequence_of_const(t: &TypeInfo) -> (r: TypeInfo)
        ensures
            r@ == typing_class("Sequence"@, seq![t@]),
    {
        TypeInfo::Class {
            module: typing_module(),
            name: String::from_str("Sequence"),
            type_vars: list_of_one(t.duplicate()),
        }
    }

    /// The Python `Set` type.
    pub fn set_of(t: TypeInfo) -> (r: TypeInfo)
        ensures
            r@ == typing_class("Set"@, seq![t@]),
    {
        TypeInfo::Class {
            module: typing_module(),
            name: String::from_str("Set"),
            type_vars: list_of_one(t),
        }
    }

    /// The Python `Set` type.
    pub fn set_of_const(t: &TypeInfo) -> (r: TypeInfo)
        ensures
            r@ == typing_class("Set"@, seq![t@]),
    {
        TypeInfo::Class {
            module: typing_module(),
            name: String::from_str("Set"),
            type_vars: list_of_one(t.duplicate()),
        }
    }

    /// The Python `FrozenSet` type.
    pub fn frozen_set_of(t: TypeInfo) -> (r: TypeInfo)
        ensures
            r@ == typing_class("FrozenSet"@, seq![t@]),
    {
        TypeInfo::Class {
            module: typing_module(),
            name: String::from_str("FrozenSet"),
            type_vars: list_of_one(t),
        }
    }

    /// The Python `FrozenSet` type.
    pub fn frozen_set_of_const(t: &TypeInfo) -> (r: TypeInfo)
        ensures
            r@ == typing_class("FrozenSet"@, seq![t@]),
    {
        TypeInfo::Class {
            module: typing_module(),
            name: String::from_str("FrozenSet"),
            type_vars: list_of_one(t.duplicate()),
        }
    }

    /// The Python `Iterable` type.
    pub fn iterable_of(t: TypeInfo) -> (r: TypeInfo)
        ensures
            r@ == typing_class("Iterable"@, seq![t@]),
    {
        TypeInfo::Class {
            module: typing_module(),
            name: String::from_str("Iterable"),
            type_vars: list_of_one(t),
        }
    }

    /// The Python `Iterable` type.
    pub fn iterable_of_const(t: &TypeInfo) -> (r: TypeInfo)
        ensures
            r@ == typing_class("Iterable"@, seq![t@]),
    {
        TypeInfo::Class {
            module: typing_module(),
            name: String::from_str("Iterable"),
            type_vars: list_of_one(t.duplicate()),
        }
    }

    /// The Python `Iterator` type.
    pub fn iterator_of(t: TypeInfo) -> (r: TypeInfo)
        ensures
            r@ == typing_class("Iterator"@, seq![t@]),
    {
        TypeInfo::Class {
            module: typing_module(),
            name: String::from_str("Iterator"),
            type_vars: list_of_one(t),
        }
    }

    /// The Python `Iterator` type.
    pub fn iterator_of_const(t: &TypeInfo) -> (r: TypeInfo)
        ensures
            r@ == typing_class("Iterator"@, seq![t@]),
    {
        TypeInfo::Class {
            module: typing_module(),
            name: String::from_str("Iterator"),
            type_vars: list_of_one(t.duplicate()),
        }
    }

    /// The Python `Dict` type.
    pub fn dict_of(key: TypeInfo, value: TypeInfo) -> (r: TypeInfo)
        ensures
            r@ == typing_class("Dict"@, seq![key@, value@]),
    {
        TypeInfo::Class {
            module: typing_module(),
            name: String::from_str("Dict"),
            type_vars: list_of_two(key, value),
        }
    }

    /// The Python `Dict` type.
    pub fn dict_of_const(types: &[TypeInfo; 2]) -> (r: TypeInfo)
        ensures
            r@ == typing_class("Dict"@, seq![types@[0]@, types@[1]@]),
    {
        TypeInfo::Class {
            module: typing_module(),
            name: String::from_str("Dict"),
            type_vars: list_of_two(types[0].duplicate(), types[1].duplicate()),
        }
    }

    /// The Python `Mapping` type.
    pub fn mapping_of(key: TypeInfo, value: TypeInfo) -> (r: TypeInfo)
        ensures
            r@ == typing_class("Mapping"@, seq![key@, value@]),
    {
        TypeInfo::Class {
            module: typing_module(),
            name: String::from_str("Mapping"),
            type_vars: list_of_two(key, value),
        }
    }

    /// The Python `Mapping` type.
    pub fn mapping_of_const(types: &[TypeInfo; 2]) -> (r: TypeInfo)
        ensures
            r@ == typing_class("Mapping"@, seq![types@[0]@, types@[1]@]),
    {
        TypeInfo::Class {
            module: typing_module(),
            name: String::from_str("Mapping"),
            type_vars: list_of_two(types[0].duplicate(), types[1].duplicate()),
        }
    }

    /// Convenience factory for non-generic builtins (e.g. `int`).
    pub fn builtin(name: &str) -> (r: TypeInfo)
        ensures
            r@ == (TypeInfoModel::Class {
                module: ModuleNameModel::Builtin,
                name: name@,
                type_vars: Seq::empty(),
            }),
    {
        let type_vars: Vec<TypeInfo> = Vec::new();
        assert(model_seq(type_vars@) =~= Seq::empty());
        TypeInfo::Class { module: ModuleName::Builtin, name: String::from_str(name), type_vars }
    }

    /// Convenience factory for non-generic classes.
    pub fn class(module: &str, name: &str) -> (r: TypeInfo)
        ensures
            r@ == (TypeInfoModel::Class {
                module: ModuleNameModel::Module(module@),
                name: name@,
                type_vars: Seq::empty(),
            }),
    {
        let type_vars: Vec<TypeInfo> = Vec::new();
        assert(model_seq(type_vars@) =~= Seq::empty());
        TypeInfo::Class {
            module: ModuleName::Module(String::from_str(module)),
            name: String::from_str(name),
            type_vars,
        }
    }

    /// Convenience factory for callable types.
    pub fn callable(args: Option<Vec<TypeInfo>>, output: TypeInfo) -> (r: TypeInfo)
        ensures
            r@ == TypeInfoModel::Callable(model_opt(args), Box::new(output@)),
    {
        TypeInfo::Callable(args, Box::new(output))
    }

    /// Convenience factory for callable types.
    pub fn callable_const(args: Option<&[TypeInfo]>, output: &TypeInfo) -> (r: TypeInfo)
        ensures
            r@ == TypeInfoModel::CallableStatic(
                match args {
                    Some(s) => Some(model_seq(s@)),
                    None => None,
                },
                Box::new(output@),
            ),
    {
        let list = match args {
            Some(s) => Some(list_from_slice(s)),
            None => None,
        };
        assert(model_opt(list) == match args {
            Some(s) => Some(model_seq(s@)),
            None => None::<Seq<TypeInfoModel>>,
        });
        TypeInfo::CallableStatic(list, Box::new(output.duplicate()))
    }
}


/// Appends the hints of `items`, separated by `", "`, to `out`.
fn write_joined(items: &Vec<TypeInfo>, out: &mut String)
    ensures
        final(out)@ == old(out)@ + joined(model_seq(items@)),
    decreases items,
{
    let ghost start = out@;
    let ghost ms = model_seq(items@);
    let mut comma = false;
    let mut i: usize = 0;
    while i < items.len()
        invariant
            0 <= i <= items.len(),
            ms == model_seq(items@),
            comma == (i > 0),
            out@ == start + joined(ms.take(i as int)),
        decreases items.len() - i,
    {
        proof {
            lemma_model_seq_index(items@, i as int);
        }
        let ghost before = out@;
        if comma {
            out.append(", ");
        }
        items[i].write_hint(out);
        comma = true;
        proof {
            let t = ms.take(i + 1);
            assert(t.drop_last() =~= ms.take(i as int));
            assert(t.last() == ms[i as int]);
            if i == 0 {
                assert(ms.take(0) =~= Seq::<TypeInfoModel>::empty());
                assert(t.len() == 1);
            }
        }
        i += 1;
    }
    assert(ms.take(items.len() as int) =~= ms);
}

impl TypeInfo {
    /// Appends the type hint notation of this type to `out`.
    fn write_hint(&self, out: &mut String)
        ensures
            final(out)@ == old(out)@ + hint(self@),
        decreases self,
    {
        let ghost start = out@;
        match self {
            TypeInfo::Any | TypeInfo::NoneType | TypeInfo::NoReturn => {
                out.append(self.name());
            },
            TypeInfo::Callable(input, output) => {
                assert(self@ == TypeInfoModel::Callable(model_opt(*input), Box::new(output@)));
                out.append("Callable[");
                match input {
                    Some(input) => {
                        assert(model_opt(Some(*input)) == Some(model_seq(input@)));
                        out.append("[");
                        write_joined(input, out);
                        out.append("]");
                    },
                    None => {
                        out.append("...");
                    },
                }
                out.append(", ");
                (**output).write_hint(out);
                out.append("]");
                assert(out@ =~= start + hint(self@));
            },
            TypeInfo::CallableStatic(input, output) => {
                assert(self@ == TypeInfoModel::CallableStatic(model_opt(*input), Box::new(output@)));
                out.append("Callable[");
                match input {
                    Some(input) => {
                        assert(model_opt(Some(*input)) == Some(model_seq(input@)));
                        out.append("[");
                        write_joined(input, out);
                        out.append("]");
                    },
                    None => {
                        out.append("...");
                    },
                }
                out.append(", ");
                (**output).write_hint(out);
                out.append("]");
                assert(out@ =~= start + hint(self@));
            },
            TypeInfo::Tuple(types) => {
                assert(self@ == TypeInfoModel::Tuple(model_opt(*types)));
                out.append("Tuple[");
                match types {
                    Some(types) => {
                        assert(model_opt(Some(*types)) == Some(model_seq(types@)));
                        if types.len() == 0 {
                            out.append("()");
                        } else {
                            write_joined(types, out);
                        }
                    },
                    None => {
                        out.append("...");
                    },
                }
                out.append("]");
                assert(out@ =~= start + hint(self@));
            },
            TypeInfo::UnsizedTypedTuple(t) => {
                out.append("Tuple[");
                (**t).write_hint(out);
                out.append(", ...]");
                assert(out@ =~= start + hint(self@));
            },
            TypeInfo::Class { name, type_vars, .. } => {
                assert(model_seq(type_vars@).len() == type_vars@.len());
                out.append(name.as_str());
                if type_vars.len() != 0 {
                    out.append("[");
                    write_joined(type_vars, out);
                    out.append("]");
                }
                assert(out@ =~= start + hint(self@));
            },
        }
    }

    /// Formats this type in type hint notation (e.g. `List[int]`), as `Display` does for it.
    pub fn fmt(&self) -> (s: String)
        ensures
            s@ == hint(self@),
    {
        let mut out = String::new();
        self.write_hint(&mut out);
        assert(out@ =~= hint(self@));
        out
    }
}


/// The hint of a callable lists its argument types in brackets whenever they are known,
/// even when there are none: `Callable[[], int]` takes no argument, while `Callable[...,
/// int]`, whose arguments are unknown, is a different hint. The same holds of a callable
/// built from static parts.
pub proof fn lemma_callable_hint(args: Seq<TypeInfoModel>, o: TypeInfoModel)
    ensures
        hint(TypeInfoModel::Callable(Some(args), Box::new(o))) == "Callable[["@ + joined(args)
            + "], "@ + hint(o) + "]"@,
        hint(TypeInfoModel::Callable(None, Box::new(o))) == "Callable[..., "@ + hint(o) + "]"@,
        hint(TypeInfoModel::Callable(Some(Seq::empty()), Box::new(o))) == "Callable[[], "@
            + hint(o) + "]"@,
        hint(TypeInfoModel::Callable(Some(Seq::empty()), Box::new(o))) != hint(
            TypeInfoModel::Callable(None, Box::new(o)),
        ),
        hint(TypeInfoModel::CallableStatic(Some(args), Box::new(o))) == hint(
            TypeInfoModel::Callable(Some(args), Box::new(o)),
        ),
        hint(TypeInfoModel::CallableStatic(None, Box::new(o))) == hint(
            TypeInfoModel::Callable(None, Box::new(o)),
        ),
        args.len() == 1 ==> joined(args) == hint(args[0]),
        args.len() > 1 ==> joined(args) == joined(args.drop_last()) + ", "@ + hint(args.last()),
{
    reveal_strlit("Callable[[");
    reveal_strlit("Callable[");
    reveal_strlit("[");
    reveal_strlit("], ");
    reveal_strlit("]");
    reveal_strlit(", ");
    reveal_strlit("Callable[...,");
    reveal_strlit("Callable[..., ");
    reveal_strlit("...");
    reveal_strlit("Callable[[], ");
    let ho = hint(o);
    assert(hint(TypeInfoModel::Callable(Some(args), Box::new(o))) =~= "Callable[["@ + joined(
        args,
    ) + "], "@ + ho + "]"@);
    assert(hint(TypeInfoModel::Callable(None, Box::new(o))) =~= "Callable[..., "@ + ho + "]"@);
    let e: Seq<TypeInfoModel> = Seq::empty();
    assert(joined(e) =~= Seq::<char>::empty());
    let known = hint(TypeInfoModel::Callable(Some(e), Box::new(o)));
    let unknown = hint(TypeInfoModel::Callable(None, Box::new(o)));
    assert(known =~= "Callable[[], "@ + ho + "]"@);
    assert(known[9] == '[');
    assert(unknown[9] == '.');
}

/// The hints of the other kinds of types: `Any`, `None` and `NoReturn` by name; a tuple of
/// unknown items as `Tuple[...]`, the empty tuple as `Tuple[()]`, other tuples with their
/// item types; a tuple of any length of one type as `Tuple[T, ...]`; a class by its name,
/// followed by its type arguments in brackets where it has any.
pub proof fn lemma_other_hints(items: Seq<TypeInfoModel>, o: TypeInfoModel, t: TypeInfoModel)
    ensures
        hint(TypeInfoModel::Any) == "Any"@,
        hint(TypeInfoModel::NoneType) == "None"@,
        hint(TypeInfoModel::NoReturn) == "NoReturn"@,
        hint(TypeInfoModel::Tuple(None)) == "Tuple[...]"@,
        hint(TypeInfoModel::Tuple(Some(Seq::empty()))) == "Tuple[()]"@,
        items.len() > 0 ==> hint(TypeInfoModel::Tuple(Some(items))) == "Tuple["@ + joined(items)
            + "]"@,
        hint(TypeInfoModel::UnsizedTypedTuple(Box::new(o))) == "Tuple["@ + hint(o) + ", ...]"@,
        t matches TypeInfoModel::Class { name, type_vars, .. } ==> hint(t) == if type_vars.len()
            == 0 {
            name
        } else {
            name + "["@ + joined(type_vars) + "]"@
        },
{
    reveal_strlit("Tuple[");
    reveal_strlit("Tuple[...]");
    reveal_strlit("Tuple[()]");
    reveal_strlit("...");
    reveal_strlit("()");
    reveal_strlit("]");
    assert(hint(TypeInfoModel::Tuple(None)) =~= "Tuple[...]"@);
    assert(hint(TypeInfoModel::Tuple(Some(Seq::empty()))) =~= "Tuple[()]"@);
    assert(hint(TypeInfoModel::UnsizedTypedTuple(Box::new(o))) =~= "Tuple["@ + hint(o)
        + ", ...]"@);
}

/// Every type that is not a class is declared in the module `typing`; a class is declared in
/// `builtins` when it is a builtin, in no module known by name when it belongs to the
/// current one, and otherwise in the module it names.
pub proof fn lemma_module_of_type(t: TypeInfoModel)
    ensures
        !(t is Class) ==> module_name_of(t) == Some("typing"@),
        (t matches TypeInfoModel::Class { module, .. } && module is Builtin) ==> module_name_of(t)
            == Some("builtins"@),
        (t matches TypeInfoModel::Class { module, .. } && module is CurrentModule)
            ==> module_name_of(t) is None,
        t matches TypeInfoModel::Class { module: ModuleNameModel::Module(m), .. }
            ==> module_name_of(t) == Some(m),
        module_name_of(TypeInfoModel::Tuple(None)) == Some("typing"@),
        module_name_of(TypeInfoModel::UnsizedTypedTuple(Box::new(t))) == Some("typing"@),
{
}

/// The hint of a generic class of `typing` is its name followed by the hints of its type
/// arguments in brackets; with one argument, `List[int]` for `List` of `int`.
pub proof fn lemma_generic_hint(name: Seq<char>, args: Seq<TypeInfoModel>)
    requires
        args.len() > 0,
    ensures
        hint(typing_class(name, args)) == name + "["@ + joined(args) + "]"@,
        args.len() == 1 ==> hint(typing_class(name, args)) == name + "["@ + hint(args[0]) + "]"@,
{
    if args.len() == 1 {
        assert(joined(args) == hint(args[0]));
    }
}

/// The name of a type is the part of its hint that is not generic: the hint of every
/// type begins with its name (`List` in `List[int]`).
pub proof fn lemma_name_begins_hint(t: TypeInfoModel)
    ensures
        name_of(t).len() <= hint(t).len(),
        hint(t).subrange(0, name_of(t).len() as int) == name_of(t),
{
    reveal_strlit("Callable[");
    reveal_strlit("Callable");
    reveal_strlit("Tuple[");
    reveal_strlit("Tuple");
    let n = name_of(t);
    let h = hint(t);
    match t {
        TypeInfoModel::Callable(a, o) => {
            let rest = match a {
                Some(s) => "["@ + joined(s) + "]"@,
                None => "..."@,
            } + ", "@ + hint(*o) + "]"@;
            assert(h =~= "Callable["@ + rest);
            assert(h.subrange(0, n.len() as int) =~= n);
        },
        TypeInfoModel::Tuple(a) => {
            let rest = match a {
                Some(s) => if s.len() == 0 {
                    "()"@
                } else {
                    joined(s)
                },
                None => "..."@,
            } + "]"@;
            assert(h =~= "Tuple["@ + rest);
            assert(h.subrange(0, n.len() as int) =~= n);
        },
        TypeInfoModel::UnsizedTypedTuple(o) => {
            assert(h =~= "Tuple["@ + (hint(*o) + ", ...]"@));
            assert(h.subrange(0, n.len() as int) =~= n);
        },
        TypeInfoModel::Class { name, type_vars, .. } => {
            if type_vars.len() != 0 {
                assert(h =~= name + ("["@ + joined(type_vars) + "]"@));
            }
            assert(h.subrange(0, n.len() as int) =~= n);
        },
        _ => {
            assert(h.subrange(0, n.len() as int) =~= n);
        },
    }
}

} // verus!
