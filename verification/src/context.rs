//! The part of the machine's context that calls read: the `None` object and
//! the type objects of the kinds this crate defines, each with the
//! attributes that its class declares.

use vstd::prelude::*;
use vstd::string::StringExecFns;
use crate::object::PyObjectRef;

verus! {

/// The first attribute at or after `from` whose name is `name`.
pub open spec fn attribute_index(attributes: Seq<Seq<char>>, name: Seq<char>, from: int) -> Option<
    int,
>
    decreases attributes.len() - from,
{
    if from >= attributes.len() {
        None
    } else if attributes[from] == name {
        Some(from)
    } else {
        attribute_index(attributes, name, from + 1)
    }
}

/// The attributes of a class after it declares `names`, in order: a name
/// that the class has stays where it is, a new one goes to the end.
pub open spec fn declared(attributes: Seq<Seq<char>>, names: Seq<Seq<char>>) -> Seq<Seq<char>>
    decreases names.len(),
{
    if names.len() == 0 {
        attributes
    } else if attribute_index(attributes, names[0], 0) is Some {
        declared(attributes, names.skip(1))
    } else {
        declared(attributes.push(names[0]), names.skip(1))
    }
}

/// The attributes that the class of functions declares.
pub open spec fn function_attributes() -> Seq<Seq<char>> {
    seq![
        "__code__"@,
        "__defaults__"@,
        "__kwdefaults__"@,
        "__globals__"@,
        "__closure__"@,
        "__name__"@,
        "__doc__"@,
        "__module__"@,
        "__annotations__"@,
        "__qualname__"@,
        "__type_params__"@,
        "__jit__"@,
        "__get__"@,
        "__call__"@,
        "__repr__"@,
    ]
}

/// The attributes that the class of bound methods declares.
pub open spec fn bound_method_attributes() -> Seq<Seq<char>> {
    seq![
        "__reduce__"@,
        "__doc__"@,
        "__func__"@,
        "__self__"@,
        "__module__"@,
        "__qualname__"@,
        "__call__"@,
        "__eq__"@,
        "__ne__"@,
        "__lt__"@,
        "__le__"@,
        "__gt__"@,
        "__ge__"@,
        "__getattribute__"@,
        "__new__"@,
        "__repr__"@,
    ]
}

/// The attributes that the class of closure cells declares.
pub open spec fn cell_attributes() -> Seq<Seq<char>> {
    seq!["cell_contents"@, "__new__"@]
}

/// A type object: its identity, its name, and the names of the attributes
/// that its class declares.
#[derive(Clone, Debug, PartialEq, Eq)]
pub struct PyType {
    pub reference: PyObjectRef,
    pub name: String,
    pub attributes: Vec<String>,
}

impl PyType {
    /// A type without attributes.
    pub fn new(reference: PyObjectRef, name: &str) -> (r: Self)
        ensures
            r.reference == reference,
            r.name@ == name@,
            r.attributes@.len() == 0,
    {
        PyType { reference, name: String::from_str(name), attributes: Vec::new() }
    }

    /// Where the class declares `name`, if it does.
    pub fn find_attribute(&self, name: &String) -> (r: Option<usize>)
        ensures
            match r {
                Some(i) => attribute_index(self.attributes.deep_view(), name@, 0) == Some(
                    i as int,
                ) && i < self.attributes.len() && self.attributes[i as int]@ == name@,
                None => attribute_index(self.attributes.deep_view(), name@, 0) is None,
            },
    {
        let mut i: usize = 0;
        while i < self.attributes.len()
            invariant
                i <= self.attributes.len(),
                attribute_index(self.attributes.deep_view(), name@, 0) == attribute_index(
                    self.attributes.deep_view(),
                    name@,
                    i as int,
                ),
            decreases self.attributes.len() - i,
        {
            if self.attributes[i] == *name {
                return Some(i);
            }
            i = i + 1;
        }
        None
    }

    /// Declares `names` on the class.
    pub fn extend_class(&mut self, names: &Vec<String>)
        ensures
            final(self).reference == old(self).reference,
            final(self).name == old(self).name,
            final(self).attributes.deep_view() == declared(
                old(self).attributes.deep_view(),
                names.deep_view(),
            ),
    {
        let ghost all = names.deep_view();
        let mut i: usize = 0;
        assert(all.skip(0) =~= all);
        while i < names.len()
            invariant
                i <= names.len(),
                all == names.deep_view(),
                self.reference == old(self).reference,
                self.name == old(self).name,
                declared(old(self).attributes.deep_view(), all) == declared(
                    self.attributes.deep_view(),
                    all.skip(i as int),
                ),
            decreases names.len() - i,
        {
            let ghost before = self.attributes.deep_view();
            let ghost rest = all.skip(i as int);
            assert(rest[0] == names[i as int]@);
            assert(rest.skip(1) =~= all.skip(i + 1));
            if self.find_attribute(&names[i]).is_none() {
                self.attributes.push(names[i].clone());
                assert(self.attributes.deep_view() =~= before.push(names[i as int]@));
            }
            i = i + 1;
        }
    }
}

/// The type objects that calls read.
#[derive(Clone, Debug, PartialEq, Eq)]
pub struct TypeZoo {
    pub function_type: PyType,
    pub bound_method_type: PyType,
    pub cell_type: PyType,
    pub builtin_function_or_method_type: PyType,
    pub none_type: PyType,
}

/// The machine's context.
#[derive(Clone, Debug, PartialEq, Eq)]
pub struct Context {
    /// The `None` object.
    pub none: PyObjectRef,
    pub types: TypeZoo,
}

/// The attribute names of functions.
fn function_names() -> (names: Vec<String>)
    ensures
        names.deep_view() == function_attributes(),
{
    let mut names: Vec<String> = Vec::new();
    names.push(String::from_str("__code__"));
    names.push(String::from_str("__defaults__"));
    names.push(String::from_str("__kwdefaults__"));
    names.push(String::from_str("__globals__"));
    names.push(String::from_str("__closure__"));
    names.push(String::from_str("__name__"));
    names.push(String::from_str("__doc__"));
    names.push(String::from_str("__module__"));
    names.push(String::from_str("__annotations__"));
    names.push(String::from_str("__qualname__"));
    names.push(String::from_str("__type_params__"));
    names.push(String::from_str("__jit__"));
    names.push(String::from_str("__get__"));
    names.push(String::from_str("__call__"));
    names.push(String::from_str("__repr__"));
    assert(names.deep_view() =~= function_attributes());
    names
}

/// The attribute names of bound methods.
fn bound_method_names() -> (names: Vec<String>)
    ensures
        names.deep_view() == bound_method_attributes(),
{
    let mut names: Vec<String> = Vec::new();
    names.push(String::from_str("__reduce__"));
    names.push(String::from_str("__doc__"));
    names.push(String::from_str("__func__"));
    names.push(String::from_str("__self__"));
    names.push(String::from_str("__module__"));
    names.push(String::from_str("__qualname__"));
    names.push(String::from_str("__call__"));
    names.push(String::from_str("__eq__"));
    names.push(String::from_str("__ne__"));
    names.push(String::from_str("__lt__"));
    names.push(String::from_str("__le__"));
    names.push(String::from_str("__gt__"));
    names.push(String::from_str("__ge__"));
    names.push(String::from_str("__getattribute__"));
    names.push(String::from_str("__new__"));
    names.push(String::from_str("__repr__"));
    assert(names.deep_view() =~= bound_method_attributes());
    names
}

/// The attribute names of closure cells.
fn cell_names() -> (names: Vec<String>)
    ensures
        names.deep_view() == cell_attributes(),
{
    let mut names: Vec<String> = Vec::new();
    names.push(String::from_str("cell_contents"));
    names.push(String::from_str("__new__"));
    assert(names.deep_view() =~= cell_attributes());
    names
}

/// Declares the attributes of functions, bound methods and closure cells on
/// their type objects. Nothing else in the context changes.
pub fn init(context: &mut Context)
    ensures
        final(context).none == old(context).none,
        final(context).types.builtin_function_or_method_type == old(
            context,
        ).types.builtin_function_or_method_type,
        final(context).types.none_type == old(context).types.none_type,
        final(context).types.function_type.reference == old(
            context,
        ).types.function_type.reference,
        final(context).types.function_type.name == old(context).types.function_type.name,
        final(context).types.function_type.attributes.deep_view() == declared(
            old(context).types.function_type.attributes.deep_view(),
            function_attributes(),
        ),
        final(context).types.bound_method_type.reference == old(
            context,
        ).types.bound_method_type.reference,
        final(context).types.bound_method_type.name == old(context).types.bound_method_type.name,
        final(context).types.bound_method_type.attributes.deep_view() == declared(
            old(context).types.bound_method_type.attributes.deep_view(),
            bound_method_attributes(),
        ),
        final(context).types.cell_type.reference == old(context).types.cell_type.reference,
        final(context).types.cell_type.name == old(context).types.cell_type.name,
        final(context).types.cell_type.attributes.deep_view() == declared(
            old(context).types.cell_type.attributes.deep_view(),
            cell_attributes(),
        ),
{
    let functions = function_names();
    context.types.function_type.extend_class(&functions);
    let methods = bound_method_names();
    context.types.bound_method_type.extend_class(&methods);
    let cells = cell_names();
    context.types.cell_type.extend_class(&cells);
}

} // verus!
