//! The bound method: a receiver paired with a callable.
//!
//! A bound method has no state of its own. Calling it calls the callable
//! with the receiver in front of the arguments; an attribute that its class
//! does not declare is the callable's.

use vstd::prelude::*;
use vstd::string::StringExecFns;
use crate::args::FuncArgs;
use crate::context::{attribute_index, Context, PyType};
use crate::object::{Payload, PyObjectRef, PyRef};

verus! {

/// A callable bound to the object it was looked up on.
#[derive(Clone, Copy, Debug, PartialEq, Eq, Structural)]
pub struct PyBoundMethod {
    pub object: PyObjectRef,
    pub function: PyObjectRef,
}

/// The arguments from which a bound method is constructed, in the order in
/// which the constructor takes them: first the callable, then the receiver.
#[derive(Clone, Copy, Debug, PartialEq, Eq, Structural)]
pub struct PyBoundMethodNewArgs {
    pub function: PyObjectRef,
    pub object: PyObjectRef,
}

/// A rich comparison.
#[derive(Clone, Copy, Debug, PartialEq, Eq, Structural)]
pub enum PyComparisonOp {
    Lt,
    Le,
    Eq,
    Ne,
    Gt,
    Ge,
}

/// The answer to a rich comparison.
#[derive(Clone, Copy, Debug, PartialEq, Eq, Structural)]
pub enum PyComparisonValue {
    Implemented(bool),
    NotImplemented,
}

/// A request to read an attribute of an object.
#[derive(Clone, Debug, PartialEq, Eq)]
pub struct AttrQuery {
    pub target: PyObjectRef,
    pub name: String,
}

/// Where an attribute of a bound method is found.
#[derive(Clone, Copy, Debug, PartialEq, Eq, Structural)]
pub enum AttrLookup {
    /// The class of bound methods declares it, at this place in its list;
    /// what is stored there is resolved as a descriptor against the method.
    ClassAttribute(usize),
    /// It is an attribute of this object, the wrapped callable.
    Delegate(PyObjectRef),
}

/// Where the qualified name of a bound method comes from.
#[derive(Clone, Debug, PartialEq, Eq)]
pub enum QualnameLookup {
    /// From the receiver: the method wraps a built-in, so its qualified name
    /// is the receiver's with `.__new__` after it.
    Receiver(AttrQuery),
    /// From the wrapped callable, as it is.
    Function(AttrQuery),
}

/// Whether `prepended` is `args` with `item` put in front of the positional
/// arguments.
pub open spec fn is_prepended(prepended: FuncArgs, item: PyObjectRef, args: FuncArgs) -> bool {
    &&& prepended.args@ == seq![item] + args.args@
    &&& prepended.kwargs == args.kwargs
}

/// The text of a value where it is a string.
pub open spec fn text_of(value: Option<Payload>) -> Option<Seq<char>> {
    match value {
        Some(Payload::Str(text)) => Some(text@),
        _ => None,
    }
}

/// A name, or a question mark where there is none.
pub open spec fn or_unknown(name: Option<Seq<char>>) -> Seq<char> {
    match name {
        Some(text) => text,
        None => "?"@,
    }
}

impl PyBoundMethod {
    /// The method that binds `function` to `object`.
    pub fn new(object: PyObjectRef, function: PyObjectRef) -> (m: Self)
        ensures
            m == (PyBoundMethod { object, function }),
    {
        PyBoundMethod { object, function }
    }

    /// A new bound-method object: the pair, as an instance of the context's
    /// bound-method type.
    pub fn new_ref(object: PyObjectRef, function: PyObjectRef, ctx: &Context) -> (r: PyRef<Self>)
        ensures
            r == (PyRef {
                payload: PyBoundMethod { object, function },
                class: ctx.types.bound_method_type.reference,
            }),
    {
        PyRef { payload: Self::new(object, function), class: ctx.types.bound_method_type.reference }
    }

    /// The type object of bound methods.
    pub fn class(ctx: &Context) -> (class: &PyType)
        ensures
            *class == ctx.types.bound_method_type,
    {
        &ctx.types.bound_method_type
    }

    /// Constructs a bound-method object as an instance of `cls`.
    pub fn py_new(cls: PyObjectRef, args: PyBoundMethodNewArgs) -> (r: PyRef<Self>)
        ensures
            r == (PyRef {
                payload: PyBoundMethod { object: args.object, function: args.function },
                class: cls,
            }),
    {
        PyRef { payload: Self::new(args.object, args.function), class: cls }
    }

    /// Calls the method: `callable_call` is handed the wrapped callable and
    /// the arguments with the receiver in front, and what it returns is the
    /// result. `callable_call` is the machine's way of calling any callable;
    /// nothing here depends on what kind of callable is wrapped.
    pub fn call<R, F: FnOnce(PyObjectRef, FuncArgs) -> R>(
        &self,
        args: FuncArgs,
        callable_call: F,
    ) -> (r: R)
        requires
            forall|prepended: FuncArgs|
                is_prepended(prepended, self.object, args) ==> #[trigger] callable_call.requires(
                    (self.function, prepended),
                ),
        ensures
            exists|prepended: FuncArgs|
                is_prepended(prepended, self.object, args) && #[trigger] callable_call.ensures(
                    (self.function, prepended),
                    r,
                ),
    {
        let mut prepended = args;
        prepended.prepend_arg(self.object);
        callable_call(self.function, prepended)
    }

    /// What [`PyBoundMethod::cmp`] answers: two bound methods are equal when
    /// they wrap the same callable object and are bound to the same receiver
    /// object. Only equality and inequality are implemented, and only
    /// against another bound method.
    pub open spec fn cmp_spec(self, other: Option<PyBoundMethod>, op: PyComparisonOp)
        -> PyComparisonValue {
        match other {
            Some(that) => match op {
                PyComparisonOp::Eq => PyComparisonValue::Implemented(
                    self.function == that.function && self.object == that.object,
                ),
                PyComparisonOp::Ne => PyComparisonValue::Implemented(
                    !(self.function == that.function && self.object == that.object),
                ),
                _ => PyComparisonValue::NotImplemented,
            },
            None => PyComparisonValue::NotImplemented,
        }
    }

    /// Compares the method with `other`, which is `None` for an object that
    /// is no bound method.
    pub fn cmp(&self, other: Option<PyBoundMethod>, op: PyComparisonOp) -> (r: PyComparisonValue)
        ensures
            r == self.cmp_spec(other, op),
    {
        match op {
            PyComparisonOp::Eq => match other {
                Some(that) => PyComparisonValue::Implemented(
                    self.function.is(&that.function) && self.object.is(&that.object),
                ),
                None => PyComparisonValue::NotImplemented,
            },
            PyComparisonOp::Ne => match other {
                Some(that) => PyComparisonValue::Implemented(
                    !(self.function.is(&that.function) && self.object.is(&that.object)),
                ),
                None => PyComparisonValue::NotImplemented,
            },
            _ => PyComparisonValue::NotImplemented,
        }
    }

    /// Finds the attribute `name` of the method: what `class`, the class of
    /// bound methods, declares comes first; anything else is looked up on the
    /// wrapped callable.
    pub fn getattro(&self, name: &String, class: &PyType) -> (r: AttrLookup)
        ensures
            r == match attribute_index(class.attributes.deep_view(), name@, 0) {
                Some(i) => AttrLookup::ClassAttribute(i as usize),
                None => AttrLookup::Delegate(self.function),
            },
    {
        match class.find_attribute(name) {
            Some(i) => AttrLookup::ClassAttribute(i),
            None => AttrLookup::Delegate(self.function),
        }
    }

    /// What reconstructs the method: the built-in `getattr` as it was found,
    /// with the receiver and the callable's name as it was found.
    pub fn reduce(&self, builtins_getattr: Option<PyObjectRef>, funcname: Option<PyObjectRef>) -> (r:
        (Option<PyObjectRef>, (PyObjectRef, Option<PyObjectRef>)))
        ensures
            r == (builtins_getattr, (self.object, funcname)),
    {
        let funcself = self.object;
        (builtins_getattr, (funcself, funcname))
    }

    /// The documentation of a method is the `__doc__` of its callable.
    pub fn doc(&self) -> (query: AttrQuery)
        ensures
            query.target == self.function,
            query.name@ == "__doc__"@,
    {
        AttrQuery { target: self.function, name: String::from_str("__doc__") }
    }

    /// The wrapped callable.
    pub fn func(&self) -> (function: PyObjectRef)
        ensures
            function == self.function,
    {
        self.function
    }

    /// The receiver.
    pub fn get_self(&self) -> (object: PyObjectRef)
        ensures
            object == self.object,
    {
        self.object
    }

    /// The module of a method is the `__module__` of its callable.
    pub fn module(&self) -> (query: AttrQuery)
        ensures
            query.target == self.function,
            query.name@ == "__module__"@,
    {
        AttrQuery { target: self.function, name: String::from_str("__module__") }
    }

    /// Where the qualified name of the method is read. `function_class` is
    /// the class of the wrapped callable: where that is the type of
    /// built-in functions, the callable is a `__new__`, which has no
    /// qualified name of its own, and the receiver's is read instead.
    pub fn qualname(&self, function_class: PyObjectRef, ctx: &Context) -> (r: QualnameLookup)
        ensures
            function_class == ctx.types.builtin_function_or_method_type.reference ==> (
            r matches QualnameLookup::Receiver(query) && query.target == self.object && query.name@
                == "__qualname__"@),
            function_class != ctx.types.builtin_function_or_method_type.reference ==> (
            r matches QualnameLookup::Function(query) && query.target == self.function
                && query.name@ == "__qualname__"@),
    {
        if function_class.is(&ctx.types.builtin_function_or_method_type.reference) {
            QualnameLookup::Receiver(
                AttrQuery { target: self.object, name: String::from_str("__qualname__") },
            )
        } else {
            QualnameLookup::Function(
                AttrQuery { target: self.function, name: String::from_str("__qualname__") },
            )
        }
    }

    /// The qualified name of a method that wraps a built-in `__new__`, from
    /// the receiver's qualified name as it was found: its text where it is a
    /// string, else a question mark, and then `.__new__`.
    pub fn new_qualname(obj_name: &Option<Payload>) -> (text: String)
        ensures
            text@ == or_unknown(text_of(*obj_name)) + ".__new__"@,
    {
        let mut text = match obj_name {
            Some(Payload::Str(name)) => name.clone(),
            _ => String::from_str("?"),
        };
        text.append(".__new__");
        text
    }

    /// The text that represents the method. The callable is named by its
    /// `__qualname__`, or by its `__name__` where it has no `__qualname__`;
    /// a name that is not there or is no string is a question mark.
    /// `object_repr` is the representation of the receiver.
    pub fn repr_str(
        qualname_attr: &Option<Payload>,
        name_attr: &Option<Payload>,
        object_repr: &str,
    ) -> (text: String)
        ensures
            text@ == "<bound method "@ + or_unknown(
                text_of(
                    if *qualname_attr is Some {
                        *qualname_attr
                    } else {
                        *name_attr
                    },
                ),
            ) + " of "@ + object_repr@ + ">"@,
    {
        let funcname = match qualname_attr {
            Some(_) => qualname_attr,
            None => name_attr,
        };
        let mut text = String::from_str("<bound method ");
        match funcname {
            Some(Payload::Str(name)) => {
                text.append(name.as_str());
            },
            _ => {
                text.append("?");
            },
        }
        text.append(" of ");
        text.append(object_repr);
        text.append(">");
        text
    }
}

} // verus!
