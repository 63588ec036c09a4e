//! The function object: the code it runs, the scope it was defined in, and
//! the descriptive attributes that the object layer reads and writes.

use vstd::prelude::*;
use vstd::string::StringExecFns;
use crate::args::{named_view, BoundArguments, FuncArgs};
use crate::binder::{bind, bind_spec, find_param, outcome_view, param_index};
use crate::code::CodeSpec;
use crate::context::{Context, PyType};
use crate::dispatch::{
    ExecutionStrategy, FramePlan, FramePlanView, Invocation, InvocationView, LocalsStorage,
};
use crate::error::{BindError, BindErrorView, SetterError};
use crate::method::PyBoundMethod;
use crate::object::{copy_named, copy_refs, Payload, PyObjectRef, PyRef, PySetterValue};
use crate::text::{hexadecimal, push_hexadecimal};

verus! {

/// The compiled form of a function, by reference: the machine keeps the
/// artifact itself.
#[derive(Clone, Copy, Debug, PartialEq, Eq, Structural)]
pub struct CompiledCode {
    pub id: u64,
}

/// A function object.
#[derive(Debug)]
pub struct PyFunction {
    code: CodeSpec,
    globals: PyObjectRef,
    closure: Option<Vec<PyObjectRef>>,
    defaults: Option<Vec<PyObjectRef>>,
    kwdefaults: Option<Vec<(String, PyObjectRef)>>,
    name: String,
    qualname: String,
    type_params: Vec<PyObjectRef>,
    jitted_code: Option<CompiledCode>,
    annotations: PyObjectRef,
    module: PyObjectRef,
    doc: PyObjectRef,
}

/// A [`PyFunction`] as plain data.
pub struct PyFunctionView {
    pub code: CodeSpec,
    pub globals: PyObjectRef,
    pub closure: Option<Seq<PyObjectRef>>,
    pub defaults: Option<Seq<PyObjectRef>>,
    pub kwdefaults: Option<Seq<(Seq<char>, PyObjectRef)>>,
    pub name: Seq<char>,
    pub qualname: Seq<char>,
    pub type_params: Seq<PyObjectRef>,
    pub jitted_code: Option<CompiledCode>,
    pub annotations: PyObjectRef,
    pub module: PyObjectRef,
    pub doc: PyObjectRef,
}

/// A list that may be absent, read as empty where it is.
pub open spec fn or_empty<T>(list: Option<Seq<T>>) -> Seq<T> {
    match list {
        Some(items) => items,
        None => Seq::empty(),
    }
}

/// Whether positional defaults fit the code: there are no more of them than
/// positional parameters.
pub open spec fn defaults_fit(code: CodeSpec, defaults: Option<Seq<PyObjectRef>>) -> bool {
    or_empty(defaults).len() <= code.arg_count
}

/// Whether keyword defaults fit the code: each is named after a
/// keyword-only parameter.
pub open spec fn kwdefaults_fit(code: CodeSpec, kwdefaults: Option<Seq<(Seq<char>, PyObjectRef)>>)
    -> bool {
    forall|i: int|
        0 <= i < or_empty(kwdefaults).len() ==> param_index(
            code.names(),
            (#[trigger] or_empty(kwdefaults)[i]).0,
            code.arg_count as int,
            code.total_args(),
        ) is Some
}

/// The plain data of an optional list of references.
pub open spec fn refs_view(list: Option<Vec<PyObjectRef>>) -> Option<Seq<PyObjectRef>> {
    match list {
        Some(items) => Some(items@),
        None => None,
    }
}

/// The plain data of an optional list of named references.
pub open spec fn named_refs_view(list: Option<Vec<(String, PyObjectRef)>>) -> Option<
    Seq<(Seq<char>, PyObjectRef)>,
> {
    match list {
        Some(pairs) => Some(named_view(pairs@)),
        None => None,
    }
}

impl PyFunctionView {
    /// The invariant of a function object: its code is well formed and its
    /// defaults fit the code.
    pub open spec fn wf(self) -> bool {
        &&& self.code.wf()
        &&& defaults_fit(self.code, self.defaults)
        &&& kwdefaults_fit(self.code, self.kwdefaults)
    }

    /// What binding the arguments of a call gives: a function of the code,
    /// the arguments and the defaults alone.
    pub open spec fn bind_outcome(
        self,
        args: Seq<PyObjectRef>,
        kwargs: Seq<(Seq<char>, PyObjectRef)>,
    ) -> Result<crate::args::BoundView, BindErrorView> {
        bind_spec(self.code, args, kwargs, or_empty(self.defaults), or_empty(self.kwdefaults))
    }

    /// The frame that a call is to run in, once its arguments are bound.
    pub open spec fn frame_plan(self, locals: Option<PyObjectRef>, bound: crate::args::BoundView)
        -> FramePlanView {
        FramePlanView {
            locals: LocalsStorage::select_spec(self.code.flags, locals, self.globals),
            globals: self.globals,
            closure: or_empty(self.closure),
            bound,
            strategy: ExecutionStrategy::of(self.code.flags),
            name: self.name,
        }
    }

    /// How a call goes on. Where the function has a compiled form and the
    /// fast path has answered, that answer is the result. Otherwise the
    /// arguments are bound, and the call fails as the binding does or goes
    /// on in a frame.
    pub open spec fn invocation(
        self,
        args: Seq<PyObjectRef>,
        kwargs: Seq<(Seq<char>, PyObjectRef)>,
        locals: Option<PyObjectRef>,
        native: Option<PyObjectRef>,
    ) -> Result<InvocationView, BindErrorView> {
        if self.jitted_code is Some && native is Some {
            Ok(InvocationView::Native(native->0))
        } else {
            match self.bind_outcome(args, kwargs) {
                Ok(bound) => Ok(InvocationView::Frame(self.frame_plan(locals, bound))),
                Err(e) => Err(e),
            }
        }
    }

    /// The text that represents the function, for a function object at
    /// `zelf`.
    pub open spec fn repr(self, zelf: PyObjectRef) -> Seq<char> {
        "<function "@ + self.qualname + " at 0x"@ + hexadecimal(zelf.id as nat) + ">"@
    }
}

/// The outcome of a call as plain data.
pub open spec fn invocation_view(r: Result<Invocation, BindError>) -> Result<
    InvocationView,
    BindErrorView,
> {
    match r {
        Ok(invocation) => Ok(invocation@),
        Err(e) => Err(e@),
    }
}

/// What looking a function up through an instance gives.
#[derive(Clone, Copy, Debug, PartialEq, Eq)]
pub enum Descriptor {
    /// The function itself.
    Function(PyObjectRef),
    /// A new bound method.
    Method(PyRef<PyBoundMethod>),
}

impl View for PyFunction {
    type V = PyFunctionView;

    closed spec fn view(&self) -> PyFunctionView {
        PyFunctionView {
            code: self.code,
            globals: self.globals,
            closure: refs_view(self.closure),
            defaults: refs_view(self.defaults),
            kwdefaults: named_refs_view(self.kwdefaults),
            name: self.name@,
            qualname: self.qualname@,
            type_params: self.type_params@,
            jitted_code: self.jitted_code,
            annotations: self.annotations,
            module: self.module,
            doc: self.doc,
        }
    }
}

/// A copy of an optional list of references.
fn copy_optional_refs(list: &Option<Vec<PyObjectRef>>) -> (copy: Option<Vec<PyObjectRef>>)
    ensures
        refs_view(copy) == refs_view(*list),
{
    match list {
        Some(items) => Some(copy_refs(items)),
        None => None,
    }
}

/// A copy of an optional list of named references.
fn copy_optional_named(list: &Option<Vec<(String, PyObjectRef)>>) -> (copy: Option<
    Vec<(String, PyObjectRef)>,
>)
    ensures
        named_refs_view(copy) == named_refs_view(*list),
{
    match list {
        Some(pairs) => Some(copy_named(pairs)),
        None => None,
    }
}

impl PyFunction {
    /// Whether `defaults` can be the positional defaults of a function with
    /// this code.
    pub fn accepts_defaults(code: &CodeSpec, defaults: &Option<Vec<PyObjectRef>>) -> (ok: bool)
        ensures
            ok == defaults_fit(*code, refs_view(*defaults)),
    {
        match defaults {
            Some(items) => items.len() <= code.arg_count,
            None => true,
        }
    }

    /// Whether `kwdefaults` can be the keyword defaults of a function with
    /// this code.
    pub fn accepts_kwdefaults(code: &CodeSpec, kwdefaults: &Option<Vec<(String, PyObjectRef)>>) -> (ok:
        bool)
        requires
            code.wf(),
        ensures
            ok == kwdefaults_fit(*code, named_refs_view(*kwdefaults)),
    {
        match kwdefaults {
            None => true,
            Some(pairs) => {
                let total = code.arg_count + code.kwonlyarg_count;
                let ghost view = named_view(pairs@);
                let mut i: usize = 0;
                while i < pairs.len()
                    invariant
                        code.wf(),
                        total == code.total_args(),
                        i <= pairs.len(),
                        view == named_view(pairs@),
                        named_refs_view(*kwdefaults) == Some(view),
                        forall|k: int|
                            0 <= k < i ==> param_index(
                                code.names(),
                                (#[trigger] view[k]).0,
                                code.arg_count as int,
                                code.total_args(),
                            ) is Some,
                    decreases pairs.len() - i,
                {
                    match find_param(&code.varnames, &pairs[i].0, code.arg_count, total) {
                        Some(_) => {},
                        None => {
                            assert(or_empty(named_refs_view(*kwdefaults))[i as int].0
                                == pairs[i as int].0@);
                            return false;
                        },
                    }
                    i = i + 1;
                }
                true
            },
        }
    }

    /// The type object of functions.
    pub fn class(ctx: &Context) -> (class: &PyType)
        ensures
            *class == ctx.types.function_type,
    {
        &ctx.types.function_type
    }

    /// Checks the invariant of the function object.
    pub fn is_well_formed(&self) -> (ok: bool)
        ensures
            ok == self@.wf(),
    {
        self.code.is_well_formed() && Self::accepts_defaults(&self.code, &self.defaults)
            && Self::accepts_kwdefaults(&self.code, &self.kwdefaults)
    }

    /// A function defined with the given code, scope and attributes. Its
    /// name is the name in the code; it has no compiled form.
    pub fn new(
        code: CodeSpec,
        globals: PyObjectRef,
        closure: Option<Vec<PyObjectRef>>,
        defaults: Option<Vec<PyObjectRef>>,
        kw_only_defaults: Option<Vec<(String, PyObjectRef)>>,
        qualname: String,
        type_params: Vec<PyObjectRef>,
        annotations: PyObjectRef,
        module: PyObjectRef,
        doc: PyObjectRef,
    ) -> (f: Self)
        requires
            code.wf(),
            defaults_fit(code, refs_view(defaults)),
            kwdefaults_fit(code, named_refs_view(kw_only_defaults)),
        ensures
            f@.wf(),
            f@ == (PyFunctionView {
                code,
                globals,
                closure: refs_view(closure),
                defaults: refs_view(defaults),
                kwdefaults: named_refs_view(kw_only_defaults),
                name: code.obj_name@,
                qualname: qualname@,
                type_params: type_params@,
                jitted_code: None,
                annotations,
                module,
                doc,
            }),
    {
        let name = code.obj_name.clone();
        PyFunction {
            code,
            globals,
            closure,
            defaults,
            kwdefaults: kw_only_defaults,
            name,
            qualname,
            type_params,
            jitted_code: None,
            annotations,
            module,
            doc,
        }
    }

    /// Binds the arguments of one call against the function's code and its
    /// defaults as they stand. The function is read, never written: the
    /// outcome is [`PyFunctionView::bind_outcome`] of what the function holds.
    pub fn fill_locals_from_args(&self, func_args: &FuncArgs) -> (r: Result<
        BoundArguments,
        BindError,
    >)
        requires
            self@.wf(),
        ensures
            outcome_view(r) == self@.bind_outcome(func_args.args@, func_args.keywords()),
    {
        let no_defaults: Vec<PyObjectRef> = Vec::new();
        let no_kwdefaults: Vec<(String, PyObjectRef)> = Vec::new();
        let defaults = match &self.defaults {
            Some(items) => items,
            None => &no_defaults,
        };
        let kwdefaults = match &self.kwdefaults {
            Some(pairs) => pairs,
            None => &no_kwdefaults,
        };
        assert(named_view(no_kwdefaults@) =~= Seq::empty());
        bind(&self.code, func_args, defaults, kwdefaults)
    }

    /// Decides how a call goes on.
    ///
    /// `native` is what the compiled fast path returned, where the machine
    /// tried it and it succeeded. The arguments are only borrowed, so a fast
    /// path that fails leaves them whole for the binding. `locals` is the
    /// mapping that the caller wants the frame to use for its locals.
    pub fn invoke_with_locals(
        &self,
        func_args: &FuncArgs,
        locals: Option<PyObjectRef>,
        native: Option<PyObjectRef>,
    ) -> (r: Result<Invocation, BindError>)
        requires
            self@.wf(),
        ensures
            invocation_view(r) == self@.invocation(
                func_args.args@,
                func_args.keywords(),
                locals,
                native,
            ),
    {
        if self.jitted_code.is_some() {
            match native {
                Some(value) => {
                    return Ok(Invocation::Native(value));
                },
                None => {},
            }
        }
        let storage = LocalsStorage::select(self.code.flags, locals, self.globals);
        let bound = match self.fill_locals_from_args(func_args) {
            Ok(bound) => bound,
            Err(e) => {
                return Err(e);
            },
        };
        let closure = match &self.closure {
            Some(cells) => copy_refs(cells),
            None => Vec::new(),
        };
        let strategy = ExecutionStrategy::from_flags(self.code.flags);
        Ok(
            Invocation::Frame(
                FramePlan {
                    locals: storage,
                    globals: self.globals,
                    closure,
                    bound,
                    strategy,
                    name: self.name.clone(),
                },
            ),
        )
    }

    /// Decides how a call goes on when the caller supplies no locals.
    pub fn invoke(&self, func_args: &FuncArgs, native: Option<PyObjectRef>) -> (r: Result<
        Invocation,
        BindError,
    >)
        requires
            self@.wf(),
        ensures
            invocation_view(r) == self@.invocation(
                func_args.args@,
                func_args.keywords(),
                None,
                native,
            ),
    {
        self.invoke_with_locals(func_args, None, native)
    }

    /// Calling the function object is invoking it.
    pub fn call(&self, func_args: &FuncArgs, native: Option<PyObjectRef>) -> (r: Result<
        Invocation,
        BindError,
    >)
        requires
            self@.wf(),
        ensures
            invocation_view(r) == self@.invocation(
                func_args.args@,
                func_args.keywords(),
                None,
                native,
            ),
    {
        self.invoke(func_args, native)
    }

    /// The code of the function.
    pub fn code(&self) -> (code: &CodeSpec)
        ensures
            *code == self@.code,
    {
        &self.code
    }

    /// The positional defaults.
    pub fn defaults(&self) -> (defaults: Option<Vec<PyObjectRef>>)
        ensures
            refs_view(defaults) == self@.defaults,
    {
        copy_optional_refs(&self.defaults)
    }

    /// Replaces the positional defaults.
    pub fn set_defaults(&mut self, defaults: Option<Vec<PyObjectRef>>)
        requires
            old(self)@.wf(),
            defaults_fit(old(self)@.code, refs_view(defaults)),
        ensures
            final(self)@.wf(),
            final(self)@ == (PyFunctionView { defaults: refs_view(defaults), ..old(self)@ }),
    {
        self.defaults = defaults;
    }

    /// The keyword defaults.
    pub fn kwdefaults(&self) -> (kwdefaults: Option<Vec<(String, PyObjectRef)>>)
        ensures
            named_refs_view(kwdefaults) == self@.kwdefaults,
    {
        copy_optional_named(&self.kwdefaults)
    }

    /// Replaces the keyword defaults.
    pub fn set_kwdefaults(&mut self, kwdefaults: Option<Vec<(String, PyObjectRef)>>)
        requires
            old(self)@.wf(),
            kwdefaults_fit(old(self)@.code, named_refs_view(kwdefaults)),
        ensures
            final(self)@.wf(),
            final(self)@ == (PyFunctionView {
                kwdefaults: named_refs_view(kwdefaults),
                ..old(self)@
            }),
    {
        self.kwdefaults = kwdefaults;
    }

    /// The globals of the scope that defined the function.
    pub fn globals(&self) -> (globals: PyObjectRef)
        ensures
            globals == self@.globals,
    {
        self.globals
    }

    /// The closure cells, in order, where the function has a closure.
    pub fn closure(&self) -> (closure: Option<Vec<PyObjectRef>>)
        ensures
            refs_view(closure) == self@.closure,
    {
        copy_optional_refs(&self.closure)
    }

    /// The name.
    pub fn name(&self) -> (name: String)
        ensures
            name@ == self@.name,
    {
        self.name.clone()
    }

    /// Replaces the name.
    pub fn set_name(&mut self, name: String)
        ensures
            final(self)@ == (PyFunctionView { name: name@, ..old(self)@ }),
    {
        self.name = name;
    }

    /// The documentation object.
    pub fn doc(&self) -> (doc: PyObjectRef)
        ensures
            doc == self@.doc,
    {
        self.doc
    }

    /// Assigns the documentation object; deleting it leaves `None` there.
    pub fn set_doc(&mut self, value: PySetterValue<PyObjectRef>, context: &Context)
        ensures
            final(self)@ == (PyFunctionView {
                doc: match value {
                    PySetterValue::Assign(doc) => doc,
                    PySetterValue::Delete => context.none,
                },
                ..old(self)@
            }),
    {
        self.doc = match value {
            PySetterValue::Assign(doc) => doc,
            PySetterValue::Delete => context.none,
        };
    }

    /// The module object.
    pub fn module(&self) -> (module: PyObjectRef)
        ensures
            module == self@.module,
    {
        self.module
    }

    /// Assigns the module object; deleting it leaves `None` there.
    pub fn set_module(&mut self, module: PySetterValue<PyObjectRef>, context: &Context)
        ensures
            final(self)@ == (PyFunctionView {
                module: match module {
                    PySetterValue::Assign(module) => module,
                    PySetterValue::Delete => context.none,
                },
                ..old(self)@
            }),
    {
        self.module = match module {
            PySetterValue::Assign(module) => module,
            PySetterValue::Delete => context.none,
        };
    }

    /// The annotations mapping.
    pub fn annotations(&self) -> (annotations: PyObjectRef)
        ensures
            annotations == self@.annotations,
    {
        self.annotations
    }

    /// Replaces the annotations mapping.
    pub fn set_annotations(&mut self, annotations: PyObjectRef)
        ensures
            final(self)@ == (PyFunctionView { annotations, ..old(self)@ }),
    {
        self.annotations = annotations;
    }

    /// The qualified name.
    pub fn qualname(&self) -> (qualname: String)
        ensures
            qualname@ == self@.qualname,
    {
        self.qualname.clone()
    }

    /// Assigns the qualified name. Only a string is accepted: any other
    /// value, and deletion, is a type error that leaves the function as it
    /// was.
    pub fn set_qualname(&mut self, value: PySetterValue<Payload>) -> (r: Result<(), SetterError>)
        ensures
            match value {
                PySetterValue::Assign(Payload::Str(text)) => r is Ok && final(self)@ == (
                PyFunctionView { qualname: text@, ..old(self)@ }),
                _ => r == Err::<(), SetterError>(SetterError::QualnameNotString) && final(self)@
                    == old(self)@,
            },
    {
        match value {
            PySetterValue::Assign(Payload::Str(text)) => {
                self.qualname = text;
                Ok(())
            },
            _ => Err(SetterError::QualnameNotString),
        }
    }

    /// The type parameters.
    pub fn type_params(&self) -> (type_params: Vec<PyObjectRef>)
        ensures
            type_params@ == self@.type_params,
    {
        copy_refs(&self.type_params)
    }

    /// Assigns the type parameters. Only a tuple is accepted: any other
    /// value, and deletion, is a type error that leaves the function as it
    /// was.
    pub fn set_type_params(&mut self, value: PySetterValue<Payload>) -> (r: Result<
        (),
        SetterError,
    >)
        ensures
            match value {
                PySetterValue::Assign(Payload::Tuple(items)) => r is Ok && final(self)@ == (
                PyFunctionView { type_params: items@, ..old(self)@ }),
                _ => r == Err::<(), SetterError>(SetterError::TypeParamsNotTuple) && final(self)@
                    == old(self)@,
            },
    {
        match value {
            PySetterValue::Assign(Payload::Tuple(items)) => {
                self.type_params = items;
                Ok(())
            },
            _ => Err(SetterError::TypeParamsNotTuple),
        }
    }

    /// The compiled form, where the function has one.
    pub fn jitted_code(&self) -> (compiled: Option<CompiledCode>)
        ensures
            compiled == self@.jitted_code,
    {
        self.jitted_code
    }

    /// Offers a compiled form to the function and returns the one it keeps.
    /// The first one offered stays for good: a later offer changes nothing.
    pub fn jit(&mut self, compiled: CompiledCode) -> (kept: CompiledCode)
        ensures
            kept == match old(self)@.jitted_code {
                Some(first) => first,
                None => compiled,
            },
            final(self)@ == (PyFunctionView { jitted_code: Some(kept), ..old(self)@ }),
    {
        match self.jitted_code {
            Some(first) => first,
            None => {
                self.jitted_code = Some(compiled);
                compiled
            },
        }
    }

    /// Looks the function at `zelf` up through an instance `obj` of class
    /// `cls`. Through `None`, unless `None` is looked at as an instance of
    /// its own type, the function comes back as it is; through anything
    /// else it comes back bound to `obj`.
    pub fn descr_get(
        zelf: PyObjectRef,
        obj: Option<PyObjectRef>,
        cls: Option<PyObjectRef>,
        context: &Context,
    ) -> (r: Descriptor)
        ensures
            r == Self::descr_get_spec(zelf, obj, cls, *context),
    {
        let obj = match obj {
            Some(obj) => obj,
            None => context.none,
        };
        let cls_is_none_type = match cls {
            Some(cls) => cls.is(&context.types.none_type.reference),
            None => false,
        };
        if obj.is(&context.none) && !cls_is_none_type {
            Descriptor::Function(zelf)
        } else {
            Descriptor::Method(PyBoundMethod::new_ref(obj, zelf, context))
        }
    }

    /// What [`PyFunction::descr_get`] returns.
    pub open spec fn descr_get_spec(
        zelf: PyObjectRef,
        obj: Option<PyObjectRef>,
        cls: Option<PyObjectRef>,
        context: Context,
    ) -> Descriptor {
        let receiver = match obj {
            Some(obj) => obj,
            None => context.none,
        };
        if receiver == context.none && cls != Some(context.types.none_type.reference) {
            Descriptor::Function(zelf)
        } else {
            Descriptor::Method(
                PyRef {
                    payload: PyBoundMethod { object: receiver, function: zelf },
                    class: context.types.bound_method_type.reference,
                },
            )
        }
    }

    /// The text that represents the function at `zelf`.
    pub fn repr_str(&self, zelf: PyObjectRef) -> (text: String)
        ensures
            text@ == self@.repr(zelf),
    {
        let mut text = String::from_str("<function ");
        text.append(self.qualname.as_str());
        text.append(" at 0x");
        push_hexadecimal(&mut text, zelf.id);
        text.append(">");
        text
    }

    /// Every reference that the function owns, for a collector that traces
    /// the heap: the globals, the closure cells, the positional and the
    /// keyword defaults, and the annotations, module and documentation.
    pub fn traverse(&self) -> (owned: Vec<PyObjectRef>)
        ensures
            owned@ == self@.owned(),
    {
        let mut owned: Vec<PyObjectRef> = Vec::new();
        owned.push(self.globals);
        match &self.closure {
            Some(cells) => {
                let mut i: usize = 0;
                while i < cells.len()
                    invariant
                        i <= cells.len(),
                        owned@ == seq![self.globals] + cells@.take(i as int),
                    decreases cells.len() - i,
                {
                    owned.push(cells[i]);
                    assert(owned@ =~= seq![self.globals] + cells@.take(i + 1));
                    i = i + 1;
                }
                assert(cells@.take(cells.len() as int) =~= cells@);
            },
            None => {
                assert(owned@ =~= seq![self.globals] + Seq::empty());
            },
        }
        let ghost head = owned@;
        match &self.defaults {
            Some(items) => {
                let mut i: usize = 0;
                assert(owned@ =~= head + items@.take(0));
                while i < items.len()
                    invariant
                        i <= items.len(),
                        owned@ == head + items@.take(i as int),
                    decreases items.len() - i,
                {
                    owned.push(items[i]);
                    assert(owned@ =~= head + items@.take(i + 1));
                    i = i + 1;
                }
                assert(items@.take(items.len() as int) =~= items@);
            },
            None => {
                assert(owned@ =~= head + Seq::empty());
            },
        }
        let ghost middle = owned@;
        match &self.kwdefaults {
            Some(pairs) => {
                let ghost values = named_view(pairs@).map_values(
                    |p: (Seq<char>, PyObjectRef)| p.1,
                );
                let mut i: usize = 0;
                assert(owned@ =~= middle + values.take(0));
                while i < pairs.len()
                    invariant
                        i <= pairs.len(),
                        values == named_view(pairs@).map_values(
                            |p: (Seq<char>, PyObjectRef)| p.1,
                        ),
                        owned@ == middle + values.take(i as int),
                    decreases pairs.len() - i,
                {
                    owned.push(pairs[i].1);
                    assert(owned@ =~= middle + values.take(i + 1));
                    i = i + 1;
                }
                assert(values.take(pairs.len() as int) =~= values);
            },
            None => {
                assert(owned@ =~= middle + Seq::empty());
            },
        }
        owned.push(self.annotations);
        owned.push(self.module);
        owned.push(self.doc);
        assert(owned@ =~= self@.owned());
        owned
    }
}

impl PyFunctionView {
    /// Every reference that the function owns, in the order in which a
    /// collector is shown them.
    pub open spec fn owned(self) -> Seq<PyObjectRef> {
        seq![self.globals] + or_empty(self.closure) + or_empty(self.defaults) + or_empty(
            self.kwdefaults,
        ).map_values(|p: (Seq<char>, PyObjectRef)| p.1) + seq![
            self.annotations,
            self.module,
            self.doc,
        ]
    }
}

} // verus!
