use pycallable::args::{CellTransfer, FuncArgs, Local};
use pycallable::cell::{EmptyCellError, PyCell};
use pycallable::code::{CodeFlags, CodeSpec};
use pycallable::context::{init, Context, PyType, TypeZoo};
use pycallable::dispatch::{ExecutionStrategy, Invocation, LocalsStorage};
use pycallable::error::{BindError, SetterError};
use pycallable::function::{CompiledCode, Descriptor, PyFunction};
use pycallable::method::{
    AttrLookup, PyBoundMethod, PyBoundMethodNewArgs, PyComparisonOp, PyComparisonValue,
    QualnameLookup,
};
use pycallable::object::{Payload, PyObjectRef, PyRef, PySetterValue};

fn obj(id: u64) -> PyObjectRef {
    PyObjectRef::new(id)
}

fn context() -> Context {
    Context {
        none: obj(1000),
        types: TypeZoo {
            function_type: PyType::new(obj(1001), "function"),
            bound_method_type: PyType::new(obj(1002), "method"),
            cell_type: PyType::new(obj(1003), "cell"),
            builtin_function_or_method_type: PyType::new(obj(1004), "builtin_function_or_method"),
            none_type: PyType::new(obj(1005), "NoneType"),
        },
    }
}

fn code(name: &str, varnames: &[&str], arg_count: usize, gen: bool, coro: bool) -> CodeSpec {
    CodeSpec {
        obj_name: name.to_string(),
        varnames: varnames.iter().map(|s| s.to_string()).collect(),
        arg_count,
        posonlyarg_count: 0,
        kwonlyarg_count: 0,
        flags: CodeFlags {
            has_varargs: false,
            has_varkeywords: false,
            new_locals: true,
            is_generator: gen,
            is_coroutine: coro,
        },
        cell2arg: None,
    }
}

fn function(code: CodeSpec, closure: Option<Vec<PyObjectRef>>, defaults: Option<Vec<PyObjectRef>>) -> PyFunction {
    assert!(code.is_well_formed());
    assert!(PyFunction::accepts_defaults(&code, &defaults));
    PyFunction::new(
        code,
        obj(1),
        closure,
        defaults,
        None,
        "outer.f".to_string(),
        vec![],
        obj(2),
        obj(3),
        obj(4),
    )
}

fn plan(invocation: Invocation) -> pycallable::dispatch::FramePlan {
    match invocation {
        Invocation::Frame(plan) => plan,
        Invocation::Native(_) => panic!("the call was answered natively"),
    }
}

#[test]
fn empty_cell_read_is_an_error_until_set() {
    let mut cell = PyCell::new(None);
    assert_eq!(cell.get(), None);
    assert_eq!(cell.cell_contents(), Err(EmptyCellError));
    assert_eq!(EmptyCellError.message(), "Cell is empty");
    cell.set(Some(obj(7)));
    assert_eq!(cell.cell_contents(), Ok(obj(7)));
    assert_eq!(cell.get(), Some(obj(7)));
    cell.set_cell_contents(obj(8));
    assert_eq!(cell.get(), Some(obj(8)));
    cell.set(None);
    assert_eq!(cell.cell_contents(), Err(EmptyCellError));
    assert_eq!(PyCell::new(Some(obj(5))).get(), Some(obj(5)));
}

#[test]
fn closure_cell_is_shared_between_frames() {
    // `outer(x)` has one cell, for `x`, which its nested `inner` captures.
    let mut outer_code = code("outer", &["x"], 1, false, false);
    outer_code.cell2arg = Some(vec![Some(0)]);
    let outer = function(outer_code, None, None);
    let outer_frame = plan(outer.invoke(&FuncArgs::new(vec![obj(1)], vec![]), None).unwrap());
    // Binding promotes the argument: the slot is empty, the value is the
    // cell's.
    assert_eq!(outer_frame.bound.fastlocals, vec![None]);
    assert_eq!(
        outer_frame.bound.cell_transfers,
        vec![CellTransfer::Store(Some(Local::Object(obj(1))))]
    );
    // The machine keeps the cells; cell 0 is the one of `outer`'s frame.
    let mut heap = vec![PyCell::new(None)];
    let x_cell = obj(0);
    match &outer_frame.bound.cell_transfers[0] {
        CellTransfer::Store(Some(Local::Object(value))) => {
            heap[x_cell.id as usize].set(Some(*value))
        }
        other => panic!("unexpected transfer {:?}", other),
    }
    // `inner` is defined with that cell as its closure, and its frame is
    // handed the very same cell.
    let inner = function(code("inner", &[], 0, false, false), Some(vec![x_cell]), None);
    let inner_frame = plan(inner.invoke(&FuncArgs::new(vec![], vec![]), None).unwrap());
    assert_eq!(inner_frame.closure, vec![x_cell]);
    assert!(inner_frame.closure[0].is(&x_cell));
    // `inner` reads its free variable through the cell: it returns 1.
    assert_eq!(heap[inner_frame.closure[0].id as usize].cell_contents(), Ok(obj(1)));
    // A store from `inner` is what `outer` reads next.
    heap[inner_frame.closure[0].id as usize].set(Some(obj(2)));
    assert_eq!(heap[x_cell.id as usize].get(), Some(obj(2)));
}

#[test]
fn bound_method_calls_with_receiver_in_front() {
    let method = PyBoundMethod::new(obj(10), obj(20));
    let args = FuncArgs::new(vec![obj(1), obj(2)], vec![("k".to_string(), obj(3))]);
    let direct = |f: PyObjectRef, a: FuncArgs| (f, a.args.clone(), a.kwargs.clone());
    let through = method.call(args.clone(), direct);
    let mut expected = args.clone();
    expected.prepend_arg(obj(10));
    assert_eq!(expected.args, vec![obj(10), obj(1), obj(2)]);
    assert_eq!(through, direct(obj(20), expected));
}

#[test]
fn bound_method_equality_is_by_identity() {
    let m = PyBoundMethod::new(obj(10), obj(20));
    let same = PyBoundMethod::new(obj(10), obj(20));
    let other_receiver = PyBoundMethod::new(obj(11), obj(20));
    let other_function = PyBoundMethod::new(obj(10), obj(21));
    assert_eq!(m.cmp(Some(same), PyComparisonOp::Eq), PyComparisonValue::Implemented(true));
    assert_eq!(m.cmp(Some(same), PyComparisonOp::Ne), PyComparisonValue::Implemented(false));
    assert_eq!(
        m.cmp(Some(other_receiver), PyComparisonOp::Eq),
        PyComparisonValue::Implemented(false)
    );
    assert_eq!(
        m.cmp(Some(other_function), PyComparisonOp::Eq),
        PyComparisonValue::Implemented(false)
    );
    assert_eq!(
        m.cmp(Some(other_function), PyComparisonOp::Ne),
        PyComparisonValue::Implemented(true)
    );
    assert_eq!(m.cmp(None, PyComparisonOp::Eq), PyComparisonValue::NotImplemented);
    assert_eq!(m.cmp(Some(same), PyComparisonOp::Lt), PyComparisonValue::NotImplemented);
    assert_eq!(m.cmp(Some(same), PyComparisonOp::Ge), PyComparisonValue::NotImplemented);
}

#[test]
fn bound_method_construction() {
    let ctx = context();
    let r = PyBoundMethod::new_ref(obj(10), obj(20), &ctx);
    assert_eq!(r.payload, PyBoundMethod { object: obj(10), function: obj(20) });
    assert_eq!(r.class, obj(1002));
    let made = PyBoundMethod::py_new(obj(77), PyBoundMethodNewArgs { function: obj(20), object: obj(10) });
    assert_eq!(made, PyRef { payload: r.payload, class: obj(77) });
    assert_eq!(r.payload.func(), obj(20));
    assert_eq!(r.payload.get_self(), obj(10));
    assert_eq!(r.payload.reduce(Some(obj(5)), None), (Some(obj(5)), (obj(10), None)));
}

#[test]
fn bound_method_attributes_come_from_class_then_callable() {
    let mut ctx = context();
    init(&mut ctx);
    let m = PyBoundMethod::new(obj(10), obj(20));
    let class = &ctx.types.bound_method_type;
    assert_eq!(m.getattro(&"__self__".to_string(), class), AttrLookup::ClassAttribute(3));
    assert_eq!(m.getattro(&"__reduce__".to_string(), class), AttrLookup::ClassAttribute(0));
    assert_eq!(m.getattro(&"__name__".to_string(), class), AttrLookup::Delegate(obj(20)));
    assert_eq!(m.doc().target, obj(20));
    assert_eq!(m.doc().name, "__doc__");
    assert_eq!(m.module().name, "__module__");
}

#[test]
fn init_declares_each_attribute_once() {
    let mut ctx = context();
    init(&mut ctx);
    let once = ctx.clone();
    assert_eq!(once.types.cell_type.attributes, vec!["cell_contents", "__new__"]);
    assert_eq!(once.types.function_type.attributes.len(), 15);
    assert_eq!(once.types.bound_method_type.attributes.len(), 16);
    assert!(once.types.none_type.attributes.is_empty());
    init(&mut ctx);
    assert_eq!(ctx, once);
}

#[test]
fn bound_method_qualname_and_repr() {
    let ctx = context();
    let m = PyBoundMethod::new(obj(10), obj(20));
    match m.qualname(obj(1004), &ctx) {
        QualnameLookup::Receiver(q) => {
            assert_eq!(q.target, obj(10));
            assert_eq!(q.name, "__qualname__");
        }
        QualnameLookup::Function(_) => panic!("a built-in takes the receiver's name"),
    }
    match m.qualname(obj(1001), &ctx) {
        QualnameLookup::Function(q) => assert_eq!(q.target, obj(20)),
        QualnameLookup::Receiver(_) => panic!("a function has its own name"),
    }
    assert_eq!(PyBoundMethod::new_qualname(&Some(Payload::Str("int".to_string()))), "int.__new__");
    assert_eq!(PyBoundMethod::new_qualname(&Some(Payload::Other)), "?.__new__");
    assert_eq!(PyBoundMethod::new_qualname(&None), "?.__new__");
    let q = Some(Payload::Str("A.f".to_string()));
    let n = Some(Payload::Str("f".to_string()));
    assert_eq!(PyBoundMethod::repr_str(&q, &n, "<A object>"), "<bound method A.f of <A object>>");
    assert_eq!(PyBoundMethod::repr_str(&None, &n, "x"), "<bound method f of x>");
    assert_eq!(PyBoundMethod::repr_str(&Some(Payload::Other), &n, "x"), "<bound method ? of x>");
    assert_eq!(PyBoundMethod::repr_str(&None, &None, "x"), "<bound method ? of x>");
}

#[test]
fn function_construction_and_getters() {
    let f = function(code("f", &["a"], 1, false, false), Some(vec![obj(9)]), Some(vec![obj(5)]));
    assert_eq!(f.name(), "f");
    assert_eq!(f.qualname(), "outer.f");
    assert_eq!(f.globals(), obj(1));
    assert_eq!(f.closure(), Some(vec![obj(9)]));
    assert_eq!(f.defaults(), Some(vec![obj(5)]));
    assert_eq!(f.kwdefaults(), None);
    assert_eq!(f.annotations(), obj(2));
    assert_eq!(f.module(), obj(3));
    assert_eq!(f.doc(), obj(4));
    assert_eq!(f.type_params(), vec![]);
    assert_eq!(f.jitted_code(), None);
    assert_eq!(f.code().arg_count, 1);
    assert_eq!(f.traverse(), vec![obj(1), obj(9), obj(5), obj(2), obj(3), obj(4)]);
    assert_eq!(f.repr_str(obj(0x7f3a)), "<function outer.f at 0x7f3a>");
    assert_eq!(f.repr_str(obj(0)), "<function outer.f at 0x0>");
}

#[test]
fn function_setters() {
    let ctx = context();
    let mut f = function(code("f", &["a", "k"], 1, false, false), None, None);
    f.set_name("g".to_string());
    assert_eq!(f.name(), "g");
    f.set_annotations(obj(42));
    assert_eq!(f.annotations(), obj(42));
    f.set_doc(PySetterValue::Assign(obj(43)), &ctx);
    assert_eq!(f.doc(), obj(43));
    f.set_doc(PySetterValue::Delete, &ctx);
    assert_eq!(f.doc(), ctx.none);
    f.set_module(PySetterValue::Assign(obj(44)), &ctx);
    assert_eq!(f.module(), obj(44));
    f.set_module(PySetterValue::Delete, &ctx);
    assert_eq!(f.module(), ctx.none);
    let defaults = Some(vec![obj(6)]);
    assert!(PyFunction::accepts_defaults(f.code(), &defaults));
    f.set_defaults(defaults.clone());
    assert_eq!(f.defaults(), defaults);
    assert!(!PyFunction::accepts_defaults(f.code(), &Some(vec![obj(6), obj(7)])));
}

#[test]
fn keyword_defaults_must_name_kwonly_parameters() {
    let mut c = code("f", &["a", "k"], 1, false, false);
    c.kwonlyarg_count = 1;
    let mut f = function(c, None, None);
    let good = Some(vec![("k".to_string(), obj(6))]);
    let bad = Some(vec![("a".to_string(), obj(6))]);
    assert!(PyFunction::accepts_kwdefaults(f.code(), &good));
    assert!(!PyFunction::accepts_kwdefaults(f.code(), &bad));
    assert!(PyFunction::accepts_kwdefaults(f.code(), &None));
    f.set_kwdefaults(good.clone());
    assert_eq!(f.kwdefaults(), good);
    let bound = f.fill_locals_from_args(&FuncArgs::new(vec![obj(1)], vec![])).unwrap();
    assert_eq!(bound.fastlocals, vec![Some(Local::Object(obj(1))), Some(Local::Object(obj(6)))]);
}

#[test]
fn qualname_and_type_params_reject_wrong_values() {
    let mut f = function(code("f", &[], 0, false, false), None, None);
    assert_eq!(f.set_qualname(PySetterValue::Assign(Payload::Str("m.g".to_string()))), Ok(()));
    assert_eq!(f.qualname(), "m.g");
    assert_eq!(
        f.set_qualname(PySetterValue::Assign(Payload::Other)),
        Err(SetterError::QualnameNotString)
    );
    assert_eq!(
        f.set_qualname(PySetterValue::Assign(Payload::Tuple(vec![]))),
        Err(SetterError::QualnameNotString)
    );
    assert_eq!(f.set_qualname(PySetterValue::Delete), Err(SetterError::QualnameNotString));
    assert_eq!(f.qualname(), "m.g");
    assert_eq!(
        SetterError::QualnameNotString.message(),
        "__qualname__ must be set to a string object"
    );
    assert_eq!(f.set_type_params(PySetterValue::Assign(Payload::Tuple(vec![obj(1)]))), Ok(()));
    assert_eq!(f.type_params(), vec![obj(1)]);
    assert_eq!(
        f.set_type_params(PySetterValue::Assign(Payload::Str("T".to_string()))),
        Err(SetterError::TypeParamsNotTuple)
    );
    assert_eq!(f.set_type_params(PySetterValue::Delete), Err(SetterError::TypeParamsNotTuple));
    assert_eq!(f.type_params(), vec![obj(1)]);
    assert_eq!(
        SetterError::TypeParamsNotTuple.message(),
        "__type_params__ must be set to a tuple object"
    );
}

#[test]
fn compiled_form_is_kept_once() {
    let mut f = function(code("f", &[], 0, false, false), None, None);
    assert_eq!(f.jit(CompiledCode { id: 1 }), CompiledCode { id: 1 });
    assert_eq!(f.jit(CompiledCode { id: 2 }), CompiledCode { id: 1 });
    assert_eq!(f.jitted_code(), Some(CompiledCode { id: 1 }));
}

#[test]
fn native_answer_counts_only_with_a_compiled_form() {
    let mut f = function(code("f", &["a"], 1, false, false), None, None);
    let args = FuncArgs::new(vec![obj(1)], vec![]);
    let interpreted = f.invoke(&args, Some(obj(99))).unwrap();
    assert_eq!(plan(interpreted).bound.fastlocals, vec![Some(Local::Object(obj(1)))]);
    f.jit(CompiledCode { id: 1 });
    assert_eq!(f.invoke(&args, Some(obj(99))), Ok(Invocation::Native(obj(99))));
    let fallback = plan(f.invoke(&args, None).unwrap());
    assert_eq!(fallback.bound.fastlocals, vec![Some(Local::Object(obj(1)))]);
    assert_eq!(args, FuncArgs::new(vec![obj(1)], vec![]));
}

#[test]
fn binding_errors_end_the_call() {
    let f = function(code("f", &["a"], 1, false, false), None, None);
    let err = f.call(&FuncArgs::new(vec![], vec![]), None).unwrap_err();
    assert_eq!(err, BindError::MissingPositional { names: vec!["a".to_string()] });
    assert_eq!(err.message(&f.qualname()), "outer.f() missing 1 required positional argument: 'a'");
}

#[test]
fn locals_storage_follows_flag_then_caller_then_globals() {
    let args = FuncArgs::new(vec![], vec![]);
    let fresh = function(code("f", &[], 0, false, false), None, None);
    assert_eq!(plan(fresh.invoke_with_locals(&args, Some(obj(8)), None).unwrap()).locals, LocalsStorage::Fresh);
    let mut module_code = code("m", &[], 0, false, false);
    module_code.flags.new_locals = false;
    let module = function(module_code, None, None);
    assert_eq!(
        plan(module.invoke_with_locals(&args, Some(obj(8)), None).unwrap()).locals,
        LocalsStorage::Supplied(obj(8))
    );
    assert_eq!(plan(module.invoke(&args, None).unwrap()).locals, LocalsStorage::Globals(obj(1)));
    assert_eq!(plan(module.invoke(&args, None).unwrap()).globals, obj(1));
}

#[test]
fn suspended_strategies_do_not_start_the_frame() {
    let args = FuncArgs::new(vec![], vec![]);
    let cases = [
        (false, false, ExecutionStrategy::Direct, true),
        (true, false, ExecutionStrategy::Generator, false),
        (false, true, ExecutionStrategy::Coroutine, false),
        (true, true, ExecutionStrategy::AsyncGenerator, false),
    ];
    for (gen, coro, strategy, starts) in cases {
        let f = function(code("body", &[], 0, gen, coro), None, None);
        let frame = plan(f.invoke(&args, None).unwrap());
        assert_eq!(frame.strategy, strategy);
        assert_eq!(frame.name, "body");
        // The machine runs the body only where the strategy says so: the
        // statement at the top of a suspended body has not fired.
        let mut fired = false;
        if frame.strategy.starts_frame() {
            fired = true;
        }
        assert_eq!(fired, starts);
    }
}

#[test]
fn repeated_calls_leave_the_function_as_it_was() {
    let f = function(code("f", &["a", "b"], 2, false, false), None, Some(vec![obj(5)]));
    let args = FuncArgs::new(vec![obj(1)], vec![]);
    let first = f.invoke(&args, None);
    let owned = f.traverse();
    let second = f.invoke(&args, None);
    assert_eq!(first, second);
    assert_eq!(f.defaults(), Some(vec![obj(5)]));
    assert_eq!(f.traverse(), owned);
    assert_eq!(f.name(), "f");
}

#[test]
fn descriptor_binds_unless_looked_up_on_the_class() {
    let ctx = context();
    let f = obj(50);
    let bound = |receiver: PyObjectRef| {
        Descriptor::Method(PyRef {
            payload: PyBoundMethod { object: receiver, function: f },
            class: obj(1002),
        })
    };
    assert_eq!(PyFunction::descr_get(f, Some(obj(7)), Some(obj(70)), &ctx), bound(obj(7)));
    assert_eq!(PyFunction::descr_get(f, None, Some(obj(70)), &ctx), Descriptor::Function(f));
    assert_eq!(PyFunction::descr_get(f, Some(ctx.none), None, &ctx), Descriptor::Function(f));
    assert_eq!(PyFunction::descr_get(f, Some(ctx.none), Some(obj(1005)), &ctx), bound(ctx.none));
}

#[test]
fn classes_come_from_the_context() {
    let ctx = context();
    assert_eq!(PyFunction::class(&ctx).name, "function");
    assert_eq!(PyBoundMethod::class(&ctx).name, "method");
    assert_eq!(PyCell::class(&ctx).name, "cell");
    let cell = PyCell::py_new(obj(1003), Some(obj(4)));
    assert_eq!(cell.class, obj(1003));
    assert_eq!(cell.payload.get(), Some(obj(4)));
}
