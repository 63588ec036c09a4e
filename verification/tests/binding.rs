use pycallable::args::{BoundArguments, CellTransfer, FuncArgs, Local};
use pycallable::binder::bind;
use pycallable::code::{CodeFlags, CodeSpec};
use pycallable::error::BindError;
use pycallable::object::PyObjectRef;

fn obj(id: u64) -> PyObjectRef {
    PyObjectRef::new(id)
}

fn value(id: u64) -> Option<Local> {
    Some(Local::Object(obj(id)))
}

fn names(list: &[&str]) -> Vec<String> {
    list.iter().map(|s| s.to_string()).collect()
}

fn flags(has_varargs: bool, has_varkeywords: bool) -> CodeFlags {
    CodeFlags {
        has_varargs,
        has_varkeywords,
        new_locals: true,
        is_generator: false,
        is_coroutine: false,
    }
}

fn code(
    varnames: &[&str],
    arg_count: usize,
    posonlyarg_count: usize,
    kwonlyarg_count: usize,
    flags: CodeFlags,
) -> CodeSpec {
    CodeSpec {
        obj_name: "f".to_string(),
        varnames: names(varnames),
        arg_count,
        posonlyarg_count,
        kwonlyarg_count,
        flags,
        cell2arg: None,
    }
}

fn call(args: &[u64], kwargs: &[(&str, u64)]) -> FuncArgs {
    FuncArgs::new(
        args.iter().map(|id| obj(*id)).collect(),
        kwargs.iter().map(|(n, id)| (n.to_string(), obj(*id))).collect(),
    )
}

fn kw(pairs: &[(&str, u64)]) -> Vec<(String, PyObjectRef)> {
    pairs.iter().map(|(n, id)| (n.to_string(), obj(*id))).collect()
}

fn run(
    code: &CodeSpec,
    args: &FuncArgs,
    defaults: &[u64],
    kwdefaults: &[(&str, u64)],
) -> Result<BoundArguments, BindError> {
    assert!(code.is_well_formed());
    assert!(defaults.len() <= code.arg_count);
    let defaults: Vec<PyObjectRef> = defaults.iter().map(|id| obj(*id)).collect();
    bind(code, args, &defaults, &kw(kwdefaults))
}

#[test]
fn default_fills_trailing_parameter() {
    let f = code(&["a", "b", "c"], 3, 0, 0, flags(false, false));
    let bound = run(&f, &call(&[1, 2], &[]), &[1], &[]).unwrap();
    assert_eq!(bound.fastlocals, vec![value(1), value(2), value(1)]);
    assert!(bound.cell_transfers.is_empty());
}

#[test]
fn missing_positional_names_the_parameter() {
    let f = code(&["a", "b"], 2, 0, 0, flags(false, false));
    let err = run(&f, &call(&[1], &[]), &[], &[]).unwrap_err();
    assert_eq!(err, BindError::MissingPositional { names: names(&["b"]) });
    assert_eq!(err.message("f"), "f() missing 1 required positional argument: 'b'");
}

#[test]
fn too_many_positional_is_refused() {
    let f = code(&["a", "b"], 2, 0, 0, flags(false, false));
    let err = run(&f, &call(&[1, 2, 3], &[]), &[], &[]).unwrap_err();
    assert_eq!(err, BindError::TooManyPositional { expected: 2, given: 3 });
    assert_eq!(err.message("f"), "f() takes 2 positional arguments but 3 were given");
}

#[test]
fn missing_kwonly_is_reported_alone() {
    let f = code(&["d"], 0, 0, 1, flags(false, false));
    let err = run(&f, &call(&[], &[]), &[], &[]).unwrap_err();
    assert_eq!(err, BindError::MissingKwOnly { name: "d".to_string() });
    assert_eq!(err.message("f"), "Missing required kw only argument: 'd'");

    let g = code(&["d", "e"], 0, 0, 2, flags(false, false));
    let err = run(&g, &call(&[], &[]), &[], &[]).unwrap_err();
    assert_eq!(err, BindError::MissingKwOnly { name: "d".to_string() });
    let err = run(&g, &call(&[], &[("d", 1)]), &[], &[]).unwrap_err();
    assert_eq!(err, BindError::MissingKwOnly { name: "e".to_string() });
}

#[test]
fn keyword_for_a_bound_parameter_is_refused() {
    let f = code(&["a"], 1, 0, 0, flags(false, false));
    let err = run(&f, &call(&[1], &[("a", 2)]), &[], &[]).unwrap_err();
    assert_eq!(err, BindError::MultipleValues { name: "a".to_string() });
    assert_eq!(err.message("f"), "f() got multiple values for argument 'a'");
}

#[test]
fn keyword_given_twice_is_refused() {
    let f = code(&["a"], 1, 0, 0, flags(false, false));
    let err = run(&f, &call(&[], &[("a", 1), ("a", 2)]), &[], &[]).unwrap_err();
    assert_eq!(err, BindError::MultipleValues { name: "a".to_string() });
}

#[test]
fn keywords_bind_by_name() {
    let f = code(&["a", "b", "c"], 2, 0, 1, flags(false, false));
    let bound = run(&f, &call(&[], &[("c", 3), ("b", 2), ("a", 1)]), &[], &[]).unwrap();
    assert_eq!(bound.fastlocals, vec![value(1), value(2), value(3)]);
}

#[test]
fn unexpected_keyword_is_refused() {
    let f = code(&["a"], 1, 0, 0, flags(false, false));
    let err = run(&f, &call(&[1], &[("zz", 2)]), &[], &[]).unwrap_err();
    assert_eq!(err, BindError::UnexpectedKeyword { name: "zz".to_string() });
    assert_eq!(err.message("mod.f"), "mod.f() got an unexpected keyword argument 'zz'");
}

#[test]
fn first_failing_keyword_decides() {
    let f = code(&["a"], 1, 0, 0, flags(false, false));
    let err = run(&f, &call(&[1], &[("zz", 2), ("a", 3)]), &[], &[]).unwrap_err();
    assert_eq!(err, BindError::UnexpectedKeyword { name: "zz".to_string() });
    let err = run(&f, &call(&[1], &[("a", 3), ("zz", 2)]), &[], &[]).unwrap_err();
    assert_eq!(err, BindError::MultipleValues { name: "a".to_string() });
}

#[test]
fn surplus_positionals_go_to_varargs() {
    let f = code(&["a", "k", "args"], 1, 0, 1, flags(true, false));
    let bound = run(&f, &call(&[1, 2, 3], &[("k", 9)]), &[], &[]).unwrap();
    assert_eq!(
        bound.fastlocals,
        vec![value(1), value(9), Some(Local::Tuple(vec![obj(2), obj(3)]))]
    );
    let bound = run(&f, &call(&[1], &[("k", 9)]), &[], &[]).unwrap();
    assert_eq!(bound.fastlocals, vec![value(1), value(9), Some(Local::Tuple(vec![]))]);
}

#[test]
fn unknown_keywords_go_to_varkeywords() {
    let f = code(&["a", "args", "kwargs", "tmp"], 1, 0, 0, flags(true, true));
    let bound = run(&f, &call(&[1], &[("x", 5), ("y", 6), ("x", 7)]), &[], &[]).unwrap();
    assert_eq!(
        bound.fastlocals,
        vec![
            value(1),
            Some(Local::Tuple(vec![])),
            Some(Local::Dict(kw(&[("x", 7), ("y", 6)]))),
            None,
        ]
    );
}

#[test]
fn varkeywords_slot_follows_kwonly_without_varargs() {
    let f = code(&["a", "k", "kwargs"], 1, 0, 1, flags(false, true));
    let bound = run(&f, &call(&[1], &[("k", 2), ("z", 3)]), &[], &[]).unwrap();
    assert_eq!(
        bound.fastlocals,
        vec![value(1), value(2), Some(Local::Dict(kw(&[("z", 3)])))]
    );
}

#[test]
fn positional_only_names_are_gathered() {
    let f = code(&["a", "b", "c"], 3, 2, 0, flags(false, false));
    let err = run(&f, &call(&[], &[("a", 1), ("c", 3), ("b", 2)]), &[], &[]).unwrap_err();
    assert_eq!(err, BindError::PositionalOnlyAsKeyword { names: names(&["a", "b"]) });
    assert_eq!(
        err.message("f"),
        "f() got some positional-only arguments passed as keyword arguments: 'a' and 'b'"
    );
}

#[test]
fn positional_only_name_goes_to_varkeywords_when_present() {
    let f = code(&["a", "kwargs"], 1, 1, 0, flags(false, true));
    let bound = run(&f, &call(&[1], &[("a", 2)]), &[], &[]).unwrap();
    assert_eq!(bound.fastlocals, vec![value(1), Some(Local::Dict(kw(&[("a", 2)])))]);
}

#[test]
fn unexpected_keyword_comes_before_positional_only_report() {
    let f = code(&["a"], 1, 1, 0, flags(false, false));
    let err = run(&f, &call(&[], &[("a", 1), ("zz", 2)]), &[], &[]).unwrap_err();
    assert_eq!(err, BindError::UnexpectedKeyword { name: "zz".to_string() });
}

#[test]
fn missing_positionals_are_aggregated() {
    let f = code(&["a", "b", "c", "d"], 4, 0, 0, flags(false, false));
    let err = run(&f, &call(&[], &[("b", 2)]), &[4], &[]).unwrap_err();
    assert_eq!(err, BindError::MissingPositional { names: names(&["a", "c"]) });
    assert_eq!(err.message("f"), "f() missing 2 required positional arguments: 'a' and 'c'");
    let err = run(&f, &call(&[], &[]), &[4], &[]).unwrap_err();
    assert_eq!(err, BindError::MissingPositional { names: names(&["a", "b", "c"]) });
    assert_eq!(
        err.message("f"),
        "f() missing 3 required positional arguments: 'a', 'b', and 'c'"
    );
}

#[test]
fn missing_positional_comes_before_missing_kwonly() {
    let f = code(&["a", "k"], 1, 0, 1, flags(false, false));
    let err = run(&f, &call(&[], &[]), &[], &[]).unwrap_err();
    assert_eq!(err, BindError::MissingPositional { names: names(&["a"]) });
}

#[test]
fn defaults_align_to_the_tail() {
    let f = code(&["a", "b", "c"], 3, 0, 0, flags(false, false));
    let bound = run(&f, &call(&[1], &[]), &[20, 30], &[]).unwrap();
    assert_eq!(bound.fastlocals, vec![value(1), value(20), value(30)]);
    let bound = run(&f, &call(&[1], &[("c", 3)]), &[20, 30], &[]).unwrap();
    assert_eq!(bound.fastlocals, vec![value(1), value(20), value(3)]);
    let bound = run(&f, &call(&[1, 2, 3], &[]), &[20, 30], &[]).unwrap();
    assert_eq!(bound.fastlocals, vec![value(1), value(2), value(3)]);
}

#[test]
fn keyword_defaults_fill_by_name() {
    let f = code(&["a", "k", "m"], 1, 0, 2, flags(false, false));
    let bound = run(&f, &call(&[1], &[("m", 5)]), &[], &[("m", 50), ("k", 40)]).unwrap();
    assert_eq!(bound.fastlocals, vec![value(1), value(40), value(5)]);
}

#[test]
fn locals_beyond_the_parameters_stay_empty() {
    let f = code(&["a", "x", "y"], 1, 0, 0, flags(false, false));
    let bound = run(&f, &call(&[1], &[]), &[], &[]).unwrap();
    assert_eq!(bound.fastlocals, vec![value(1), None, None]);
}

#[test]
fn cell_takes_the_argument_out_of_its_slot() {
    let mut f = code(&["a", "b"], 2, 0, 0, flags(false, false));
    f.cell2arg = Some(vec![None, Some(1), Some(1)]);
    let bound = run(&f, &call(&[1, 2], &[]), &[], &[]).unwrap();
    assert_eq!(bound.fastlocals, vec![value(1), None]);
    assert_eq!(
        bound.cell_transfers,
        vec![CellTransfer::Untouched, CellTransfer::Store(value(2)), CellTransfer::Store(None)]
    );
}

#[test]
fn binding_leaves_arguments_and_defaults_as_they_were() {
    let f = code(&["a", "b", "c"], 3, 0, 0, flags(false, false));
    let args = call(&[1, 2], &[]);
    let defaults = vec![obj(1)];
    let kwdefaults = kw(&[]);
    let first = bind(&f, &args, &defaults, &kwdefaults);
    let second = bind(&f, &args, &defaults, &kwdefaults);
    assert_eq!(first, second);
    assert_eq!(args, call(&[1, 2], &[]));
    assert_eq!(defaults, vec![obj(1)]);
}

#[test]
fn counts_are_written_in_decimal() {
    let f = code(&[], 0, 0, 0, flags(false, false));
    let args: Vec<u64> = (0..120).collect();
    let err = run(&f, &call(&args, &[]), &[], &[]).unwrap_err();
    assert_eq!(err.message("f"), "f() takes 0 positional arguments but 120 were given");
}

#[test]
fn ill_formed_code_is_recognised() {
    let mut f = code(&["a"], 2, 0, 0, flags(false, false));
    assert!(!f.is_well_formed());
    f.arg_count = 1;
    assert!(f.is_well_formed());
    f.posonlyarg_count = 2;
    assert!(!f.is_well_formed());
    f.posonlyarg_count = 0;
    f.flags.has_varargs = true;
    assert!(!f.is_well_formed());
    f.flags.has_varargs = false;
    f.cell2arg = Some(vec![Some(1)]);
    assert!(!f.is_well_formed());
    f.cell2arg = Some(vec![Some(0), None]);
    assert!(f.is_well_formed());
}
