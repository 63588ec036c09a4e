//! What holds of every call, proved from the model of the binder and of the
//! dispatcher.

use vstd::prelude::*;
use crate::args::{BoundView, LocalView};
use crate::binder::{
    bind_spec, dict_get, kw_fold, kw_start, kw_step, kwonly_fold, missing_names, param_index,
    required_count, taken_before, too_many_positional, with_defaults, with_varkeywords, KwState,
};
use crate::code::{CodeFlags, CodeSpec};
use crate::dispatch::{ExecutionStrategy, InvocationView};
use crate::error::BindErrorView;
use crate::function::PyFunctionView;
use crate::object::PyObjectRef;

verus! {

/// A name that is found is found within the range searched.
proof fn lemma_param_index_in_range(names: Seq<Seq<char>>, name: Seq<char>, lo: int, hi: int)
    ensures
        param_index(names, name, lo, hi) matches Some(i) ==> lo <= i < hi && names[i] == name,
    decreases hi - lo,
{
    if lo < hi && names[lo] != name {
        lemma_param_index_in_range(names, name, lo + 1, hi);
    }
}

/// The keyword phase leaves a filled slot as it is, and touches no slot
/// beyond the named parameters.
proof fn lemma_keywords_keep_filled_slots(
    code: CodeSpec,
    st: KwState,
    kwargs: Seq<(Seq<char>, PyObjectRef)>,
)
    requires
        code.wf(),
        st.slots.len() == code.varnames.len(),
    ensures
        kw_fold(code, st, kwargs) matches Ok(end) ==> {
            &&& end.slots.len() == st.slots.len()
            &&& forall|i: int|
                0 <= i < st.slots.len() && st.slots[i] is Some ==> end.slots[i] == st.slots[i]
            &&& forall|i: int|
                code.total_args() <= i < st.slots.len() ==> end.slots[i] == st.slots[i]
        },
    decreases kwargs.len(),
{
    if kwargs.len() > 0 {
        lemma_param_index_in_range(
            code.names(),
            kwargs[0].0,
            code.posonlyarg_count as int,
            code.total_args(),
        );
        match kw_step(code, st, kwargs[0].0, kwargs[0].1) {
            Ok(next) => {
                lemma_keywords_keep_filled_slots(code, next, kwargs.skip(1));
            },
            Err(_) => {},
        }
    }
}

/// Where no name is missing, every slot of the range is filled.
proof fn lemma_nothing_missing(names: Seq<Seq<char>>, slots: Seq<Option<LocalView>>, lo: int, hi: int)
    requires
        missing_names(names, slots, lo, hi).len() == 0,
    ensures
        forall|i: int| lo <= i < hi ==> slots[i] is Some,
    decreases hi - lo,
{
    if lo < hi {
        if slots[lo] is None {
            assert(missing_names(names, slots, lo, hi).len() >= 1);
        } else {
            lemma_nothing_missing(names, slots, lo + 1, hi);
        }
    }
}

/// The keyword-only phase fills its range and leaves the other slots, and
/// every filled slot, as they are.
proof fn lemma_kwonly_fills(
    names: Seq<Seq<char>>,
    slots: Seq<Option<LocalView>>,
    kwdefaults: Seq<(Seq<char>, PyObjectRef)>,
    i: int,
    hi: int,
)
    requires
        0 <= i,
        hi <= slots.len(),
    ensures
        kwonly_fold(names, slots, kwdefaults, i, hi) matches Ok(full) ==> {
            &&& full.len() == slots.len()
            &&& forall|k: int| 0 <= k < slots.len() && slots[k] is Some ==> full[k] == slots[k]
            &&& forall|k: int| i <= k < hi ==> full[k] is Some
            &&& forall|k: int| 0 <= k < slots.len() && !(i <= k < hi) ==> full[k] == slots[k]
        },
    decreases hi - i,
{
    if i < hi {
        if slots[i] is Some {
            lemma_kwonly_fills(names, slots, kwdefaults, i + 1, hi);
        } else {
            match dict_get(kwdefaults, names[i]) {
                Some(v) => {
                    lemma_kwonly_fills(
                        names,
                        slots.update(i, Some(LocalView::Object(v))),
                        kwdefaults,
                        i + 1,
                        hi,
                    );
                },
                None => {},
            }
        }
    }
}

/// A call that binds leaves no parameter without a value.
///
/// The frame has one slot per local of the code and one transfer per cell.
/// Every parameter slot, the two containers included, holds a value, but
/// for the slots whose value a cell took. A positional argument that has a
/// parameter sits in the slot of its position.
pub proof fn law_bound_call_fills_every_parameter(
    code: CodeSpec,
    args: Seq<PyObjectRef>,
    kwargs: Seq<(Seq<char>, PyObjectRef)>,
    defaults: Seq<PyObjectRef>,
    kwdefaults: Seq<(Seq<char>, PyObjectRef)>,
    bound: BoundView,
)
    requires
        code.wf(),
        defaults.len() <= code.arg_count,
        bind_spec(code, args, kwargs, defaults, kwdefaults) == Ok::<BoundView, BindErrorView>(
            bound,
        ),
    ensures
        bound.fastlocals.len() == code.varnames.len(),
        bound.cell_transfers.len() == code.cell_moves().len(),
        forall|i: int|
            0 <= i < code.param_slots() ==> (bound.fastlocals[i] is Some <==> !taken_before(
                code.cell_moves(),
                code.cell_moves().len() as int,
                i,
            )),
        forall|i: int|
            0 <= i < args.len() && i < code.arg_count && !taken_before(
                code.cell_moves(),
                code.cell_moves().len() as int,
                i,
            ) ==> bound.fastlocals[i] == Some(LocalView::Object(args[i])),
{
    let start = kw_start(code, args);
    let st = kw_fold(code, start, kwargs)->Ok_0;
    lemma_keywords_keep_filled_slots(code, start, kwargs);
    let named = with_varkeywords(code, st.slots, st.extra);
    let nrequired = required_count(code, defaults);
    lemma_nothing_missing(code.names(), named, args.len() as int, nrequired);
    let filled = with_defaults(code, named, defaults);
    lemma_kwonly_fills(code.names(), filled, kwdefaults, code.arg_count as int, code.total_args());
    let full = kwonly_fold(
        code.names(),
        filled,
        kwdefaults,
        code.arg_count as int,
        code.total_args(),
    )->Ok_0;
    assert forall|i: int| 0 <= i < code.param_slots() implies full[i] is Some by {
        if i < code.arg_count {
            if i < args.len() {
                assert(start.slots[i] is Some);
            } else if i < nrequired {
                assert(named[i] is Some);
            } else {
                assert(filled[i] is Some);
            }
        } else if i < code.total_args() {
        } else if code.flags.has_varargs && i == code.varargs_slot() {
            assert(start.slots[i] is Some);
            assert(st.slots[i] is Some);
            assert(named[i] is Some);
            assert(filled[i] is Some);
        } else {
            assert(code.flags.has_varkeywords && i == code.varkeywords_slot());
            assert(named[i] is Some);
            assert(filled[i] is Some);
        }
    }
    assert forall|i: int| 0 <= i < args.len() && i < code.arg_count implies full[i] == Some(
        LocalView::Object(args[i]),
    ) by {
        assert(start.slots[i] == Some(LocalView::Object(args[i])));
        assert(st.slots[i] == start.slots[i]);
        assert(named[i] == st.slots[i]);
        assert(filled[i] == named[i]);
    }
}

/// A call without keywords binds only if it gives every positional
/// parameter that has no default. The positional parameters that got no
/// argument then take their defaults, and the defaults belong to the last
/// positional parameters: parameter `i` gets default `i - (arg_count -
/// len(defaults))`.
pub proof fn law_defaults_belong_to_the_last_parameters(
    code: CodeSpec,
    args: Seq<PyObjectRef>,
    defaults: Seq<PyObjectRef>,
    kwdefaults: Seq<(Seq<char>, PyObjectRef)>,
    bound: BoundView,
)
    requires
        code.wf(),
        defaults.len() <= code.arg_count,
        bind_spec(code, args, Seq::empty(), defaults, kwdefaults) == Ok::<
            BoundView,
            BindErrorView,
        >(bound),
    ensures
        required_count(code, defaults) <= args.len(),
        forall|i: int|
            args.len() <= i < code.arg_count && !taken_before(
                code.cell_moves(),
                code.cell_moves().len() as int,
                i,
            ) ==> bound.fastlocals[i] == Some(
                LocalView::Object(defaults[i - required_count(code, defaults)]),
            ),
{
    let start = kw_start(code, args);
    let named = with_varkeywords(code, start.slots, start.extra);
    let nrequired = required_count(code, defaults);
    lemma_nothing_missing(code.names(), named, args.len() as int, nrequired);
    let filled = with_defaults(code, named, defaults);
    lemma_kwonly_fills(code.names(), filled, kwdefaults, code.arg_count as int, code.total_args());
    if args.len() < nrequired {
        let i = args.len() as int;
        assert(named[i] is Some);
        assert(start.slots[i] is None);
    }
    assert forall|i: int| args.len() <= i < code.arg_count implies filled[i] == Some(
        LocalView::Object(defaults[i - nrequired]),
    ) by {
        assert(start.slots[i] is None);
        assert(named[i] is None);
    }
}

/// Every keyword that reaches a parameter is in that parameter's slot at the
/// end of the keyword phase.
proof fn lemma_keywords_land(code: CodeSpec, st: KwState, kwargs: Seq<(Seq<char>, PyObjectRef)>)
    requires
        code.wf(),
        st.slots.len() == code.varnames.len(),
    ensures
        kw_fold(code, st, kwargs) matches Ok(end) ==> forall|j: int|
            0 <= j < kwargs.len() ==> (param_index(
                code.names(),
                (#[trigger] kwargs[j]).0,
                code.posonlyarg_count as int,
                code.total_args(),
            ) matches Some(i) ==> end.slots[i] == Some(LocalView::Object(kwargs[j].1))),
    decreases kwargs.len(),
{
    if kwargs.len() > 0 {
        lemma_param_index_in_range(
            code.names(),
            kwargs[0].0,
            code.posonlyarg_count as int,
            code.total_args(),
        );
        match kw_step(code, st, kwargs[0].0, kwargs[0].1) {
            Ok(next) => {
                lemma_keywords_land(code, next, kwargs.skip(1));
                lemma_keywords_keep_filled_slots(code, next, kwargs.skip(1));
                if kw_fold(code, next, kwargs.skip(1)) is Ok {
                    let end = kw_fold(code, next, kwargs.skip(1))->Ok_0;
                    assert forall|j: int| 0 <= j < kwargs.len() implies (param_index(
                        code.names(),
                        (#[trigger] kwargs[j]).0,
                        code.posonlyarg_count as int,
                        code.total_args(),
                    ) matches Some(i) ==> end.slots[i] == Some(
                        LocalView::Object(kwargs[j].1),
                    )) by {
                        if j > 0 {
                            assert(kwargs.skip(1)[j - 1] == kwargs[j]);
                        }
                    }
                }
            },
            Err(_) => {},
        }
    }
}

/// In a call that binds, every keyword that names a parameter which
/// keywords can reach has given that parameter its value: the slot holds
/// the keyword's value, unless a cell took it.
pub proof fn law_keywords_reach_their_parameters(
    code: CodeSpec,
    args: Seq<PyObjectRef>,
    kwargs: Seq<(Seq<char>, PyObjectRef)>,
    defaults: Seq<PyObjectRef>,
    kwdefaults: Seq<(Seq<char>, PyObjectRef)>,
    bound: BoundView,
    j: int,
)
    requires
        code.wf(),
        defaults.len() <= code.arg_count,
        bind_spec(code, args, kwargs, defaults, kwdefaults) == Ok::<BoundView, BindErrorView>(
            bound,
        ),
        0 <= j < kwargs.len(),
    ensures
        param_index(
            code.names(),
            kwargs[j].0,
            code.posonlyarg_count as int,
            code.total_args(),
        ) matches Some(i) ==> code.posonlyarg_count <= i < code.total_args() && code.names()[i]
            == kwargs[j].0 && (!taken_before(
            code.cell_moves(),
            code.cell_moves().len() as int,
            i,
        ) ==> bound.fastlocals[i] == Some(LocalView::Object(kwargs[j].1))),
{
    let start = kw_start(code, args);
    let st = kw_fold(code, start, kwargs)->Ok_0;
    lemma_keywords_keep_filled_slots(code, start, kwargs);
    lemma_keywords_land(code, start, kwargs);
    lemma_param_index_in_range(
        code.names(),
        kwargs[j].0,
        code.posonlyarg_count as int,
        code.total_args(),
    );
    let named = with_varkeywords(code, st.slots, st.extra);
    let filled = with_defaults(code, named, defaults);
    lemma_kwonly_fills(code.names(), filled, kwdefaults, code.arg_count as int, code.total_args());
    if param_index(code.names(), kwargs[j].0, code.posonlyarg_count as int, code.total_args())
        is Some {
        let i = param_index(
            code.names(),
            kwargs[j].0,
            code.posonlyarg_count as int,
            code.total_args(),
        )->0;
        assert(st.slots[i] == Some(LocalView::Object(kwargs[j].1)));
        assert(named[i] == st.slots[i]);
        assert(filled[i] == named[i]);
    }
}

/// Where every keyword-only slot from `i` on is filled or has a default,
/// the keyword-only phase succeeds.
proof fn lemma_kwonly_succeeds(
    names: Seq<Seq<char>>,
    slots: Seq<Option<LocalView>>,
    kwdefaults: Seq<(Seq<char>, PyObjectRef)>,
    i: int,
    hi: int,
)
    requires
        0 <= i,
        hi <= slots.len(),
        forall|k: int| i <= k < hi ==> dict_get(kwdefaults, #[trigger] names[k]) is Some,
    ensures
        kwonly_fold(names, slots, kwdefaults, i, hi) is Ok,
    decreases hi - i,
{
    if i < hi {
        if slots[i] is Some {
            lemma_kwonly_succeeds(names, slots, kwdefaults, i + 1, hi);
        } else {
            let v = dict_get(kwdefaults, names[i])->0;
            lemma_kwonly_succeeds(
                names,
                slots.update(i, Some(LocalView::Object(v))),
                kwdefaults,
                i + 1,
                hi,
            );
        }
    }
}

/// Success is owed to the plain call: a call without keywords that gives
/// no more positional arguments than there are positional parameters, and
/// at least as many as have no default, binds, provided that every
/// keyword-only parameter has a default.
pub proof fn law_plain_call_binds(
    code: CodeSpec,
    args: Seq<PyObjectRef>,
    defaults: Seq<PyObjectRef>,
    kwdefaults: Seq<(Seq<char>, PyObjectRef)>,
)
    requires
        code.wf(),
        defaults.len() <= code.arg_count,
        required_count(code, defaults) <= args.len() <= code.arg_count,
        forall|k: int|
            code.arg_count <= k < code.total_args() ==> dict_get(
                kwdefaults,
                #[trigger] code.names()[k],
            ) is Some,
    ensures
        bind_spec(code, args, Seq::empty(), defaults, kwdefaults) is Ok,
{
    let start = kw_start(code, args);
    let named = with_varkeywords(code, start.slots, start.extra);
    let filled = with_defaults(code, named, defaults);
    lemma_kwonly_succeeds(
        code.names(),
        filled,
        kwdefaults,
        code.arg_count as int,
        code.total_args(),
    );
}

/// The first thing a call is held to is the number of its positional
/// arguments: a call fails for having too many exactly when the function has
/// no `*args` and gets more positional arguments than it has positional
/// parameters, whatever else is wrong with the call.
pub proof fn law_too_many_positional_comes_first(
    code: CodeSpec,
    args: Seq<PyObjectRef>,
    kwargs: Seq<(Seq<char>, PyObjectRef)>,
    defaults: Seq<PyObjectRef>,
    kwdefaults: Seq<(Seq<char>, PyObjectRef)>,
)
    ensures
        too_many_positional(code, args) <==> bind_spec(code, args, kwargs, defaults, kwdefaults)
            == Err::<BoundView, BindErrorView>(
            BindErrorView::TooManyPositional { expected: code.arg_count as nat, given: args.len() },
        ),
        bind_spec(code, args, kwargs, defaults, kwdefaults) matches Err(
            BindErrorView::TooManyPositional { .. },
        ) ==> too_many_positional(code, args),
{
    if !too_many_positional(code, args) {
        lemma_fold_errors(code, kw_start(code, args), kwargs);
        match kw_fold(code, kw_start(code, args), kwargs) {
            Ok(st) => {
                let named = with_varkeywords(code, st.slots, st.extra);
                lemma_kwonly_errors(
                    code.names(),
                    with_defaults(code, named, defaults),
                    kwdefaults,
                    code.arg_count as int,
                    code.total_args(),
                );
            },
            Err(_) => {},
        }
    }
}

/// The keyword phase fails in its own two ways only.
proof fn lemma_fold_errors(code: CodeSpec, st: KwState, kwargs: Seq<(Seq<char>, PyObjectRef)>)
    ensures
        kw_fold(code, st, kwargs) matches Err(e) ==> (e is MultipleValues || e is UnexpectedKeyword),
    decreases kwargs.len(),
{
    if kwargs.len() > 0 {
        match kw_step(code, st, kwargs[0].0, kwargs[0].1) {
            Ok(next) => {
                lemma_fold_errors(code, next, kwargs.skip(1));
            },
            Err(_) => {},
        }
    }
}

/// The keyword-only phase fails in its own way only.
proof fn lemma_kwonly_errors(
    names: Seq<Seq<char>>,
    slots: Seq<Option<LocalView>>,
    kwdefaults: Seq<(Seq<char>, PyObjectRef)>,
    i: int,
    hi: int,
)
    ensures
        kwonly_fold(names, slots, kwdefaults, i, hi) matches Err(e) ==> e is MissingKwOnly,
    decreases hi - i,
{
    if i < hi {
        if slots[i] is Some {
            lemma_kwonly_errors(names, slots, kwdefaults, i + 1, hi);
        } else {
            match dict_get(kwdefaults, names[i]) {
                Some(v) => {
                    lemma_kwonly_errors(
                        names,
                        slots.update(i, Some(LocalView::Object(v))),
                        kwdefaults,
                        i + 1,
                        hi,
                    );
                },
                None => {},
            }
        }
    }
}

/// A call reads the callable and writes nothing to it, and what it reads
/// for binding is the code and the defaults alone. So the outcome of
/// binding is the same on any two callables that agree on those, whatever
/// their other attributes are: the same call made again on the same
/// callable, after any number of calls, ends as it did before.
pub proof fn law_binding_reads_code_and_defaults_only(
    f: PyFunctionView,
    g: PyFunctionView,
    args: Seq<PyObjectRef>,
    kwargs: Seq<(Seq<char>, PyObjectRef)>,
)
    requires
        f.code == g.code,
        f.defaults == g.defaults,
        f.kwdefaults == g.kwdefaults,
    ensures
        f.bind_outcome(args, kwargs) == g.bind_outcome(args, kwargs),
{
}

/// The two flags of the code select one of four strategies, and the frame's
/// body starts to run as part of the call under one of them only: a
/// generator, a coroutine and an asynchronous generator are handed back
/// with their frame bound and not started.
pub proof fn law_suspended_frames_are_not_started(flags: CodeFlags)
    ensures
        ExecutionStrategy::of(flags) == ExecutionStrategy::Direct <==> !flags.is_generator
            && !flags.is_coroutine,
        ExecutionStrategy::of(flags) == ExecutionStrategy::Generator <==> flags.is_generator
            && !flags.is_coroutine,
        ExecutionStrategy::of(flags) == ExecutionStrategy::Coroutine <==> !flags.is_generator
            && flags.is_coroutine,
        ExecutionStrategy::of(flags) == ExecutionStrategy::AsyncGenerator <==> flags.is_generator
            && flags.is_coroutine,
        ExecutionStrategy::of(flags).runs_now() <==> !flags.is_generator && !flags.is_coroutine,
{
}

/// A call that goes on in a frame is planned from the callable as it
/// stands: the plan holds the callable's globals, closure cells and name,
/// and the strategy of its code, and whether the frame's body starts now is
/// decided by the two flags alone.
pub proof fn law_frame_plan_follows_the_callable(
    f: PyFunctionView,
    args: Seq<PyObjectRef>,
    kwargs: Seq<(Seq<char>, PyObjectRef)>,
    locals: Option<PyObjectRef>,
)
    ensures
        f.invocation(args, kwargs, locals, None) matches Ok(
            InvocationView::Frame(plan),
        ) ==> {
            &&& f.bind_outcome(args, kwargs) == Ok::<BoundView, BindErrorView>(plan.bound)
            &&& plan.globals == f.globals
            &&& plan.name == f.name
            &&& plan.strategy.runs_now() == (!f.code.flags.is_generator
                && !f.code.flags.is_coroutine)
        },
        f.invocation(args, kwargs, locals, None) is Err <==> f.bind_outcome(args, kwargs) is Err,
        !(f.invocation(args, kwargs, locals, None) matches Ok(
            InvocationView::Native(_),
        )),
{
}

} // verus!
