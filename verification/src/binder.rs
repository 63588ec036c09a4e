//! The argument binder: from a function's parameter shape, the arguments of
//! one call and the defaults as they stood at the call, to the local slots of
//! the frame, or to the reason why the call cannot be made.
//!
//! The model is a chain of phases over plain data. Each phase is a spec
//! function; [`bind_spec`] puts them in order, and [`bind`] computes it.

use vstd::prelude::*;
use crate::args::{
    named_view, slot_view, slots_view, transfers_view, BoundArguments, BoundView, CellTransfer,
    CellTransferView, FuncArgs, Local, LocalView,
};
use crate::code::CodeSpec;
use crate::error::{BindError, BindErrorView};
use crate::object::PyObjectRef;

verus! {

/// The first slot in `lo..hi` whose name is `name`.
pub open spec fn param_index(names: Seq<Seq<char>>, name: Seq<char>, lo: int, hi: int) -> Option<
    int,
>
    decreases hi - lo,
{
    if lo >= hi {
        None
    } else if names[lo] == name {
        Some(lo)
    } else {
        param_index(names, name, lo + 1, hi)
    }
}

/// The first entry at or after `from` whose name is `name`.
pub open spec fn dict_index(pairs: Seq<(Seq<char>, PyObjectRef)>, name: Seq<char>, from: int)
    -> Option<int>
    decreases pairs.len() - from,
{
    if from >= pairs.len() {
        None
    } else if pairs[from].0 == name {
        Some(from)
    } else {
        dict_index(pairs, name, from + 1)
    }
}

/// The value that a mapping gives to `name`.
pub open spec fn dict_get(pairs: Seq<(Seq<char>, PyObjectRef)>, name: Seq<char>) -> Option<
    PyObjectRef,
> {
    match dict_index(pairs, name, 0) {
        Some(i) => Some(pairs[i].1),
        None => None,
    }
}

/// A mapping after `name` is set to `value`: a name that is there keeps its
/// place and gets the new value, a new name goes to the end.
pub open spec fn dict_insert(
    pairs: Seq<(Seq<char>, PyObjectRef)>,
    name: Seq<char>,
    value: PyObjectRef,
) -> Seq<(Seq<char>, PyObjectRef)> {
    match dict_index(pairs, name, 0) {
        Some(i) => pairs.update(i, (name, value)),
        None => pairs.push((name, value)),
    }
}

/// Whether the call gives more positional arguments than the function can
/// take.
pub open spec fn too_many_positional(code: CodeSpec, args: Seq<PyObjectRef>) -> bool {
    !code.flags.has_varargs && args.len() > code.arg_count
}

/// The positional arguments that go to `*args`.
pub open spec fn surplus(code: CodeSpec, args: Seq<PyObjectRef>) -> Seq<PyObjectRef> {
    if args.len() > code.arg_count {
        args.subrange(code.arg_count as int, args.len() as int)
    } else {
        Seq::empty()
    }
}

/// The slots once the positional arguments are placed: argument `i` in slot
/// `i` as far as there are positional parameters, and the rest in the
/// `*args` slot where the function has one.
pub open spec fn positional_slots(code: CodeSpec, args: Seq<PyObjectRef>) -> Seq<Option<LocalView>> {
    Seq::new(
        code.varnames.len() as nat,
        |i: int|
            if i < args.len() && i < code.arg_count {
                Some(LocalView::Object(args[i]))
            } else if code.flags.has_varargs && i == code.varargs_slot() {
                Some(LocalView::Tuple(surplus(code, args)))
            } else {
                None
            },
    )
}

/// What the keyword phase has gathered so far.
pub struct KwState {
    /// The local slots.
    pub slots: Seq<Option<LocalView>>,
    /// The keywords that name no parameter, for `**kwargs`.
    pub extra: Seq<(Seq<char>, PyObjectRef)>,
    /// The keywords that name a positional-only parameter.
    pub posonly: Seq<Seq<char>>,
}

/// One keyword argument. A name among the parameters that keywords can reach
/// binds that parameter unless it has a value. Another name goes to
/// `**kwargs` where there is one, is noted where it names a positional-only
/// parameter, and is refused otherwise.
pub open spec fn kw_step(code: CodeSpec, st: KwState, name: Seq<char>, value: PyObjectRef) -> Result<
    KwState,
    BindErrorView,
> {
    match param_index(code.names(), name, code.posonlyarg_count as int, code.total_args()) {
        Some(i) => if st.slots[i] is Some {
            Err(BindErrorView::MultipleValues { name })
        } else {
            Ok(KwState { slots: st.slots.update(i, Some(LocalView::Object(value))), ..st })
        },
        None => if code.flags.has_varkeywords {
            Ok(KwState { extra: dict_insert(st.extra, name, value), ..st })
        } else if param_index(code.names(), name, 0, code.posonlyarg_count as int) is Some {
            Ok(KwState { posonly: st.posonly.push(name), ..st })
        } else {
            Err(BindErrorView::UnexpectedKeyword { name })
        },
    }
}

/// The keyword arguments in the order received, up to the first that fails.
pub open spec fn kw_fold(code: CodeSpec, st: KwState, kwargs: Seq<(Seq<char>, PyObjectRef)>)
    -> Result<KwState, BindErrorView>
    decreases kwargs.len(),
{
    if kwargs.len() == 0 {
        Ok(st)
    } else {
        match kw_step(code, st, kwargs[0].0, kwargs[0].1) {
            Ok(next) => kw_fold(code, next, kwargs.skip(1)),
            Err(e) => Err(e),
        }
    }
}

/// The slots with the `**kwargs` mapping in its place, where the function
/// has one.
pub open spec fn with_varkeywords(
    code: CodeSpec,
    slots: Seq<Option<LocalView>>,
    extra: Seq<(Seq<char>, PyObjectRef)>,
) -> Seq<Option<LocalView>> {
    if code.flags.has_varkeywords {
        slots.update(code.varkeywords_slot(), Some(LocalView::Dict(extra)))
    } else {
        slots
    }
}

/// The names of the empty slots in `lo..hi`, in slot order.
pub open spec fn missing_names(
    names: Seq<Seq<char>>,
    slots: Seq<Option<LocalView>>,
    lo: int,
    hi: int,
) -> Seq<Seq<char>>
    decreases hi - lo,
{
    if lo >= hi {
        Seq::empty()
    } else if slots[lo] is None {
        seq![names[lo]] + missing_names(names, slots, lo + 1, hi)
    } else {
        missing_names(names, slots, lo + 1, hi)
    }
}

/// The number of positional parameters that have no default.
pub open spec fn required_count(code: CodeSpec, defaults: Seq<PyObjectRef>) -> int {
    code.arg_count - defaults.len()
}

/// The slots once the defaults are in: the defaults belong to the last
/// positional parameters, and fill those that are still empty.
pub open spec fn with_defaults(
    code: CodeSpec,
    slots: Seq<Option<LocalView>>,
    defaults: Seq<PyObjectRef>,
) -> Seq<Option<LocalView>> {
    Seq::new(
        slots.len(),
        |i: int|
            if required_count(code, defaults) <= i < code.arg_count && slots[i] is None {
                Some(LocalView::Object(defaults[i - required_count(code, defaults)]))
            } else {
                slots[i]
            },
    )
}

/// The keyword-only slots from `i` on, in slot order: an empty one takes
/// its default by name, and the first without a default ends the call.
pub open spec fn kwonly_fold(
    names: Seq<Seq<char>>,
    slots: Seq<Option<LocalView>>,
    kwdefaults: Seq<(Seq<char>, PyObjectRef)>,
    i: int,
    hi: int,
) -> Result<Seq<Option<LocalView>>, BindErrorView>
    decreases hi - i,
{
    if i >= hi {
        Ok(slots)
    } else if slots[i] is Some {
        kwonly_fold(names, slots, kwdefaults, i + 1, hi)
    } else {
        match dict_get(kwdefaults, names[i]) {
            Some(v) => kwonly_fold(
                names,
                slots.update(i, Some(LocalView::Object(v))),
                kwdefaults,
                i + 1,
                hi,
            ),
            None => Err(BindErrorView::MissingKwOnly { name: names[i] }),
        }
    }
}

/// Whether one of the cells before `c` takes its value from slot `a`.
pub open spec fn taken_before(moves: Seq<Option<usize>>, c: int, a: int) -> bool {
    exists|j: int| 0 <= j < c && #[trigger] moves[j] == Some(a as usize)
}

/// The slots once the cells before `c` have taken their values: a slot that
/// a cell took from is empty.
pub open spec fn slots_after_moves(
    moves: Seq<Option<usize>>,
    slots: Seq<Option<LocalView>>,
    c: int,
) -> Seq<Option<LocalView>> {
    Seq::new(
        slots.len(),
        |a: int|
            if taken_before(moves, c, a) {
                None
            } else {
                slots[a]
            },
    )
}

/// What each cell receives: a cell with an argument slot gets what that
/// slot holds when its turn comes, in cell order.
pub open spec fn cell_transfers(moves: Seq<Option<usize>>, slots: Seq<Option<LocalView>>) -> Seq<
    CellTransferView,
> {
    Seq::new(
        moves.len(),
        |c: int|
            match moves[c] {
                Some(a) => CellTransferView::Store(slots_after_moves(moves, slots, c)[a as int]),
                None => CellTransferView::Untouched,
            },
    )
}

/// The state in which the keyword phase starts.
pub open spec fn kw_start(code: CodeSpec, args: Seq<PyObjectRef>) -> KwState {
    KwState { slots: positional_slots(code, args), extra: Seq::empty(), posonly: Seq::empty() }
}

/// The binding of one call.
///
/// In order: too many positional arguments; the keywords, with their two
/// immediate errors; the positional-only parameters that were named; the
/// positional parameters that are missing, all at once; the defaults; the
/// keyword-only parameters, where the first one missing is reported alone;
/// and the moves into cells.
pub open spec fn bind_spec(
    code: CodeSpec,
    args: Seq<PyObjectRef>,
    kwargs: Seq<(Seq<char>, PyObjectRef)>,
    defaults: Seq<PyObjectRef>,
    kwdefaults: Seq<(Seq<char>, PyObjectRef)>,
) -> Result<BoundView, BindErrorView> {
    if too_many_positional(code, args) {
        Err(
            BindErrorView::TooManyPositional {
                expected: code.arg_count as nat,
                given: args.len(),
            },
        )
    } else {
        match kw_fold(code, kw_start(code, args), kwargs) {
            Err(e) => Err(e),
            Ok(st) => if st.posonly.len() > 0 {
                Err(BindErrorView::PositionalOnlyAsKeyword { names: st.posonly })
            } else {
                let named = with_varkeywords(code, st.slots, st.extra);
                let missing = missing_names(
                    code.names(),
                    named,
                    args.len() as int,
                    required_count(code, defaults),
                );
                if missing.len() > 0 {
                    Err(BindErrorView::MissingPositional { names: missing })
                } else {
                    match kwonly_fold(
                        code.names(),
                        with_defaults(code, named, defaults),
                        kwdefaults,
                        code.arg_count as int,
                        code.total_args(),
                    ) {
                        Err(e) => Err(e),
                        Ok(full) => Ok(
                            BoundView {
                                fastlocals: slots_after_moves(
                                    code.cell_moves(),
                                    full,
                                    code.cell_moves().len() as int,
                                ),
                                cell_transfers: cell_transfers(code.cell_moves(), full),
                            },
                        ),
                    }
                }
            },
        }
    }
}

/// The outcome of a binding as plain data.
pub open spec fn outcome_view(r: Result<BoundArguments, BindError>) -> Result<
    BoundView,
    BindErrorView,
> {
    match r {
        Ok(bound) => Ok(bound@),
        Err(e) => Err(e@),
    }
}

/// Looks `name` up among the slots `lo..hi`.
pub(crate) fn find_param(varnames: &Vec<String>, name: &String, lo: usize, hi: usize) -> (r: Option<usize>)
    requires
        lo <= hi <= varnames.len(),
    ensures
        match r {
            Some(i) => param_index(varnames.deep_view(), name@, lo as int, hi as int) == Some(
                i as int,
            ) && lo <= i < hi,
            None => param_index(varnames.deep_view(), name@, lo as int, hi as int) is None,
        },
{
    let mut i = lo;
    while i < hi
        invariant
            lo <= i <= hi <= varnames.len(),
            param_index(varnames.deep_view(), name@, lo as int, hi as int) == param_index(
                varnames.deep_view(),
                name@,
                i as int,
                hi as int,
            ),
        decreases hi - i,
    {
        if varnames[i] == *name {
            return Some(i);
        }
        i = i + 1;
    }
    None
}

/// Looks `name` up in a mapping.
fn find_named(pairs: &Vec<(String, PyObjectRef)>, name: &String) -> (r: Option<usize>)
    ensures
        match r {
            Some(i) => dict_index(named_view(pairs@), name@, 0) == Some(i as int) && i
                < pairs.len(),
            None => dict_index(named_view(pairs@), name@, 0) is None,
        },
{
    let mut i: usize = 0;
    while i < pairs.len()
        invariant
            i <= pairs.len(),
            dict_index(named_view(pairs@), name@, 0) == dict_index(
                named_view(pairs@),
                name@,
                i as int,
            ),
        decreases pairs.len() - i,
    {
        if pairs[i].0 == *name {
            return Some(i);
        }
        i = i + 1;
    }
    None
}

/// Collects the positional arguments beyond the positional parameters.
fn surplus_of(code: &CodeSpec, args: &Vec<PyObjectRef>) -> (rest: Vec<PyObjectRef>)
    ensures
        rest@ == surplus(*code, args@),
{
    let mut rest: Vec<PyObjectRef> = Vec::new();
    if args.len() > code.arg_count {
        let mut i = code.arg_count;
        while i < args.len()
            invariant
                code.arg_count <= i <= args.len(),
                rest@ == args@.subrange(code.arg_count as int, i as int),
            decreases args.len() - i,
        {
            rest.push(args[i]);
            assert(rest@ =~= args@.subrange(code.arg_count as int, i + 1));
            i = i + 1;
        }
    }
    rest
}

/// Makes the slots of a frame and places the positional arguments.
fn place_positional(code: &CodeSpec, args: &Vec<PyObjectRef>) -> (slots: Vec<Option<Local>>)
    requires
        code.wf(),
    ensures
        slots.len() == code.varnames.len(),
        slots_view(slots@) == positional_slots(*code, args@),
{
    let n = code.varnames.len();
    let mut slots: Vec<Option<Local>> = Vec::new();
    let mut i: usize = 0;
    while i < n
        invariant
            code.wf(),
            n == code.varnames.len(),
            i <= n,
            slots.len() == i,
            forall|k: int|
                0 <= k < i ==> slot_view(#[trigger] slots@[k]) == positional_slots(
                    *code,
                    args@,
                )[k],
        decreases n - i,
    {
        let slot = if i < args.len() && i < code.arg_count {
            Some(Local::Object(args[i]))
        } else if code.flags.has_varargs && i == code.arg_count + code.kwonlyarg_count {
            Some(Local::Tuple(surplus_of(code, args)))
        } else {
            None
        };
        slots.push(slot);
        i = i + 1;
    }
    assert(slots_view(slots@) =~= positional_slots(*code, args@));
    slots
}

/// Sets `name` to `value` in a mapping.
fn insert_named(pairs: &mut Vec<(String, PyObjectRef)>, name: &String, value: PyObjectRef)
    ensures
        named_view(final(pairs)@) == dict_insert(named_view(old(pairs)@), name@, value),
{
    match find_named(pairs, name) {
        Some(i) => {
            pairs.set(i, (name.clone(), value));
            assert(named_view(pairs@) =~= named_view(old(pairs)@).update(
                i as int,
                (name@, value),
            ));
        },
        None => {
            pairs.push((name.clone(), value));
            assert(named_view(pairs@) =~= named_view(old(pairs)@).push((name@, value)));
        },
    }
}

/// Takes the keyword arguments in order; returns what goes to `**kwargs` and
/// the positional-only parameters that were named.
fn bind_keywords(
    code: &CodeSpec,
    slots: &mut Vec<Option<Local>>,
    kwargs: &Vec<(String, PyObjectRef)>,
) -> (r: Result<(Vec<(String, PyObjectRef)>, Vec<String>), BindError>)
    requires
        code.wf(),
        old(slots).len() == code.varnames.len(),
    ensures
        final(slots).len() == old(slots).len(),
        match r {
            Ok((extra, posonly)) => kw_fold(
                *code,
                KwState { slots: slots_view(old(slots)@), extra: Seq::empty(), posonly: Seq::empty() },
                named_view(kwargs@),
            ) == Ok::<KwState, BindErrorView>(
                KwState {
                    slots: slots_view(final(slots)@),
                    extra: named_view(extra@),
                    posonly: posonly.deep_view(),
                },
            ),
            Err(e) => kw_fold(
                *code,
                KwState { slots: slots_view(old(slots)@), extra: Seq::empty(), posonly: Seq::empty() },
                named_view(kwargs@),
            ) == Err::<KwState, BindErrorView>(e@),
        },
{
    let total = code.arg_count + code.kwonlyarg_count;
    let mut extra: Vec<(String, PyObjectRef)> = Vec::new();
    let mut posonly: Vec<String> = Vec::new();
    let ghost start = KwState {
        slots: slots_view(old(slots)@),
        extra: Seq::empty(),
        posonly: Seq::empty(),
    };
    let ghost kws = named_view(kwargs@);
    assert(named_view(extra@) =~= Seq::empty());
    assert(posonly.deep_view() =~= Seq::empty());
    assert(kws.skip(0) =~= kws);
    let mut j: usize = 0;
    while j < kwargs.len()
        invariant
            code.wf(),
            total == code.total_args(),
            j <= kwargs.len(),
            kws == named_view(kwargs@),
            slots.len() == code.varnames.len(),
            slots.len() == old(slots).len(),
            start == (KwState {
                slots: slots_view(old(slots)@),
                extra: Seq::empty(),
                posonly: Seq::empty(),
            }),
            kw_fold(*code, start, kws) == kw_fold(
                *code,
                KwState {
                    slots: slots_view(slots@),
                    extra: named_view(extra@),
                    posonly: posonly.deep_view(),
                },
                kws.skip(j as int),
            ),
        decreases kwargs.len() - j,
    {
        let name = &kwargs[j].0;
        let value = kwargs[j].1;
        let ghost cur = KwState {
            slots: slots_view(slots@),
            extra: named_view(extra@),
            posonly: posonly.deep_view(),
        };
        let ghost rest = kws.skip(j as int);
        assert(rest.len() > 0);
        assert(rest[0] == (name@, value));
        assert(rest.skip(1) =~= kws.skip(j + 1));
        assert(code.names() == code.varnames.deep_view());
        match find_param(&code.varnames, name, code.posonlyarg_count, total) {
            Some(pos) => {
                if slots[pos].is_some() {
                    return Err(BindError::MultipleValues { name: name.clone() });
                }
                slots.set(pos, Some(Local::Object(value)));
                assert(slots_view(slots@) =~= cur.slots.update(
                    pos as int,
                    Some(LocalView::Object(value)),
                ));
            },
            None => {
                if code.flags.has_varkeywords {
                    insert_named(&mut extra, name, value);
                } else {
                    match find_param(&code.varnames, name, 0, code.posonlyarg_count) {
                        Some(_) => {
                            posonly.push(name.clone());
                            assert(posonly.deep_view() =~= cur.posonly.push(name@));
                        },
                        None => {
                            return Err(BindError::UnexpectedKeyword { name: name.clone() });
                        },
                    }
                }
            },
        }
        j = j + 1;
    }
    Ok((extra, posonly))
}

/// Gathers the names of the empty slots in `lo..hi`.
fn collect_missing(code: &CodeSpec, slots: &Vec<Option<Local>>, lo: usize, hi: usize) -> (missing:
    Vec<String>)
    requires
        slots.len() == code.varnames.len(),
        hi <= slots.len(),
    ensures
        missing.deep_view() == missing_names(
            code.names(),
            slots_view(slots@),
            lo as int,
            hi as int,
        ),
{
    let mut missing: Vec<String> = Vec::new();
    let ghost names = code.names();
    let ghost view = slots_view(slots@);
    assert(missing.deep_view() =~= Seq::<Seq<char>>::empty());
    if lo < hi {
        let mut i = lo;
        assert(Seq::<Seq<char>>::empty() + missing_names(names, view, lo as int, hi as int)
            =~= missing_names(names, view, lo as int, hi as int));
        while i < hi
            invariant
                lo <= i <= hi <= slots.len(),
                slots.len() == code.varnames.len(),
                names == code.names(),
                view == slots_view(slots@),
                missing_names(names, view, lo as int, hi as int) == missing.deep_view()
                    + missing_names(names, view, i as int, hi as int),
            decreases hi - i,
        {
            let ghost before = missing.deep_view();
            if slots[i].is_none() {
                missing.push(code.varnames[i].clone());
                assert(missing.deep_view() =~= before.push(names[i as int]));
                assert(before + (seq![names[i as int]] + missing_names(
                    names,
                    view,
                    i + 1,
                    hi as int,
                )) =~= missing.deep_view() + missing_names(names, view, i + 1, hi as int));
            }
            i = i + 1;
        }
        assert(missing.deep_view() + Seq::<Seq<char>>::empty() =~= missing.deep_view());
    }
    missing
}

/// Fills the empty slots of the last positional parameters from the defaults.
fn fill_defaults(code: &CodeSpec, slots: &mut Vec<Option<Local>>, defaults: &Vec<PyObjectRef>)
    requires
        code.wf(),
        old(slots).len() == code.varnames.len(),
        defaults.len() <= code.arg_count,
    ensures
        final(slots).len() == old(slots).len(),
        slots_view(final(slots)@) == with_defaults(*code, slots_view(old(slots)@), defaults@),
{
    let nrequired = code.arg_count - defaults.len();
    let ghost before = slots_view(slots@);
    let mut i = nrequired;
    while i < code.arg_count
        invariant
            code.wf(),
            nrequired == required_count(*code, defaults@),
            nrequired <= i <= code.arg_count,
            slots.len() == code.varnames.len(),
            slots.len() == old(slots).len(),
            before == slots_view(old(slots)@),
            forall|k: int|
                0 <= k < i ==> slot_view(#[trigger] slots@[k]) == with_defaults(
                    *code,
                    before,
                    defaults@,
                )[k],
            forall|k: int| i <= k < slots.len() ==> slot_view(#[trigger] slots@[k]) == before[k],
        decreases code.arg_count - i,
    {
        if slots[i].is_none() {
            slots.set(i, Some(Local::Object(defaults[i - nrequired])));
        }
        i = i + 1;
    }
    assert(slots_view(slots@) =~= with_defaults(*code, before, defaults@));
}

/// Fills the empty keyword-only slots from the defaults by name.
fn fill_kwonly(
    code: &CodeSpec,
    slots: &mut Vec<Option<Local>>,
    kwdefaults: &Vec<(String, PyObjectRef)>,
) -> (r: Result<(), BindError>)
    requires
        code.wf(),
        old(slots).len() == code.varnames.len(),
    ensures
        final(slots).len() == old(slots).len(),
        match r {
            Ok(()) => kwonly_fold(
                code.names(),
                slots_view(old(slots)@),
                named_view(kwdefaults@),
                code.arg_count as int,
                code.total_args(),
            ) == Ok::<Seq<Option<LocalView>>, BindErrorView>(slots_view(final(slots)@)),
            Err(e) => kwonly_fold(
                code.names(),
                slots_view(old(slots)@),
                named_view(kwdefaults@),
                code.arg_count as int,
                code.total_args(),
            ) == Err::<Seq<Option<LocalView>>, BindErrorView>(e@),
        },
{
    let total = code.arg_count + code.kwonlyarg_count;
    let ghost names = code.names();
    let ghost kwd = named_view(kwdefaults@);
    let mut i = code.arg_count;
    while i < total
        invariant
            code.wf(),
            total == code.total_args(),
            code.arg_count <= i <= total,
            names == code.names(),
            kwd == named_view(kwdefaults@),
            slots.len() == code.varnames.len(),
            slots.len() == old(slots).len(),
            kwonly_fold(
                names,
                slots_view(old(slots)@),
                kwd,
                code.arg_count as int,
                total as int,
            ) == kwonly_fold(names, slots_view(slots@), kwd, i as int, total as int),
        decreases total - i,
    {
        let ghost cur = slots_view(slots@);
        if slots[i].is_none() {
            match find_named(kwdefaults, &code.varnames[i]) {
                Some(at) => {
                    slots.set(i, Some(Local::Object(kwdefaults[at].1)));
                    assert(slots_view(slots@) =~= cur.update(
                        i as int,
                        Some(LocalView::Object(kwd[at as int].1)),
                    ));
                },
                None => {
                    return Err(BindError::MissingKwOnly { name: code.varnames[i].clone() });
                },
            }
        }
        i = i + 1;
    }
    Ok(())
}

/// A slot is taken before cell `c + 1` when it is taken before cell `c` or by
/// cell `c` itself.
proof fn lemma_taken_step(moves: Seq<Option<usize>>, c: int, k: int)
    requires
        0 <= c < moves.len(),
        0 <= k <= usize::MAX,
    ensures
        taken_before(moves, c + 1, k) <==> (taken_before(moves, c, k) || moves[c] == Some(
            k as usize,
        )),
{
    if taken_before(moves, c, k) {
        let j = choose|j: int| 0 <= j < c && #[trigger] moves[j] == Some(k as usize);
        assert(0 <= j < c + 1 && moves[j] == Some(k as usize));
    }
    if moves[c] == Some(k as usize) {
        assert(0 <= c < c + 1 && moves[c] == Some(k as usize));
    }
    if taken_before(moves, c + 1, k) {
        let j = choose|j: int| 0 <= j < c + 1 && #[trigger] moves[j] == Some(k as usize);
        if j < c {
            assert(0 <= j < c && moves[j] == Some(k as usize));
        }
    }
}

/// Moves argument values into cells, in cell order.
fn move_cells(code: &CodeSpec, slots: &mut Vec<Option<Local>>) -> (transfers: Vec<CellTransfer>)
    requires
        code.wf(),
        old(slots).len() == code.varnames.len(),
    ensures
        final(slots).len() == old(slots).len(),
        slots_view(final(slots)@) == slots_after_moves(
            code.cell_moves(),
            slots_view(old(slots)@),
            code.cell_moves().len() as int,
        ),
        transfers_view(transfers@) == cell_transfers(code.cell_moves(), slots_view(old(slots)@)),
{
    let mut transfers: Vec<CellTransfer> = Vec::new();
    let ghost moves = code.cell_moves();
    let ghost before = slots_view(slots@);
    match &code.cell2arg {
        None => {
            assert(slots_view(slots@) =~= slots_after_moves(moves, before, 0));
            assert(transfers_view(transfers@) =~= cell_transfers(moves, before));
        },
        Some(table) => {
            let mut c: usize = 0;
            assert(slots_view(slots@) =~= slots_after_moves(moves, before, 0));
            while c < table.len()
                invariant
                    code.wf(),
                    table@ == moves,
                    moves == code.cell_moves(),
                    c <= table.len(),
                    slots.len() == code.varnames.len(),
                    slots.len() == old(slots).len(),
                    before == slots_view(old(slots)@),
                    before.len() == slots.len(),
                    slots_view(slots@) == slots_after_moves(moves, before, c as int),
                    transfers.len() == c,
                    forall|k: int|
                        0 <= k < c ==> (#[trigger] transfers@[k])@ == cell_transfers(
                            moves,
                            before,
                        )[k],
                decreases table.len() - c,
            {
                let ghost cur = slots_view(slots@);
                let ghost old_slots = slots@;
                match table[c] {
                    Some(a) => {
                        assert(moves[c as int] == Some(a));
                        assert(a < code.param_slots());
                        let mut taken: Option<Local> = None;
                        slots.set_and_swap(a, &mut taken);
                        assert(slot_view(taken) == cur[a as int]);
                        transfers.push(CellTransfer::Store(taken));
                        assert forall|k: int| 0 <= k < slots.len() implies slots_view(
                            slots@,
                        )[k] == slots_after_moves(moves, before, c + 1)[k] by {
                            lemma_taken_step(moves, c as int, k);
                            assert(cur[k] == slots_after_moves(moves, before, c as int)[k]);
                            assert(slots@[k] == if k == a {
                                None
                            } else {
                                old_slots[k]
                            });
                        }
                        assert(slots_view(slots@) =~= slots_after_moves(moves, before, c + 1));
                    },
                    None => {
                        assert(moves[c as int] is None);
                        transfers.push(CellTransfer::Untouched);
                        assert forall|k: int| 0 <= k < slots.len() implies slots_view(
                            slots@,
                        )[k] == slots_after_moves(moves, before, c + 1)[k] by {
                            lemma_taken_step(moves, c as int, k);
                            assert(cur[k] == slots_after_moves(moves, before, c as int)[k]);
                        }
                        assert(slots_view(slots@) =~= slots_after_moves(moves, before, c + 1));
                    },
                }
                c = c + 1;
            }
            assert(transfers_view(transfers@) =~= cell_transfers(moves, before));
        },
    }
    transfers
}

/// Binds the arguments of one call to the parameters of `code`.
///
/// `defaults` and `kwdefaults` are the function's defaults as they stood when
/// the call was made. The result is exactly [`bind_spec`]: the filled slots
/// and the cell transfers where the call fits, else the first error in the
/// order of the phases. Nothing but the result is written.
pub fn bind(
    code: &CodeSpec,
    func_args: &FuncArgs,
    defaults: &Vec<PyObjectRef>,
    kwdefaults: &Vec<(String, PyObjectRef)>,
) -> (r: Result<BoundArguments, BindError>)
    requires
        code.wf(),
        defaults.len() <= code.arg_count,
    ensures
        outcome_view(r) == bind_spec(
            *code,
            func_args.args@,
            func_args.keywords(),
            defaults@,
            named_view(kwdefaults@),
        ),
        r matches Ok(bound) ==> bound.fastlocals.len() == code.varnames.len()
            && bound.cell_transfers.len() == code.cell_moves().len(),
{
    let nargs = func_args.args.len();
    if !code.flags.has_varargs && nargs > code.arg_count {
        return Err(BindError::TooManyPositional { expected: code.arg_count, given: nargs });
    }
    let mut slots = place_positional(code, &func_args.args);
    let (extra, posonly) = match bind_keywords(code, &mut slots, &func_args.kwargs) {
        Ok(gathered) => gathered,
        Err(e) => {
            return Err(e);
        },
    };
    if posonly.len() > 0 {
        return Err(BindError::PositionalOnlyAsKeyword { names: posonly });
    }
    let ghost keyed = slots_view(slots@);
    if code.flags.has_varkeywords {
        let at = code.arg_count + code.kwonlyarg_count + if code.flags.has_varargs {
            1usize
        } else {
            0usize
        };
        let ghost extra_view = named_view(extra@);
        slots.set(at, Some(Local::Dict(extra)));
        assert(slots_view(slots@) =~= keyed.update(
            at as int,
            Some(LocalView::Dict(extra_view)),
        ));
    }
    let nrequired = code.arg_count - defaults.len();
    let missing = collect_missing(code, &slots, nargs, nrequired);
    if missing.len() > 0 {
        return Err(BindError::MissingPositional { names: missing });
    }
    fill_defaults(code, &mut slots, defaults);
    match fill_kwonly(code, &mut slots, kwdefaults) {
        Ok(()) => {},
        Err(e) => {
            return Err(e);
        },
    }
    let cell_transfers = move_cells(code, &mut slots);
    assert(transfers_view(cell_transfers@).len() == cell_transfers.len());
    Ok(BoundArguments { fastlocals: slots, cell_transfers })
}

} // verus!
