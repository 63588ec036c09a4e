//! The arguments of one call, and the local slots that binding fills.

use vstd::prelude::*;
use crate::object::PyObjectRef;

verus! {

/// A list of named values as plain data: each name as text, with its value.
pub open spec fn named_view(pairs: Seq<(String, PyObjectRef)>) -> Seq<(Seq<char>, PyObjectRef)> {
    pairs.map_values(|p: (String, PyObjectRef)| (p.0@, p.1))
}

/// The arguments of a call: the positional values in order, and the keyword
/// arguments in the order in which they were written.
#[derive(Clone, Debug, PartialEq, Eq)]
pub struct FuncArgs {
    pub args: Vec<PyObjectRef>,
    pub kwargs: Vec<(String, PyObjectRef)>,
}

impl FuncArgs {
    /// The keyword arguments as plain data.
    pub open spec fn keywords(&self) -> Seq<(Seq<char>, PyObjectRef)> {
        named_view(self.kwargs@)
    }

    /// The arguments of a call with the given positional and keyword parts.
    pub fn new(args: Vec<PyObjectRef>, kwargs: Vec<(String, PyObjectRef)>) -> (r: Self)
        ensures
            r.args == args,
            r.kwargs == kwargs,
    {
        FuncArgs { args, kwargs }
    }

    /// Puts `item` in front of the positional arguments.
    pub fn prepend_arg(&mut self, item: PyObjectRef)
        ensures
            final(self).args@ == seq![item] + old(self).args@,
            final(self).kwargs == old(self).kwargs,
    {
        self.args.insert(0, item);
        assert(self.args@ =~= seq![item] + old(self).args@);
    }
}

/// What a local slot holds once a call is bound.
#[derive(Clone, Debug, PartialEq, Eq)]
pub enum Local {
    /// A value that the caller passed, or a default.
    Object(PyObjectRef),
    /// The positional arguments beyond the named parameters, for `*args`.
    Tuple(Vec<PyObjectRef>),
    /// The keyword arguments that name no parameter, for `**kwargs`, in the
    /// order in which each name first came.
    Dict(Vec<(String, PyObjectRef)>),
}

/// A [`Local`] as plain data.
pub enum LocalView {
    Object(PyObjectRef),
    Tuple(Seq<PyObjectRef>),
    Dict(Seq<(Seq<char>, PyObjectRef)>),
}

impl View for Local {
    type V = LocalView;

    open spec fn view(&self) -> LocalView {
        match self {
            Local::Object(o) => LocalView::Object(*o),
            Local::Tuple(items) => LocalView::Tuple(items@),
            Local::Dict(pairs) => LocalView::Dict(named_view(pairs@)),
        }
    }
}

/// One slot as plain data.
pub open spec fn slot_view(slot: Option<Local>) -> Option<LocalView> {
    match slot {
        Some(local) => Some(local@),
        None => None,
    }
}

/// The slots of a frame as plain data.
pub open spec fn slots_view(slots: Seq<Option<Local>>) -> Seq<Option<LocalView>> {
    slots.map_values(|s: Option<Local>| slot_view(s))
}

/// What binding does to one cell of the frame.
#[derive(Clone, Debug, PartialEq, Eq)]
pub enum CellTransfer {
    /// The cell is left as the frame made it.
    Untouched,
    /// The cell receives what was taken out of an argument slot.
    Store(Option<Local>),
}

/// A [`CellTransfer`] as plain data.
pub enum CellTransferView {
    Untouched,
    Store(Option<LocalView>),
}

impl View for CellTransfer {
    type V = CellTransferView;

    open spec fn view(&self) -> CellTransferView {
        match self {
            CellTransfer::Untouched => CellTransferView::Untouched,
            CellTransfer::Store(slot) => CellTransferView::Store(slot_view(*slot)),
        }
    }
}

/// The transfers of a frame as plain data.
pub open spec fn transfers_view(transfers: Seq<CellTransfer>) -> Seq<CellTransferView> {
    transfers.map_values(|t: CellTransfer| t@)
}

/// The outcome of a successful binding: the local slots, and what goes into
/// the cells.
#[derive(Clone, Debug, PartialEq, Eq)]
pub struct BoundArguments {
    /// One entry per local slot of the code.
    pub fastlocals: Vec<Option<Local>>,
    /// One entry per cell that the code maps.
    pub cell_transfers: Vec<CellTransfer>,
}

/// [`BoundArguments`] as plain data.
pub struct BoundView {
    pub fastlocals: Seq<Option<LocalView>>,
    pub cell_transfers: Seq<CellTransferView>,
}

impl View for BoundArguments {
    type V = BoundView;

    open spec fn view(&self) -> BoundView {
        BoundView {
            fastlocals: slots_view(self.fastlocals@),
            cell_transfers: transfers_view(self.cell_transfers@),
        }
    }
}

} // verus!
