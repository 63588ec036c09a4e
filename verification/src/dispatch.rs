//! What the dispatcher decides before a frame exists and after it is bound:
//! where the frame keeps its locals, and how the frame is to be executed.

use vstd::prelude::*;
use crate::args::{BoundArguments, BoundView};
use crate::code::CodeFlags;
use crate::object::PyObjectRef;

verus! {

/// Where a frame keeps its local names.
#[derive(Clone, Copy, Debug, PartialEq, Eq, Structural)]
pub enum LocalsStorage {
    /// A new, empty mapping made for this call.
    Fresh,
    /// The mapping that the caller supplied.
    Supplied(PyObjectRef),
    /// The function's globals, which then serve as locals too.
    Globals(PyObjectRef),
}

impl LocalsStorage {
    /// The storage of a call: fresh where the code asks for new locals, else
    /// what the caller supplied, else the globals.
    pub open spec fn select_spec(flags: CodeFlags, supplied: Option<PyObjectRef>, globals: PyObjectRef)
        -> LocalsStorage {
        if flags.new_locals {
            LocalsStorage::Fresh
        } else {
            match supplied {
                Some(mapping) => LocalsStorage::Supplied(mapping),
                None => LocalsStorage::Globals(globals),
            }
        }
    }

    /// Picks the storage of a call.
    pub fn select(flags: CodeFlags, supplied: Option<PyObjectRef>, globals: PyObjectRef) -> (r:
        LocalsStorage)
        ensures
            r == Self::select_spec(flags, supplied, globals),
    {
        if flags.new_locals {
            LocalsStorage::Fresh
        } else {
            match supplied {
                Some(mapping) => LocalsStorage::Supplied(mapping),
                None => LocalsStorage::Globals(globals),
            }
        }
    }
}

/// How a bound frame is executed.
#[derive(Clone, Copy, Debug, PartialEq, Eq, Structural)]
pub enum ExecutionStrategy {
    /// Run the frame to completion now.
    Direct,
    /// Wrap the frame, not started, in a generator.
    Generator,
    /// Wrap the frame, not started, in a coroutine.
    Coroutine,
    /// Wrap the frame, not started, in an asynchronous generator.
    AsyncGenerator,
}

impl ExecutionStrategy {
    /// The strategy that the two flags of the code select.
    pub open spec fn of(flags: CodeFlags) -> ExecutionStrategy {
        if flags.is_generator {
            if flags.is_coroutine {
                ExecutionStrategy::AsyncGenerator
            } else {
                ExecutionStrategy::Generator
            }
        } else {
            if flags.is_coroutine {
                ExecutionStrategy::Coroutine
            } else {
                ExecutionStrategy::Direct
            }
        }
    }

    /// Whether the frame's body starts to run as part of the call.
    pub open spec fn runs_now(self) -> bool {
        self == ExecutionStrategy::Direct
    }

    /// Derives the strategy from the flags of the code.
    pub fn from_flags(flags: CodeFlags) -> (r: ExecutionStrategy)
        ensures
            r == Self::of(flags),
    {
        match (flags.is_generator, flags.is_coroutine) {
            (true, false) => ExecutionStrategy::Generator,
            (false, true) => ExecutionStrategy::Coroutine,
            (true, true) => ExecutionStrategy::AsyncGenerator,
            (false, false) => ExecutionStrategy::Direct,
        }
    }

    /// Whether the frame's body starts to run as part of the call. A
    /// generator, a coroutine and an asynchronous generator are handed back
    /// unstarted: their body runs when they are first resumed.
    pub fn starts_frame(&self) -> (now: bool)
        ensures
            now == self.runs_now(),
    {
        match self {
            ExecutionStrategy::Direct => true,
            _ => false,
        }
    }
}

/// Everything the machine needs to build the frame of a call and to start
/// it, or to hold it back.
#[derive(Clone, Debug, PartialEq, Eq)]
pub struct FramePlan {
    /// Where the frame keeps its locals.
    pub locals: LocalsStorage,
    /// The globals of the function.
    pub globals: PyObjectRef,
    /// The closure cells of the function, in order; empty where it has none.
    pub closure: Vec<PyObjectRef>,
    /// The local slots and the cell transfers.
    pub bound: BoundArguments,
    /// How the frame is executed.
    pub strategy: ExecutionStrategy,
    /// The function's name, which a suspended object carries.
    pub name: String,
}

/// A [`FramePlan`] as plain data.
pub struct FramePlanView {
    pub locals: LocalsStorage,
    pub globals: PyObjectRef,
    pub closure: Seq<PyObjectRef>,
    pub bound: BoundView,
    pub strategy: ExecutionStrategy,
    pub name: Seq<char>,
}

impl View for FramePlan {
    type V = FramePlanView;

    open spec fn view(&self) -> FramePlanView {
        FramePlanView {
            locals: self.locals,
            globals: self.globals,
            closure: self.closure@,
            bound: self.bound@,
            strategy: self.strategy,
            name: self.name@,
        }
    }
}

/// The two ways in which a call goes on.
#[derive(Clone, Debug, PartialEq, Eq)]
pub enum Invocation {
    /// The compiled fast path has answered: this is the call's result.
    Native(PyObjectRef),
    /// A frame is to be built from the plan.
    Frame(FramePlan),
}

/// An [`Invocation`] as plain data.
pub enum InvocationView {
    Native(PyObjectRef),
    Frame(FramePlanView),
}

impl View for Invocation {
    type V = InvocationView;

    open spec fn view(&self) -> InvocationView {
        match self {
            Invocation::Native(value) => InvocationView::Native(*value),
            Invocation::Frame(plan) => InvocationView::Frame(plan@),
        }
    }
}

} // verus!
