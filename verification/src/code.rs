//! The static description of a compiled function that a call is bound
//! against: its parameter shape and its behaviour flags.

use vstd::prelude::*;

verus! {

/// The flags of a code object that calls depend on.
#[derive(Clone, Copy, Debug, PartialEq, Eq, Structural)]
pub struct CodeFlags {
    /// The function takes `*args`.
    pub has_varargs: bool,
    /// The function takes `**kwargs`.
    pub has_varkeywords: bool,
    /// Each call gets a fresh mapping for its locals.
    pub new_locals: bool,
    /// The body is a generator.
    pub is_generator: bool,
    /// The body is a coroutine.
    pub is_coroutine: bool,
}

/// A code object, as far as calls read it.
///
/// The local slots are laid out in a fixed order: the positional parameters,
/// the keyword-only parameters, the `*args` slot if there is one, the
/// `**kwargs` slot if there is one, and then the other locals.
#[derive(Debug)]
pub struct CodeSpec {
    /// The name the function was defined under.
    pub obj_name: String,
    /// The names of the local variables, one per slot.
    pub varnames: Vec<String>,
    /// How many parameters can be given by position.
    pub arg_count: usize,
    /// How many of those can be given by position only.
    pub posonlyarg_count: usize,
    /// How many parameters can be given by keyword only.
    pub kwonlyarg_count: usize,
    pub flags: CodeFlags,
    /// For each cell slot, the argument slot whose value moves into that
    /// cell when the call is bound, if there is one.
    pub cell2arg: Option<Vec<Option<usize>>>,
}

impl CodeSpec {
    /// The names of the local slots as plain text.
    pub open spec fn names(&self) -> Seq<Seq<char>> {
        self.varnames.deep_view()
    }

    /// The number of named parameters: positional, then keyword-only.
    pub open spec fn total_args(&self) -> int {
        self.arg_count + self.kwonlyarg_count
    }

    /// The slot of `*args`, where the function has one.
    pub open spec fn varargs_slot(&self) -> int {
        self.total_args()
    }

    /// The slot of `**kwargs`, where the function has one.
    pub open spec fn varkeywords_slot(&self) -> int {
        self.total_args() + if self.flags.has_varargs { 1int } else { 0int }
    }

    /// The number of slots that a call fills: the named parameters and the
    /// two containers.
    pub open spec fn param_slots(&self) -> int {
        self.varkeywords_slot() + if self.flags.has_varkeywords { 1int } else { 0int }
    }

    /// The moves from argument slots into cells, one entry per cell; empty
    /// where the code has no such table.
    pub open spec fn cell_moves(&self) -> Seq<Option<usize>> {
        match self.cell2arg {
            Some(table) => table@,
            None => Seq::empty(),
        }
    }

    /// Well-formedness: the positional-only parameters are among the
    /// positional ones, every parameter slot has a name, and cells take
    /// their values from parameter slots.
    pub open spec fn wf(&self) -> bool {
        &&& self.posonlyarg_count <= self.arg_count
        &&& self.param_slots() <= self.varnames.len()
        &&& forall|c: int|
            0 <= c < self.cell_moves().len() ==> (#[trigger] self.cell_moves()[c] matches Some(a)
                ==> a < self.param_slots())
    }

    /// Checks well-formedness.
    pub fn is_well_formed(&self) -> (ok: bool)
        ensures
            ok == self.wf(),
    {
        if self.posonlyarg_count > self.arg_count {
            return false;
        }
        let n = self.varnames.len();
        if self.arg_count > n || self.kwonlyarg_count > n - self.arg_count {
            return false;
        }
        let mut slots = self.arg_count + self.kwonlyarg_count;
        if self.flags.has_varargs {
            if slots >= n {
                return false;
            }
            slots = slots + 1;
        }
        if self.flags.has_varkeywords {
            if slots >= n {
                return false;
            }
            slots = slots + 1;
        }
        assert(slots == self.param_slots());
        match &self.cell2arg {
            None => true,
            Some(table) => {
                let mut c: usize = 0;
                while c < table.len()
                    invariant
                        c <= table.len(),
                        table@ == self.cell_moves(),
                        slots == self.param_slots(),
                        forall|j: int|
                            0 <= j < c ==> (#[trigger] self.cell_moves()[j] matches Some(a) ==> a
                                < self.param_slots()),
                    decreases table.len() - c,
                {
                    match table[c] {
                        Some(a) => {
                            if a >= slots {
                                return false;
                            }
                        },
                        None => {},
                    }
                    c = c + 1;
                }
                true
            },
        }
    }
}

} // verus!
