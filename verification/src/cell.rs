//! The closure cell: a single slot that a defining frame and the functions
//! nested in it use to share one variable.

use vstd::prelude::*;
use vstd::string::StringExecFns;
use crate::context::{Context, PyType};
use crate::object::{PyObjectRef, PyRef};

verus! {

/// Reading a cell that holds nothing.
#[derive(Clone, Copy, Debug, PartialEq, Eq, Structural)]
pub struct EmptyCellError;

impl EmptyCellError {
    /// The message of the error.
    pub fn message(&self) -> (m: String)
        ensures
            m@ == "Cell is empty"@,
    {
        String::from_str("Cell is empty")
    }
}

/// A slot that holds one value or nothing.
#[derive(Debug)]
pub struct PyCell {
    contents: Option<PyObjectRef>,
}

impl View for PyCell {
    type V = Option<PyObjectRef>;

    closed spec fn view(&self) -> Option<PyObjectRef> {
        self.contents
    }
}

impl PyCell {
    /// A cell that starts with `contents`.
    pub fn new(contents: Option<PyObjectRef>) -> (cell: Self)
        ensures
            cell@ == contents,
    {
        PyCell { contents }
    }

    /// The type object of closure cells.
    pub fn class(ctx: &Context) -> (class: &PyType)
        ensures
            *class == ctx.types.cell_type,
    {
        &ctx.types.cell_type
    }

    /// Constructs a cell object as an instance of `cls`.
    pub fn py_new(cls: PyObjectRef, value: Option<PyObjectRef>) -> (r: PyRef<PyCell>)
        ensures
            r.class == cls,
            r.payload@ == value,
    {
        PyRef { payload: Self::new(value), class: cls }
    }

    /// What the cell holds now, `None` for an empty cell.
    pub fn get(&self) -> (contents: Option<PyObjectRef>)
        ensures
            contents == self@,
    {
        self.contents
    }

    /// Replaces what the cell holds, whatever it held before.
    pub fn set(&mut self, x: Option<PyObjectRef>)
        ensures
            final(self)@ == x,
    {
        self.contents = x;
    }

    /// The value of the cell for a reader that needs one: an empty cell is an
    /// error of its own kind, never a null value.
    pub fn cell_contents(&self) -> (r: Result<PyObjectRef, EmptyCellError>)
        ensures
            self@ is Some ==> r == Ok::<PyObjectRef, EmptyCellError>(self@->0),
            self@ is None ==> r is Err,
    {
        match self.contents {
            Some(v) => Ok(v),
            None => Err(EmptyCellError),
        }
    }

    /// Stores `x` in the cell.
    pub fn set_cell_contents(&mut self, x: PyObjectRef)
        ensures
            final(self)@ == Some(x),
    {
        self.set(Some(x));
    }
}

} // verus!
