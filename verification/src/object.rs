//! References to objects of the machine's heap.

use vstd::prelude::*;

verus! {

/// A reference to an object that lives in the machine's heap.
///
/// Two references are the same object exactly when their ids are equal; what
/// the object holds is the heap's business, not this crate's.
#[derive(Clone, Copy, Debug, PartialEq, Eq, Structural)]
pub struct PyObjectRef {
    pub id: u64,
}

impl PyObjectRef {
    /// The reference with the given identity.
    pub fn new(id: u64) -> (r: Self)
        ensures
            r.id == id,
    {
        PyObjectRef { id }
    }

    /// Identity: whether both references point at one object.
    pub fn is(&self, other: &PyObjectRef) -> (same: bool)
        ensures
            same == (self.id == other.id),
            same == (*self == *other),
    {
        self.id == other.id
    }
}


/// A heap object of this crate's making: what it holds, and its class.
#[derive(Clone, Copy, Debug, PartialEq, Eq)]
pub struct PyRef<T> {
    pub payload: T,
    /// The type object that the new object is an instance of.
    pub class: PyObjectRef,
}

/// What an attribute setter is handed: a value to assign, or the request to
/// delete the attribute.
#[derive(Clone, Debug, PartialEq, Eq)]
pub enum PySetterValue<T> {
    Assign(T),
    Delete,
}

/// What an object holds, as far as a typed setter asks.
#[derive(Clone, Debug, PartialEq, Eq)]
pub enum Payload {
    /// A string, with its text.
    Str(String),
    /// A tuple, with its items.
    Tuple(Vec<PyObjectRef>),
    /// Anything else.
    Other,
}

/// A copy of a list of references.
pub fn copy_refs(items: &Vec<PyObjectRef>) -> (copy: Vec<PyObjectRef>)
    ensures
        copy@ == items@,
{
    let mut copy: Vec<PyObjectRef> = Vec::new();
    let mut i: usize = 0;
    while i < items.len()
        invariant
            i <= items.len(),
            copy@ == items@.take(i as int),
        decreases items.len() - i,
    {
        copy.push(items[i]);
        assert(copy@ =~= items@.take(i + 1));
        i = i + 1;
    }
    assert(items@.take(items.len() as int) =~= items@);
    copy
}

/// A copy of a list of named references.
pub fn copy_named(pairs: &Vec<(String, PyObjectRef)>) -> (copy: Vec<(String, PyObjectRef)>)
    ensures
        copy@ == pairs@,
{
    let mut copy: Vec<(String, PyObjectRef)> = Vec::new();
    let mut i: usize = 0;
    while i < pairs.len()
        invariant
            i <= pairs.len(),
            copy@ == pairs@.take(i as int),
        decreases pairs.len() - i,
    {
        copy.push((pairs[i].0.clone(), pairs[i].1));
        assert(copy@ =~= pairs@.take(i + 1));
        i = i + 1;
    }
    assert(pairs@.take(pairs.len() as int) =~= pairs@);
    copy
}

} // verus!
