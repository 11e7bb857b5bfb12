use vstd::prelude::*;

verus! {

/// Lifecycle of a resource spec; `Created` carries the kind's runtime status.
#[derive(Clone, Copy, Debug, PartialEq, Eq, Structural)]
pub enum SpecState<T> {
    Creating,
    Created(T),
    Deleting,
    Deleted,
}

impl<T: Copy> SpecState<T> {
    /// The spec is waiting for its create operation to complete.
    pub fn creating(&self) -> (r: bool)
        ensures
            r == self is Creating,
    {
        match self {
            SpecState::Creating => true,
            _ => false,
        }
    }

    /// The spec has been created.
    pub fn created(&self) -> (r: bool)
        ensures
            r == self is Created,
    {
        match self {
            SpecState::Created(_) => true,
            _ => false,
        }
    }

    /// The spec is being deleted.
    pub fn deleting(&self) -> (r: bool)
        ensures
            r == self is Deleting,
    {
        match self {
            SpecState::Deleting => true,
            _ => false,
        }
    }

    /// The spec has been deleted.
    pub fn deleted(&self) -> (r: bool)
        ensures
            r == self is Deleted,
    {
        match self {
            SpecState::Deleted => true,
            _ => false,
        }
    }
}

} // verus!
