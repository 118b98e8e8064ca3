//! Whether the log may hold operations that Redis has not carried out.
use vstd::prelude::*;

verus! {

/// The flag that a successful append sets and a drain that finds nothing more to do clears.
#[derive(Clone, Copy, Debug, PartialEq, Eq, Structural)]
pub struct DirtyFlag {
    pub dirty: bool,
}

impl DirtyFlag {
    /// The flag at the start: operations of an earlier run may be waiting in the log.
    pub fn new() -> (r: Self)
        ensures
            r.dirty,
    {
        DirtyFlag { dirty: true }
    }
}

/// Sets the flag to the given value.
pub fn set_global_surreal_dirty_flag(flag: &mut DirtyFlag, value: bool)
    ensures
        final(flag).dirty == value,
{
    flag.dirty = value;
}

/// The current value of the flag.
pub fn get_global_surreal_dirty_flag(flag: &DirtyFlag) -> (r: bool)
    ensures
        r == flag.dirty,
{
    flag.dirty
}

} // verus!
