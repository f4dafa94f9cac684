use vstd::prelude::*;

verus! {

/// Why an operation on the voxel registry could not be carried out.
#[derive(PartialEq, Eq, Structural, Debug, Clone, Copy)]
pub enum VoxelError {
    /// The event's target id is not registered.
    UnknownTarget,
    /// The edge's source id is not registered.
    UnknownSource,
    /// The id to register is already taken.
    DuplicateOrInvalid,
    /// Shared state can no longer be trusted, as after a poisoned lock.
    CorruptedState,
}

} // verus!
