use vstd::prelude::*;

verus! {

/// Why an operation on a resource value was refused. The value it was
/// applied to is left as it was.
#[derive(Clone, Copy, Debug, PartialEq, Eq, Structural)]
pub enum LifecycleError {
    /// An upload was asked of a value that is not in its pre-upload state.
    NotPreLoad,
    /// A draw, update or disposal was asked of a value that is not resident.
    NotLoaded,
    /// A build was asked of a shader program that is not in its source state.
    NotPreBuild,
    /// A shader program was used before it was built.
    NotBuilt,
    /// The value has already been disposed.
    AlreadyDisposed,
    /// A GPU handle of zero was offered where a live object is required.
    NullHandle,
    /// The shader program failed to link.
    LinkFailed,
    /// The framebuffer did not pass its completeness check.
    IncompleteTarget,
    /// The device was initialized twice.
    AlreadyInitialized,
    /// The device has not been initialized, so its built-in shapes are missing.
    NotInitialized,
    /// The data would not fit in one GPU buffer.
    BufferTooLarge,
}

} // verus!
