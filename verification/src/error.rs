//! The errors a call into the backend can end with.

use vstd::prelude::*;

verus! {

/// Why a call into the backend did not produce a result.
#[derive(Clone, Copy, Debug, PartialEq, Eq, Structural)]
pub enum MpsError {
    /// No compute device is present on this machine.
    DeviceCreationError,
    /// The shader source did not compile, or the entry point is missing.
    ShaderCompilationError,
    /// A dimension of the requested work is zero.
    InvalidDimensions,
    /// The backend has no kernel for the operation.
    NotImplemented,
}

} // verus!
