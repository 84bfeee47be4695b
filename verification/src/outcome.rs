//! The error channel shared by every entry point.
//!
//! The accelerator reports a uniform (code, message) pair; code zero means
//! success and anything else means the result buffer is undefined and must
//! not be read.  This layer adds the two conditions it detects itself, both
//! before any boundary crossing: a length disagreement between the point and
//! scalar buffers, and a declared per-point size that does not match the
//! reference layout.  Every detected error is terminal for the current call;
//! the layer never retries and never returns a partial result.

use vstd::prelude::*;

verus! {

/// What the accelerator reported for one call: `code` zero on success,
/// nonzero on failure, with an accelerator-supplied message.
#[derive(Clone, Debug, PartialEq, Eq)]
pub struct DeviceOutcome {
    pub code: i32,
    pub message: String,
}

/// Why an MSM request failed.
#[derive(Clone, Debug, PartialEq, Eq)]
pub enum MsmError {
    /// The point and scalar buffers disagree in length.  Detected locally;
    /// no boundary crossing happens for such a request.
    LengthMismatch { points_len: usize, scalars_len: usize },
    /// The declared per-point byte size does not match the reference layout
    /// of the active curve family.  A wrong stride would silently corrupt
    /// the result, so the request is refused before any crossing.
    LayoutMismatch { declared: usize, expected: usize },
    /// The accelerator returned a nonzero code; its message is passed on
    /// verbatim.  The result buffer of such a call is undefined.
    DeviceError { code: i32, message: String },
}

impl MsmError {
    /// Whether this error was detected before any boundary crossing.
    pub fn detected_locally(&self) -> (r: bool)
        ensures
            r == !(*self is DeviceError),
    {
        match self {
            MsmError::LengthMismatch { .. } => true,
            MsmError::LayoutMismatch { .. } => true,
            MsmError::DeviceError { .. } => false,
        }
    }
}

} // verus!
