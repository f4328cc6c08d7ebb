//! The conditions that the control core reports to its caller.

use vstd::prelude::*;

verus! {

/// Why a request to the control core was turned down.
///
/// Neither condition stops the control loop: the state that the request
/// would have changed is left as it was.
#[derive(Clone, Copy, Debug, PartialEq, Eq, Structural)]
pub enum ControlError {
    /// A controller was set up with a gain that is not a finite number.
    ConfigurationError,
    /// A motion segment was queued on an axis whose queue is full.
    CapacityExceeded,
}

} // verus!
