//! Which path an operation takes: the one to real devices, or the mock.

use vstd::prelude::*;

verus! {

/// The path is chosen by configuration, once, and handed to each operation.
/// No operation looks at a device's data to guess it.
#[derive(Clone, Copy, Debug, PartialEq, Eq, Structural, Hash)]
pub enum PathMode {
    /// Discovery asks the transport; a connection runs the handshake.
    Real,
    /// Discovery reports one fixed device; a connection waits a fixed time
    /// and succeeds, and touches no device, controller or session.
    Mock,
}

impl PathMode {
    /// The mode for a configuration flag that says whether the mock is on.
    pub fn from_mock_flag(mock: bool) -> (mode: PathMode)
        ensures
            mode == (if mock { PathMode::Mock } else { PathMode::Real }),
    {
        if mock {
            PathMode::Mock
        } else {
            PathMode::Real
        }
    }
}

} // verus!
