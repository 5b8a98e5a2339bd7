//! The operating system family the application runs on. Behaviour that
//! differs between platforms takes it as an explicit argument.
use vstd::prelude::*;

verus! {

/// Operating-system family.
#[derive(Debug, Clone, Copy, PartialEq, Eq, Structural)]
pub enum Platform {
    MacOs,
    Windows,
    /// Any other desktop (Linux development builds).
    Other,
}

} // verus!
