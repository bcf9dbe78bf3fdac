//! Transports: how bytes reach a dongle and come back.
pub mod capture;
pub mod hidraw;
pub mod replay;
pub mod virtual_dongle;

use vstd::prelude::*;

verus! {

/// Why a transport cannot go on.
#[derive(Debug, Copy, Clone, PartialEq, Eq, Structural)]
pub enum TransportError {
    /// The other end is gone.
    BrokenPipe,
}

} // verus!
