//! The terminal failure kinds of a transfer.

use vstd::prelude::*;

verus! {

/// Why a transfer ended without success. Every kind is terminal: the
/// protocol has no partial resume.
#[derive(Clone, Copy, PartialEq, Eq, Structural, Debug)]
pub enum XModemError {
    /// The handshake could not be established within the retry limit.
    SynchronizationTimeout,
    /// A data block could not be sent or received correctly within the
    /// retry limit.
    TransferAborted,
    /// The end-of-transmission marker was not acknowledged within the
    /// retry limit.
    EndOfTransmissionTimeout,
    /// A second consecutive CAN byte, or, on the sending side, an EOT
    /// received during the handshake.
    Cancelled,
    /// A stream failure not otherwise classified.
    IoError,
}

} // verus!
