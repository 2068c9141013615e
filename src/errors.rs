use vstd::prelude::*;

verus! {

/// Errors of the packet aggregator and its wire codec.
#[derive(Debug)]
pub enum SenderError {
    /// A payload is longer than one owner's share of a universe.
    WrongPacketSize,
    /// Every owner slot is already taken.
    MaximumOwnersReached,
    /// The sender could not be set up: its source name does not fit a
    /// packet, or the transport could not be opened.
    CreationError,
    /// The socket failed while it was being opened or used.
    IOError(String),
    /// A flushed datagram could not be handed to the network.
    TransmitError(String),
    /// A datagram could not be built.
    ProtocolEncodeError,
    /// A transport failure of a kind that is not classified above.
    Unclassified(String),
}

/// Errors of the engine's effect and filter selection.
#[derive(Debug)]
pub enum ApplicationError {
    /// Effect with the given id was not found.
    EffectNotFound { id: usize },
    /// Filter with the given id was not found.
    FilterNotFound { id: usize },
    /// No device is selected as input.
    NoDeviceSelected,
    /// Maximum amount of parallel engines was reached.
    MaximumEngines,
    /// No input stream is available.
    NoInputStream,
}

} // verus!
