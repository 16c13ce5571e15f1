use vstd::prelude::*;

verus! {

/// What went wrong in a transfer's message exchange.
#[derive(Clone, Copy, Debug, PartialEq, Eq, Structural)]
pub enum ProtocolViolation {
    /// The peer sent a message of the wrong kind, or for another transfer.
    UnexpectedMessage,
    /// The receiver declined the transfer.
    Rejected,
    /// A chunk arrived out of order.
    ChunkIndexMismatch { expected: u64, got: u32 },
    /// The bytes accounted for differ from the declared file size.
    SizeMismatch { expected: u64, got: u64 },
    /// The sender reported that the transfer failed.
    SenderFailed,
    /// The step does not apply in the session's current phase.
    WrongPhase,
    /// A chunk would carry the total past the declared file size.
    ExceedsDeclaredSize,
    /// A progress update would move backwards or past the file size.
    ProgressOutOfOrder,
    /// A transfer with this id is already registered.
    DuplicateTransferId,
    /// A status update would move a transfer backwards.
    StatusRegression,
}

/// The library's error taxonomy.
#[derive(Clone, Debug)]
pub enum Error {
    /// No adapter, or a scan could not be started or stopped.
    Discovery(String),
    /// Bind, connect, read or write failed; carries the cause.
    Transport(String),
    /// The secure handshake or its configuration failed.
    Security(String),
    /// The peer broke the transfer protocol.
    Protocol(ProtocolViolation),
    /// No transfer with this id is registered.
    TransferNotFound(String),
    /// A send or receive was attempted without a connected session.
    NoActiveConnection,
}

} // verus!
