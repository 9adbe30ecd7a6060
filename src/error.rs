use vstd::prelude::*;
use crate::command::Command;

verus! {

/// Why a received PDU does not answer the request held for its index.
#[derive(Debug, Clone, Copy, PartialEq, Eq, Structural)]
pub enum PduValidationError {
    /// The response carries another index than the request.
    IndexMismatch { sent: Command, received: Command },
    /// The response carries another command code than the request.
    CommandMismatch { sent: Command, received: Command },
}

/// Errors of the wire codec and of the frame slots.
#[derive(Debug, Clone, Copy, PartialEq, Eq, Structural)]
pub enum PduError {
    /// The destination buffer is smaller than the frame, or the payload is
    /// longer than a PDU can carry.
    TooLong,
    /// The raw frame is shorter than an Ethernet II header.
    Ethernet,
    /// Fewer than two bytes where the frame header should be.
    TruncatedHeader,
    /// The PDU ends before one of its fields.
    Truncated,
    /// A command code that the protocol does not define.
    UnknownCommand(u8),
    /// A wire index with no slot in the pool.
    InvalidIndex(u8),
    /// A response that parses but does not answer its request.
    Validation(PduValidationError),
    /// A slot was asked for a transition its state does not allow.
    InvalidFrameState,
}

/// Errors surfaced to the callers of the transport core.
#[derive(Debug, Clone, Copy, PartialEq, Eq)]
pub enum Error {
    Pdu(PduError),
    /// The working counter of a response is not the expected one; `context`
    /// names what the caller was doing.
    WorkingCounter { expected: u16, received: u16, context: Option<&'static str> },
    /// No response arrived before the deadline.
    Timeout,
    /// A configuration-memory read does not fit where it is going.
    EepromSectionOverrun,
    /// A configuration-memory section ended before the bytes asked for.
    EepromSectionUnderrun,
}

} // verus!
