//! Transport core of a fieldbus master: the PDU wire codec, the frame-slot
//! pool that multiplexes request/response exchanges, and a chunked reader
//! over a device's configuration memory.

pub mod bytes;
pub mod ethernet;
pub mod error;
pub mod command;
pub mod pdu;
pub mod slot;
pub mod pdu_loop;
pub mod reader;
