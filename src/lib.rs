//! An SNTPv4 client core: the 48-byte packet codec, the response checks and
//! the fixed-point timestamp arithmetic that yields clock offset and
//! round-trip delay, with the clock and the datagram transport left to the
//! caller.
//!
//! One round goes: build a request with `NtpPacket::new`, send its
//! `encode`d bytes, decide the send with `check_sent`, receive one datagram,
//! and hand it to `complete_response`, which stamps the receive time and
//! checks the response before computing offset and delay.
pub mod clock;
pub mod engine;
pub mod packet;
pub mod time;
pub mod types;

pub use crate::clock::StdTimestampGen;
pub use crate::engine::{
    check_sent, complete_response, process_response, validate_response, SocketAddress,
};
pub use crate::packet::{shifter, NtpPacket};
pub use crate::time::{
    fraction_to_microseconds, fraction_to_milliseconds, fraction_to_nanoseconds,
    fraction_to_picoseconds, get_ntp_timestamp, ntp_timestamp, offset_calculate,
    roundtrip_calculate, NtpTimestamp, Units,
};
pub use crate::types::{
    Error, NtpContext, NtpResult, NtpTimestampGenerator, Result, SendRequestResult,
};
