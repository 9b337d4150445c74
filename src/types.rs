//! The library's error kinds, its result type, the request state kept between
//! sending and receiving, and the clock interface that the caller supplies.
use vstd::prelude::*;

use crate::packet::NtpPacket;

verus! {

/// The error type for SNTP client
/// Errors originate on network layer or during processing response from a NTP server
#[derive(Copy, Clone, Debug, PartialEq, Eq, Structural)]
#[non_exhaustive]
pub enum Error {
    /// Origin timestamp value in a NTP response differs from the value
    /// that has been sent in the NTP request
    IncorrectOriginTimestamp,
    /// Incorrect mode value in a NTP response
    IncorrectMode,
    /// Incorrect Leap Indicator (LI) value in a NTP response
    IncorrectLeapIndicator,
    /// Incorrect version in a NTP response. Currently, `SNTPv4` is supported
    IncorrectResponseVersion,
    /// Incorrect stratum headers in a NTP response
    IncorrectStratumHeaders,
    /// Payload size of a NTP response does not meet `SNTPv4` specification
    IncorrectPayload,
    /// Network error occurred.
    Network,
    /// A NTP server address can not be resolved
    AddressResolve,
    /// A NTP server address response has been received from does not match
    /// to the address the request was sent to
    ResponseAddressMismatch,
}

/// SNTP library result type
pub type Result<T> = core::result::Result<T, Error>;

/// SNTP request result representation
#[derive(Copy, Clone, Debug, PartialEq, Eq, Structural)]
pub struct NtpResult {
    /// NTP server seconds value
    pub seconds: u32,
    /// NTP server seconds fraction value
    pub seconds_fraction: u32,
    /// Request roundtrip time in microseconds
    pub roundtrip: u64,
    /// Estimated difference between the NTP reference and the system time in microseconds
    pub offset: i64,
    /// Clock stratum of NTP server
    pub stratum: u8,
    /// Precision of NTP server as log2(seconds) - this should usually be negative
    pub precision: i8,
}

impl NtpResult {
    /// The result that `new` builds: a fraction of `u32::MAX`, the overflow
    /// mark of a converted fraction, is carried into `seconds` (modulo 2^32)
    /// and the fraction wraps to zero.
    pub open spec fn spec_new(
        seconds: u32,
        seconds_fraction: u32,
        roundtrip: u64,
        offset: i64,
        stratum: u8,
        precision: i8,
    ) -> NtpResult {
        NtpResult {
            seconds: if seconds_fraction == u32::MAX {
                ((seconds + 1) % 0x1_0000_0000) as u32
            } else {
                seconds
            },
            seconds_fraction: if seconds_fraction == u32::MAX {
                0
            } else {
                seconds_fraction
            },
            roundtrip,
            offset,
            stratum,
            precision,
        }
    }

    /// Create new NTP result
    /// Args:
    /// * `seconds` - number of seconds
    /// * `seconds_fraction` - number of seconds fraction
    /// * `roundtrip` - calculated roundtrip in microseconds
    /// * `offset` - calculated system clock offset in microseconds
    /// * `stratum` - integer indicating the stratum (level of server's hierarchy to stratum 0 - "reference clock")
    /// * `precision` - an exponent of two, where the resulting value is the precision of the system clock in seconds
    pub fn new(
        seconds: u32,
        seconds_fraction: u32,
        roundtrip: u64,
        offset: i64,
        stratum: u8,
        precision: i8,
    ) -> (r: Self)
        ensures
            r == NtpResult::spec_new(seconds, seconds_fraction, roundtrip, offset, stratum, precision),
            seconds_fraction == u32::MAX && seconds < u32::MAX ==> r.seconds == seconds + 1
                && r.seconds_fraction == 0,
    {
        let seconds = seconds.wrapping_add(seconds_fraction / u32::MAX);
        let seconds_fraction = seconds_fraction % u32::MAX;

        NtpResult { seconds, seconds_fraction, roundtrip, offset, stratum, precision }
    }

    /// Returns number of seconds reported by an NTP server
    pub fn sec(&self) -> (r: u32)
        ensures
            r == self.seconds,
    {
        self.seconds
    }

    /// Returns number of seconds fraction reported by an NTP server
    pub fn sec_fraction(&self) -> (r: u32)
        ensures
            r == self.seconds_fraction,
    {
        self.seconds_fraction
    }

    /// Returns request's roundtrip time (client -> server -> client) in microseconds
    pub fn roundtrip(&self) -> (r: u64)
        ensures
            r == self.roundtrip,
    {
        self.roundtrip
    }

    /// Returns system clock offset value in microseconds
    pub fn offset(&self) -> (r: i64)
        ensures
            r == self.offset,
    {
        self.offset
    }

    /// Returns reported stratum value (level of server's hierarchy to stratum 0 - "reference clock")
    pub fn stratum(&self) -> (r: u8)
        ensures
            r == self.stratum,
    {
        self.stratum
    }

    /// Returns reported precision value (an exponent of two, which results in the precision of server's system clock in seconds)
    pub fn precision(&self) -> (r: i8)
        ensures
            r == self.precision,
    {
        self.precision
    }
}

/// A trait encapsulating timestamp generator's operations
///
/// Under `no_std` environments a clock may not be available from the
/// standard library, so the caller implements this trait on an object of its
/// own and provides system timestamps for the SNTP client. All timestamps
/// count from the UNIX epoch, 1970-01-01 00:00:00 UTC.
pub trait NtpTimestampGenerator {
    /// Initialize timestamp generator state with `now` system time since UNIX EPOCH.
    /// Expected to be called every time before `timestamp_sec` and
    /// `timestamp_subsec_micros` usage.
    fn init(&mut self);

    /// Returns timestamp in seconds since UNIX EPOCH for the initialized generator
    fn timestamp_sec(&self) -> u64;

    /// Returns the fractional part of the timestamp in whole micro seconds.
    /// That method **should not** return microseconds since UNIX EPOCH
    fn timestamp_subsec_micros(&self) -> (r: u32)
        ensures
            r < 1_000_000,
    ;
}

/// SNTP client context that contains of objects that may be required for client's
/// operation
#[derive(Copy, Clone)]
pub struct NtpContext<T: NtpTimestampGenerator> {
    pub timestamp_gen: T,
}

impl<T: NtpTimestampGenerator + Copy> NtpContext<T> {
    /// Create SNTP client context with the given timestamp generator
    pub fn new(timestamp_gen: T) -> (r: Self)
        ensures
            r.timestamp_gen == timestamp_gen,
    {
        NtpContext { timestamp_gen }
    }
}

/// Preserve SNTP request sending operation result required during receiving and processing
/// state
#[derive(Copy, Clone, Debug)]
pub struct SendRequestResult {
    /// Transmit timestamp of the request: T1.
    pub(crate) originate_timestamp: u64,
    /// First header byte of the request, which holds its version.
    pub(crate) version: u8,
}

impl SendRequestResult {
    /// T1, the transmit timestamp of the request.
    pub open(crate) spec fn spec_originate_timestamp(self) -> u64 {
        self.originate_timestamp
    }

    /// First header byte of the request.
    pub open(crate) spec fn spec_version(self) -> u8 {
        self.version
    }
}

impl From<NtpPacket> for SendRequestResult {
    fn from(ntp_packet: NtpPacket) -> (r: Self)
        ensures
            r.spec_originate_timestamp() == ntp_packet.tx_timestamp,
            r.spec_version() == ntp_packet.li_vn_mode,
    {
        SendRequestResult {
            originate_timestamp: ntp_packet.tx_timestamp,
            version: ntp_packet.li_vn_mode,
        }
    }
}

impl vstd::std_specs::convert::FromSpecImpl<NtpPacket> for SendRequestResult {
    open spec fn obeys_from_spec() -> bool {
        true
    }

    closed spec fn from_spec(ntp_packet: NtpPacket) -> Self {
        SendRequestResult {
            originate_timestamp: ntp_packet.tx_timestamp,
            version: ntp_packet.li_vn_mode,
        }
    }
}

} // verus!
