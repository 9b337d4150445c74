//! The decisions of one request/response round: whether a send succeeded,
//! and what a received datagram yields once it has been checked against the
//! request.
use vstd::prelude::*;

use crate::packet::{
    LI_MASK, LI_SHIFT, MODE_MASK, MODE_SHIFT, NTP_PACKET_LEN, NtpPacket, VERSION_MASK,
    VERSION_SHIFT, leap_of, mode_of, packet_from_bytes, shifter, version_of,
};
use crate::time::{
    NTP_TIMESTAMP_DELTA, NtpTimestamp, Units, era_ticks, get_ntp_timestamp, is_unix_ntp_timestamp,
    offset_calculate, offset_value, roundtrip_calculate, roundtrip_value,
};
use crate::types::{Error, NtpContext, NtpResult, NtpTimestampGenerator, Result, SendRequestResult};

verus! {

/// A UDP endpoint as the transport reports it: address family, IP address
/// as an integer, port and, for IPv6, flow info and scope id.
#[derive(Copy, Clone, Debug, PartialEq, Eq, Structural)]
pub enum SocketAddress {
    V4 { ipv4: u32, port: u16 },
    V6 { ipv6: u128, port: u16, flowinfo: u32, scope_id: u32 },
}

/// Mode of a unicast server response.
pub const SNTP_UNICAST: u8 = 4;
/// Mode of a broadcast server message.
pub const SNTP_BROADCAST: u8 = 5;
/// Largest leap indicator value.
pub const LI_MAX_VALUE: u8 = 3;

/// UNIX seconds, modulo 2^32, of the seconds half of an NTP timestamp.
pub open spec fn unix_seconds_of(t: u64) -> u32 {
    ((t as int / era_ticks() - NTP_TIMESTAMP_DELTA) % era_ticks()) as u32
}

/// The result built from a response that passed every check, received at
/// `t4`: the server's transmit time, delay and offset in microseconds, the
/// server's stratum and precision.
pub open spec fn response_result(p: NtpPacket, t4: u64) -> NtpResult {
    NtpResult::spec_new(
        unix_seconds_of(p.tx_timestamp),
        (p.tx_timestamp as int % era_ticks()) as u32,
        roundtrip_value(
            p.origin_timestamp,
            p.recv_timestamp,
            p.tx_timestamp,
            t4,
            Units::Microseconds.spec_per_second(),
        ) as u64,
        offset_value(
            p.origin_timestamp,
            p.recv_timestamp,
            p.tx_timestamp,
            t4,
            Units::Microseconds.spec_per_second(),
        ) as i64,
        p.stratum,
        p.precision,
    )
}

/// What a response header `p` yields for the request `req` when received at
/// `t4`: the first check that fails names the error.
pub open spec fn response_outcome(req: SendRequestResult, p: NtpPacket, t4: u64) -> Result<
    NtpResult,
> {
    if p.origin_timestamp != req.spec_originate_timestamp() {
        Err(Error::IncorrectOriginTimestamp)
    } else if mode_of(p.li_vn_mode) != SNTP_UNICAST && mode_of(p.li_vn_mode) != SNTP_BROADCAST {
        Err(Error::IncorrectMode)
    } else if leap_of(p.li_vn_mode) > LI_MAX_VALUE {
        Err(Error::IncorrectLeapIndicator)
    } else if version_of(p.li_vn_mode) != version_of(req.spec_version()) {
        Err(Error::IncorrectResponseVersion)
    } else if p.stratum == 0 {
        Err(Error::IncorrectStratumHeaders)
    } else {
        Ok(response_result(p, t4))
    }
}

/// What a datagram of `received` bytes from `src`, whose first 48 bytes are
/// `bytes`, yields for the request `req` sent to `dest`, when received at `t4`.
pub open spec fn received_outcome(
    dest: SocketAddress,
    src: SocketAddress,
    received: int,
    bytes: Seq<u8>,
    req: SendRequestResult,
    t4: u64,
) -> Result<NtpResult> {
    if dest != src {
        Err(Error::ResponseAddressMismatch)
    } else if received != NTP_PACKET_LEN {
        Err(Error::IncorrectPayload)
    } else {
        response_outcome(req, packet_from_bytes(bytes), t4)
    }
}

proof fn lemma_seconds_wrap(x: i64)
    requires
        -0x1_0000_0000 <= x < 0x1_0000_0000,
    ensures
        (x as u32) as int == x as int % 0x1_0000_0000,
{
    assert(0 <= x ==> (x as u32) as int == x as int) by (bit_vector)
        requires
            x < 0x1_0000_0000,
    ;
    assert(x < 0 ==> (x as u32) as int == x as int + 0x1_0000_0000) by (bit_vector)
        requires
            -0x1_0000_0000 <= x,
    ;
}

/// Check the 48 response bytes `resp` against the request and, if every
/// check passes, compute the result with `recv_timestamp` as T4.
pub fn process_response(send_req_result: SendRequestResult, resp: &[u8; 48], recv_timestamp: u64) -> (r:
    Result<NtpResult>)
    ensures
        r == response_outcome(send_req_result, packet_from_bytes(resp@), recv_timestamp),
{
    let packet = NtpPacket::decode(resp);

    if send_req_result.originate_timestamp != packet.origin_timestamp {
        return Err(Error::IncorrectOriginTimestamp);
    }
    let mode = shifter(packet.li_vn_mode, MODE_MASK, MODE_SHIFT);
    let li = shifter(packet.li_vn_mode, LI_MASK, LI_SHIFT);
    let resp_version = shifter(packet.li_vn_mode, VERSION_MASK, VERSION_SHIFT);
    let req_version = shifter(send_req_result.version, VERSION_MASK, VERSION_SHIFT);

    if mode != SNTP_UNICAST && mode != SNTP_BROADCAST {
        return Err(Error::IncorrectMode);
    }
    if li > LI_MAX_VALUE {
        return Err(Error::IncorrectLeapIndicator);
    }
    if req_version != resp_version {
        return Err(Error::IncorrectResponseVersion);
    }
    if packet.stratum == 0 {
        return Err(Error::IncorrectStratumHeaders);
    }
    // System clock offset:
    // theta = T(B) - T(A) = 1/2 * [(T2-T1) + (T3-T4)]
    // Round-trip delay:
    // delta = T(ABA) = (T4-T1) - (T3-T2).
    // where:
    // - T1 = client's TX timestamp
    // - T2 = server's RX timestamp
    // - T3 = server's TX timestamp
    // - T4 = client's RX timestamp
    let t1 = packet.origin_timestamp;
    let t2 = packet.recv_timestamp;
    let t3 = packet.tx_timestamp;
    let t4 = recv_timestamp;
    let units = Units::Microseconds;
    let roundtrip = roundtrip_calculate(t1, t2, t3, t4, units);
    let offset = offset_calculate(t1, t2, t3, t4, units);
    let timestamp = NtpTimestamp::from(packet.tx_timestamp);
    proof {
        lemma_seconds_wrap(timestamp.seconds);
    }

    Ok(
        NtpResult::new(
            timestamp.seconds as u32,
            timestamp.seconds_fraction as u32,
            roundtrip,
            offset,
            packet.stratum,
            packet.precision,
        ),
    )
}

/// Check a received datagram: it must come from `dest` and be exactly 48
/// bytes long; then check and process its header as `process_response` does.
pub fn validate_response(
    dest: &SocketAddress,
    src: &SocketAddress,
    received: usize,
    resp: &[u8; 48],
    send_req_result: SendRequestResult,
    recv_timestamp: u64,
) -> (r: Result<NtpResult>)
    ensures
        r == received_outcome(*dest, *src, received as int, resp@, send_req_result, recv_timestamp),
{
    if *dest != *src {
        return Err(Error::ResponseAddressMismatch);
    }
    if received != NTP_PACKET_LEN {
        return Err(Error::IncorrectPayload);
    }
    process_response(send_req_result, resp, recv_timestamp)
}

/// Finish a response that has just been received: sample T4 from the
/// context's clock, then check and process the datagram as
/// `validate_response` does.
pub fn complete_response<T: NtpTimestampGenerator>(
    dest: &SocketAddress,
    src: &SocketAddress,
    received: usize,
    resp: &[u8; 48],
    context: NtpContext<T>,
    send_req_result: SendRequestResult,
) -> (r: Result<NtpResult>)
    ensures
        exists|t4: u64|
            is_unix_ntp_timestamp(t4) && r == received_outcome(
                *dest,
                *src,
                received as int,
                resp@,
                send_req_result,
                t4,
            ),
{
    let mut timestamp_gen = context.timestamp_gen;
    timestamp_gen.init();
    let recv_timestamp = get_ntp_timestamp(&timestamp_gen);
    validate_response(dest, src, received, resp, send_req_result, recv_timestamp)
}

/// Decide the outcome of sending the request `request`, given what the
/// transport reported: the request state on a complete 48-byte send,
/// `Network` on a transport error or a short send.
pub fn check_sent(sent: Result<usize>, request: &NtpPacket) -> (r: Result<SendRequestResult>)
    ensures
        r is Ok <==> sent == Ok::<usize, Error>(NTP_PACKET_LEN),
        r is Ok ==> r->Ok_0.spec_originate_timestamp() == request.tx_timestamp
            && r->Ok_0.spec_version() == request.li_vn_mode,
        r is Err ==> r == Err::<SendRequestResult, Error>(Error::Network),
{
    match sent {
        Ok(size) => {
            if size == NTP_PACKET_LEN {
                Ok(SendRequestResult::from(*request))
            } else {
                Err(Error::Network)
            }
        },
        Err(_) => Err(Error::Network),
    }
}

} // verus!
