//! The 48-byte NTP packet header (RFC 5905, section 7.3) and its big-endian
//! wire encoding.
use vstd::prelude::*;

use crate::time::{get_ntp_timestamp, is_unix_ntp_timestamp};
use crate::types::NtpTimestampGenerator;

verus! {

/// Length of an NTP header on the wire.
pub const NTP_PACKET_LEN: usize = 48;

/// Mask of the mode bits of the first header byte.
pub const MODE_MASK: u8 = 0b0000_0111;
/// Shift of the mode bits of the first header byte.
pub const MODE_SHIFT: u8 = 0;
/// Mask of the version bits of the first header byte.
pub const VERSION_MASK: u8 = 0b0011_1000;
/// Shift of the version bits of the first header byte.
pub const VERSION_SHIFT: u8 = 3;
/// Mask of the leap indicator bits of the first header byte.
pub const LI_MASK: u8 = 0b1100_0000;
/// Shift of the leap indicator bits of the first header byte.
pub const LI_SHIFT: u8 = 6;

/// Mode of a client request.
pub const SNTP_CLIENT_MODE: u8 = 3;
/// Protocol version 4, placed in the version bits.
pub const SNTP_VERSION: u8 = 4 << 3;

/// An NTP packet header with its multi-byte fields in host order.
#[derive(Copy, Clone, Debug, PartialEq, Eq, Structural)]
pub struct NtpPacket {
    /// Leap indicator (bits 6-7), version (bits 3-5) and mode (bits 0-2).
    pub li_vn_mode: u8,
    pub stratum: u8,
    /// Poll interval, log2 seconds.
    pub poll: i8,
    /// Clock precision, log2 seconds.
    pub precision: i8,
    pub root_delay: u32,
    pub root_dispersion: u32,
    pub ref_id: u32,
    pub ref_timestamp: u64,
    pub origin_timestamp: u64,
    pub recv_timestamp: u64,
    pub tx_timestamp: u64,
}

/// `(byte & mask) >> shift`: one bit field of a header byte.
pub open spec fn bit_field(byte: u8, mask: u8, shift: u8) -> u8 {
    (byte & mask) >> shift
}

/// Extract the bit field selected by `mask` and `shift` from `val`.
pub fn shifter(val: u8, mask: u8, shift: u8) -> (r: u8)
    requires
        shift < 8,
    ensures
        r == bit_field(val, mask, shift),
{
    (val & mask) >> shift
}

/// Mode bits of a first header byte.
pub open spec fn mode_of(li_vn_mode: u8) -> u8 {
    bit_field(li_vn_mode, MODE_MASK, MODE_SHIFT)
}

/// Version bits of a first header byte.
pub open spec fn version_of(li_vn_mode: u8) -> u8 {
    bit_field(li_vn_mode, VERSION_MASK, VERSION_SHIFT)
}

/// Leap indicator bits of a first header byte.
pub open spec fn leap_of(li_vn_mode: u8) -> u8 {
    bit_field(li_vn_mode, LI_MASK, LI_SHIFT)
}

/// The four bytes of `x`, most significant first.
pub open spec fn be_u32_bytes(x: u32) -> Seq<u8> {
    seq![(x >> 24u32) as u8, (x >> 16u32) as u8, (x >> 8u32) as u8, x as u8]
}

/// The eight bytes of `x`, most significant first.
pub open spec fn be_u64_bytes(x: u64) -> Seq<u8> {
    seq![
        (x >> 56u64) as u8,
        (x >> 48u64) as u8,
        (x >> 40u64) as u8,
        (x >> 32u64) as u8,
        (x >> 24u64) as u8,
        (x >> 16u64) as u8,
        (x >> 8u64) as u8,
        x as u8,
    ]
}

/// The integer whose bytes, most significant first, are `b0..b3`.
pub open spec fn u32_of_bytes(b0: u8, b1: u8, b2: u8, b3: u8) -> u32 {
    (b0 as u32) << 24u32 | (b1 as u32) << 16u32 | (b2 as u32) << 8u32 | b3 as u32
}

/// The integer whose bytes, most significant first, are `b0..b7`.
pub open spec fn u64_of_bytes(b0: u8, b1: u8, b2: u8, b3: u8, b4: u8, b5: u8, b6: u8, b7: u8) -> u64 {
    (b0 as u64) << 56u64 | (b1 as u64) << 48u64 | (b2 as u64) << 40u64 | (b3 as u64) << 32u64 | (
    b4 as u64) << 24u64 | (b5 as u64) << 16u64 | (b6 as u64) << 8u64 | b7 as u64
}

/// The big-endian 32-bit integer at `at` in `b`.
pub open spec fn be_u32_at(b: Seq<u8>, at: int) -> u32 {
    u32_of_bytes(b[at], b[at + 1], b[at + 2], b[at + 3])
}

/// The big-endian 64-bit integer at `at` in `b`.
pub open spec fn be_u64_at(b: Seq<u8>, at: int) -> u64 {
    u64_of_bytes(b[at], b[at + 1], b[at + 2], b[at + 3], b[at + 4], b[at + 5], b[at + 6], b[at + 7])
}

/// The wire form of a header: every field big-endian at its fixed offset.
pub open spec fn packet_bytes(p: NtpPacket) -> Seq<u8> {
    seq![p.li_vn_mode, p.stratum, p.poll as u8, p.precision as u8] + be_u32_bytes(p.root_delay)
        + be_u32_bytes(p.root_dispersion) + be_u32_bytes(p.ref_id) + be_u64_bytes(p.ref_timestamp)
        + be_u64_bytes(p.origin_timestamp) + be_u64_bytes(p.recv_timestamp) + be_u64_bytes(
        p.tx_timestamp,
    )
}

/// The header that 48 wire bytes hold: every field read big-endian at its
/// fixed offset, the signed bytes reinterpreted from their bit patterns.
pub open spec fn packet_from_bytes(b: Seq<u8>) -> NtpPacket {
    NtpPacket {
        li_vn_mode: b[0],
        stratum: b[1],
        poll: b[2] as i8,
        precision: b[3] as i8,
        root_delay: be_u32_at(b, 4),
        root_dispersion: be_u32_at(b, 8),
        ref_id: be_u32_at(b, 12),
        ref_timestamp: be_u64_at(b, 16),
        origin_timestamp: be_u64_at(b, 24),
        recv_timestamp: be_u64_at(b, 32),
        tx_timestamp: be_u64_at(b, 40),
    }
}

fn u32_to_be(x: u32) -> (r: [u8; 4])
    ensures
        r@ == be_u32_bytes(x),
{
    let r = [(x >> 24) as u8, (x >> 16) as u8, (x >> 8) as u8, x as u8];
    assert(r@ =~= be_u32_bytes(x));
    r
}

fn u64_to_be(x: u64) -> (r: [u8; 8])
    ensures
        r@ == be_u64_bytes(x),
{
    let r = [
        (x >> 56) as u8,
        (x >> 48) as u8,
        (x >> 40) as u8,
        (x >> 32) as u8,
        (x >> 24) as u8,
        (x >> 16) as u8,
        (x >> 8) as u8,
        x as u8,
    ];
    assert(r@ =~= be_u64_bytes(x));
    r
}

fn u32_from_be(b: &[u8; 48], at: usize) -> (r: u32)
    requires
        at + 4 <= 48,
    ensures
        r == be_u32_at(b@, at as int),
{
    (b[at] as u32) << 24 | (b[at + 1] as u32) << 16 | (b[at + 2] as u32) << 8 | b[at + 3] as u32
}

fn u64_from_be(b: &[u8; 48], at: usize) -> (r: u64)
    requires
        at + 8 <= 48,
    ensures
        r == be_u64_at(b@, at as int),
{
    (b[at] as u64) << 56 | (b[at + 1] as u64) << 48 | (b[at + 2] as u64) << 40 | (b[at + 3] as u64)
        << 32 | (b[at + 4] as u64) << 24 | (b[at + 5] as u64) << 16 | (b[at + 6] as u64) << 8
        | b[at + 7] as u64
}

impl NtpPacket {
    /// The 48 wire bytes of this header, multi-byte fields big-endian.
    pub fn encode(&self) -> (r: [u8; 48])
        ensures
            r@ == packet_bytes(*self),
            r@.len() == NTP_PACKET_LEN,
    {
        let rd = u32_to_be(self.root_delay);
        let rs = u32_to_be(self.root_dispersion);
        let id = u32_to_be(self.ref_id);
        let rt = u64_to_be(self.ref_timestamp);
        let ot = u64_to_be(self.origin_timestamp);
        let vt = u64_to_be(self.recv_timestamp);
        let tt = u64_to_be(self.tx_timestamp);
        let r = [
            self.li_vn_mode,
            self.stratum,
            self.poll as u8,
            self.precision as u8,
            rd[0], rd[1], rd[2], rd[3],
            rs[0], rs[1], rs[2], rs[3],
            id[0], id[1], id[2], id[3],
            rt[0], rt[1], rt[2], rt[3], rt[4], rt[5], rt[6], rt[7],
            ot[0], ot[1], ot[2], ot[3], ot[4], ot[5], ot[6], ot[7],
            vt[0], vt[1], vt[2], vt[3], vt[4], vt[5], vt[6], vt[7],
            tt[0], tt[1], tt[2], tt[3], tt[4], tt[5], tt[6], tt[7],
        ];
        assert(r@ =~= packet_bytes(*self));
        r
    }

    /// The header held by 48 wire bytes, multi-byte fields read big-endian.
    pub fn decode(buf: &[u8; 48]) -> (r: NtpPacket)
        ensures
            r == packet_from_bytes(buf@),
    {
        NtpPacket {
            li_vn_mode: buf[0],
            stratum: buf[1],
            poll: buf[2] as i8,
            precision: buf[3] as i8,
            root_delay: u32_from_be(buf, 4),
            root_dispersion: u32_from_be(buf, 8),
            ref_id: u32_from_be(buf, 12),
            ref_timestamp: u64_from_be(buf, 16),
            origin_timestamp: u64_from_be(buf, 24),
            recv_timestamp: u64_from_be(buf, 32),
            tx_timestamp: u64_from_be(buf, 40),
        }
    }
}

proof fn lemma_u32_bytes(x: u32, b0: u8, b1: u8, b2: u8, b3: u8)
    ensures
        u32_of_bytes((x >> 24u32) as u8, (x >> 16u32) as u8, (x >> 8u32) as u8, x as u8) == x,
        ({
            let y = u32_of_bytes(b0, b1, b2, b3);
            &&& (y >> 24u32) as u8 == b0
            &&& (y >> 16u32) as u8 == b1
            &&& (y >> 8u32) as u8 == b2
            &&& y as u8 == b3
        }),
{
    assert(u32_of_bytes((x >> 24u32) as u8, (x >> 16u32) as u8, (x >> 8u32) as u8, x as u8) == x)
        by (bit_vector);
    assert(({
        let y = u32_of_bytes(b0, b1, b2, b3);
        &&& (y >> 24u32) as u8 == b0
        &&& (y >> 16u32) as u8 == b1
        &&& (y >> 8u32) as u8 == b2
        &&& y as u8 == b3
    })) by (bit_vector);
}

proof fn lemma_u64_bytes(x: u64)
    ensures
        u64_of_bytes(
            (x >> 56u64) as u8,
            (x >> 48u64) as u8,
            (x >> 40u64) as u8,
            (x >> 32u64) as u8,
            (x >> 24u64) as u8,
            (x >> 16u64) as u8,
            (x >> 8u64) as u8,
            x as u8,
        ) == x,
{
    assert(u64_of_bytes(
        (x >> 56u64) as u8,
        (x >> 48u64) as u8,
        (x >> 40u64) as u8,
        (x >> 32u64) as u8,
        (x >> 24u64) as u8,
        (x >> 16u64) as u8,
        (x >> 8u64) as u8,
        x as u8,
    ) == x) by (bit_vector);
}

proof fn lemma_u64_of_bytes(b0: u8, b1: u8, b2: u8, b3: u8, b4: u8, b5: u8, b6: u8, b7: u8)
    ensures
        ({
            let y = u64_of_bytes(b0, b1, b2, b3, b4, b5, b6, b7);
            &&& (y >> 56u64) as u8 == b0
            &&& (y >> 48u64) as u8 == b1
            &&& (y >> 40u64) as u8 == b2
            &&& (y >> 32u64) as u8 == b3
            &&& (y >> 24u64) as u8 == b4
            &&& (y >> 16u64) as u8 == b5
            &&& (y >> 8u64) as u8 == b6
            &&& y as u8 == b7
        }),
{
    assert(({
        let y = u64_of_bytes(b0, b1, b2, b3, b4, b5, b6, b7);
        &&& (y >> 56u64) as u8 == b0
        &&& (y >> 48u64) as u8 == b1
        &&& (y >> 40u64) as u8 == b2
        &&& (y >> 32u64) as u8 == b3
        &&& (y >> 24u64) as u8 == b4
        &&& (y >> 16u64) as u8 == b5
        &&& (y >> 8u64) as u8 == b6
        &&& y as u8 == b7
    })) by (bit_vector);
}

proof fn lemma_signed_byte(x: i8, b: u8)
    ensures
        (x as u8) as i8 == x,
        (b as i8) as u8 == b,
{
    assert((x as u8) as i8 == x) by (bit_vector);
    assert((b as i8) as u8 == b) by (bit_vector);
}

/// Decoding the wire form of any header gives that header back, and the
/// wire form is always 48 bytes long.
pub proof fn lemma_decode_encode(p: NtpPacket)
    ensures
        packet_bytes(p).len() == NTP_PACKET_LEN,
        packet_from_bytes(packet_bytes(p)) == p,
{
    let b = packet_bytes(p);
    lemma_signed_byte(p.poll, 0);
    lemma_signed_byte(p.precision, 0);
    lemma_u32_bytes(p.root_delay, 0, 0, 0, 0);
    lemma_u32_bytes(p.root_dispersion, 0, 0, 0, 0);
    lemma_u32_bytes(p.ref_id, 0, 0, 0, 0);
    lemma_u64_bytes(p.ref_timestamp);
    lemma_u64_bytes(p.origin_timestamp);
    lemma_u64_bytes(p.recv_timestamp);
    lemma_u64_bytes(p.tx_timestamp);
    assert(packet_from_bytes(b) == p);
}

/// Encoding the header that any 48 bytes hold gives those bytes back.
pub proof fn lemma_encode_decode(b: Seq<u8>)
    requires
        b.len() == NTP_PACKET_LEN,
    ensures
        packet_bytes(packet_from_bytes(b)) == b,
{
    let p = packet_from_bytes(b);
    lemma_signed_byte(0, b[2]);
    lemma_signed_byte(0, b[3]);
    lemma_u32_bytes(0, b[4], b[5], b[6], b[7]);
    lemma_u32_bytes(0, b[8], b[9], b[10], b[11]);
    lemma_u32_bytes(0, b[12], b[13], b[14], b[15]);
    lemma_u64_of_bytes(b[16], b[17], b[18], b[19], b[20], b[21], b[22], b[23]);
    lemma_u64_of_bytes(b[24], b[25], b[26], b[27], b[28], b[29], b[30], b[31]);
    lemma_u64_of_bytes(b[32], b[33], b[34], b[35], b[36], b[37], b[38], b[39]);
    lemma_u64_of_bytes(b[40], b[41], b[42], b[43], b[44], b[45], b[46], b[47]);
    assert(packet_bytes(p) =~= b);
}

/// A client request: version 4, client mode, every field zero but the
/// transmit timestamp `tx_timestamp` (T1).
pub open spec fn request_packet(tx_timestamp: u64) -> NtpPacket {
    NtpPacket {
        li_vn_mode: SNTP_CLIENT_MODE | SNTP_VERSION,
        stratum: 0,
        poll: 0,
        precision: 0,
        root_delay: 0,
        root_dispersion: 0,
        ref_id: 0,
        ref_timestamp: 0,
        origin_timestamp: 0,
        recv_timestamp: 0,
        tx_timestamp,
    }
}

impl NtpPacket {
    /// A client request whose transmit timestamp is `tx_timestamp`.
    pub fn request(tx_timestamp: u64) -> (r: NtpPacket)
        ensures
            r == request_packet(tx_timestamp),
    {
        NtpPacket {
            li_vn_mode: SNTP_CLIENT_MODE | SNTP_VERSION,
            stratum: 0,
            poll: 0,
            precision: 0,
            root_delay: 0,
            root_dispersion: 0,
            ref_id: 0,
            ref_timestamp: 0,
            origin_timestamp: 0,
            recv_timestamp: 0,
            tx_timestamp,
        }
    }

    /// A client request stamped with the time that `timestamp_gen` samples now.
    pub fn new<T: NtpTimestampGenerator>(timestamp_gen: T) -> (r: NtpPacket)
        ensures
            r == request_packet(r.tx_timestamp),
            is_unix_ntp_timestamp(r.tx_timestamp),
    {
        let mut timestamp_gen = timestamp_gen;
        timestamp_gen.init();
        let tx_timestamp = get_ntp_timestamp(&timestamp_gen);
        NtpPacket::request(tx_timestamp)
    }
}

/// The wire form of every header is exactly 48 bytes: no extension fields,
/// no MAC.
pub proof fn lemma_wire_length(p: NtpPacket)
    ensures
        packet_bytes(p).len() == NTP_PACKET_LEN,
{
}

} // verus!
