use sntpc::{
    check_sent, complete_response, process_response, validate_response, Error, NtpContext,
    NtpPacket, NtpTimestampGenerator, SendRequestResult, SocketAddress, StdTimestampGen,
};

const T1: u64 = 16_893_142_954_672_769_962;
const T2: u64 = 16_893_142_959_053_084_959;
const T3: u64 = 16_893_142_959_053_112_968;
const T4: u64 = 16_893_142_954_793_063_406;

const SERVER: SocketAddress = SocketAddress::V4 { ipv4: 0xD8EF_2304, port: 123 };

fn request_state() -> SendRequestResult {
    SendRequestResult::from(NtpPacket::request(T1))
}

fn response(li_vn_mode: u8, stratum: u8, origin: u64) -> [u8; 48] {
    NtpPacket {
        li_vn_mode,
        stratum,
        poll: 3,
        precision: -20,
        root_delay: 0,
        root_dispersion: 0,
        ref_id: 0,
        ref_timestamp: T2,
        origin_timestamp: origin,
        recv_timestamp: T2,
        tx_timestamp: T3,
    }
    .encode()
}

#[derive(Copy, Clone)]
struct FixedClock {
    secs: u64,
    micros: u32,
}

impl NtpTimestampGenerator for FixedClock {
    fn init(&mut self) {}

    fn timestamp_sec(&self) -> u64 {
        self.secs
    }

    fn timestamp_subsec_micros(&self) -> u32 {
        self.micros
    }
}

#[test]
fn valid_response_yields_offset_and_delay() {
    let resp = response(0x24, 1, T1);
    let result = process_response(request_state(), &resp, T4).unwrap();
    assert_eq!(result.sec(), 1_724_252_548);
    assert_eq!(result.sec_fraction(), 2_118_157_960);
    assert_eq!(result.offset(), 1_005_870);
    assert_eq!(result.roundtrip(), 28_001);
    assert_eq!(result.stratum(), 1);
    assert_eq!(result.precision(), -20);
}

#[test]
fn broadcast_mode_is_accepted() {
    let resp = response(0x25, 2, T1);
    assert!(process_response(request_state(), &resp, T4).is_ok());
}

#[test]
fn response_from_other_port_is_rejected() {
    let resp = response(0x24, 1, T1);
    let other = SocketAddress::V4 { ipv4: 0xD8EF_2304, port: 124 };
    assert_eq!(
        validate_response(&SERVER, &other, 48, &resp, request_state(), T4),
        Err(Error::ResponseAddressMismatch)
    );
}

#[test]
fn response_of_wrong_length_is_rejected() {
    let resp = response(0x24, 1, T1);
    for n in [47usize, 49, 0] {
        assert_eq!(
            validate_response(&SERVER, &SERVER, n, &resp, request_state(), T4),
            Err(Error::IncorrectPayload)
        );
    }
}

#[test]
fn response_of_version_three_is_rejected() {
    let resp = response((3 << 3) | 4, 1, T1);
    assert_eq!(
        validate_response(&SERVER, &SERVER, 48, &resp, request_state(), T4),
        Err(Error::IncorrectResponseVersion)
    );
}

#[test]
fn response_of_stratum_zero_is_rejected() {
    let resp = response(0x24, 0, T1);
    assert_eq!(
        validate_response(&SERVER, &SERVER, 48, &resp, request_state(), T4),
        Err(Error::IncorrectStratumHeaders)
    );
}

#[test]
fn response_with_other_origin_is_rejected() {
    let resp = response(0x24, 1, 0);
    assert_eq!(
        validate_response(&SERVER, &SERVER, 48, &resp, request_state(), T4),
        Err(Error::IncorrectOriginTimestamp)
    );
}

#[test]
fn response_in_client_mode_is_rejected() {
    let resp = response(0x23, 1, T1);
    assert_eq!(
        process_response(request_state(), &resp, T4),
        Err(Error::IncorrectMode)
    );
}

#[test]
fn first_failing_check_names_the_error() {
    // Wrong origin and wrong mode: the origin is checked first.
    let resp = response(0x23, 0, 0);
    assert_eq!(
        process_response(request_state(), &resp, T4),
        Err(Error::IncorrectOriginTimestamp)
    );
    // Wrong address and wrong length: the address is checked first.
    let v6 = SocketAddress::V6 { ipv6: 1, port: 123, flowinfo: 0, scope_id: 0 };
    assert_eq!(
        validate_response(&SERVER, &v6, 47, &resp, request_state(), T4),
        Err(Error::ResponseAddressMismatch)
    );
}

#[test]
fn send_outcome_requires_full_packet() {
    let request = NtpPacket::request(T1);
    let state = check_sent(Ok(48), &request).unwrap();
    let resp = response(0x24, 1, T1);
    assert!(process_response(state, &resp, T4).is_ok());
    assert!(matches!(check_sent(Ok(47), &request), Err(Error::Network)));
    assert!(matches!(check_sent(Ok(0), &request), Err(Error::Network)));
    assert!(matches!(check_sent(Err(Error::Network), &request), Err(Error::Network)));
}

#[test]
fn request_is_stamped_by_the_clock() {
    let clock = FixedClock { secs: 1_700_000_000, micros: 500_000 };
    let request = NtpPacket::new(clock);
    assert_eq!(request, NtpPacket::request(16_788_979_058_577_768_448));
}

#[test]
fn complete_response_stamps_receive_time() {
    // T4 from the clock equals the scenario's T4 up to the clock's microsecond grain.
    let t4_secs = (T4 >> 32) - 2_208_988_800;
    let t4_micros = (((T4 & 0xFFFF_FFFF) * 1_000_000) >> 32) as u32;
    let context = NtpContext::new(FixedClock { secs: t4_secs, micros: t4_micros });
    let resp = response(0x24, 1, T1);
    let result =
        complete_response(&SERVER, &SERVER, 48, &resp, context, request_state()).unwrap();
    assert_eq!(result.sec(), 1_724_252_548);
    assert!((result.offset() - 1_005_870).abs() <= 1);
    assert!((result.roundtrip() as i64 - 28_001).abs() <= 1);
    assert_eq!(
        complete_response(&SERVER, &SERVER, 49, &resp, context, request_state()),
        Err(Error::IncorrectPayload)
    );
}

#[test]
fn system_clock_reads_after_the_epoch() {
    let mut clock = StdTimestampGen::default();
    assert_eq!(clock.timestamp_sec(), 0);
    clock.init();
    assert!(clock.timestamp_sec() > 1_600_000_000);
    assert!(clock.timestamp_subsec_micros() < 1_000_000);
}
