use sntpc::{
    fraction_to_microseconds, fraction_to_milliseconds, fraction_to_picoseconds, ntp_timestamp,
    offset_calculate, roundtrip_calculate, NtpTimestamp, Units,
};

const T1: u64 = 16_893_142_954_672_769_962;
const T2: u64 = 16_893_142_959_053_084_959;
const T3: u64 = 16_893_142_959_053_112_968;
const T4: u64 = 16_893_142_954_793_063_406;

#[test]
fn roundtrip_in_microseconds_and_milliseconds() {
    assert_eq!(roundtrip_calculate(T1, T2, T3, T4, Units::Microseconds), 28_001);
    assert_eq!(roundtrip_calculate(T1, T2, T3, T4, Units::Milliseconds), 28);
    assert_eq!(
        roundtrip_calculate(
            9_487_534_663_484_046_772,
            16_882_120_099_581_835_046,
            16_882_120_099_583_884_144,
            9_487_534_663_651_464_597,
            Units::Microseconds
        ),
        38_502
    );
}

#[test]
fn delay_fraction_is_divided_by_two_to_the_32() {
    assert_eq!(roundtrip_calculate(0, 0, 0, 0xFFFF_FFFF, Units::Microseconds), 999_999);
    assert_eq!(roundtrip_calculate(0, 0, 0, 1 << 31, Units::Milliseconds), 500);
    // T4 one tick below T1 across the 2^64 boundary: the largest delay.
    assert_eq!(
        roundtrip_calculate(1, 0, 0, 0, Units::Microseconds),
        4_294_967_295_999_999
    );
}

#[test]
fn offset_fraction_is_divided_by_two_to_the_32() {
    // Half-sum of 0xFFFF_FFFF ticks.
    assert_eq!(offset_calculate(0, 0xFFFF_FFFF, 0xFFFF_FFFF, 0, Units::Microseconds), 999_999);
    assert_eq!(offset_calculate(0, 6_828_998, 6_828_998, 0, Units::Microseconds), 1_589);
}

#[test]
fn offset_in_milliseconds() {
    assert_eq!(offset_calculate(T1, T2, T3, T4, Units::Milliseconds), 1_005);
}

#[test]
fn roundtrip_saturates_at_zero() {
    // The server claims to have held the request longer than the client waited.
    assert_eq!(roundtrip_calculate(100, 0, 1 << 40, 200, Units::Microseconds), 0);
}

#[test]
fn roundtrip_is_never_negative_for_ordered_client_stamps() {
    for (t1, t4) in [(0u64, 0u64), (5, 5), (1 << 32, 3 << 32), (u64::MAX - 1, u64::MAX)] {
        for (t2, t3) in [(0u64, u64::MAX), (u64::MAX, 0), (7, 7)] {
            let _ = roundtrip_calculate(t1, t2, t3, t4, Units::Microseconds);
        }
    }
    assert_eq!(roundtrip_calculate(1 << 32, 0, 0, 3 << 32, Units::Microseconds), 2_000_000);
}

#[test]
fn offset_keeps_sign_of_server_minus_client() {
    let ahead = 100 + (3u64 << 32);
    assert_eq!(offset_calculate(100, ahead, ahead, 100, Units::Microseconds), 3_000_000);
    assert_eq!(offset_calculate(ahead, 100, 100, ahead, Units::Microseconds), -3_000_000);
    assert_eq!(offset_calculate(7, 7, 7, 7, Units::Microseconds), 0);
}

#[test]
fn computations_tolerate_era_rollover() {
    // T4 is numerically below T1: the client clock wrapped between the stamps.
    let t1 = u64::MAX - (1u64 << 32) + 1;
    let t2 = 5u64 << 32;
    let t3 = (5u64 << 32) + (1u64 << 31);
    let t4 = 1u64 << 32;
    assert_eq!(roundtrip_calculate(t1, t2, t3, t4, Units::Microseconds), 1_500_000);
    assert_eq!(offset_calculate(t1, t2, t3, t4, Units::Microseconds), 5_250_000);
    let _ = offset_calculate(u64::MAX, 0, u64::MAX, 0, Units::Microseconds);
    let _ = offset_calculate(0, 1 << 63, 0, 1 << 63, Units::Milliseconds);
}

#[test]
fn unit_conversion_precision() {
    assert_eq!(fraction_to_microseconds(u32::MAX - 1), 999_999);
    assert_eq!(fraction_to_milliseconds(u32::MAX - 1), 999);
    assert_eq!(fraction_to_picoseconds(1), 232);
    // Every conversion stays below one whole second.
    assert_eq!(fraction_to_milliseconds(u32::MAX), 999);
    assert_eq!(fraction_to_microseconds(u32::MAX), 999_999);
    assert_eq!(fraction_to_picoseconds(u32::MAX), 999_999_999_767);
    assert_eq!(fraction_to_picoseconds(u32::MAX - 1), 999_999_999_534);
    assert_eq!(fraction_to_microseconds(1 << 31), 500_000);
}

#[test]
fn ntp_timestamp_from_unix_time() {
    assert_eq!(ntp_timestamp(0, 0), 2_208_988_800u64 << 32);
    assert_eq!(ntp_timestamp(1_700_000_000, 500_000), 16_788_979_058_577_768_448);
    // The seconds wrap into the current era instead of overflowing.
    assert_eq!(ntp_timestamp(u64::MAX, 999_999), 9_487_534_653_230_280_505);
}

#[test]
fn ntp_timestamp_splits_into_unix_seconds_and_fraction() {
    let ts = NtpTimestamp::from(T3);
    assert_eq!(ts.seconds, 1_724_252_548);
    assert_eq!(ts.seconds_fraction, 2_118_157_960);
    let before_epoch = NtpTimestamp::from(5u64 << 32);
    assert_eq!(before_epoch.seconds, 5 - 2_208_988_800);
    assert_eq!(before_epoch.seconds_fraction, 0);
}
