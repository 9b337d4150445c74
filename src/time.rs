//! Fixed-point NTP timestamp arithmetic: round-trip delay, clock offset and
//! conversions of a 32-bit second fraction to decimal units.
use vstd::prelude::*;

use crate::types::NtpTimestampGenerator;

verus! {

/// Milliseconds in one second.
pub const MSEC_IN_SEC: u64 = 1_000;
/// Microseconds in one second.
pub const USEC_IN_SEC: u64 = 1_000_000;
/// Nanoseconds in one second.
pub const NSEC_IN_SEC: u64 = 1_000_000_000;
/// Picoseconds in one second.
pub const PSEC_IN_SEC: u64 = 1_000_000_000_000;

/// Fraction ticks in one second: the lower half of an NTP timestamp counts
/// seconds in units of 2^-32.
pub const FRACTION_TICKS: u64 = 0x1_0000_0000;

/// Fraction ticks in one second, as a mathematical integer.
pub open spec fn fraction_scale() -> int {
    0x1_0000_0000
}

/// `fraction` ticks of a second, expressed in a unit with `per_second` parts
/// in a second, rounded down.
pub open spec fn fraction_in_units(fraction: int, per_second: int) -> int {
    fraction * per_second / fraction_scale()
}

/// A fraction of less than one second, scaled to a unit, stays below one
/// second's worth of that unit.
proof fn lemma_fraction_in_units_bound(fraction: int, per_second: int)
    requires
        0 <= fraction < fraction_scale(),
        0 <= per_second,
    ensures
        0 <= fraction * per_second <= fraction_scale() * per_second,
        0 <= fraction_in_units(fraction, per_second) <= per_second,
        0 < per_second ==> fraction_in_units(fraction, per_second) < per_second,
{
    assert(0 < per_second ==> fraction * per_second < fraction_scale() * per_second)
        by (nonlinear_arith)
        requires
            0 <= fraction < fraction_scale(),
    ;
    assert(0 < per_second ==> fraction * per_second / fraction_scale() < per_second)
        by (nonlinear_arith)
        requires
            0 < per_second ==> 0 <= fraction * per_second < fraction_scale() * per_second,
            fraction_scale() == 0x1_0000_0000,
    ;
    assert(0 <= fraction * per_second <= fraction_scale() * per_second) by (nonlinear_arith)
        requires
            0 <= fraction <= fraction_scale(),
            0 <= per_second,
    ;
    assert(fraction * per_second / fraction_scale() <= per_second) by (nonlinear_arith)
        requires
            0 <= fraction * per_second <= fraction_scale() * per_second,
            fraction_scale() == 0x1_0000_0000,
    ;
    assert(0 <= fraction * per_second / fraction_scale()) by (nonlinear_arith)
        requires
            0 <= fraction * per_second,
            fraction_scale() == 0x1_0000_0000,
    ;
}

/// Convert second fraction value to milliseconds value, rounded down:
/// `sec_fraction * 1_000 / 2^32`
pub fn fraction_to_milliseconds(sec_fraction: u32) -> (r: u32)
    ensures
        r == fraction_in_units(sec_fraction as int, MSEC_IN_SEC as int),
        r < MSEC_IN_SEC,
{
    proof {
        lemma_fraction_in_units_bound(sec_fraction as int, MSEC_IN_SEC as int);
    }
    (sec_fraction as u64 * MSEC_IN_SEC / FRACTION_TICKS) as u32
}

/// Convert second fraction value to microseconds value, rounded down:
/// `sec_fraction * 1_000_000 / 2^32`
pub fn fraction_to_microseconds(sec_fraction: u32) -> (r: u32)
    ensures
        r == fraction_in_units(sec_fraction as int, USEC_IN_SEC as int),
        r < USEC_IN_SEC,
{
    proof {
        lemma_fraction_in_units_bound(sec_fraction as int, USEC_IN_SEC as int);
    }
    (sec_fraction as u64 * USEC_IN_SEC / FRACTION_TICKS) as u32
}

/// Convert second fraction value to nanoseconds value, rounded down:
/// `sec_fraction * 10^9 / 2^32`
pub fn fraction_to_nanoseconds(sec_fraction: u32) -> (r: u32)
    ensures
        r == fraction_in_units(sec_fraction as int, NSEC_IN_SEC as int),
        r < NSEC_IN_SEC,
{
    proof {
        lemma_fraction_in_units_bound(sec_fraction as int, NSEC_IN_SEC as int);
    }
    (sec_fraction as u64 * NSEC_IN_SEC / FRACTION_TICKS) as u32
}

/// Convert second fraction value to picoseconds value, rounded down:
/// `sec_fraction * 10^12 / 2^32`, computed in 128 bits
pub fn fraction_to_picoseconds(sec_fraction: u32) -> (r: u64)
    ensures
        r == fraction_in_units(sec_fraction as int, PSEC_IN_SEC as int),
        r < PSEC_IN_SEC,
{
    proof {
        lemma_fraction_in_units_bound(sec_fraction as int, PSEC_IN_SEC as int);
    }
    (sec_fraction as u128 * PSEC_IN_SEC as u128 / FRACTION_TICKS as u128) as u64
}

/// Mask of the seconds half of a 64-bit NTP timestamp.
pub const SECONDS_MASK: u64 = 0xffff_ffff_0000_0000;
/// Mask of the second-fraction half of a 64-bit NTP timestamp.
pub const SECONDS_FRAC_MASK: u64 = 0xffff_ffff;

/// Ticks of a 64-bit NTP timestamp in one unit of its upper half.
pub open spec fn era_ticks() -> int {
    0x1_0000_0000
}

/// Values of a 64-bit unsigned integer.
pub open spec fn u64_range() -> int {
    0x1_0000_0000_0000_0000
}

/// `a - b` in 64-bit wrapping arithmetic, as a value in `0..2^64`.
pub open spec fn wrapping_diff(a: u64, b: u64) -> int {
    if a >= b {
        a - b
    } else {
        a - b + u64_range()
    }
}

/// A non-negative span of NTP ticks in a unit with `per_second` parts in a
/// second: whole seconds exactly, the fraction rounded down.
pub open spec fn span_in_units(span: int, per_second: int) -> int {
    (span / era_ticks()) * per_second + fraction_in_units(span % era_ticks(), per_second)
}

/// A signed span of NTP ticks in a unit: the magnitude converted as by
/// `span_in_units`, the sign kept.
pub open spec fn signed_span_in_units(span: int, per_second: int) -> int {
    if span < 0 {
        -span_in_units(-span, per_second)
    } else {
        span_in_units(span, per_second)
    }
}

/// Round-trip delay `(T4 - T1) - (T3 - T2)` in ticks: each difference taken
/// modulo 2^64, the outer one cut off at zero.
pub open spec fn roundtrip_ticks(t1: u64, t2: u64, t3: u64, t4: u64) -> int {
    let d = wrapping_diff(t4, t1) - wrapping_diff(t3, t2);
    if d < 0 {
        0
    } else {
        d
    }
}

/// Round-trip delay in a unit with `per_second` parts in a second.
pub open spec fn roundtrip_value(t1: u64, t2: u64, t3: u64, t4: u64, per_second: int) -> int {
    span_in_units(roundtrip_ticks(t1, t2, t3, t4), per_second)
}

/// A value in `0..2^64` read as a two's complement 64-bit signed integer.
pub open spec fn as_signed(x: int) -> int {
    if x < 0x8000_0000_0000_0000 {
        x
    } else {
        x - u64_range()
    }
}

/// Half of `x`, rounded toward zero.
pub open spec fn half_toward_zero(x: int) -> int {
    if x >= 0 {
        x / 2
    } else {
        -((-x) / 2)
    }
}

/// Clock offset `(T2 - T1) / 2 + (T3 - T4) / 2` in ticks, each difference
/// taken modulo 2^64, read as signed and halved toward zero.
pub open spec fn offset_ticks(t1: u64, t2: u64, t3: u64, t4: u64) -> int {
    half_toward_zero(as_signed(wrapping_diff(t2, t1))) + half_toward_zero(
        as_signed(wrapping_diff(t3, t4)),
    )
}

/// Clock offset in a unit with `per_second` parts in a second.
pub open spec fn offset_value(t1: u64, t2: u64, t3: u64, t4: u64, per_second: int) -> int {
    signed_span_in_units(offset_ticks(t1, t2, t3, t4), per_second)
}

/// Unit in which a delay or an offset is reported.
#[derive(Copy, Clone, Debug)]
pub enum Units {
    Milliseconds,
    Microseconds,
}

impl Units {
    /// Parts of this unit in one second.
    pub open spec fn spec_per_second(self) -> int {
        match self {
            Units::Milliseconds => MSEC_IN_SEC as int,
            Units::Microseconds => USEC_IN_SEC as int,
        }
    }

    /// Parts of this unit in one second.
    pub fn per_second(self) -> (r: u64)
        ensures
            r == self.spec_per_second(),
    {
        match self {
            Units::Milliseconds => MSEC_IN_SEC,
            Units::Microseconds => USEC_IN_SEC,
        }
    }

    /// Short symbol of this unit: `ms` or `us`.
    pub fn as_str(self) -> (r: &'static str)
        ensures
            r@ == (match self {
                Units::Milliseconds => "ms"@,
                Units::Microseconds => "us"@,
            }),
    {
        match self {
            Units::Milliseconds => "ms",
            Units::Microseconds => "us",
        }
    }
}

/// The two halves of a 64-bit NTP timestamp as its masks extract them.
proof fn lemma_split_timestamp(v: u64)
    ensures
        (v & 0xffff_ffff_0000_0000) >> 32u64 == v / 0x1_0000_0000,
        v & 0xffff_ffff == v % 0x1_0000_0000,
{
    assert((v & 0xffff_ffff_0000_0000) >> 32u64 == v / 0x1_0000_0000) by (bit_vector);
    assert(v & 0xffff_ffff == v % 0x1_0000_0000) by (bit_vector);
}

/// Whole seconds and second fraction of a span in a unit with `units` parts
/// in a second.
fn convert_delays(sec: u64, fraction: u64, units: u64) -> (r: u64)
    requires
        sec < era_ticks(),
        fraction < era_ticks(),
        units <= USEC_IN_SEC,
    ensures
        r == sec * units + fraction_in_units(fraction as int, units as int),
{
    proof {
        lemma_fraction_in_units_bound(fraction as int, units as int);
        assert(sec * units <= 0xffff_ffff * 1_000_000) by (nonlinear_arith)
            requires
                sec < 0x1_0000_0000,
                units <= 1_000_000,
        ;
    }
    sec * units + fraction * units / FRACTION_TICKS
}

/// Round-trip delay `(T4 - T1) - (T3 - T2)` of one exchange, in `units`.
pub fn roundtrip_calculate(t1: u64, t2: u64, t3: u64, t4: u64, units: Units) -> (r: u64)
    ensures
        r == roundtrip_value(t1, t2, t3, t4, units.spec_per_second()),
{
    let delta = t4.wrapping_sub(t1).saturating_sub(t3.wrapping_sub(t2));
    proof {
        lemma_split_timestamp(delta);
    }
    let delta_sec = (delta & SECONDS_MASK) >> 32;
    let delta_sec_fraction = delta & SECONDS_FRAC_MASK;
    convert_delays(delta_sec, delta_sec_fraction, units.per_second())
}

/// Reading a 64-bit pattern as signed is two's complement.
proof fn lemma_as_signed(x: u64)
    ensures
        (x as i64) as int == as_signed(x as int),
{
    assert(x < 0x8000_0000_0000_0000 ==> (x as i64) as int == x as int) by (bit_vector);
    assert(x >= 0x8000_0000_0000_0000 ==> (x as i64) as int == x as int - 0x1_0000_0000_0000_0000)
        by (bit_vector);
}

/// Half of a wrapped difference, read as signed and rounded toward zero.
fn signed_half(diff: u64) -> (r: i64)
    ensures
        r == half_toward_zero(as_signed(diff as int)),
        -0x4000_0000_0000_0000 <= r < 0x4000_0000_0000_0000,
{
    proof {
        lemma_as_signed(diff);
    }
    (diff as i64) / 2
}

/// Clock offset `((T2 - T1) + (T3 - T4)) / 2` of one exchange, in `units`,
/// with its sign.
pub fn offset_calculate(t1: u64, t2: u64, t3: u64, t4: u64, units: Units) -> (r: i64)
    ensures
        r == offset_value(t1, t2, t3, t4, units.spec_per_second()),
{
    // Each half lies in -2^62..2^62, so the sum cannot leave the i64 range:
    // a saturating addition would never saturate here.
    let theta = signed_half(t2.wrapping_sub(t1)) + signed_half(t3.wrapping_sub(t4));
    let magnitude: u64 = if theta < 0 {
        (-(theta + 1)) as u64 + 1
    } else {
        theta as u64
    };
    proof {
        lemma_split_timestamp(magnitude);
    }
    let theta_sec = (magnitude & SECONDS_MASK) >> 32;
    let theta_sec_fraction = magnitude & SECONDS_FRAC_MASK;
    let converted = convert_delays(theta_sec, theta_sec_fraction, units.per_second());
    proof {
        assert(theta_sec <= 0x8000_0000);
        assert(theta_sec * units.spec_per_second() <= 0x8000_0000 * 1_000_000) by (nonlinear_arith)
            requires
                theta_sec <= 0x8000_0000,
                units.spec_per_second() <= 1_000_000,
        ;
        lemma_fraction_in_units_bound(theta_sec_fraction as int, units.spec_per_second());
    }
    if theta < 0 {
        -(converted as i64)
    } else {
        converted as i64
    }
}

/// Seconds from the NTP epoch (1900-01-01) to the UNIX epoch (1970-01-01).
pub const NTP_TIMESTAMP_DELTA: u32 = 2_208_988_800;

/// The 64-bit NTP timestamp of a UNIX time: seconds since 1900 modulo the
/// era in the upper half, the microseconds scaled to fraction ticks in the
/// lower half.
pub open spec fn ntp_timestamp_value(unix_sec: int, subsec_micros: int) -> int {
    ((unix_sec + NTP_TIMESTAMP_DELTA) % era_ticks()) * era_ticks() + subsec_micros
        * fraction_scale() / (USEC_IN_SEC as int)
}

/// NTP timestamp of the UNIX time `unix_sec` seconds and `subsec_micros`
/// microseconds.
pub fn ntp_timestamp(unix_sec: u64, subsec_micros: u32) -> (r: u64)
    requires
        subsec_micros < USEC_IN_SEC,
    ensures
        r == ntp_timestamp_value(unix_sec as int, subsec_micros as int),
{
    let seconds = unix_sec.wrapping_add(NTP_TIMESTAMP_DELTA as u64);
    let shifted = seconds << 32;
    let micros = subsec_micros as u64;
    proof {
        assert(shifted == (seconds % 0x1_0000_0000) * 0x1_0000_0000) by (bit_vector)
            requires
                shifted == seconds << 32u64,
        ;
        assert(micros * 0x1_0000_0000 / 1_000_000 < 0x1_0000_0000) by (nonlinear_arith)
            requires
                micros < 1_000_000,
        ;
        assert((unix_sec + NTP_TIMESTAMP_DELTA) % era_ticks() == seconds % 0x1_0000_0000) by {
            assert(seconds == unix_sec + NTP_TIMESTAMP_DELTA || seconds == unix_sec
                + NTP_TIMESTAMP_DELTA - u64_range());
        }
    }
    shifted + micros * FRACTION_TICKS / USEC_IN_SEC
}

/// A 64-bit NTP timestamp split into seconds since the UNIX epoch and the
/// second fraction.
#[derive(Copy, Clone, Debug)]
pub struct NtpTimestamp {
    /// Seconds since the UNIX epoch; negative before it.
    pub seconds: i64,
    /// Fraction of a second, in ticks of 2^-32 seconds.
    pub seconds_fraction: i64,
}

impl From<u64> for NtpTimestamp {
    fn from(v: u64) -> (r: Self)
        ensures
            r.seconds == v as int / era_ticks() - NTP_TIMESTAMP_DELTA,
            r.seconds_fraction == v as int % era_ticks(),
    {
        proof {
            lemma_split_timestamp(v);
        }
        let seconds = ((v & SECONDS_MASK) >> 32) as i64 - NTP_TIMESTAMP_DELTA as i64;
        let fraction = (v & SECONDS_FRAC_MASK) as i64;
        NtpTimestamp { seconds, seconds_fraction: fraction }
    }
}

impl vstd::std_specs::convert::FromSpecImpl<u64> for NtpTimestamp {
    open spec fn obeys_from_spec() -> bool {
        true
    }

    open spec fn from_spec(v: u64) -> Self {
        NtpTimestamp {
            seconds: (v as int / era_ticks() - NTP_TIMESTAMP_DELTA) as i64,
            seconds_fraction: (v as int % era_ticks()) as i64,
        }
    }
}

/// Whether `t` is the NTP timestamp of some UNIX time with its
/// microseconds below one second.
pub open spec fn is_unix_ntp_timestamp(t: u64) -> bool {
    exists|unix_sec: u64, subsec_micros: u32|
        subsec_micros < USEC_IN_SEC && t == ntp_timestamp_value(unix_sec as int, subsec_micros as int)
}

/// NTP timestamp of the time that `timestamp_gen` last sampled.
pub fn get_ntp_timestamp<T: NtpTimestampGenerator>(timestamp_gen: &T) -> (r: u64)
    ensures
        is_unix_ntp_timestamp(r),
{
    let unix_sec = timestamp_gen.timestamp_sec();
    let subsec_micros = timestamp_gen.timestamp_subsec_micros();
    let r = ntp_timestamp(unix_sec, subsec_micros);
    assert(subsec_micros < USEC_IN_SEC && r == ntp_timestamp_value(
        unix_sec as int,
        subsec_micros as int,
    ));
    r
}

proof fn lemma_span_in_units_bound(span: int, per_second: int)
    requires
        0 <= span < u64_range(),
        0 <= per_second <= USEC_IN_SEC,
    ensures
        0 <= span_in_units(span, per_second) <= (span / era_ticks() + 1) * per_second,
        span_in_units(span, per_second) <= 0xffff_ffff * 1_000_000 + 1_000_000,
{
    let sec = span / era_ticks();
    lemma_fraction_in_units_bound(span % era_ticks(), per_second);
    assert(0 <= sec < era_ticks());
    assert(0 <= sec * per_second) by (nonlinear_arith)
        requires
            0 <= sec,
            0 <= per_second,
    ;
    assert((sec + 1) * per_second == sec * per_second + per_second) by (nonlinear_arith);
    assert((sec + 1) * per_second <= 0x1_0000_0000 * 1_000_000) by (nonlinear_arith)
        requires
            0 <= sec < 0x1_0000_0000,
            0 <= per_second <= 1_000_000,
    ;
}

/// The round-trip delay is never negative: for any `T1 <= T4` and any `T2`,
/// `T3` it is zero or more.
pub proof fn lemma_roundtrip_nonnegative(t1: u64, t2: u64, t3: u64, t4: u64, units: Units)
    requires
        t1 <= t4,
    ensures
        roundtrip_value(t1, t2, t3, t4, units.spec_per_second()) >= 0,
{
    lemma_span_in_units_bound(roundtrip_ticks(t1, t2, t3, t4), units.spec_per_second());
}

/// Whatever the four timestamps, also when `T4` is below `T1` modulo 2^64
/// after an era rollover, the delay fits a `u64` and the offset an `i64`:
/// both computations are total.
pub proof fn lemma_results_in_range(t1: u64, t2: u64, t3: u64, t4: u64, units: Units)
    ensures
        0 <= roundtrip_value(t1, t2, t3, t4, units.spec_per_second()) <= u64::MAX,
        i64::MIN <= offset_value(t1, t2, t3, t4, units.spec_per_second()) <= i64::MAX,
{
    let per_second = units.spec_per_second();
    lemma_span_in_units_bound(roundtrip_ticks(t1, t2, t3, t4), per_second);
    let theta = offset_ticks(t1, t2, t3, t4);
    let magnitude = if theta < 0 {
        -theta
    } else {
        theta
    };
    lemma_span_in_units_bound(magnitude, per_second);
}

/// With `T1 == T4` and `T2 == T3` the offset is the difference `T2 - T1`,
/// read as signed, halved toward zero and doubled: exactly that difference
/// when it is even, and of its sign in any case.
pub proof fn lemma_offset_symmetric(t1: u64, t2: u64, units: Units)
    ensures
        ({
            let d = as_signed(wrapping_diff(t2, t1));
            let offset = offset_value(t1, t2, t2, t1, units.spec_per_second());
            &&& offset == signed_span_in_units(2 * half_toward_zero(d), units.spec_per_second())
            &&& d % 2 == 0 ==> offset == signed_span_in_units(d, units.spec_per_second())
            &&& offset > 0 ==> d > 0
            &&& offset < 0 ==> d < 0
        }),
{
    let d = as_signed(wrapping_diff(t2, t1));
    let per_second = units.spec_per_second();
    let x = 2 * half_toward_zero(d);
    assert(offset_ticks(t1, t2, t2, t1) == x);
    assert(d % 2 == 0 ==> x == d);
    assert(-u64_range() < x < u64_range());
    let magnitude = if x < 0 {
        -x
    } else {
        x
    };
    lemma_span_in_units_bound(magnitude, per_second);
    assert(x == 0 ==> span_in_units(0, per_second) == 0);
}

} // verus!
