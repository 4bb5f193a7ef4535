//! What the accelerometer task computes: how long to wait between samples
//! at each output data rate.

use vstd::prelude::*;

verus! {

/// One sample of the accelerometer.
#[derive(Clone, Copy, Debug, PartialEq, Eq, Structural)]
pub struct Measurement {
    /// x-axis acceleration in milli-g
    pub x: i32,
    /// y-axis acceleration in milli-g
    pub y: i32,
    /// z-axis acceleration in milli-g
    pub z: i32,
}

/// The rates at which the accelerometer puts out samples.
#[derive(Clone, Copy, Debug, PartialEq, Eq, Structural)]
pub enum AccelOutputDataRate {
    Hz1,
    Hz10,
    Hz25,
    Hz50,
    Hz100,
    Hz200,
    Hz400,
    Khz1_344,
    Khz1_620LowPower,
    Khz5_376LowPower,
}

/// The time between two samples at `rate`, in microseconds, rounded down.
pub open spec fn period_micros(rate: AccelOutputDataRate) -> u64 {
    match rate {
        AccelOutputDataRate::Hz1 => 1_000_000,
        AccelOutputDataRate::Hz10 => 100_000,
        AccelOutputDataRate::Hz25 => 40_000,
        AccelOutputDataRate::Hz50 => 20_000,
        AccelOutputDataRate::Hz100 => 10_000,
        AccelOutputDataRate::Hz200 => 5_000,
        AccelOutputDataRate::Hz400 => 2_500,
        AccelOutputDataRate::Khz1_344 => 744,
        AccelOutputDataRate::Khz1_620LowPower => 617,
        AccelOutputDataRate::Khz5_376LowPower => 186,
    }
}

/// The rate in samples per second.
pub open spec fn hertz(rate: AccelOutputDataRate) -> int {
    match rate {
        AccelOutputDataRate::Hz1 => 1,
        AccelOutputDataRate::Hz10 => 10,
        AccelOutputDataRate::Hz25 => 25,
        AccelOutputDataRate::Hz50 => 50,
        AccelOutputDataRate::Hz100 => 100,
        AccelOutputDataRate::Hz200 => 200,
        AccelOutputDataRate::Hz400 => 400,
        AccelOutputDataRate::Khz1_344 => 1344,
        AccelOutputDataRate::Khz1_620LowPower => 1620,
        AccelOutputDataRate::Khz5_376LowPower => 5376,
    }
}

/// The time that the sampling task waits between two samples at `rate`, in
/// microseconds.
pub fn sample_period_micros(rate: AccelOutputDataRate) -> (micros: u64)
    ensures
        micros == period_micros(rate),
{
    match rate {
        AccelOutputDataRate::Hz1 => 1_000_000,
        AccelOutputDataRate::Hz10 => 100_000,
        AccelOutputDataRate::Hz25 => 40_000,
        AccelOutputDataRate::Hz50 => 20_000,
        AccelOutputDataRate::Hz100 => 10_000,
        AccelOutputDataRate::Hz200 => 5_000,
        AccelOutputDataRate::Hz400 => 2_500,
        AccelOutputDataRate::Khz1_344 => 744,
        AccelOutputDataRate::Khz1_620LowPower => 617,
        AccelOutputDataRate::Khz5_376LowPower => 186,
    }
}

/// The period is the whole number of microseconds that one sample takes at
/// the rate: a second divided by the rate, rounded down.
pub proof fn lemma_period_is_rate_inverse(rate: AccelOutputDataRate)
    ensures
        period_micros(rate) == 1_000_000int / hertz(rate),
{
}

} // verus!
