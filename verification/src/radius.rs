//! The radius of a point.
//!
//! The renderer evaluates the logistic function and the sine of the wave;
//! what is made of the two values is computed here. All values are in
//! millionths, and every quotient is rounded down.

use vstd::prelude::*;
use vstd::arithmetic::div_mod::{lemma_div_is_ordered, lemma_div_multiples_vanish};
use crate::fixed::{floor_div, UNIT};

verus! {

/// The envelope: the logistic value flipped, so that it falls from one
/// toward zero as the logistic value rises.
pub open spec fn envelope_of(logistic: int) -> int {
    UNIT - logistic
}

/// The wave: the sine scaled by the amplitude and damped by the envelope.
pub open spec fn damped_wave_of(sine: int, amplitude: int, envelope: int) -> int {
    (sine * amplitude * envelope) / (UNIT * UNIT)
}

/// The envelope carried from `[0, 1]` into `[stop_fraction, 1]`.
pub open spec fn rescaled_envelope_of(envelope: int, stop_fraction: int) -> int {
    (envelope * (UNIT - stop_fraction)) / (UNIT as int) + stop_fraction
}

/// The radius: the rescaled envelope plus the wave, as a fraction of the
/// start radius.
pub open spec fn radius_of(
    logistic: int,
    sine: int,
    amplitude: int,
    stop_fraction: int,
    start_radius: int,
) -> int {
    let envelope = envelope_of(logistic);
    ((rescaled_envelope_of(envelope, stop_fraction) + damped_wave_of(sine, amplitude, envelope))
        * start_radius) / (UNIT as int)
}

/// The rescaled envelope lies between the stop fraction and one, and the
/// wave between minus and plus the amplitude.
pub proof fn envelope_and_wave_are_bounded(
    logistic: int,
    sine: int,
    amplitude: int,
    stop_fraction: int,
)
    requires
        0 <= logistic <= UNIT,
        -UNIT <= sine <= UNIT,
        0 <= amplitude,
        0 <= stop_fraction <= UNIT,
    ensures
        stop_fraction <= rescaled_envelope_of(envelope_of(logistic), stop_fraction) <= UNIT,
        -amplitude <= damped_wave_of(sine, amplitude, envelope_of(logistic)) <= amplitude,
{
    let unit = UNIT as int;
    let envelope = envelope_of(logistic);
    assert(0 <= envelope * (unit - stop_fraction) <= unit * (unit - stop_fraction))
        by (nonlinear_arith)
        requires
            0 <= envelope <= unit,
            0 <= unit - stop_fraction,
    ;
    let scale = unit * unit;
    assert(scale * (-amplitude) <= sine * amplitude * envelope <= scale * amplitude)
        by (nonlinear_arith)
        requires
            -unit <= sine <= unit,
            0 <= envelope <= unit,
            0 <= amplitude,
            scale == unit * unit,
    ;
    lemma_div_is_ordered(scale * (-amplitude), sine * amplitude * envelope, scale);
    lemma_div_is_ordered(sine * amplitude * envelope, scale * amplitude, scale);
    lemma_div_multiples_vanish(-amplitude, scale);
    lemma_div_multiples_vanish(amplitude, scale);
}

/// The radius lies between what the stop fraction less the amplitude and
/// what one plus the amplitude make of the start radius. The wave is not
/// clipped, so the radius may pass the stop radius and the start radius by
/// the amplitude, and no further.
pub proof fn radius_is_bounded(
    logistic: int,
    sine: int,
    amplitude: int,
    stop_fraction: int,
    start_radius: int,
)
    requires
        0 <= logistic <= UNIT,
        -UNIT <= sine <= UNIT,
        0 <= amplitude,
        0 <= stop_fraction <= UNIT,
        0 <= start_radius,
    ensures
        ((stop_fraction - amplitude) * start_radius) / (UNIT as int) <= radius_of(
            logistic,
            sine,
            amplitude,
            stop_fraction,
            start_radius,
        ),
        radius_of(logistic, sine, amplitude, stop_fraction, start_radius) <= ((UNIT + amplitude)
            * start_radius) / (UNIT as int),
{
    let unit = UNIT as int;
    let envelope = envelope_of(logistic);
    let sum = rescaled_envelope_of(envelope, stop_fraction) + damped_wave_of(
        sine,
        amplitude,
        envelope,
    );
    envelope_and_wave_are_bounded(logistic, sine, amplitude, stop_fraction);
    assert((stop_fraction - amplitude) * start_radius <= sum * start_radius <= (unit + amplitude)
        * start_radius) by (nonlinear_arith)
        requires
            stop_fraction - amplitude <= sum <= unit + amplitude,
            0 <= start_radius,
    ;
    lemma_div_is_ordered((stop_fraction - amplitude) * start_radius, sum * start_radius, unit);
    lemma_div_is_ordered(sum * start_radius, (unit + amplitude) * start_radius, unit);
}

/// While the amplitude does not exceed the stop fraction, no radius is
/// negative.
pub proof fn radius_is_not_negative(
    logistic: int,
    sine: int,
    amplitude: int,
    stop_fraction: int,
    start_radius: int,
)
    requires
        0 <= logistic <= UNIT,
        -UNIT <= sine <= UNIT,
        0 <= amplitude <= stop_fraction <= UNIT,
        0 <= start_radius,
    ensures
        0 <= radius_of(logistic, sine, amplitude, stop_fraction, start_radius),
{
    radius_is_bounded(logistic, sine, amplitude, stop_fraction, start_radius);
    assert(0 <= (stop_fraction - amplitude) * start_radius) by (nonlinear_arith)
        requires
            0 <= stop_fraction - amplitude,
            0 <= start_radius,
    ;
    lemma_div_is_ordered(0, (stop_fraction - amplitude) * start_radius, UNIT as int);
}

/// With amplitude zero there is no wave: whatever the sine, the radius is
/// the rescaled envelope as a fraction of the start radius.
pub proof fn radius_without_wave(logistic: int, sine: int, stop_fraction: int, start_radius: int)
    ensures
        damped_wave_of(sine, 0, envelope_of(logistic)) == 0,
        radius_of(logistic, sine, 0, stop_fraction, start_radius) == (rescaled_envelope_of(
            envelope_of(logistic),
            stop_fraction,
        ) * start_radius) / (UNIT as int),
{
    assert(sine * 0 * envelope_of(logistic) == 0) by (nonlinear_arith);
}

/// As the logistic value rises, the envelope falls, and with it the
/// rescaled envelope and the radius of a line without wave: such a line
/// only ever moves inward.
pub proof fn envelope_falls_as_logistic_rises(
    lower: int,
    higher: int,
    sine: int,
    stop_fraction: int,
    start_radius: int,
)
    requires
        lower <= higher,
        0 <= stop_fraction <= UNIT,
        0 <= start_radius,
    ensures
        envelope_of(higher) <= envelope_of(lower),
        rescaled_envelope_of(envelope_of(higher), stop_fraction) <= rescaled_envelope_of(
            envelope_of(lower),
            stop_fraction,
        ),
        radius_of(higher, sine, 0, stop_fraction, start_radius) <= radius_of(
            lower,
            sine,
            0,
            stop_fraction,
            start_radius,
        ),
{
    let unit = UNIT as int;
    let room = unit - stop_fraction;
    assert(envelope_of(higher) * room <= envelope_of(lower) * room) by (nonlinear_arith)
        requires
            envelope_of(higher) <= envelope_of(lower),
            0 <= room,
    ;
    lemma_div_is_ordered(envelope_of(higher) * room, envelope_of(lower) * room, unit);
    let inner = rescaled_envelope_of(envelope_of(higher), stop_fraction);
    let outer = rescaled_envelope_of(envelope_of(lower), stop_fraction);
    assert(inner * start_radius <= outer * start_radius) by (nonlinear_arith)
        requires
            inner <= outer,
            0 <= start_radius,
    ;
    lemma_div_is_ordered(inner * start_radius, outer * start_radius, unit);
    radius_without_wave(higher, sine, stop_fraction, start_radius);
    radius_without_wave(lower, sine, stop_fraction, start_radius);
}

/// Computes the rescaled envelope from the logistic value.
pub fn rescaled_envelope(logistic: u32, stop_fraction: u32) -> (value: u32)
    requires
        logistic <= UNIT,
        stop_fraction <= UNIT,
    ensures
        value == rescaled_envelope_of(envelope_of(logistic as int), stop_fraction as int),
        stop_fraction <= value <= UNIT,
{
    proof {
        envelope_and_wave_are_bounded(logistic as int, 0, 0, stop_fraction as int);
    }
    let envelope: u64 = (UNIT - logistic) as u64;
    let room: u64 = (UNIT - stop_fraction) as u64;
    assert(envelope * room <= 1_000_000_000_000) by (nonlinear_arith)
        requires
            0 <= envelope <= 1_000_000,
            0 <= room <= 1_000_000,
    ;
    let carried: u64 = (envelope * room) / (UNIT as u64);
    carried as u32 + stop_fraction
}

/// Computes the wave from the sine and the logistic value.
pub fn damped_wave(sine: i32, amplitude: u32, logistic: u32) -> (value: i64)
    requires
        -UNIT <= sine <= UNIT,
        logistic <= UNIT,
    ensures
        value == damped_wave_of(sine as int, amplitude as int, envelope_of(logistic as int)),
        -amplitude <= value <= amplitude,
{
    proof {
        envelope_and_wave_are_bounded(logistic as int, sine as int, amplitude as int, 0);
    }
    let envelope: i128 = (UNIT - logistic) as i128;
    assert(-0x1_0000_0000_0000_0000 < sine * amplitude < 0x1_0000_0000_0000_0000)
        by (nonlinear_arith)
        requires
            -0x1_0000_0000 < sine < 0x1_0000_0000,
            0 <= amplitude < 0x1_0000_0000,
    ;
    let swing: i128 = sine as i128 * amplitude as i128;
    assert(-0x1_0000_0000_0000_0000_0000_0000 < swing * envelope
        < 0x1_0000_0000_0000_0000_0000_0000) by (nonlinear_arith)
        requires
            -0x1_0000_0000_0000_0000 < swing < 0x1_0000_0000_0000_0000,
            0 <= envelope < 0x1_0000_0000,
    ;
    let scale: u64 = UNIT as u64 * UNIT as u64;
    let quotient: i128 = floor_div(swing * envelope, scale);
    quotient as i64
}

/// Computes the radius of a point from the logistic value and the sine of
/// the wave at that point.
pub fn radius(
    logistic: u32,
    sine: i32,
    amplitude: u32,
    stop_fraction: u32,
    start_radius: u32,
) -> (value: i64)
    requires
        logistic <= UNIT,
        -UNIT <= sine <= UNIT,
        stop_fraction <= UNIT,
    ensures
        value == radius_of(
            logistic as int,
            sine as int,
            amplitude as int,
            stop_fraction as int,
            start_radius as int,
        ),
        i64::MIN < value,
{
    let rescaled: u32 = rescaled_envelope(logistic, stop_fraction);
    let wave: i64 = damped_wave(sine, amplitude, logistic);
    let sum: i128 = rescaled as i128 + wave as i128;
    assert(-0x1_0000_0000_0000_0000_0000 < sum * start_radius < 0x1_0000_0000_0000_0000_0000)
        by (nonlinear_arith)
        requires
            -0x1_0000_0000_0000 < sum < 0x1_0000_0000_0000,
            0 <= start_radius < 0x1_0000_0000,
    ;
    let quotient: i128 = floor_div(sum * start_radius as i128, UNIT as u64);
    proof {
        radius_is_bounded(
            logistic as int,
            sine as int,
            amplitude as int,
            stop_fraction as int,
            start_radius as int,
        );
        assert(-0x1_0000_0000_0000_0000 < (stop_fraction - amplitude) * start_radius)
            by (nonlinear_arith)
            requires
                -0x1_0000_0000 < stop_fraction - amplitude,
                stop_fraction - amplitude <= 0x1_0000_0000,
                0 <= start_radius < 0x1_0000_0000,
        ;
        assert((UNIT + amplitude) * start_radius < 0x4_0000_0000_0000_0000) by (nonlinear_arith)
            requires
                0 <= UNIT + amplitude < 0x2_0000_0000,
                0 <= start_radius < 0x1_0000_0000,
        ;
    }
    quotient as i64
}

/// A coordinate of a point: the radius scaled by the cosine of its angle
/// for the horizontal one, by the sine for the vertical one.
pub open spec fn coordinate_of(radius: int, direction: int) -> int {
    (radius * direction) / (UNIT as int)
}

/// No coordinate lies further from the centre than the radius.
pub proof fn coordinate_stays_within_radius(radius: int, direction: int)
    requires
        -UNIT <= direction <= UNIT,
    ensures
        radius >= 0 ==> -radius <= coordinate_of(radius, direction) <= radius,
        radius <= 0 ==> radius <= coordinate_of(radius, direction) <= -radius,
{
    let unit = UNIT as int;
    if radius >= 0 {
        assert(unit * (-radius) <= radius * direction <= unit * radius) by (nonlinear_arith)
            requires
                -unit <= direction <= unit,
                radius >= 0,
        ;
        lemma_div_is_ordered(unit * (-radius), radius * direction, unit);
        lemma_div_is_ordered(radius * direction, unit * radius, unit);
    } else {
        assert(unit * radius <= radius * direction <= unit * (-radius)) by (nonlinear_arith)
            requires
                -unit <= direction <= unit,
                radius <= 0,
        ;
        lemma_div_is_ordered(unit * radius, radius * direction, unit);
        lemma_div_is_ordered(radius * direction, unit * (-radius), unit);
    }
    lemma_div_multiples_vanish(radius, unit);
    lemma_div_multiples_vanish(-radius, unit);
}

/// Computes where a point lies: its horizontal and its vertical coordinate,
/// from its radius and the cosine and sine of its angle. The least value of
/// the radius' type is left out, since its opposite does not fit the type.
pub fn cartesian(radius: i64, cosine: i32, sine: i32) -> (at: (i64, i64))
    requires
        i64::MIN < radius,
        -UNIT <= cosine <= UNIT,
        -UNIT <= sine <= UNIT,
    ensures
        at.0 == coordinate_of(radius as int, cosine as int),
        at.1 == coordinate_of(radius as int, sine as int),
{
    proof {
        coordinate_stays_within_radius(radius as int, cosine as int);
        coordinate_stays_within_radius(radius as int, sine as int);
    }
    assert(-0x1_0000_0000_0000_0000_0000_0000 < radius * cosine
        < 0x1_0000_0000_0000_0000_0000_0000) by (nonlinear_arith)
        requires
            -0x1_0000_0000_0000_0000 < radius < 0x1_0000_0000_0000_0000,
            -0x1_0000_0000 < cosine < 0x1_0000_0000,
    ;
    assert(-0x1_0000_0000_0000_0000_0000_0000 < radius * sine
        < 0x1_0000_0000_0000_0000_0000_0000) by (nonlinear_arith)
        requires
            -0x1_0000_0000_0000_0000 < radius < 0x1_0000_0000_0000_0000,
            -0x1_0000_0000 < sine < 0x1_0000_0000,
    ;
    let x: i128 = floor_div(radius as i128 * cosine as i128, UNIT as u64);
    let y: i128 = floor_div(radius as i128 * sine as i128, UNIT as u64);
    (x as i64, y as i64)
}

} // verus!
