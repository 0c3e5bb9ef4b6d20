use spiral_sketch::config::{
    NUM_PTS, START_RAD, STOP_RAD_PERC, WAV_MAG_MAX, WIND_AL,
};
use spiral_sketch::curve::{point_at_progress, Curve};
use spiral_sketch::fixed::UNIT;
use spiral_sketch::params::CurveParams;
use spiral_sketch::radius::{cartesian, damped_wave, radius, rescaled_envelope};

fn logistic(envelope_coordinate: i64) -> u32 {
    let s = envelope_coordinate as f64 / UNIT as f64;
    (1.0 / (1.0 + (-s).exp()) * UNIT as f64).round() as u32
}

fn sine(wave_phase: u64) -> i32 {
    ((wave_phase as f64 / UNIT as f64).sin() * UNIT as f64).round() as i32
}

fn boundary_params() -> CurveParams {
    CurveParams {
        start_segment: 0,
        start_offset_angle: 0,
        wave_offset: 2_000_000,
        wave_amplitude: WAV_MAG_MAX,
        wave_speed: 64_000_000,
        progress_start: 0,
        progress_end: UNIT,
    }
}

#[test]
fn rescaled_envelope_runs_from_one_to_the_stop_fraction() {
    assert_eq!(rescaled_envelope(0, STOP_RAD_PERC), UNIT);
    assert_eq!(rescaled_envelope(UNIT, STOP_RAD_PERC), STOP_RAD_PERC);
    assert_eq!(rescaled_envelope(250_000, STOP_RAD_PERC), 781_250);
    assert_eq!(rescaled_envelope(952_574, STOP_RAD_PERC), 166_497);
    assert_eq!(rescaled_envelope(400_000, 0), 600_000);
    assert_eq!(rescaled_envelope(400_000, UNIT), UNIT);
}

#[test]
fn damped_wave_scales_the_sine_by_amplitude_and_envelope() {
    assert_eq!(damped_wave(600_000, 80_000, 250_000), 36_000);
    assert_eq!(damped_wave(-600_000, 80_000, 250_000), -36_000);
    assert_eq!(damped_wave(1_000_000, 100_000, 0), 100_000);
    assert_eq!(damped_wave(-1_000_000, 100_000, 0), -100_000);
    assert_eq!(damped_wave(1_000_000, 100_000, UNIT), 0);
    assert_eq!(damped_wave(0, 100_000, 0), 0);
}

#[test]
fn damped_wave_is_rounded_down_below_zero_too() {
    assert_eq!(damped_wave(1, 1, 0), 0);
    assert_eq!(damped_wave(-1, 1, 0), -1);
    assert_eq!(damped_wave(-333_333, 77_777, 123_456), -22_725);
}

#[test]
fn radius_adds_envelope_and_wave() {
    assert_eq!(radius(250_000, 600_000, 80_000, STOP_RAD_PERC, START_RAD), 326_900_000);
    assert_eq!(radius(500_000, -1_000_000, 100_000, STOP_RAD_PERC, START_RAD), 205_000_000);
    assert_eq!(radius(500_000, 1_000_000, 100_000, STOP_RAD_PERC, START_RAD), 245_000_000);
    assert_eq!(radius(0, 0, 0, STOP_RAD_PERC, START_RAD), 400_000_000);
    assert_eq!(radius(UNIT, 0, 0, STOP_RAD_PERC, START_RAD), 50_000_000);
}

#[test]
fn radius_may_be_negative_when_the_wave_exceeds_the_stop_fraction() {
    assert_eq!(radius(0, -1_000_000, 2_000_000, 0, 3), -3);
    assert_eq!(radius(0, -1, 1, 0, UNIT), 999_999);
    assert_eq!(radius(0, -1_000_000, u32::MAX, 0, u32::MAX), {
        let sum: i128 = 1_000_000 - u32::MAX as i128;
        (sum * u32::MAX as i128).div_euclid(1_000_000) as i64
    });
}

#[test]
fn radius_at_half_progress_without_wave() {
    // progress 0.5 gives the envelope coordinate 0.5 * 14 - 4 = 3
    let point = point_at_progress(&boundary_params(), WIND_AL, UNIT / 2);
    assert_eq!(point.envelope_coordinate, 3_000_000);
    let value = logistic(point.envelope_coordinate);
    assert_eq!(value, 952_574);
    let rescaled = rescaled_envelope(value, STOP_RAD_PERC);
    assert_eq!(rescaled, 166_497);
    for sine_value in [-1_000_000, -1, 0, 777, 1_000_000] {
        assert_eq!(radius(value, sine_value, 0, STOP_RAD_PERC, START_RAD), 66_598_800);
    }
    let closed_form = ((1.0 - 1.0 / (1.0 + (-3.0f64).exp())) * (1.0 - 0.125) + 0.125) * 400.0;
    let computed = 66_598_800 as f64 / UNIT as f64;
    assert!((closed_form - computed).abs() < 0.001);
}

#[test]
fn envelope_never_grows_along_a_line() {
    let params = CurveParams { wave_amplitude: 0, ..boundary_params() };
    let curve = Curve::generate(params, NUM_PTS, WIND_AL);
    let mut last_rescaled = UNIT;
    let mut last_radius = START_RAD as i64;
    for point in curve.points() {
        let value = logistic(point.envelope_coordinate);
        let rescaled = rescaled_envelope(value, STOP_RAD_PERC);
        let r = radius(value, sine(point.wave_phase), 0, STOP_RAD_PERC, START_RAD);
        assert!(rescaled <= last_rescaled);
        assert!(r <= last_radius);
        last_rescaled = rescaled;
        last_radius = r;
    }
    assert!(last_rescaled < UNIT);
    assert!(last_rescaled >= STOP_RAD_PERC);
}

#[test]
fn no_radius_is_negative_over_the_whole_progress_range() {
    assert!(
        STOP_RAD_PERC as u64 * START_RAD as u64 > WAV_MAG_MAX as u64 * START_RAD as u64
    );
    let params = boundary_params();
    let curve = Curve::generate(params, NUM_PTS, WIND_AL);
    for point in curve.points() {
        let r = radius(
            logistic(point.envelope_coordinate),
            sine(point.wave_phase),
            params.wave_amplitude,
            STOP_RAD_PERC,
            START_RAD,
        );
        // (0.125 - 0.1) * 400 and (1 + 0.1) * 400
        assert!(r >= 10_000_000);
        assert!(r <= 440_000_000);
    }
}

#[test]
fn radius_stays_within_its_bounds_at_the_extremes() {
    for logistic_value in [0, 1, 500_000, 999_999, UNIT] {
        for sine_value in [-1_000_000, -500_000, 0, 500_000, 1_000_000] {
            let r = radius(logistic_value, sine_value, WAV_MAG_MAX, STOP_RAD_PERC, START_RAD);
            assert!(r >= 10_000_000);
            assert!(r <= 440_000_000);
        }
    }
}

#[test]
fn cartesian_scales_the_radius_by_cosine_and_sine() {
    assert_eq!(cartesian(66_598_800, 500_000, -866_025), (33_299_400, -57_676_226));
    assert_eq!(cartesian(400_000_000, 707_107, 707_107), (282_842_800, 282_842_800));
    assert_eq!(cartesian(400_000_000, 1_000_000, 0), (400_000_000, 0));
    assert_eq!(cartesian(400_000_000, 0, -1_000_000), (0, -400_000_000));
    assert_eq!(cartesian(0, 1_000_000, 1_000_000), (0, 0));
}

#[test]
fn cartesian_is_rounded_down_below_zero_too() {
    assert_eq!(cartesian(7, -1, 1), (-1, 0));
    assert_eq!(cartesian(-3, 333_333, -333_333), (-1, 0));
    assert_eq!(cartesian(-3, 1_000_000, -1_000_000), (-3, 3));
}

#[test]
fn cartesian_of_the_largest_radius_does_not_overflow() {
    assert_eq!(cartesian(i64::MAX, -1_000_000, 1_000_000), (-i64::MAX, i64::MAX));
    assert_eq!(cartesian(-i64::MAX, -1_000_000, 1_000_000), (i64::MAX, -i64::MAX));
}

#[test]
fn points_of_a_line_stay_inside_the_window() {
    let params = boundary_params();
    let curve = Curve::generate(params, NUM_PTS, WIND_AL);
    for point in curve.points() {
        let t = point.angle as f64 / UNIT as f64;
        let r = radius(
            logistic(point.envelope_coordinate),
            sine(point.wave_phase),
            params.wave_amplitude,
            STOP_RAD_PERC,
            START_RAD,
        );
        let (x, y) = cartesian(
            r,
            (t.cos() * UNIT as f64).round() as i32,
            (t.sin() * UNIT as f64).round() as i32,
        );
        assert!(x.abs() <= r && y.abs() <= r);
        assert!(x.abs() <= 500_000_000 && y.abs() <= 500_000_000);
    }
}
