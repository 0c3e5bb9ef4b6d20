use spiral_sketch::config::{NUM_PTS, SIG_COORD_HIGH, SIG_COORD_LOW, WIND_AL};
use spiral_sketch::curve::{point_at_progress, progress, Curve, CurvePoint};
use spiral_sketch::fixed::UNIT;
use spiral_sketch::params::CurveParams;

fn example_params() -> CurveParams {
    CurveParams {
        start_segment: 3,
        start_offset_angle: 1_000_000,
        wave_offset: 1,
        wave_amplitude: 80_000,
        wave_speed: 48_000_000,
        progress_start: 250_000,
        progress_end: 750_000,
    }
}

#[test]
fn progress_is_spread_evenly_between_the_ends() {
    assert_eq!(progress(100_000, 900_000, 0, 5), 100_000);
    assert_eq!(progress(100_000, 900_000, 1, 5), 300_000);
    assert_eq!(progress(100_000, 900_000, 2, 5), 500_000);
    assert_eq!(progress(100_000, 900_000, 3, 5), 700_000);
    assert_eq!(progress(100_000, 900_000, 4, 5), 900_000);
    assert_eq!(progress(250_000, 750_000, 100, 256), 446_078);
}

#[test]
fn progress_is_rounded_down() {
    assert_eq!(progress(0, 10, 1, 4), 3);
    assert_eq!(progress(0, 10, 2, 4), 6);
    assert_eq!(progress(0, 10, 3, 4), 10);
}

#[test]
fn progress_runs_backwards_when_the_end_lies_before_the_start() {
    assert_eq!(progress(10, 0, 0, 4), 10);
    assert_eq!(progress(10, 0, 1, 4), 6);
    assert_eq!(progress(10, 0, 2, 4), 3);
    assert_eq!(progress(10, 0, 3, 4), 0);
}

#[test]
fn progress_of_two_points_is_the_two_ends() {
    assert_eq!(progress(123, 456_789, 0, 2), 123);
    assert_eq!(progress(123, 456_789, 1, 2), 456_789);
    assert_eq!(progress(u32::MAX, 0, 1, 2), 0);
    assert_eq!(progress(0, u32::MAX, 1, 2), u32::MAX);
}

#[test]
fn sample_holds_the_value_of_each_formula() {
    let point = point_at_progress(&example_params(), WIND_AL, 500_000);
    assert_eq!(
        point,
        CurvePoint {
            progress: 500_000,
            angle: 7_283_185,
            envelope_coordinate: 3_000_000,
            wave_phase: 24_000_001,
        }
    );
}

#[test]
fn sample_rounds_angle_and_phase_down() {
    let params = CurveParams {
        start_segment: 0,
        start_offset_angle: 7,
        wave_offset: 0,
        wave_amplitude: 0,
        wave_speed: 7,
        progress_start: 0,
        progress_end: UNIT,
    };
    let point = point_at_progress(&params, 3, 333_333);
    assert_eq!(point.angle, 7);
    assert_eq!(point.wave_phase, 2);
    assert_eq!(point.envelope_coordinate, 666_662);
}

#[test]
fn envelope_coordinate_runs_from_low_to_high() {
    let params = example_params();
    assert_eq!(point_at_progress(&params, WIND_AL, 0).envelope_coordinate, SIG_COORD_LOW);
    assert_eq!(point_at_progress(&params, WIND_AL, UNIT).envelope_coordinate, SIG_COORD_HIGH);
    assert_eq!(point_at_progress(&params, WIND_AL, 123_457).envelope_coordinate, -2_271_602);
}

#[test]
fn sample_of_the_largest_values_does_not_overflow() {
    let params = CurveParams {
        start_segment: u32::MAX,
        start_offset_angle: u32::MAX,
        wave_offset: u32::MAX,
        wave_amplitude: u32::MAX,
        wave_speed: u32::MAX,
        progress_start: 0,
        progress_end: u32::MAX,
    };
    let point = point_at_progress(&params, u32::MAX, u32::MAX);
    let square: u64 = (u32::MAX as u64) * (u32::MAX as u64);
    assert_eq!(point.angle, u32::MAX as u64 + square / 1_000_000);
    assert_eq!(point.wave_phase, u32::MAX as u64 + square / 1_000_000);
    assert_eq!(point.envelope_coordinate, -4_000_000 + 14 * (u32::MAX as i64));
}

#[test]
fn generate_returns_point_count_points() {
    let params = example_params();
    for count in [2usize, 3, 7, 256, 1000] {
        let curve = Curve::generate(params, count, WIND_AL);
        assert_eq!(curve.len(), count);
        assert_eq!(curve.points().len(), count);
        assert_eq!(curve.params(), params);
        assert_eq!(curve.wind_angle(), WIND_AL);
    }
}

#[test]
fn generate_starts_and_ends_at_the_angles_of_the_two_ends() {
    let params = example_params();
    let curve = Curve::generate(params, NUM_PTS, WIND_AL);
    let first = curve.points()[0];
    let last = curve.points()[NUM_PTS - 1];
    assert_eq!(first.progress, 250_000);
    assert_eq!(last.progress, 750_000);
    // 1.0 + 4 pi * 0.25 and 1.0 + 4 pi * 0.75
    assert_eq!(first.angle, 1_000_000 + 3_141_592);
    assert_eq!(last.angle, 1_000_000 + 9_424_777);
    assert_eq!(first, point_at_progress(&params, WIND_AL, params.progress_start));
    assert_eq!(last, point_at_progress(&params, WIND_AL, params.progress_end));
}

#[test]
fn generate_places_every_point_at_its_progress() {
    let params = example_params();
    let curve = Curve::generate(params, NUM_PTS, WIND_AL);
    for (index, point) in curve.points().iter().enumerate() {
        let along = progress(params.progress_start, params.progress_end, index, NUM_PTS);
        assert_eq!(*point, point_at_progress(&params, WIND_AL, along));
    }
    assert_eq!(curve.points()[100].progress, 446_078);
}

#[test]
fn generate_moves_forward_along_the_line() {
    let curve = Curve::generate(example_params(), NUM_PTS, WIND_AL);
    for pair in curve.points().windows(2) {
        assert!(pair[0].progress <= pair[1].progress);
        assert!(pair[0].angle <= pair[1].angle);
        assert!(pair[0].envelope_coordinate <= pair[1].envelope_coordinate);
    }
}

#[test]
fn generate_is_deterministic() {
    let first = Curve::generate(example_params(), NUM_PTS, WIND_AL);
    let second = Curve::generate(example_params(), NUM_PTS, WIND_AL);
    assert_eq!(first, second);
}

#[test]
fn generate_over_the_whole_progress_range() {
    let params = CurveParams { progress_start: 0, progress_end: UNIT, ..example_params() };
    let curve = Curve::generate(params, NUM_PTS, WIND_AL);
    let first = curve.points()[0];
    let last = curve.points()[NUM_PTS - 1];
    assert_eq!(first.progress, 0);
    assert_eq!(first.angle, 1_000_000);
    assert_eq!(first.envelope_coordinate, -4_000_000);
    assert_eq!(first.wave_phase, 1);
    assert_eq!(last.progress, UNIT);
    assert_eq!(last.angle, 1_000_000 + 12_566_370);
    assert_eq!(last.envelope_coordinate, 10_000_000);
    assert_eq!(last.wave_phase, 48_000_001);
}
