//! One line of the sketch: where along its spiral each of its points lies.
//!
//! A line is traced by a progress that runs from `progress_start` to
//! `progress_end`. Each point carries its progress, the angle at which it
//! lies, and the two arguments at which the renderer evaluates the logistic
//! envelope and the sine of the wave.

use vstd::prelude::*;
use vstd::arithmetic::div_mod::{lemma_div_is_ordered, lemma_div_multiples_vanish};
use crate::config::{SIG_COORD_HIGH, SIG_COORD_LOW};
use crate::fixed::{floor_div, UNIT};
use crate::params::CurveParams;

verus! {

/// One point of a line, before its radius is known.
#[derive(Clone, Copy, Debug, PartialEq, Eq, Structural)]
pub struct CurvePoint {
    /// The progress of the point along the line.
    pub progress: u32,
    /// The angle at which the point lies, in millionths of a radian.
    pub angle: u64,
    /// The argument of the logistic function for this point.
    pub envelope_coordinate: i64,
    /// The argument of the wave's sine for this point, in millionths of a
    /// radian.
    pub wave_phase: u64,
}

/// The progress of point `index` of `count`: the fraction
/// `index / (count - 1)` carried from `[0, 1]` into `[start, end]`, rounded
/// down. The first point is at `start`, the last at `end`.
pub open spec fn progress_at(start: int, end: int, index: int, count: int) -> int {
    start + ((end - start) * index) / (count - 1)
}

/// The angle at a progress: the start angle plus the share of the wind
/// angle that the progress has covered, rounded down.
pub open spec fn angle_at(start_offset_angle: int, wind_angle: int, progress: int) -> int {
    start_offset_angle + (wind_angle * progress) / (UNIT as int)
}

/// The argument of the logistic function at a progress: progress 0 to 1 is
/// carried linearly onto `SIG_COORD_LOW` to `SIG_COORD_HIGH`.
pub open spec fn envelope_coordinate_at(progress: int) -> int {
    SIG_COORD_LOW + ((SIG_COORD_HIGH - SIG_COORD_LOW) * progress) / (UNIT as int)
}

/// The argument of the wave's sine at a progress, rounded down.
pub open spec fn wave_phase_at(wave_speed: int, wave_offset: int, progress: int) -> int {
    (progress * wave_speed) / (UNIT as int) + wave_offset
}

/// Point `index` of the `count` points of the line with these parameters.
pub open spec fn point_at(
    params: CurveParams,
    wind_angle: u32,
    index: int,
    count: int,
) -> CurvePoint {
    let progress = progress_at(
        params.progress_start as int,
        params.progress_end as int,
        index,
        count,
    );
    CurvePoint {
        progress: progress as u32,
        angle: angle_at(params.start_offset_angle as int, wind_angle as int, progress) as u64,
        envelope_coordinate: envelope_coordinate_at(progress) as i64,
        wave_phase: wave_phase_at(
            params.wave_speed as int,
            params.wave_offset as int,
            progress,
        ) as u64,
    }
}

/// All `count` points of the line with these parameters, in order.
pub open spec fn curve_points(params: CurveParams, wind_angle: u32, count: nat) -> Seq<
    CurvePoint,
> {
    Seq::new(count, |index: int| point_at(params, wind_angle, index, count as int))
}

/// The progress of every point lies between the two ends of the line,
/// whichever of them is the larger; the first point is at the start and the
/// last at the end.
pub proof fn progress_stays_between_ends(start: int, end: int, index: int, count: int)
    requires
        count >= 2,
        0 <= index < count,
    ensures
        start <= end ==> start <= progress_at(start, end, index, count) <= end,
        end <= start ==> end <= progress_at(start, end, index, count) <= start,
        progress_at(start, end, 0, count) == start,
        progress_at(start, end, count - 1, count) == end,
{
    let d = count - 1;
    let delta = end - start;
    assert((delta * d) / d == delta) by {
        lemma_div_multiples_vanish(delta, d);
        assert(delta * d == d * delta) by (nonlinear_arith);
    }
    if delta >= 0 {
        assert(0 <= delta * index <= delta * d) by (nonlinear_arith)
            requires
                0 <= index <= d,
                delta >= 0,
        ;
        lemma_div_is_ordered(0, delta * index, d);
        lemma_div_is_ordered(delta * index, delta * d, d);
    }
    if delta <= 0 {
        assert(delta * d <= delta * index <= 0) by (nonlinear_arith)
            requires
                0 <= index <= d,
                delta <= 0,
        ;
        lemma_div_is_ordered(delta * index, 0, d);
        lemma_div_is_ordered(delta * d, delta * index, d);
    }
}

/// Along a line that ends no earlier than it starts, progress never
/// decreases from one point to the next.
pub proof fn progress_never_decreases(
    start: int,
    end: int,
    earlier: int,
    later: int,
    count: int,
)
    requires
        count >= 2,
        start <= end,
        0 <= earlier <= later < count,
    ensures
        progress_at(start, end, earlier, count) <= progress_at(start, end, later, count),
{
    let d = count - 1;
    let delta = end - start;
    assert(delta * earlier <= delta * later) by (nonlinear_arith)
        requires
            earlier <= later,
            delta >= 0,
    ;
    lemma_div_is_ordered(delta * earlier, delta * later, d);
}

/// The angle and the argument of the logistic function never decrease as
/// progress grows.
pub proof fn angle_and_coordinate_follow_progress(
    start_offset_angle: int,
    wind_angle: int,
    lower: int,
    higher: int,
)
    requires
        wind_angle >= 0,
        lower <= higher,
    ensures
        angle_at(start_offset_angle, wind_angle, lower) <= angle_at(
            start_offset_angle,
            wind_angle,
            higher,
        ),
        envelope_coordinate_at(lower) <= envelope_coordinate_at(higher),
{
    assert(wind_angle * lower <= wind_angle * higher) by (nonlinear_arith)
        requires
            lower <= higher,
            wind_angle >= 0,
    ;
    lemma_div_is_ordered(wind_angle * lower, wind_angle * higher, UNIT as int);
}

/// Along a line that ends no earlier than it starts, a later point lies at
/// no smaller a progress, angle and argument of the logistic function than
/// an earlier one: the line winds on in one direction, and its envelope is
/// asked for further and further along.
pub proof fn points_move_forward(
    params: CurveParams,
    wind_angle: u32,
    earlier: int,
    later: int,
    count: int,
)
    requires
        count >= 2,
        params.progress_start <= params.progress_end,
        0 <= earlier <= later < count,
    ensures
        point_at(params, wind_angle, earlier, count).progress <= point_at(
            params,
            wind_angle,
            later,
            count,
        ).progress,
        point_at(params, wind_angle, earlier, count).angle <= point_at(
            params,
            wind_angle,
            later,
            count,
        ).angle,
        point_at(params, wind_angle, earlier, count).envelope_coordinate <= point_at(
            params,
            wind_angle,
            later,
            count,
        ).envelope_coordinate,
{
    let start = params.progress_start as int;
    let end = params.progress_end as int;
    progress_never_decreases(start, end, earlier, later, count);
    angle_and_coordinate_follow_progress(
        params.start_offset_angle as int,
        wind_angle as int,
        progress_at(start, end, earlier, count),
        progress_at(start, end, later, count),
    );
    point_fields_are_exact(params, wind_angle, earlier, count);
    point_fields_are_exact(params, wind_angle, later, count);
}

/// Every field of a point holds the value of its formula: none of them
/// leaves the range of its type.
pub proof fn point_fields_are_exact(
    params: CurveParams,
    wind_angle: u32,
    index: int,
    count: int,
)
    requires
        count >= 2,
        0 <= index < count,
    ensures
        ({
            let point = point_at(params, wind_angle, index, count);
            let progress = progress_at(
                params.progress_start as int,
                params.progress_end as int,
                index,
                count,
            );
            &&& point.progress == progress
            &&& point.angle == angle_at(
                params.start_offset_angle as int,
                wind_angle as int,
                progress,
            )
            &&& point.envelope_coordinate == envelope_coordinate_at(progress)
            &&& point.wave_phase == wave_phase_at(
                params.wave_speed as int,
                params.wave_offset as int,
                progress,
            )
        }),
{
    let progress = progress_at(
        params.progress_start as int,
        params.progress_end as int,
        index,
        count,
    );
    progress_stays_between_ends(
        params.progress_start as int,
        params.progress_end as int,
        index,
        count,
    );
    assert(0 <= wind_angle * progress < 0x1_0000_0000_0000_0000) by (nonlinear_arith)
        requires
            0 <= wind_angle < 0x1_0000_0000,
            0 <= progress < 0x1_0000_0000,
    ;
    assert(0 <= progress * params.wave_speed < 0x1_0000_0000_0000_0000) by (nonlinear_arith)
        requires
            0 <= params.wave_speed < 0x1_0000_0000,
            0 <= progress < 0x1_0000_0000,
    ;
}

/// Computes the progress of point `index` of `count`.
pub fn progress(start: u32, end: u32, index: usize, count: usize) -> (value: u32)
    requires
        count >= 2,
        index < count,
    ensures
        value == progress_at(start as int, end as int, index as int, count as int),
{
    let delta: i128 = end as i128 - start as i128;
    assert(-0x1_0000_0000_0000_0000_0000_0000 < delta * index < 0x1_0000_0000_0000_0000_0000_0000)
        by (nonlinear_arith)
        requires
            -0x1_0000_0000 < delta < 0x1_0000_0000,
            0 <= index < 0x1_0000_0000_0000_0000,
    ;
    let numerator: i128 = delta * (index as i128);
    let quotient: i128 = floor_div(numerator, (count - 1) as u64);
    proof {
        progress_stays_between_ends(start as int, end as int, index as int, count as int);
    }
    (start as i128 + quotient) as u32
}

/// Computes the point at a progress.
pub fn point_at_progress(params: &CurveParams, wind_angle: u32, progress: u32) -> (point:
    CurvePoint)
    ensures
        point.progress == progress,
        point.angle == angle_at(
            params.start_offset_angle as int,
            wind_angle as int,
            progress as int,
        ),
        point.envelope_coordinate == envelope_coordinate_at(progress as int),
        point.wave_phase == wave_phase_at(
            params.wave_speed as int,
            params.wave_offset as int,
            progress as int,
        ),
{
    let unit: u64 = UNIT as u64;
    assert(wind_angle * progress < 0x1_0000_0000_0000_0000) by (nonlinear_arith)
        requires
            0 <= wind_angle < 0x1_0000_0000,
            0 <= progress < 0x1_0000_0000,
    ;
    assert(progress * params.wave_speed < 0x1_0000_0000_0000_0000) by (nonlinear_arith)
        requires
            0 <= params.wave_speed < 0x1_0000_0000,
            0 <= progress < 0x1_0000_0000,
    ;
    let wound: u64 = (wind_angle as u64 * progress as u64) / unit;
    let waved: u64 = (progress as u64 * params.wave_speed as u64) / unit;
    let span: u64 = (SIG_COORD_HIGH - SIG_COORD_LOW) as u64;
    let carried: u64 = (span * progress as u64) / unit;
    CurvePoint {
        progress,
        angle: params.start_offset_angle as u64 + wound,
        envelope_coordinate: SIG_COORD_LOW + carried as i64,
        wave_phase: waved + params.wave_offset as u64,
    }
}

/// A generated line: its parameters and its points. It is made by
/// `Curve::generate` and never changes afterwards.
#[derive(Clone, Debug, PartialEq, Eq)]
pub struct Curve {
    params: CurveParams,
    wind_angle: u32,
    points: Vec<CurvePoint>,
}

/// What a line is, mathematically.
pub struct CurveView {
    /// The parameters from which the line was generated.
    pub params: CurveParams,
    /// The angle through which a line winds from progress 0 to progress 1.
    pub wind_angle: u32,
    /// The points of the line, in order.
    pub points: Seq<CurvePoint>,
}

impl CurveView {
    /// The points are those that the parameters give, and there are at
    /// least two of them.
    pub open spec fn wf(self) -> bool {
        &&& self.points.len() >= 2
        &&& self.points == curve_points(self.params, self.wind_angle, self.points.len())
    }
}

impl View for Curve {
    type V = CurveView;

    closed spec fn view(&self) -> CurveView {
        CurveView { params: self.params, wind_angle: self.wind_angle, points: self.points@ }
    }
}

impl Curve {
    /// Generates the line with these parameters: `point_count` points,
    /// spread evenly in progress from `progress_start` to `progress_end`.
    /// The first point lies at the angle of `progress_start`, the last at
    /// the angle of `progress_end`.
    pub fn generate(params: CurveParams, point_count: usize, wind_angle: u32) -> (curve: Curve)
        requires
            point_count >= 2,
        ensures
            curve@.params == params,
            curve@.wind_angle == wind_angle,
            curve@.points == curve_points(params, wind_angle, point_count as nat),
            curve@.wf(),
            curve@.points.len() == point_count,
            curve@.points[0].progress == params.progress_start,
            curve@.points[0].angle == angle_at(
                params.start_offset_angle as int,
                wind_angle as int,
                params.progress_start as int,
            ),
            curve@.points[point_count - 1].progress == params.progress_end,
            curve@.points[point_count - 1].angle == angle_at(
                params.start_offset_angle as int,
                wind_angle as int,
                params.progress_end as int,
            ),
    {
        let mut points: Vec<CurvePoint> = Vec::new();
        let mut index: usize = 0;
        while index < point_count
            invariant
                point_count >= 2,
                index <= point_count,
                points@.len() == index,
                forall|k: int|
                    0 <= k < index ==> points@[k] == point_at(
                        params,
                        wind_angle,
                        k,
                        point_count as int,
                    ),
            decreases point_count - index,
        {
            let along: u32 = progress(
                params.progress_start,
                params.progress_end,
                index,
                point_count,
            );
            let point: CurvePoint = point_at_progress(&params, wind_angle, along);
            points.push(point);
            index += 1;
        }
        proof {
            progress_stays_between_ends(
                params.progress_start as int,
                params.progress_end as int,
                0,
                point_count as int,
            );
            point_fields_are_exact(params, wind_angle, 0, point_count as int);
            point_fields_are_exact(params, wind_angle, point_count - 1, point_count as int);
            assert(points@ =~= curve_points(params, wind_angle, point_count as nat));
        }
        Curve { params, wind_angle, points }
    }

    /// The parameters from which the line was generated.
    pub fn params(&self) -> (params: CurveParams)
        ensures
            params == self@.params,
    {
        self.params
    }

    /// The angle through which the line winds from progress 0 to progress 1.
    pub fn wind_angle(&self) -> (wind_angle: u32)
        ensures
            wind_angle == self@.wind_angle,
    {
        self.wind_angle
    }

    /// The points of the line, in order.
    pub fn points(&self) -> (points: &Vec<CurvePoint>)
        ensures
            points@ == self@.points,
    {
        &self.points
    }

    /// The number of points of the line.
    pub fn len(&self) -> (count: usize)
        ensures
            count == self@.points.len(),
    {
        self.points.len()
    }
}

} // verus!
