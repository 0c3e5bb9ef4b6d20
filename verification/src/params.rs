//! The randomised parameters of one line.

use vstd::prelude::*;
use crate::config::{
    LINE_SPLIT, NUM_SEG, SEG_AL, SEG_START_AL, TAU, WAV_MAG_MAX, WAV_MAG_MIN, WAV_SPD_MAX,
    WAV_SPD_MIN,
};
use crate::fixed::UNIT;
use crate::random::random_range;

verus! {

/// The seven values that are drawn for one line.
#[derive(Clone, Copy, Debug, PartialEq, Eq, Structural)]
pub struct CurveDraws {
    /// The segment of the start circle in which the line starts.
    pub segment: u32,
    /// How far into that segment it starts, in millionths of a radian.
    pub segment_offset: u32,
    /// The phase of the wave at progress 0, in millionths of a radian.
    pub wave_offset: u32,
    /// The amplitude of the wave, as a fraction of the start radius.
    pub wave_amplitude: u32,
    /// The radians through which the wave runs per unit of progress.
    pub wave_speed: u32,
    /// The progress at which the line starts.
    pub progress_start: u32,
    /// The progress at which the line ends.
    pub progress_end: u32,
}

/// The parameters from which one line is generated.
#[derive(Clone, Copy, Debug, PartialEq, Eq, Structural)]
pub struct CurveParams {
    /// The segment of the start circle in which the line starts.
    pub start_segment: u32,
    /// The angle at progress 0, in millionths of a radian.
    pub start_offset_angle: u32,
    /// The phase of the wave at progress 0, in millionths of a radian.
    pub wave_offset: u32,
    /// The amplitude of the wave, as a fraction of the start radius.
    pub wave_amplitude: u32,
    /// The radians through which the wave runs per unit of progress.
    pub wave_speed: u32,
    /// The progress at which the line starts.
    pub progress_start: u32,
    /// The progress at which the line ends.
    pub progress_end: u32,
}

impl CurveDraws {
    /// Each value lies in the range from which it is drawn.
    pub open spec fn in_range(self) -> bool {
        &&& self.segment < NUM_SEG
        &&& self.segment_offset < SEG_START_AL
        &&& self.wave_offset < TAU
        &&& WAV_MAG_MIN <= self.wave_amplitude <= WAV_MAG_MAX
        &&& WAV_SPD_MIN <= self.wave_speed <= WAV_SPD_MAX
        &&& self.progress_start < LINE_SPLIT
        &&& LINE_SPLIT <= self.progress_end < UNIT
    }

    /// Draws the seven values of one line, each uniformly from its range.
    pub fn sample() -> (draws: CurveDraws)
        ensures
            draws.in_range(),
    {
        let segment: u32 = random_range(0, NUM_SEG);
        let segment_offset: u32 = random_range(0, SEG_START_AL);
        let wave_offset: u32 = random_range(0, TAU);
        let wave_amplitude: u32 = random_range(WAV_MAG_MIN, WAV_MAG_MAX + 1);
        let wave_speed: u32 = random_range(WAV_SPD_MIN, WAV_SPD_MAX + 1);
        let progress_start: u32 = random_range(0, LINE_SPLIT);
        let progress_end: u32 = random_range(LINE_SPLIT, UNIT);
        CurveDraws {
            segment,
            segment_offset,
            wave_offset,
            wave_amplitude,
            wave_speed,
            progress_start,
            progress_end,
        }
    }
}

impl CurveParams {
    /// The parameters that the draws give under the angular offset that all
    /// lines of one regeneration share: the start angle is the offset into
    /// the segment, plus the segments before it, plus the shared offset.
    pub open spec fn of_draws(draws: CurveDraws, global_offset: u32) -> CurveParams {
        CurveParams {
            start_segment: draws.segment,
            start_offset_angle: (draws.segment_offset + draws.segment * SEG_AL
                + global_offset) as u32,
            wave_offset: draws.wave_offset,
            wave_amplitude: draws.wave_amplitude,
            wave_speed: draws.wave_speed,
            progress_start: draws.progress_start,
            progress_end: draws.progress_end,
        }
    }

    /// The parameters could have come out of a regeneration with the shared
    /// offset `global_offset`.
    pub open spec fn sampled_with(self, global_offset: u32) -> bool {
        &&& global_offset < TAU
        &&& self.start_segment < NUM_SEG
        &&& self.start_segment * SEG_AL + global_offset <= self.start_offset_angle
        &&& self.start_offset_angle < self.start_segment * SEG_AL + global_offset + SEG_START_AL
        &&& self.wave_offset < TAU
        &&& WAV_MAG_MIN <= self.wave_amplitude <= WAV_MAG_MAX
        &&& WAV_SPD_MIN <= self.wave_speed <= WAV_SPD_MAX
        &&& self.progress_start < LINE_SPLIT
        &&& LINE_SPLIT <= self.progress_end < UNIT
    }

    /// Turns the draws of one line into its parameters.
    pub fn from_draws(draws: CurveDraws, global_offset: u32) -> (params: CurveParams)
        requires
            draws.in_range(),
            global_offset < TAU,
        ensures
            params == Self::of_draws(draws, global_offset),
            params.sampled_with(global_offset),
            params.start_offset_angle == draws.segment_offset + draws.segment * SEG_AL
                + global_offset,
    {
        CurveParams {
            start_segment: draws.segment,
            start_offset_angle: draws.segment_offset + draws.segment * SEG_AL + global_offset,
            wave_offset: draws.wave_offset,
            wave_amplitude: draws.wave_amplitude,
            wave_speed: draws.wave_speed,
            progress_start: draws.progress_start,
            progress_end: draws.progress_end,
        }
    }
}

/// Sampling is a function of what was drawn: the same draws under the same
/// shared offset give the same parameters.
pub proof fn same_draws_give_same_params(
    first: CurveDraws,
    first_offset: u32,
    second: CurveDraws,
    second_offset: u32,
)
    requires
        first == second,
        first_offset == second_offset,
    ensures
        CurveParams::of_draws(first, first_offset) == CurveParams::of_draws(
            second,
            second_offset,
        ),
{
}

} // verus!
