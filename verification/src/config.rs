//! The constants of the sketch.
//!
//! Lengths are in millionths of a window point, angles in millionths of a
//! radian, fractions in millionths. Multiples of pi are rounded down to the
//! millionth.

use vstd::prelude::*;
use crate::fixed::UNIT;

verus! {

/// Window width in points; coordinates run from `-WIN_WIDTH / 2` to
/// `WIN_WIDTH / 2`.
pub const WIN_WIDTH: u32 = 1000;

/// Window height in points.
pub const WIN_HEIGHT: u32 = 1000;

/// How many lines a regeneration draws.
pub const NUM_LINES: usize = 32;

/// How many points make up one line.
pub const NUM_PTS: usize = 256;

/// The radius at which a line starts: 400 points.
pub const START_RAD: u32 = 400_000_000;

/// The number of segments into which the start circle is split.
pub const NUM_SEG: u32 = 4;

/// A full turn, `2 * pi`.
pub const TAU: u32 = 6_283_185;

/// The arc length of one segment, `2 * pi / NUM_SEG`.
pub const SEG_AL: u32 = TAU / NUM_SEG;

/// The proportion of a segment in which lines may start: three quarters.
pub const SEG_START_PRO: u32 = 750_000;

/// The arc length of that part of a segment, `SEG_AL * SEG_START_PRO`.
pub const SEG_START_AL: u32 = 1_178_097;

/// The radius at which a line stops, as a fraction of `START_RAD`: one
/// eighth.
pub const STOP_RAD_PERC: u32 = 125_000;

/// The angle through which a line winds from progress 0 to progress 1,
/// `4 * pi`.
pub const WIND_AL: u32 = 2 * TAU;

/// The least wave amplitude that is drawn: 0.05.
pub const WAV_MAG_MIN: u32 = 50_000;

/// The greatest wave amplitude that is drawn: 0.1.
pub const WAV_MAG_MAX: u32 = 100_000;

/// The least wave speed that is drawn: 48 radians per unit of progress.
pub const WAV_SPD_MIN: u32 = 48_000_000;

/// The greatest wave speed that is drawn: 80 radians per unit of progress.
pub const WAV_SPD_MAX: u32 = 80_000_000;

/// The progress that separates where lines start from where they end: a
/// line starts below one half and ends at or above it.
pub const LINE_SPLIT: u32 = 500_000;

/// The envelope coordinate at progress 0.
pub const SIG_COORD_LOW: i64 = -4_000_000;

/// The envelope coordinate at progress 1.
pub const SIG_COORD_HIGH: i64 = 10_000_000;

/// The derived constants have the values that their definitions give, and
/// the stop radius lies above the largest wave: with the amplitudes that are
/// drawn, the wave cannot carry a line through the centre.
pub proof fn constants_are_consistent()
    ensures
        SEG_AL == 1_570_796,
        WIND_AL == 12_566_370,
        SEG_START_AL == SEG_AL * SEG_START_PRO / UNIT as int,
        NUM_SEG * SEG_AL <= TAU,
        STOP_RAD_PERC * START_RAD - WAV_MAG_MAX * START_RAD > 0,
{
}

} // verus!
