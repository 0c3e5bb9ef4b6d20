//! The state of the sketch and its regeneration policy.
//!
//! The lines are generated when the sketch starts and again whenever a
//! regeneration has been asked for; between two regenerations every frame
//! shows the same lines.

use vstd::prelude::*;
use crate::config::{NUM_LINES, NUM_PTS, TAU, WIND_AL};
use crate::curve::{curve_points, Curve, CurveView};
use crate::params::{CurveDraws, CurveParams};
use crate::random::random_range;

verus! {

/// A key of the keyboard, as far as the sketch tells keys apart.
#[derive(Clone, Copy, Debug, PartialEq, Eq, Structural)]
pub enum Key {
    /// The escape key.
    Escape,
    /// The letter S.
    S,
    /// The space bar.
    Space,
    /// Any other key.
    Other,
}

/// What the host has to do after a key was pressed.
#[derive(Clone, Copy, Debug, PartialEq, Eq, Structural)]
pub enum KeyAction {
    /// End the program.
    Exit,
    /// Write the current frame to the image file.
    CaptureFrame,
    /// Nothing.
    Nothing,
}

/// The state of the sketch.
#[derive(Clone, Debug, PartialEq, Eq)]
pub struct Model {
    runup: bool,
    lines: Vec<Curve>,
}

/// What the state of the sketch is, mathematically.
pub struct ModelView {
    /// Whether the next frame regenerates the lines.
    pub runup: bool,
    /// The lines that are drawn.
    pub lines: Seq<CurveView>,
}

impl View for Model {
    type V = ModelView;

    closed spec fn view(&self) -> ModelView {
        ModelView { runup: self.runup, lines: self.lines@.map_values(|line: Curve| line@) }
    }
}

/// The state in which the sketch starts: no lines yet, and a regeneration
/// due.
pub open spec fn initial() -> ModelView {
    ModelView { runup: true, lines: Seq::empty() }
}

/// What the host has to do for a key.
pub open spec fn action_of(key: Key) -> KeyAction {
    match key {
        Key::Escape => KeyAction::Exit,
        Key::S => KeyAction::CaptureFrame,
        Key::Space => KeyAction::Nothing,
        Key::Other => KeyAction::Nothing,
    }
}

/// The state after a key: the space bar asks for a regeneration, no other
/// key changes anything.
pub open spec fn after_key(before: ModelView, key: Key) -> ModelView {
    match key {
        Key::Space => ModelView { runup: true, lines: before.lines },
        _ => before,
    }
}

/// The line that one set of draws gives under the shared offset: its
/// parameters are those of the draws, and its points are the `NUM_PTS`
/// points that these parameters give with the wind angle `WIND_AL`.
pub open spec fn line_of_draws(draws: CurveDraws, global_offset: u32) -> CurveView {
    let params = CurveParams::of_draws(draws, global_offset);
    CurveView {
        params,
        wind_angle: WIND_AL,
        points: curve_points(params, WIND_AL, NUM_PTS as nat),
    }
}

/// The lines that a sequence of draws gives under the shared offset, one
/// line for each set of draws, in their order.
pub open spec fn lines_of_draws(draws: Seq<CurveDraws>, global_offset: u32) -> Seq<CurveView> {
    Seq::new(draws.len(), |i: int| line_of_draws(draws[i], global_offset))
}

/// Every set of draws lies in its ranges.
pub open spec fn all_in_range(draws: Seq<CurveDraws>) -> bool {
    forall|i: int| 0 <= i < draws.len() ==> (#[trigger] draws[i]).in_range()
}

/// The lines are those of `NUM_LINES` sets of draws, each in its ranges,
/// under a shared offset below a full turn.
pub open spec fn regenerated_from(
    lines: Seq<CurveView>,
    global_offset: u32,
    draws: Seq<CurveDraws>,
) -> bool {
    &&& global_offset < TAU
    &&& draws.len() == NUM_LINES
    &&& all_in_range(draws)
    &&& lines == lines_of_draws(draws, global_offset)
}

/// The lines are what one regeneration makes: there are draws and a shared
/// offset of which they are the lines.
pub open spec fn regenerated(lines: Seq<CurveView>) -> bool {
    exists|global_offset: u32, draws: Seq<CurveDraws>| #[trigger]
        regenerated_from(lines, global_offset, draws)
}

/// One frame leads from `before` to `after`: if a regeneration was due it
/// has happened, otherwise the lines are the same; and none is due now.
pub open spec fn update_step(before: ModelView, after: ModelView) -> bool {
    &&& !after.runup
    &&& before.runup ==> regenerated(after.lines)
    &&& !before.runup ==> after.lines == before.lines
}

/// Each state follows from the one before it by one frame, with no key
/// pressed in between.
pub open spec fn frames_in_a_row(states: Seq<ModelView>) -> bool {
    forall|k: int| 0 <= k < states.len() - 1 ==> update_step(#[trigger] states[k], states[k + 1])
}

impl Model {
    /// The sketch as it starts.
    pub fn new() -> (model: Model)
        ensures
            model@ == initial(),
    {
        let model = Model { runup: true, lines: Vec::with_capacity(NUM_LINES) };
        assert(model@.lines =~= Seq::empty());
        model
    }

    /// Whether the next frame regenerates the lines.
    pub fn runup(&self) -> (runup: bool)
        ensures
            runup == self@.runup,
    {
        self.runup
    }

    /// The lines that are drawn.
    pub fn lines(&self) -> (lines: &Vec<Curve>)
        ensures
            lines@.map_values(|line: Curve| line@) == self@.lines,
    {
        &self.lines
    }

    /// Takes a pressed key: the space bar asks for a regeneration at the
    /// next frame. Returns what the host has to do.
    pub fn key_pressed(&mut self, key: Key) -> (action: KeyAction)
        ensures
            final(self)@ == after_key(old(self)@, key),
            action == action_of(key),
    {
        match key {
            Key::Escape => KeyAction::Exit,
            Key::S => KeyAction::CaptureFrame,
            Key::Space => {
                self.runup = true;
                KeyAction::Nothing
            },
            Key::Other => KeyAction::Nothing,
        }
    }

    /// Replaces the lines by those of the given draws under the shared
    /// offset, one line for each set of draws. No regeneration is due
    /// afterwards.
    pub fn regenerate(&mut self, global_offset: u32, draws: &Vec<CurveDraws>)
        requires
            global_offset < TAU,
            all_in_range(draws@),
        ensures
            !final(self)@.runup,
            final(self)@.lines == lines_of_draws(draws@, global_offset),
    {
        self.runup = false;
        self.lines.clear();
        for made in 0..draws.len()
            invariant
                !self.runup,
                global_offset < TAU,
                all_in_range(draws@),
                self.lines@.len() == made,
                forall|i: int|
                    0 <= i < made ==> (#[trigger] self.lines@[i])@ == line_of_draws(
                        draws@[i],
                        global_offset,
                    ),
        {
            let params: CurveParams = CurveParams::from_draws(draws[made], global_offset);
            let line: Curve = Curve::generate(params, NUM_PTS, WIND_AL);
            self.lines.push(line);
        }
        assert(self@.lines =~= lines_of_draws(draws@, global_offset));
    }

    /// Advances the sketch by one frame. If a regeneration is due, a shared
    /// offset and `NUM_LINES` sets of draws are drawn and the lines are
    /// replaced by theirs; otherwise nothing changes. Returns whether the
    /// lines were regenerated.
    pub fn update(&mut self) -> (regenerated: bool)
        ensures
            update_step(old(self)@, final(self)@),
            regenerated == old(self)@.runup,
            !old(self)@.runup ==> final(self)@ == old(self)@,
    {
        if self.runup {
            let global_offset: u32 = random_range(0, TAU);
            let mut draws: Vec<CurveDraws> = Vec::with_capacity(NUM_LINES);
            for made in 0..NUM_LINES
                invariant
                    draws@.len() == made,
                    all_in_range(draws@),
            {
                draws.push(CurveDraws::sample());
            }
            self.regenerate(global_offset, &draws);
            assert(regenerated_from(self@.lines, global_offset, draws@));
            true
        } else {
            false
        }
    }
}

/// What a regeneration stores keeps to the ranges of the parameters: every
/// line has parameters in their ranges under the shared offset, and is the
/// line of `NUM_PTS` points that these parameters give.
pub proof fn regenerated_lines_are_in_range(
    lines: Seq<CurveView>,
    global_offset: u32,
    draws: Seq<CurveDraws>,
    i: int,
)
    requires
        regenerated_from(lines, global_offset, draws),
        0 <= i < NUM_LINES,
    ensures
        lines.len() == NUM_LINES,
        lines[i].params.sampled_with(global_offset),
        lines[i].wind_angle == WIND_AL,
        lines[i].points.len() == NUM_PTS,
        lines[i].wf(),
{
    assert(draws[i].in_range());
    assert(lines[i] == line_of_draws(draws[i], global_offset));
}

/// Once no regeneration is due, frames change nothing: however many follow
/// one another without a key in between, the state stays what it was.
pub proof fn idle_frames_change_nothing(states: Seq<ModelView>, k: int)
    requires
        frames_in_a_row(states),
        0 <= k < states.len(),
        !states[0].runup,
    ensures
        states[k] == states[0],
    decreases k,
{
    if k > 0 {
        idle_frames_change_nothing(states, k - 1);
        assert(update_step(states[k - 1], states[k]));
    }
}

/// The space bar is answered at the next frame: whatever the state was, the
/// frame after the key regenerates the lines; and a frame after any other
/// key regenerates them only if a regeneration was due before the key.
pub proof fn regeneration_follows_space(before: ModelView, key: Key, after: ModelView)
    requires
        update_step(after_key(before, key), after),
    ensures
        key == Key::Space ==> regenerated(after.lines),
        key != Key::Space && !before.runup ==> after.lines == before.lines,
{
}

/// From the start, the lines are regenerated exactly once: the first frame
/// makes `NUM_LINES` lines of `NUM_PTS` points each, and every later frame
/// leaves them as they are.
pub proof fn startup_regenerates_once(states: Seq<ModelView>, k: int)
    requires
        frames_in_a_row(states),
        states.len() >= 2,
        states[0] == initial(),
        1 <= k < states.len(),
    ensures
        regenerated(states[1].lines),
        states[1].lines.len() == NUM_LINES,
        forall|i: int|
            0 <= i < NUM_LINES ==> (#[trigger] states[1].lines[i]).points.len() == NUM_PTS,
        states[k] == states[1],
{
    assert(update_step(states[0], states[1]));
    let tail = states.subrange(1, states.len() as int);
    assert(frames_in_a_row(tail)) by {
        assert forall|j: int| 0 <= j < tail.len() - 1 implies update_step(
            #[trigger] tail[j],
            tail[j + 1],
        ) by {
            assert(update_step(states[j + 1], states[j + 2]));
        }
    }
    idle_frames_change_nothing(tail, k - 1);
    let (global_offset, draws) = choose|global_offset: u32, draws: Seq<CurveDraws>| #[trigger]
        regenerated_from(states[1].lines, global_offset, draws);
    assert forall|i: int| 0 <= i < NUM_LINES implies (#[trigger] states[1].lines[i]).points.len()
        == NUM_PTS by {
        assert(states[1].lines[i] == line_of_draws(draws[i], global_offset));
    }
}

} // verus!
