//! Progress counters and the reporter's deterministic choices.
//!
//! The reporter runs on its own schedule and must never block the copy
//! loop, so everything it decides — percentage, color bands, which glyph of
//! each cycle a frame shows, how long a tick sleeps — is computed here from
//! plain counters.  Only the final write to the terminal happens outside.

use vstd::prelude::*;

verus! {

/// How many spinner glyphs the animation cycles through.
pub const SPINNER_GLYPHS: usize = 10;

/// How many colors the animation cycles through.
pub const COLOR_CYCLE: usize = 6;

/// How many cells the animated wave bar holds.
pub const WAVE_CELLS: usize = 20;

/// Shared progress counters: files completed so far out of a fixed total.
/// The copy loop is the only writer (one increment per completed file); the
/// reporter only reads.
pub struct ProgressState {
    completed: usize,
    total: usize,
}

/// Whole percentage of files completed, rounded down; an empty run counts
/// as zero percent.
pub open spec fn percent_spec(completed: int, total: int) -> int {
    if total == 0 {
        0
    } else {
        completed * 100 / total
    }
}

impl ProgressState {
    /// Files completed so far.
    pub closed spec fn spec_completed(&self) -> int {
        self.completed as int
    }

    /// Total files of the run.
    pub closed spec fn spec_total(&self) -> int {
        self.total as int
    }

    /// The completed count never exceeds the total.
    pub open spec fn wf(&self) -> bool {
        self.spec_completed() <= self.spec_total()
    }

    /// A fresh state: nothing completed yet.
    pub fn new(total: usize) -> (s: Self)
        ensures
            s.wf(),
            s.spec_completed() == 0,
            s.spec_total() == total,
    {
        ProgressState { completed: 0, total }
    }

    /// Records one more completed file.  The copy loop calls this exactly
    /// once per file, strictly after that file's copy succeeded.
    pub fn increment(&mut self)
        requires
            old(self).wf(),
            old(self).spec_completed() < old(self).spec_total(),
        ensures
            final(self).wf(),
            final(self).spec_completed() == old(self).spec_completed() + 1,
            final(self).spec_total() == old(self).spec_total(),
    {
        self.completed = self.completed + 1;
    }

    /// Files completed so far.
    pub fn completed(&self) -> (c: usize)
        ensures
            c == self.spec_completed(),
    {
        self.completed
    }

    /// Total files of the run.
    pub fn total(&self) -> (t: usize)
        ensures
            t == self.spec_total(),
    {
        self.total
    }

    /// The percentage the reporter renders.
    pub fn percent(&self) -> (p: u8)
        requires
            self.wf(),
        ensures
            p == percent_spec(self.spec_completed(), self.spec_total()),
            p <= 100,
    {
        percent_of(self.completed, self.total)
    }
}

/// Whole percentage of `completed` out of `total`, rounded down.
pub fn percent_of(completed: usize, total: usize) -> (p: u8)
    requires
        completed <= total,
    ensures
        p == percent_spec(completed as int, total as int),
        p <= 100,
{
    if total == 0 {
        0
    } else {
        let num: u128 = (completed as u128) * 100;
        let q: u128 = num / (total as u128);
        proof {
            vstd::arithmetic::mul::lemma_mul_inequality(
                completed as int,
                total as int,
                100,
            );
            vstd::arithmetic::div_mod::lemma_div_is_ordered(
                completed as int * 100,
                total as int * 100,
                total as int,
            );
            vstd::arithmetic::div_mod::lemma_div_by_multiple(100, total as int);
            assert(total as int * 100 == 100 * total as int);
        }
        q as u8
    }
}

/// The terminal colors the reporter draws with.
#[derive(Debug, PartialEq, Eq, Structural)]
pub enum GlowColor {
    Red,
    Yellow,
    Green,
    Cyan,
    Blue,
    Magenta,
    White,
}

/// The color band of a completion percentage: cold at the start, warm near
/// the end, white past the scale.
pub open spec fn percent_color_spec(p: int) -> GlowColor {
    if p <= 20 {
        GlowColor::Red
    } else if p <= 40 {
        GlowColor::Yellow
    } else if p <= 60 {
        GlowColor::Green
    } else if p <= 80 {
        GlowColor::Cyan
    } else if p <= 100 {
        GlowColor::Magenta
    } else {
        GlowColor::White
    }
}

/// The color the rendered percentage is drawn in.
pub fn percent_color(p: u8) -> (c: GlowColor)
    ensures
        c == percent_color_spec(p as int),
{
    if p <= 20 {
        GlowColor::Red
    } else if p <= 40 {
        GlowColor::Yellow
    } else if p <= 60 {
        GlowColor::Green
    } else if p <= 80 {
        GlowColor::Cyan
    } else if p <= 100 {
        GlowColor::Magenta
    } else {
        GlowColor::White
    }
}

/// The color at one position of the repeating color cycle.
pub open spec fn cycle_color_spec(i: int) -> GlowColor {
    if i == 0 {
        GlowColor::Red
    } else if i == 1 {
        GlowColor::Yellow
    } else if i == 2 {
        GlowColor::Green
    } else if i == 3 {
        GlowColor::Cyan
    } else if i == 4 {
        GlowColor::Blue
    } else {
        GlowColor::Magenta
    }
}

/// The color at one position of the repeating color cycle.
pub fn cycle_color(i: usize) -> (c: GlowColor)
    requires
        i < COLOR_CYCLE,
    ensures
        c == cycle_color_spec(i as int),
{
    if i == 0 {
        GlowColor::Red
    } else if i == 1 {
        GlowColor::Yellow
    } else if i == 2 {
        GlowColor::Green
    } else if i == 3 {
        GlowColor::Cyan
    } else if i == 4 {
        GlowColor::Blue
    } else {
        GlowColor::Magenta
    }
}

/// The deterministic choices of one animation frame.
pub struct FramePlan {
    /// Which spinner glyph this frame shows.
    pub spinner_index: usize,
    /// Whether the brackets show their first glyph (they alternate every
    /// five frames).
    pub bracket_open: bool,
    /// Which color of the cycle the brackets are drawn in.
    pub bracket_color: usize,
    /// Whether the trailing glyph is the first of its two-glyph cycle
    /// (they alternate every ten frames).
    pub rocket: bool,
}

/// Computes the choices of frame number `frame`.
pub fn frame_plan(frame: usize) -> (fp: FramePlan)
    ensures
        fp.spinner_index == frame as int % (SPINNER_GLYPHS as int),
        fp.bracket_open == ((frame / 5) % 2 == 0),
        fp.bracket_color == frame as int % (COLOR_CYCLE as int),
        fp.rocket == (frame % 20 < 10),
{
    FramePlan {
        spinner_index: frame % SPINNER_GLYPHS,
        bracket_open: (frame / 5) % 2 == 0,
        bracket_color: frame % COLOR_CYCLE,
        rocket: frame % 20 < 10,
    }
}

/// Which color of the cycle one wave cell is drawn in at one frame: the
/// cycle position advances every other frame and shifts by one per cell.
pub fn wave_color_index(frame: usize, cell: usize) -> (ci: usize)
    requires
        cell < WAVE_CELLS,
    ensures
        ci == (frame as int / 2 + cell as int) % (COLOR_CYCLE as int),
{
    (frame / 2 + cell) % COLOR_CYCLE
}

/// How long one reporter tick sleeps: the low-animation mode uses a
/// coarser cadence.
pub fn tick_interval_ms(low_animation: bool) -> (ms: u64)
    ensures
        ms == if low_animation { 200int } else { 100int },
{
    if low_animation {
        200
    } else {
        100
    }
}

/// Whether the reporter's loop runs another tick: it stops when told to,
/// and also stops on its own once every file is completed — a safety net
/// independent of the explicit stop signal.
pub fn reporter_should_continue(stop_requested: bool, completed: usize, total: usize) -> (go:
    bool)
    ensures
        go == (!stop_requested && completed < total),
{
    !stop_requested && completed < total
}

} // verus!
