use vstd::prelude::*;
use crate::framework::{Key, RunController, RunMode};
use crate::random::random_range;

verus! {

/// Half of the range an angle is kept in, in millidegrees: angles stay within
/// one full turn either way.
pub const ANGLE_BOUND: i64 = 360_000;

/// Bound of the speed drawn for the channels, in millidegrees per frame (about 0.01 rad).
pub const SPEED_LIMIT: i64 = 573;

/// Bound of the base angle drawn on regeneration, in millidegrees.
pub const START_LIMIT: i64 = 180_000;

/// Bound of the separation between sibling channels, in millidegrees.
pub const SEPARATION_LIMIT: i64 = 3_000;

/// The cycle value ranges over [-CYCLE_BOUND, CYCLE_BOUND], in units of 1e-5.
pub const CYCLE_BOUND: i64 = 100_000;

/// What the cycle value moves by each frame (0.01).
pub const CYCLE_STEP: i64 = 1_000;

/// Seconds after start during which every frame is recorded.
pub const RECORD_SECS: u64 = 10;

/// `value` brought back into [-half, half] by one full range (2 * half) if it left it.
pub open spec fn wrapped(value: int, half: int) -> int {
    if value < -half {
        value + 2 * half
    } else if value > half {
        value - 2 * half
    } else {
        value
    }
}

/// Wraps `value` once into [-half_range, half_range].
pub fn wrap(value: i64, half_range: i64) -> (r: i64)
    requires
        0 < half_range <= 0x1_0000_0000_0000,
    ensures
        r == wrapped(value as int, half_range as int),
{
    if value < -half_range {
        value + 2 * half_range
    } else if value > half_range {
        value - 2 * half_range
    } else {
        value
    }
}

/// One step of an angle: `angle + speed`, wrapped once.
pub fn cycle_angle(angle: i64, speed: i64) -> (r: i64)
    requires
        i64::MIN <= angle + speed <= i64::MAX,
    ensures
        r == wrapped(angle + speed, ANGLE_BOUND as int),
{
    wrap(angle + speed, ANGLE_BOUND)
}

/// The cycle value wrapped once into [-CYCLE_BOUND, CYCLE_BOUND].
pub fn cycle_cycle(value: i64) -> (r: i64)
    ensures
        r == wrapped(value as int, CYCLE_BOUND as int),
{
    wrap(value, CYCLE_BOUND)
}

/// One wrap keeps a value in range when it started in range and moved by less than the
/// whole range.
pub proof fn lemma_wrap_stays_in_range(a: int, s: int, half: int)
    requires
        half > 0,
        -half <= a <= half,
        -2 * half < s < 2 * half,
    ensures
        -half <= wrapped(a + s, half) <= half,
{
}

/// The cycle value after `n` frames, starting from `v` and moving by `step` each frame.
pub open spec fn cycle_after(v: int, step: int, n: nat) -> int
    decreases n,
{
    if n == 0 {
        v
    } else {
        wrapped(cycle_after(v, step, (n - 1) as nat) + step, CYCLE_BOUND as int)
    }
}

/// However many frames pass, the cycle value never leaves [-CYCLE_BOUND, CYCLE_BOUND]
/// when it starts inside and each step is smaller than the whole range.
pub proof fn lemma_cycle_never_drifts(v: int, step: int, n: nat)
    requires
        -CYCLE_BOUND <= v <= CYCLE_BOUND,
        -2 * CYCLE_BOUND < step < 2 * CYCLE_BOUND,
    ensures
        -CYCLE_BOUND <= cycle_after(v, step, n) <= CYCLE_BOUND,
    decreases n,
{
    if n > 0 {
        lemma_cycle_never_drifts(v, step, (n - 1) as nat);
        lemma_wrap_stays_in_range(cycle_after(v, step, (n - 1) as nat), step, CYCLE_BOUND as int);
    }
}

/// State of the three-circle sketch: one angle and speed per colour channel and a shared
/// cycle value that distorts the circles. Angles are in millidegrees, the cycle in 1e-5.
pub struct Model {
    pub control: RunController,
    pub red_angle: i64,
    pub green_angle: i64,
    pub blue_angle: i64,
    pub red_speed: i64,
    pub green_speed: i64,
    pub blue_speed: i64,
    pub cycle: i64,
}

/// The numeric state of the sketch, apart from its controller.
pub struct Channels {
    pub red_angle: int,
    pub green_angle: int,
    pub blue_angle: int,
    pub red_speed: int,
    pub green_speed: int,
    pub blue_speed: int,
    pub cycle: int,
}

/// The channels after one frame.
pub open spec fn advanced(c: Channels) -> Channels {
    Channels {
        red_angle: wrapped(c.red_angle + c.red_speed, ANGLE_BOUND as int),
        green_angle: wrapped(c.green_angle + c.green_speed, ANGLE_BOUND as int),
        blue_angle: wrapped(c.blue_angle + c.blue_speed, ANGLE_BOUND as int),
        cycle: wrapped(c.cycle + CYCLE_STEP, CYCLE_BOUND as int),
        ..c
    }
}

/// The channels set from one set of draws: the red angle at `start`, green and blue
/// `sep` to either side, one speed for all three.
pub open spec fn drawn(start: int, sep: int, speed: int, cycle: int) -> Channels {
    Channels {
        red_angle: start,
        green_angle: start + sep,
        blue_angle: start - sep,
        red_speed: speed,
        green_speed: speed,
        blue_speed: speed,
        cycle,
    }
}

/// Whether draws fall in the ranges they are drawn from.
pub open spec fn draws_in_range(start: int, sep: int, speed: int, cycle: int) -> bool {
    &&& -START_LIMIT <= start < START_LIMIT
    &&& -SEPARATION_LIMIT <= sep < SEPARATION_LIMIT
    &&& -SPEED_LIMIT <= speed < SPEED_LIMIT
    &&& -CYCLE_BOUND <= cycle < CYCLE_BOUND
}

/// Every angle within its bound, every speed within its limit, the cycle within its bound.
pub open spec fn channels_in_bounds(c: Channels) -> bool {
    &&& -ANGLE_BOUND <= c.red_angle <= ANGLE_BOUND
    &&& -ANGLE_BOUND <= c.green_angle <= ANGLE_BOUND
    &&& -ANGLE_BOUND <= c.blue_angle <= ANGLE_BOUND
    &&& -SPEED_LIMIT <= c.red_speed <= SPEED_LIMIT
    &&& -SPEED_LIMIT <= c.green_speed <= SPEED_LIMIT
    &&& -SPEED_LIMIT <= c.blue_speed <= SPEED_LIMIT
    &&& -CYCLE_BOUND <= c.cycle <= CYCLE_BOUND
}

/// Advancing keeps bounded channels bounded.
pub proof fn lemma_advance_keeps_bounds(c: Channels)
    requires
        channels_in_bounds(c),
    ensures
        channels_in_bounds(advanced(c)),
{
}

/// Regenerating from any draws and then advancing one frame leaves every value in bounds.
pub proof fn lemma_regenerate_then_advance(start: int, sep: int, speed: int, cycle: int)
    requires
        draws_in_range(start, sep, speed, cycle),
    ensures
        channels_in_bounds(drawn(start, sep, speed, cycle)),
        channels_in_bounds(advanced(drawn(start, sep, speed, cycle))),
{
}

impl Model {
    /// The numeric state as mathematical integers.
    pub open spec fn channels(&self) -> Channels {
        Channels {
            red_angle: self.red_angle as int,
            green_angle: self.green_angle as int,
            blue_angle: self.blue_angle as int,
            red_speed: self.red_speed as int,
            green_speed: self.green_speed as int,
            blue_speed: self.blue_speed as int,
            cycle: self.cycle as int,
        }
    }

    /// Every value within its bound.
    pub open spec fn wf(&self) -> bool {
        channels_in_bounds(self.channels())
    }

    /// A sketch whose channels come from the given draws, recording for the first
    /// `RECORD_SECS` seconds.
    pub fn from_draws(run_mode: RunMode, label: String, start: i64, sep: i64, speed: i64, cycle: i64) -> (r: Model)
        requires
            draws_in_range(start as int, sep as int, speed as int, cycle as int),
        ensures
            r.wf(),
            r.channels() == drawn(start as int, sep as int, speed as int, cycle as int),
            r.control.run_mode == run_mode,
            r.control.label == label,
            !r.control.save_frame,
            r.control.recording,
            r.control.record_limit_secs == RECORD_SECS,
    {
        Model {
            control: RunController::new(run_mode, label, true, RECORD_SECS),
            red_angle: start,
            green_angle: start + sep,
            blue_angle: start - sep,
            red_speed: speed,
            green_speed: speed,
            blue_speed: speed,
            cycle,
        }
    }

    /// A sketch with freshly drawn channels.
    pub fn new(run_mode: RunMode, label: String) -> (r: Model)
        ensures
            r.wf(),
            exists|start: int, sep: int, speed: int, cycle: int|
                draws_in_range(start, sep, speed, cycle) && r.channels() == drawn(start, sep, speed, cycle),
            r.control.run_mode == run_mode,
            r.control.label == label,
            !r.control.save_frame,
            r.control.recording,
            r.control.record_limit_secs == RECORD_SECS,
    {
        let start = random_range(-START_LIMIT, START_LIMIT);
        let sep = random_range(-SEPARATION_LIMIT, SEPARATION_LIMIT);
        let speed = random_range(-SPEED_LIMIT, SPEED_LIMIT);
        let cycle = random_range(-CYCLE_BOUND, CYCLE_BOUND);
        let r = Model::from_draws(run_mode, label, start, sep, speed, cycle);
        assert(draws_in_range(start as int, sep as int, speed as int, cycle as int)
            && r.channels() == drawn(start as int, sep as int, speed as int, cycle as int));
        r
    }

    /// Replaces the channels with ones from the given draws; the controller is kept.
    pub fn set_values(&mut self, start: i64, sep: i64, speed: i64, cycle: i64)
        requires
            draws_in_range(start as int, sep as int, speed as int, cycle as int),
        ensures
            final(self).wf(),
            final(self).channels() == drawn(start as int, sep as int, speed as int, cycle as int),
            final(self).control == old(self).control,
    {
        self.red_angle = start;
        self.green_angle = start + sep;
        self.blue_angle = start - sep;
        self.red_speed = speed;
        self.green_speed = speed;
        self.blue_speed = speed;
        self.cycle = cycle;
    }

    /// Draws fresh channels; the controller is kept.
    pub fn new_values(&mut self)
        ensures
            final(self).wf(),
            exists|start: int, sep: int, speed: int, cycle: int|
                draws_in_range(start, sep, speed, cycle) && final(self).channels() == drawn(start, sep, speed, cycle),
            final(self).control == old(self).control,
    {
        let speed = random_range(-SPEED_LIMIT, SPEED_LIMIT);
        let start = random_range(-START_LIMIT, START_LIMIT);
        let sep = random_range(-SEPARATION_LIMIT, SEPARATION_LIMIT);
        let cycle = random_range(-CYCLE_BOUND, CYCLE_BOUND);
        self.set_values(start, sep, speed, cycle);
        assert(draws_in_range(start as int, sep as int, speed as int, cycle as int)
            && self.channels() == drawn(start as int, sep as int, speed as int, cycle as int));
    }

    /// Moves every angle by its speed and the cycle by one step, each wrapped once.
    pub fn advance(&mut self)
        requires
            old(self).wf(),
        ensures
            final(self).wf(),
            final(self).channels() == advanced(old(self).channels()),
            final(self).control == old(self).control,
    {
        self.red_angle = cycle_angle(self.red_angle, self.red_speed);
        self.green_angle = cycle_angle(self.green_angle, self.green_speed);
        self.blue_angle = cycle_angle(self.blue_angle, self.blue_speed);
        self.cycle = cycle_cycle(self.cycle + CYCLE_STEP);
    }

    /// One frame of the sketch at `elapsed_secs` whole seconds after start.
    pub fn update(&mut self, elapsed_secs: u64)
        requires
            old(self).wf(),
        ensures
            final(self).wf(),
            final(self).channels() == advanced(old(self).channels()),
            final(self).control.recording == (old(self).control.recording && elapsed_secs
                <= old(self).control.record_limit_secs),
            final(self).control.run_mode == old(self).control.run_mode,
            final(self).control.label == old(self).control.label,
            final(self).control.save_frame == old(self).control.save_frame,
            final(self).control.record_limit_secs == old(self).control.record_limit_secs,
    {
        self.advance();
        self.control.tick(elapsed_secs);
    }

    /// The key this sketch adds: space draws fresh channels. Returns whether it was that key.
    pub fn sketch_key_released(&mut self, key: Key) -> (handled: bool)
        ensures
            handled == (key == Key::Space),
            final(self).control == old(self).control,
            !handled ==> final(self).channels() == old(self).channels(),
            handled ==> final(self).wf() && exists|start: int, sep: int, speed: int, cycle: int|
                draws_in_range(start, sep, speed, cycle) && final(self).channels() == drawn(start, sep, speed, cycle),
    {
        if key == Key::Space {
            self.new_values();
            true
        } else {
            false
        }
    }

    /// A released key: the common keys first, then the sketch's own.
    pub fn key_released(&mut self, key: Key)
        requires
            old(self).wf(),
        ensures
            final(self).wf(),
            final(self).control.save_frame == (old(self).control.save_frame || key == Key::S),
            final(self).control.run_mode == (if key == Key::M {
                old(self).control.run_mode.flipped()
            } else {
                old(self).control.run_mode
            }),
            final(self).control.label == old(self).control.label,
            final(self).control.recording == old(self).control.recording,
            final(self).control.record_limit_secs == old(self).control.record_limit_secs,
            key != Key::Space ==> final(self).channels() == old(self).channels(),
            key == Key::Space ==> exists|start: int, sep: int, speed: int, cycle: int|
                draws_in_range(start, sep, speed, cycle) && final(self).channels() == drawn(start, sep, speed, cycle),
    {
        if !self.control.key_released(key) {
            self.sketch_key_released(key);
        }
    }
}

} // verus!
