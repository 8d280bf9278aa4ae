//! The stepper motor that turns the fan: its direction, its position in
//! motor steps, pointing at an angle and oscillating.
use vstd::prelude::*;

verus! {

/// The position, in motor steps, that the fan starts from and oscillates
/// around.
pub const DEFAULT_POS: u16 = 400;

/// The way the motor turns.
#[derive(Debug, Clone, Copy, PartialEq, Eq, Structural)]
pub enum Direction {
    /// Clockwise: each step adds one to the position. GPIO value 0.
    CW,
    /// Counter-clockwise: each step takes one from the position. GPIO value 1.
    CCW,
}

/// The value written to the direction GPIO for a direction.
pub open spec fn spec_gpio_value(d: Direction) -> u8 {
    match d {
        Direction::CW => 0,
        Direction::CCW => 1,
    }
}

impl Direction {
    /// The value written to the direction GPIO for this direction.
    pub fn gpio_value(&self) -> (v: u8)
        ensures
            v == spec_gpio_value(*self),
    {
        match self {
            Direction::CW => 0,
            Direction::CCW => 1,
        }
    }
}

/// Where the motor stands: the direction it is set to turn and its
/// position in steps.
pub struct Motor {
    pub direction: Direction,
    pub position: u16,
}

/// The fan's oscillation state, shared between the command loop and the
/// oscillation loop.
pub struct Oscillation {
    /// The direction the motor is set to turn.
    pub dir: Direction,
    /// Whether the oscillation loop moves the fan.
    pub oscillation_enable: bool,
    /// The oscillation range in degrees, once one was given.
    pub range: Option<u16>,
    /// The position of the motor, in steps.
    pub position: u16,
}

impl Oscillation {
    /// Where the motor stands.
    pub open spec fn motor(&self) -> Motor {
        Motor { direction: self.dir, position: self.position }
    }
}

/// A move of the motor towards a target: the direction set on the GPIO and
/// the number of step pulses sent.
#[derive(Debug, Clone, Copy, PartialEq, Eq, Structural)]
pub struct PointMove {
    pub direction: Direction,
    pub steps: u16,
}

/// One round of the oscillation loop: how many times the direction GPIO is
/// set back to clockwise, and the direction of the single step that follows.
#[derive(Debug, Clone, Copy, PartialEq, Eq, Structural)]
pub struct OscillationTick {
    pub direction_writes: u8,
    pub stepped: Direction,
}

/// The motor after `steps` pulses in its direction.
pub open spec fn stepped(m: Motor, steps: u16) -> Motor {
    Motor {
        direction: m.direction,
        position: match m.direction {
            Direction::CW => (m.position + steps) as u16,
            Direction::CCW => (m.position - steps) as u16,
        },
    }
}

/// Pointing the motor at position `target`: clockwise when it stands below
/// the target, counter-clockwise otherwise, for as many steps as separate
/// it from the target.
pub open spec fn spec_point(m: Motor, target: u16) -> (Motor, PointMove) {
    if m.position < target {
        (
            Motor { direction: Direction::CW, position: target },
            PointMove { direction: Direction::CW, steps: (target - m.position) as u16 },
        )
    } else {
        (
            Motor { direction: Direction::CCW, position: target },
            PointMove { direction: Direction::CCW, steps: (m.position - target) as u16 },
        )
    }
}

/// How many of the two oscillation limits the position has reached: the
/// clockwise limit `DEFAULT_POS + step_range` (at or above it) and the
/// counter-clockwise limit `DEFAULT_POS - step_range` (at or below it).
/// Without a range there are no limits.
pub open spec fn limits_reached(position: u16, step_range: Option<u16>) -> u8 {
    match step_range {
        None => 0,
        Some(r) => ((if position >= DEFAULT_POS + r { 1int } else { 0int }) + (if position
            <= DEFAULT_POS - r {
            1int
        } else {
            0int
        })) as u8,
    }
}

/// The direction the oscillation loop steps in: each reached limit sets the
/// direction to clockwise.
pub open spec fn tick_direction(m: Motor, step_range: Option<u16>) -> Direction {
    if limits_reached(m.position, step_range) > 0 {
        Direction::CW
    } else {
        m.direction
    }
}

/// Both oscillation limits exist as `u16` values.
pub open spec fn limits_fit(step_range: Option<u16>) -> bool {
    step_range matches Some(r) ==> r <= DEFAULT_POS
}

/// Why a round of the oscillation loop cannot be taken.
#[derive(Debug, Clone, Copy, PartialEq, Eq, Structural)]
pub enum TickError {
    /// A limit `DEFAULT_POS + step_range` or `DEFAULT_POS - step_range` is
    /// not a `u16`.
    LimitOverflow,
    /// The step would take the position out of `u16`.
    PositionOverflow,
}

/// The oscillation loop can step once without the position leaving `u16`,
/// and both limits exist as `u16` values.
pub open spec fn can_tick(m: Motor, step_range: Option<u16>) -> bool {
    &&& limits_fit(step_range)
    &&& match tick_direction(m, step_range) {
        Direction::CW => m.position < 65535,
        Direction::CCW => m.position > 0,
    }
}

impl Oscillation {
    /// The fan at rest: turning clockwise, at `DEFAULT_POS`, not oscillating
    /// and with no range.
    pub fn default() -> (o: Oscillation)
        ensures
            o.motor() == (Motor { direction: Direction::CW, position: DEFAULT_POS }),
            !o.oscillation_enable,
            o.range is None,
    {
        Oscillation { dir: Direction::CW, oscillation_enable: false, range: None, position: DEFAULT_POS }
    }

    /// Sets the direction the motor turns.
    pub fn set_direction(&mut self, dir: Direction)
        ensures
            final(self).motor() == (Motor { direction: dir, position: old(self).motor().position }),
            final(self).oscillation_enable == old(self).oscillation_enable,
            final(self).range == old(self).range,
    {
        self.dir = dir;
    }

    /// Moves the position by `steps` pulses in the current direction (the
    /// motor receives one pulse per step). Two runs of `a` and `b` steps
    /// leave the motor where one run of `a + b` steps does
    /// (`steps_compose`).
    pub fn step(&mut self, steps: u16)
        requires
            old(self).motor().direction == Direction::CW ==> old(self).motor().position + steps <= 65535,
            old(self).motor().direction == Direction::CCW ==> old(self).motor().position >= steps,
        ensures
            final(self).motor() == stepped(old(self).motor(), steps),
            final(self).oscillation_enable == old(self).oscillation_enable,
            final(self).range == old(self).range,
    {
        match self.dir {
            Direction::CW => {
                self.position = self.position + steps;
            },
            Direction::CCW => {
                self.position = self.position - steps;
            },
        }
    }

    /// Points the motor at position `desired_pos` (see `spec_point`) and
    /// returns the move that the motor has to make.
    pub fn point(&mut self, desired_pos: u16) -> (mv: PointMove)
        ensures
            (final(self).motor(), mv) == spec_point(old(self).motor(), desired_pos),
            final(self).motor().position == desired_pos,
            final(self).oscillation_enable == old(self).oscillation_enable,
            final(self).range == old(self).range,
    {
        let steps;
        if self.position < desired_pos {
            self.set_direction(Direction::CW);
            steps = desired_pos - self.position;
        } else {
            self.set_direction(Direction::CCW);
            steps = self.position - desired_pos;
        }
        self.step(steps);
        PointMove { direction: self.dir, steps }
    }

    /// One round of the oscillation loop with `step_range` the number of
    /// steps that half the range spans (counted from 0, so at least
    /// `DEFAULT_POS`). Nothing happens while oscillation is off. Otherwise
    /// the two limits `DEFAULT_POS + step_range` and
    /// `DEFAULT_POS - step_range` are taken, every reached limit sets the
    /// direction to clockwise, and the motor takes one step. A limit or a
    /// position that leaves `u16` is refused with the state unchanged.
    pub fn oscillation_tick(&mut self, step_range: Option<u16>) -> (t: Result<
        Option<OscillationTick>,
        TickError,
    >)
        ensures
            final(self).oscillation_enable == old(self).oscillation_enable,
            final(self).range == old(self).range,
            !old(self).oscillation_enable ==> t == Ok::<Option<OscillationTick>, TickError>(None),
            old(self).oscillation_enable && !limits_fit(step_range) ==> t == Err::<
                Option<OscillationTick>,
                TickError,
            >(TickError::LimitOverflow),
            old(self).oscillation_enable && limits_fit(step_range) && !can_tick(
                old(self).motor(),
                step_range,
            ) ==> t == Err::<Option<OscillationTick>, TickError>(TickError::PositionOverflow),
            old(self).oscillation_enable && can_tick(old(self).motor(), step_range) ==> t == Ok::<
                Option<OscillationTick>,
                TickError,
            >(
                Some(
                    OscillationTick {
                        direction_writes: limits_reached(old(self).position, step_range),
                        stepped: tick_direction(old(self).motor(), step_range),
                    },
                ),
            ),
            t matches Ok(Some(_)) ==> final(self).motor() == stepped(
                Motor {
                    direction: tick_direction(old(self).motor(), step_range),
                    position: old(self).position,
                },
                1,
            ),
            !(t matches Ok(Some(_))) ==> final(self).motor() == old(self).motor(),
    {
        if !self.oscillation_enable {
            return Ok(None);
        }
        let mut writes: u8 = 0;
        let mut dir = self.dir;
        match step_range {
            Some(r) => {
                if r > DEFAULT_POS {
                    return Err(TickError::LimitOverflow);
                }
                let cw_limit = DEFAULT_POS + r;
                let ccw_limit = DEFAULT_POS - r;
                if self.position >= cw_limit {
                    dir = Direction::CW;
                    writes = writes + 1;
                }
                if self.position <= ccw_limit {
                    dir = Direction::CW;
                    writes = writes + 1;
                }
            },
            None => {},
        }
        match dir {
            Direction::CW => if self.position == 65535 {
                return Err(TickError::PositionOverflow);
            },
            Direction::CCW => if self.position == 0 {
                return Err(TickError::PositionOverflow);
            },
        }
        self.set_direction(dir);
        self.step(1);
        Ok(Some(OscillationTick { direction_writes: writes, stepped: dir }))
    }
}

/// Law: stepping `a` pulses and then `b` more in the same direction leaves
/// the motor where `a + b` pulses at once leave it, as long as the position
/// stays within `u16`.
pub proof fn steps_compose(m: Motor, a: u16, b: u16)
    requires
        m.direction == Direction::CW ==> m.position + a + b <= 65535,
        m.direction == Direction::CCW ==> m.position >= a + b,
    ensures
        a + b <= 65535,
        stepped(stepped(m, a), b) == stepped(m, (a + b) as u16),
{
}

/// Law: a round of the oscillation loop turns the motor clockwise exactly
/// when the position is at or beyond a limit (`DEFAULT_POS + r` and above,
/// or `DEFAULT_POS - r` and below), writing the direction once per limit
/// reached; strictly between the limits, or without a range, the motor
/// keeps its direction and nothing is written.
pub proof fn oscillation_round_direction(m: Motor, step_range: Option<u16>)
    requires
        limits_fit(step_range),
    ensures
        step_range is None ==> tick_direction(m, step_range) == m.direction
            && limits_reached(m.position, step_range) == 0,
        step_range matches Some(r) ==> {
            let cw = m.position >= 400 + r;
            let ccw = m.position <= 400 - r;
            &&& (cw || ccw) ==> tick_direction(m, step_range) == Direction::CW
            &&& (!cw && !ccw) ==> tick_direction(m, step_range) == m.direction
            &&& limits_reached(m.position, step_range) == (if cw { 1int } else { 0int }) + (if ccw {
                1int
            } else {
                0int
            })
        },
{
}

/// Law: pointing twice at the same position moves the motor only the first
/// time; the second move has no steps.
pub proof fn point_twice(m: Motor, target: u16)
    ensures
        spec_point(spec_point(m, target).0, target).1.steps == 0,
        spec_point(spec_point(m, target).0, target).0.position == target,
{
}

/// Law: pointing turns clockwise exactly when the motor stands below the
/// target, and takes as many steps as separate the position from the
/// target.
pub proof fn point_direction_and_distance(m: Motor, target: u16)
    ensures
        spec_point(m, target).1.direction == Direction::CW <==> m.position < target,
        m.position < target ==> spec_point(m, target).1.steps == target - m.position,
        m.position >= target ==> spec_point(m, target).1.steps == m.position - target,
        spec_point(m, target).0.direction == spec_point(m, target).1.direction,
{
}

/// Law: a run of steps adds its count to the position when turning
/// clockwise, takes it away when turning counter-clockwise, and keeps the
/// direction.
pub proof fn step_moves_by(m: Motor, steps: u16)
    requires
        m.direction == Direction::CW ==> m.position + steps <= 65535,
        m.direction == Direction::CCW ==> m.position >= steps,
    ensures
        m.direction == Direction::CW ==> stepped(m, steps).position == m.position + steps,
        m.direction == Direction::CCW ==> stepped(m, steps).position == m.position - steps,
        stepped(m, steps).direction == m.direction,
{
}

/// Law: a move ends where it was aimed: stepping the motor by the move it
/// was given lands it on the target.
pub proof fn point_lands_on_target(m: Motor, target: u16)
    ensures
        stepped(
            Motor { direction: spec_point(m, target).1.direction, position: m.position },
            spec_point(m, target).1.steps,
        ).position == target,
{
}

/// The GPIO level that follows `level` in a train of step pulses.
pub fn next_level(level: u8) -> (next: u8)
    ensures
        next == (if level == 1 { 0u8 } else { 1u8 }),
{
    if level == 1 {
        0
    } else {
        1
    }
}

} // verus!
