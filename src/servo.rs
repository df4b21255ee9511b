use vstd::prelude::*;

verus! {

/// The five positions of the head servo, from right to left.
#[derive(Clone, Copy, Debug, PartialEq, Eq, Structural)]
pub enum ServoDirection {
    Right,
    RightFront,
    Front,
    LeftFront,
    Left,
}

/// Top of the servo's duty range.
pub const SERVO_MAX_DUTY: u16 = 2500;
/// How long the sweep holds each position, in milliseconds.
pub const SERVO_DWELL_MS: u64 = 5000;

/// Pulse width of a position in microseconds: 0, 45, 90, 135 and 180 degrees.
pub open spec fn pulse_us(d: ServoDirection) -> int {
    match d {
        ServoDirection::Right => 550,
        ServoDirection::RightFront => 1000,
        ServoDirection::Front => 1500,
        ServoDirection::LeftFront => 2000,
        ServoDirection::Left => 2450,
    }
}

/// The duty for a pulse: the top of the range less the pulse counted in
/// 8-microsecond ticks, rounded to the nearest tick (halves up).
pub open spec fn duty_spec(d: ServoDirection) -> int {
    SERVO_MAX_DUTY - (pulse_us(d) + 4) / 8
}

/// The position the sweep moves to after `d`: from left to right, then back
/// to the left.
pub open spec fn sweep_next(d: ServoDirection) -> ServoDirection {
    match d {
        ServoDirection::Left => ServoDirection::LeftFront,
        ServoDirection::LeftFront => ServoDirection::Front,
        ServoDirection::Front => ServoDirection::RightFront,
        ServoDirection::RightFront => ServoDirection::Right,
        ServoDirection::Right => ServoDirection::Left,
    }
}

impl ServoDirection {
    pub fn direction_to_duty(&self) -> (r: u16)
        ensures
            r == duty_spec(*self),
    {
        let pulse: u16 = match self {
            ServoDirection::Right => 550,
            ServoDirection::RightFront => 1000,
            ServoDirection::Front => 1500,
            ServoDirection::LeftFront => 2000,
            ServoDirection::Left => 2450,
        };
        SERVO_MAX_DUTY - (pulse + 4) / 8
    }

    /// The next position of the sweep.
    pub fn next(&self) -> (r: ServoDirection)
        ensures
            r == sweep_next(*self),
    {
        match self {
            ServoDirection::Left => ServoDirection::LeftFront,
            ServoDirection::LeftFront => ServoDirection::Front,
            ServoDirection::Front => ServoDirection::RightFront,
            ServoDirection::RightFront => ServoDirection::Right,
            ServoDirection::Right => ServoDirection::Left,
        }
    }
}

/// The sweep visits every position and comes back after five steps.
pub proof fn lemma_sweep_cycle(d: ServoDirection)
    ensures
        sweep_next(sweep_next(sweep_next(sweep_next(sweep_next(d))))) == d,
        d != sweep_next(d),
{
}

} // verus!
