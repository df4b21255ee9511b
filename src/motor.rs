use vstd::prelude::*;
use crate::twim::TwinCommand;

verus! {

/// A driving intent for the motor controller.
#[derive(Clone, Copy, Debug, PartialEq, Eq, Structural)]
pub enum MotorCommand {
    Stop,
    Forward,
    Backward,
    Left,
    Right,
}

#[derive(Clone, Copy, Debug, PartialEq, Eq, Structural)]
pub enum MotorSide {
    Left,
    Right,
}

#[derive(Clone, Copy, Debug, PartialEq, Eq, Structural)]
pub enum MotorPosition {
    Front,
    Back,
}

/// Power level of one motor; the speed is a bus level from 0 to 255.
#[derive(Clone, Copy, Debug, PartialEq, Eq, Structural)]
pub enum MotorPower {
    Stop,
    Forward(u8),
    Backward(u8),
}

/// One of the four wheels' motors, with the power last applied to it.
#[derive(Clone, Copy, Debug, PartialEq, Eq, Structural)]
pub struct Motor {
    pub side: MotorSide,
    pub position: MotorPosition,
    pub power: MotorPower,
}

/// Full speed on the bus.
pub const MOTOR_MAX_SPEED: u8 = 0xFF;

/// The two bus channels owned by the motor at `side` and `position`.
pub open spec fn channels_of(side: MotorSide, position: MotorPosition) -> (u8, u8) {
    match (position, side) {
        (MotorPosition::Front, MotorSide::Right) => (0x01, 0x02),
        (MotorPosition::Front, MotorSide::Left) => (0x03, 0x04),
        (MotorPosition::Back, MotorSide::Right) => (0x05, 0x06),
        (MotorPosition::Back, MotorSide::Left) => (0x07, 0x08),
    }
}

/// The two writes that put `power` on a motor owning channels `ch`.
pub open spec fn power_writes(ch: (u8, u8), power: MotorPower) -> Seq<TwinCommand> {
    match power {
        MotorPower::Stop => seq![
            TwinCommand { channel: ch.0, value: 0 },
            TwinCommand { channel: ch.1, value: 0 },
        ],
        MotorPower::Forward(s) => seq![
            TwinCommand { channel: ch.0, value: 0 },
            TwinCommand { channel: ch.1, value: s },
        ],
        MotorPower::Backward(s) => seq![
            TwinCommand { channel: ch.0, value: s },
            TwinCommand { channel: ch.1, value: 0 },
        ],
    }
}

/// The power that an intent puts on the motors of one side.
pub open spec fn intent_power(cmd: MotorCommand, side: MotorSide) -> MotorPower {
    match (cmd, side) {
        (MotorCommand::Stop, _) => MotorPower::Stop,
        (MotorCommand::Forward, _) => MotorPower::Forward(MOTOR_MAX_SPEED),
        (MotorCommand::Backward, _) => MotorPower::Backward(MOTOR_MAX_SPEED),
        (MotorCommand::Left, MotorSide::Left) => MotorPower::Backward(MOTOR_MAX_SPEED),
        (MotorCommand::Left, MotorSide::Right) => MotorPower::Forward(MOTOR_MAX_SPEED),
        (MotorCommand::Right, MotorSide::Left) => MotorPower::Forward(MOTOR_MAX_SPEED),
        (MotorCommand::Right, MotorSide::Right) => MotorPower::Backward(MOTOR_MAX_SPEED),
    }
}

pub open spec fn motor_spec(side: MotorSide, position: MotorPosition) -> Motor {
    Motor { side, position, power: MotorPower::Stop }
}

/// The four motors in the order the controller addresses them for an intent
/// that treats both sides alike.
pub open spec fn all_motors_spec() -> Seq<Motor> {
    seq![
        motor_spec(MotorSide::Right, MotorPosition::Front),
        motor_spec(MotorSide::Left, MotorPosition::Front),
        motor_spec(MotorSide::Right, MotorPosition::Back),
        motor_spec(MotorSide::Left, MotorPosition::Back),
    ]
}

pub open spec fn left_side_spec() -> Seq<Motor> {
    seq![
        motor_spec(MotorSide::Left, MotorPosition::Front),
        motor_spec(MotorSide::Left, MotorPosition::Back),
    ]
}

pub open spec fn right_side_spec() -> Seq<Motor> {
    seq![
        motor_spec(MotorSide::Right, MotorPosition::Front),
        motor_spec(MotorSide::Right, MotorPosition::Back),
    ]
}

/// Motors in the order an intent drives them: turns drive the left side first.
pub open spec fn command_order(cmd: MotorCommand) -> Seq<Motor> {
    match cmd {
        MotorCommand::Left | MotorCommand::Right => left_side_spec() + right_side_spec(),
        _ => all_motors_spec(),
    }
}

/// The writes that drive each motor of `ms` in turn with the power `cmd` gives its side.
pub open spec fn motors_writes(ms: Seq<Motor>, cmd: MotorCommand) -> Seq<TwinCommand>
    decreases ms.len(),
{
    if ms.len() == 0 {
        seq![]
    } else {
        let m = ms.last();
        motors_writes(ms.drop_last(), cmd) + power_writes(
            channels_of(m.side, m.position),
            intent_power(cmd, m.side),
        )
    }
}

/// The bus writes that carry out an intent.
pub open spec fn command_writes(cmd: MotorCommand) -> Seq<TwinCommand> {
    motors_writes(command_order(cmd), cmd)
}

impl Motor {
    pub fn new(side: MotorSide, position: MotorPosition, power: MotorPower) -> (r: Motor)
        ensures
            r.side == side,
            r.position == position,
            r.power == power,
    {
        Motor { side, position, power }
    }

    pub fn all_motors() -> (r: [Motor; 4])
        ensures
            r@ == all_motors_spec(),
    {
        let r = [
            Motor::new(MotorSide::Right, MotorPosition::Front, MotorPower::Stop),
            Motor::new(MotorSide::Left, MotorPosition::Front, MotorPower::Stop),
            Motor::new(MotorSide::Right, MotorPosition::Back, MotorPower::Stop),
            Motor::new(MotorSide::Left, MotorPosition::Back, MotorPower::Stop),
        ];
        assert(r@ =~= all_motors_spec());
        r
    }

    pub fn left_side_motors() -> (r: [Motor; 2])
        ensures
            r@ == left_side_spec(),
    {
        let r = [
            Motor::new(MotorSide::Left, MotorPosition::Front, MotorPower::Stop),
            Motor::new(MotorSide::Left, MotorPosition::Back, MotorPower::Stop),
        ];
        assert(r@ =~= left_side_spec());
        r
    }

    pub fn right_side_motors() -> (r: [Motor; 2])
        ensures
            r@ == right_side_spec(),
    {
        let r = [
            Motor::new(MotorSide::Right, MotorPosition::Front, MotorPower::Stop),
            Motor::new(MotorSide::Right, MotorPosition::Back, MotorPower::Stop),
        ];
        assert(r@ =~= right_side_spec());
        r
    }

    /// The pair of bus channels this motor owns.
    pub fn channel(&self) -> (r: (u8, u8))
        ensures
            r == channels_of(self.side, self.position),
    {
        match (self.position, self.side) {
            (MotorPosition::Front, MotorSide::Right) => (0x01, 0x02),
            (MotorPosition::Front, MotorSide::Left) => (0x03, 0x04),
            (MotorPosition::Back, MotorSide::Right) => (0x05, 0x06),
            (MotorPosition::Back, MotorSide::Left) => (0x07, 0x08),
        }
    }

    /// The power last applied.
    pub fn power(&self) -> (r: MotorPower)
        ensures
            r == self.power,
    {
        self.power
    }

    /// Records `power` as this motor's level and returns the two bus writes
    /// that apply it, first channel first.
    pub fn set_power(&mut self, power: MotorPower) -> (r: [TwinCommand; 2])
        ensures
            *final(self) == (Motor { power, ..*old(self) }),
            r@ == power_writes(channels_of(old(self).side, old(self).position), power),
    {
        self.power = power;
        let (c0, c1) = self.channel();
        let r = match power {
            MotorPower::Stop => [TwinCommand::new(c0, 0x00), TwinCommand::new(c1, 0x00)],
            MotorPower::Forward(speed) => [TwinCommand::new(c0, 0x00), TwinCommand::new(c1, speed)],
            MotorPower::Backward(speed) => [TwinCommand::new(c0, speed), TwinCommand::new(c1, 0x00)],
        };
        assert(r@ =~= power_writes(channels_of(old(self).side, old(self).position), power));
        r
    }
}

/// Drives each motor of `motors` in turn, appending the writes to `out`.
fn drive(motors: &[Motor], cmd: MotorCommand, out: &mut Vec<TwinCommand>)
    ensures
        final(out)@ == old(out)@ + motors_writes(motors@, cmd),
{
    let mut i: usize = 0;
    while i < motors.len()
        invariant
            i <= motors@.len(),
            out@ == old(out)@ + motors_writes(motors@.take(i as int), cmd),
        decreases motors@.len() - i,
    {
        let mut m = motors[i];
        let w = m.set_power(intent_power_exec(cmd, m.side));
        out.push(w[0]);
        out.push(w[1]);
        assert(motors@.take(i + 1).drop_last() =~= motors@.take(i as int));
        assert(out@ =~= old(out)@ + motors_writes(motors@.take(i + 1), cmd));
        i = i + 1;
    }
    assert(motors@.take(i as int) =~= motors@);
}

fn intent_power_exec(cmd: MotorCommand, side: MotorSide) -> (r: MotorPower)
    ensures
        r == intent_power(cmd, side),
{
    match (cmd, side) {
        (MotorCommand::Stop, _) => MotorPower::Stop,
        (MotorCommand::Forward, _) => MotorPower::Forward(MOTOR_MAX_SPEED),
        (MotorCommand::Backward, _) => MotorPower::Backward(MOTOR_MAX_SPEED),
        (MotorCommand::Left, MotorSide::Left) => MotorPower::Backward(MOTOR_MAX_SPEED),
        (MotorCommand::Left, MotorSide::Right) => MotorPower::Forward(MOTOR_MAX_SPEED),
        (MotorCommand::Right, MotorSide::Left) => MotorPower::Forward(MOTOR_MAX_SPEED),
        (MotorCommand::Right, MotorSide::Right) => MotorPower::Backward(MOTOR_MAX_SPEED),
    }
}

impl MotorCommand {
    /// The bus writes that carry out this intent, two per motor, in the
    /// order they are to be sent.
    pub fn execute(&self) -> (r: Vec<TwinCommand>)
        ensures
            r@ == command_writes(*self),
    {
        let mut out: Vec<TwinCommand> = Vec::new();
        match self {
            MotorCommand::Left | MotorCommand::Right => {
                let left = Motor::left_side_motors();
                let right = Motor::right_side_motors();
                drive(&left, *self, &mut out);
                drive(&right, *self, &mut out);
                proof {
                    lemma_motors_writes_append(left_side_spec(), right_side_spec(), *self);
                }
            },
            _ => {
                let all = Motor::all_motors();
                drive(&all, *self, &mut out);
            },
        }
        assert(out@ =~= command_writes(*self));
        out
    }
}

proof fn lemma_motors_writes_append(a: Seq<Motor>, b: Seq<Motor>, cmd: MotorCommand)
    ensures
        motors_writes(a + b, cmd) == motors_writes(a, cmd) + motors_writes(b, cmd),
    decreases b.len(),
{
    if b.len() == 0 {
        assert(a + b =~= a);
        assert(motors_writes(a, cmd) + seq![] =~= motors_writes(a, cmd));
    } else {
        lemma_motors_writes_append(a, b.drop_last(), cmd);
        assert((a + b).drop_last() =~= a + b.drop_last());
        assert((a + b).last() == b.last());
        let m = b.last();
        let w = power_writes(channels_of(m.side, m.position), intent_power(cmd, m.side));
        assert(motors_writes(a, cmd) + motors_writes(b.drop_last(), cmd) + w =~= motors_writes(a, cmd)
            + (motors_writes(b.drop_last(), cmd) + w));
    }
}

pub open spec fn write(channel: u8, value: u8) -> TwinCommand {
    TwinCommand { channel, value }
}

/// Turning left drives both left motors backward and both right motors
/// forward at full speed; the writes depend on the intent alone, not on any
/// level the motors held before.
pub proof fn lemma_turn_left_writes()
    ensures
        command_writes(MotorCommand::Left) == seq![
            write(0x03, 0xFF), write(0x04, 0x00),
            write(0x07, 0xFF), write(0x08, 0x00),
            write(0x01, 0x00), write(0x02, 0xFF),
            write(0x05, 0x00), write(0x06, 0xFF),
        ],
        intent_power(MotorCommand::Left, MotorSide::Left) == MotorPower::Backward(MOTOR_MAX_SPEED),
        intent_power(MotorCommand::Left, MotorSide::Right) == MotorPower::Forward(MOTOR_MAX_SPEED),
{
    reveal_with_fuel(motors_writes, 5);
    assert(command_writes(MotorCommand::Left) =~= seq![
        write(0x03, 0xFF), write(0x04, 0x00),
        write(0x07, 0xFF), write(0x08, 0x00),
        write(0x01, 0x00), write(0x02, 0xFF),
        write(0x05, 0x00), write(0x06, 0xFF),
    ]);
}

/// Stopping sets every motor channel to zero, so sending `Stop` twice puts
/// the same eight writes on the bus both times.
pub proof fn lemma_stop_twice()
    ensures
        command_writes(MotorCommand::Stop) == seq![
            write(0x01, 0x00), write(0x02, 0x00),
            write(0x03, 0x00), write(0x04, 0x00),
            write(0x05, 0x00), write(0x06, 0x00),
            write(0x07, 0x00), write(0x08, 0x00),
        ],
        (command_writes(MotorCommand::Stop) + command_writes(MotorCommand::Stop)).subrange(8, 16)
            == command_writes(MotorCommand::Stop),
{
    reveal_with_fuel(motors_writes, 5);
    let w = command_writes(MotorCommand::Stop);
    assert(w =~= seq![
        write(0x01, 0x00), write(0x02, 0x00),
        write(0x03, 0x00), write(0x04, 0x00),
        write(0x05, 0x00), write(0x06, 0x00),
        write(0x07, 0x00), write(0x08, 0x00),
    ]);
    assert((w + w).subrange(8, 16) =~= w);
}

/// Every motor owns two distinct bus channels among 1 to 8, and no channel
/// is shared by two motors.
pub proof fn lemma_motor_channels_disjoint(
    s1: MotorSide,
    p1: MotorPosition,
    s2: MotorSide,
    p2: MotorPosition,
)
    ensures
        channels_of(s1, p1).0 != channels_of(s1, p1).1,
        1 <= channels_of(s1, p1).0 <= 8,
        1 <= channels_of(s1, p1).1 <= 8,
        (s1, p1) != (s2, p2) ==> {
            &&& channels_of(s1, p1).0 != channels_of(s2, p2).0
            &&& channels_of(s1, p1).0 != channels_of(s2, p2).1
            &&& channels_of(s1, p1).1 != channels_of(s2, p2).0
            &&& channels_of(s1, p1).1 != channels_of(s2, p2).1
        },
{
}

} // verus!
