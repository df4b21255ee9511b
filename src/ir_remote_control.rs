use vstd::prelude::*;
use vstd::arithmetic::div_mod::{lemma_mod_breakdown, lemma_small_mod};
use vstd::arithmetic::power2::{pow2, lemma_pow2_pos, lemma_pow2_unfold, lemma2_to64};
use crate::big_led::BigLedCommand;
use crate::motor::MotorCommand;

verus! {

/// A button of the infrared remote, as named by the command byte of a frame.
#[derive(Clone, Copy, Debug, PartialEq, Eq, Structural)]
pub enum IrButton {
    OkKey,
    Left,
    Up,
    Right,
    Down,
    Num(u8),
    Star,
    Hash,
    Unknown(u8),
}

/// The remote's lookup table from command byte to button.
pub open spec fn button_of(cmd: u8) -> IrButton {
    match cmd {
        0x40 => IrButton::OkKey,
        0x44 => IrButton::Left,
        0x46 => IrButton::Up,
        0x43 => IrButton::Right,
        0x15 => IrButton::Down,
        0x16 => IrButton::Num(1),
        0x19 => IrButton::Num(2),
        0x0D => IrButton::Num(3),
        0x0C => IrButton::Num(4),
        0x18 => IrButton::Num(5),
        0x5E => IrButton::Num(6),
        0x08 => IrButton::Num(7),
        0x1C => IrButton::Num(8),
        0x5A => IrButton::Num(9),
        0x42 => IrButton::Star,
        0x52 => IrButton::Num(0),
        0x4A => IrButton::Hash,
        other => IrButton::Unknown(other),
    }
}

impl IrButton {
    pub fn from_command(cmd: u8) -> (r: IrButton)
        ensures
            r == button_of(cmd),
    {
        match cmd {
            0x40 => IrButton::OkKey,
            0x44 => IrButton::Left,
            0x46 => IrButton::Up,
            0x43 => IrButton::Right,
            0x15 => IrButton::Down,
            0x16 => IrButton::Num(1),
            0x19 => IrButton::Num(2),
            0x0D => IrButton::Num(3),
            0x0C => IrButton::Num(4),
            0x18 => IrButton::Num(5),
            0x5E => IrButton::Num(6),
            0x08 => IrButton::Num(7),
            0x1C => IrButton::Num(8),
            0x5A => IrButton::Num(9),
            0x42 => IrButton::Star,
            0x52 => IrButton::Num(0),
            0x4A => IrButton::Hash,
            other => IrButton::Unknown(other),
        }
    }

    /// Hands the button to the matching method of `handler`.
    pub fn execute<T: IrButtonHandler>(&self, handler: &mut T)
        ensures
            *final(handler) == old(handler).handled(*self),
    {
        match self {
            IrButton::OkKey => handler.on_ok(),
            IrButton::Left => handler.on_left(),
            IrButton::Up => handler.on_up(),
            IrButton::Right => handler.on_right(),
            IrButton::Down => handler.on_down(),
            IrButton::Num(n) => handler.on_num(*n),
            IrButton::Star => handler.on_star(),
            IrButton::Hash => handler.on_hash(),
            IrButton::Unknown(cmd) => handler.on_unknown(*cmd),
        }
    }
}

/// Something that reacts to remote buttons, one method per button.
/// `handled` is the state a handler is in after reacting to a button.
pub trait IrButtonHandler: Sized {
    spec fn handled(self, button: IrButton) -> Self;

    fn on_ok(&mut self)
        ensures
            *final(self) == old(self).handled(IrButton::OkKey),
    ;

    fn on_left(&mut self)
        ensures
            *final(self) == old(self).handled(IrButton::Left),
    ;

    fn on_up(&mut self)
        ensures
            *final(self) == old(self).handled(IrButton::Up),
    ;

    fn on_right(&mut self)
        ensures
            *final(self) == old(self).handled(IrButton::Right),
    ;

    fn on_down(&mut self)
        ensures
            *final(self) == old(self).handled(IrButton::Down),
    ;

    fn on_num(&mut self, n: u8)
        ensures
            *final(self) == old(self).handled(IrButton::Num(n)),
    ;

    fn on_star(&mut self)
        ensures
            *final(self) == old(self).handled(IrButton::Star),
    ;

    fn on_hash(&mut self)
        ensures
            *final(self) == old(self).handled(IrButton::Hash),
    ;

    fn on_unknown(&mut self, cmd: u8)
        ensures
            *final(self) == old(self).handled(IrButton::Unknown(cmd)),
    ;
}

/// An intent that the dispatcher forwards to one of the actuator queues.
#[derive(Clone, Copy, Debug, PartialEq, Eq, Structural)]
pub enum ControllerRequest {
    Motor(MotorCommand),
    BigLed(BigLedCommand),
}

/// What the dispatcher forwards for a button: arrows and Ok drive the
/// motors, Star toggles the big LEDs, the other buttons have no effect.
pub open spec fn request_for(button: IrButton) -> Option<ControllerRequest> {
    match button {
        IrButton::OkKey => Some(ControllerRequest::Motor(MotorCommand::Stop)),
        IrButton::Left => Some(ControllerRequest::Motor(MotorCommand::Left)),
        IrButton::Up => Some(ControllerRequest::Motor(MotorCommand::Forward)),
        IrButton::Right => Some(ControllerRequest::Motor(MotorCommand::Right)),
        IrButton::Down => Some(ControllerRequest::Motor(MotorCommand::Backward)),
        IrButton::Star => Some(ControllerRequest::BigLed(BigLedCommand::Toggle)),
        _ => None,
    }
}

/// The dispatcher of the remote: it holds the request produced by the last
/// button until the receiving task takes it and forwards it.
#[derive(Clone, Copy, Debug, PartialEq, Eq, Structural)]
pub struct IrRemoteController {
    pub request: Option<ControllerRequest>,
}

impl IrRemoteController {
    pub fn new() -> (r: IrRemoteController)
        ensures
            r.request == None::<ControllerRequest>,
    {
        IrRemoteController { request: None }
    }

    /// Takes the pending request out, leaving none behind.
    pub fn take_request(&mut self) -> (r: Option<ControllerRequest>)
        ensures
            r == old(self).request,
            final(self).request == None::<ControllerRequest>,
    {
        let r = self.request;
        self.request = None;
        r
    }
}

impl IrButtonHandler for IrRemoteController {
    open spec fn handled(self, button: IrButton) -> IrRemoteController {
        IrRemoteController { request: request_for(button) }
    }

    fn on_ok(&mut self) {
        self.request = Some(ControllerRequest::Motor(MotorCommand::Stop));
    }

    fn on_left(&mut self) {
        self.request = Some(ControllerRequest::Motor(MotorCommand::Left));
    }

    fn on_up(&mut self) {
        self.request = Some(ControllerRequest::Motor(MotorCommand::Forward));
    }

    fn on_right(&mut self) {
        self.request = Some(ControllerRequest::Motor(MotorCommand::Right));
    }

    fn on_down(&mut self) {
        self.request = Some(ControllerRequest::Motor(MotorCommand::Backward));
    }

    fn on_num(&mut self, n: u8) {
        self.request = None;
    }

    fn on_star(&mut self) {
        self.request = Some(ControllerRequest::BigLed(BigLedCommand::Toggle));
    }

    fn on_hash(&mut self) {
        self.request = None;
    }

    fn on_unknown(&mut self, cmd: u8) {
        self.request = None;
    }
}


/// Leader-low window of an NEC frame, in microseconds (exclusive bounds).
pub const NEC_LEADER_LOW_MIN: u32 = 8000;
pub const NEC_LEADER_LOW_MAX: u32 = 10000;
/// Leader-high window of a new frame.
pub const NEC_LEADER_HIGH_MIN: u32 = 4000;
pub const NEC_LEADER_HIGH_MAX: u32 = 5000;
/// Leader-high window of a repeat code.
pub const NEC_REPEAT_HIGH_MIN: u32 = 2000;
pub const NEC_REPEAT_HIGH_MAX: u32 = 2500;
/// A data pulse longer than this is a one bit.
pub const NEC_BIT_THRESHOLD: u32 = 1000;
/// Two leader pulses and two pulses for each of the 32 data bits.
pub const NEC_FRAME_LEN: usize = 66;

/// Outcome of one decoding attempt.
#[derive(Clone, Copy, Debug, PartialEq, Eq, Structural)]
pub enum IrDecodeResult {
    Button(IrButton),
    Repeat,
    NoSignal,
}

pub open spec fn leader_low_ok(t: Seq<u32>) -> bool {
    NEC_LEADER_LOW_MIN < t[0] < NEC_LEADER_LOW_MAX
}

pub open spec fn frame_leader_ok(t: Seq<u32>) -> bool {
    leader_low_ok(t) && NEC_LEADER_HIGH_MIN < t[1] < NEC_LEADER_HIGH_MAX
}

pub open spec fn repeat_leader_ok(t: Seq<u32>) -> bool {
    leader_low_ok(t) && NEC_REPEAT_HIGH_MIN < t[1] < NEC_REPEAT_HIGH_MAX
}

/// Data bit `j` of a frame: the second pulse of pair `j` after the leader,
/// a missing pulse counting as zero.
pub open spec fn nec_bit(t: Seq<u32>, j: nat) -> nat {
    let k = 2 + 2 * j + 1;
    if k < t.len() && t[k as int] > NEC_BIT_THRESHOLD {
        1
    } else {
        0
    }
}

/// The first `n` data bits, least significant first, as a number.
pub open spec fn nec_word(t: Seq<u32>, n: nat) -> nat
    decreases n,
{
    if n == 0 {
        0
    } else {
        nec_word(t, (n - 1) as nat) + nec_bit(t, (n - 1) as nat) * pow2((n - 1) as nat)
    }
}

/// The command byte: bits 16 to 23 of the 32-bit data word.
pub open spec fn nec_command(t: Seq<u32>) -> u8 {
    ((nec_word(t, 32) / pow2(16)) % 256) as u8
}

/// What a pulse-duration sequence decodes to.
pub open spec fn decode_spec(t: Seq<u32>) -> IrDecodeResult {
    if t.len() < NEC_FRAME_LEN {
        IrDecodeResult::NoSignal
    } else if frame_leader_ok(t) {
        IrDecodeResult::Button(button_of(nec_command(t)))
    } else if repeat_leader_ok(t) {
        IrDecodeResult::Repeat
    } else {
        IrDecodeResult::NoSignal
    }
}

/// Decodes one NEC frame from the pulse durations (microseconds) of one
/// receive cycle.
pub fn decode_nec(timings: &[u32]) -> (r: IrDecodeResult)
    ensures
        r == decode_spec(timings@),
{
    if timings.len() < NEC_FRAME_LEN {
        return IrDecodeResult::NoSignal;
    }
    if timings[0] > NEC_LEADER_LOW_MIN && timings[0] < NEC_LEADER_LOW_MAX
        && timings[1] > NEC_LEADER_HIGH_MIN && timings[1] < NEC_LEADER_HIGH_MAX
    {
        let mut data: u32 = 0;
        let mut weight: u64 = 1;
        let mut j: usize = 0;
        proof {
            lemma2_to64();
        }
        while j < 32
            invariant
                j <= 32,
                weight == pow2(j as nat),
                data == nec_word(timings@, j as nat),
                data < pow2(j as nat),
                pow2(32) == 0x1_0000_0000,
            decreases 32 - j,
        {
            let k: usize = 2 + j * 2 + 1;
            let high: u32 = if k < timings.len() { timings[k] } else { 0 };
            proof {
                lemma_pow2_unfold((j + 1) as nat);
                lemma_pow2_le(j as nat + 1, 32);
            }
            assert(nec_bit(timings@, j as nat) == if high > NEC_BIT_THRESHOLD { 1nat } else { 0nat });
            assert(nec_word(timings@, (j + 1) as nat) == nec_word(timings@, j as nat) + nec_bit(
                timings@,
                j as nat,
            ) * pow2(j as nat));
            assert(weight < 0x1_0000_0000);
            let ghost before = data;
            if high > NEC_BIT_THRESHOLD {
                data = data + weight as u32;
            }
            assert(data == before + nec_bit(timings@, j as nat) * pow2(j as nat));
            weight = weight * 2;
            j = j + 1;
        }
        proof {
            lemma2_to64();
            assert(((data >> 16u32) & 0xffu32) == (data / 0x10000u32) % 0x100u32) by (bit_vector);
        }
        let command: u8 = ((data >> 16) & 0xFF) as u8;
        IrDecodeResult::Button(IrButton::from_command(command))
    } else if timings[0] > NEC_LEADER_LOW_MIN && timings[0] < NEC_LEADER_LOW_MAX
        && timings[1] > NEC_REPEAT_HIGH_MIN && timings[1] < NEC_REPEAT_HIGH_MAX
    {
        IrDecodeResult::Repeat
    } else {
        IrDecodeResult::NoSignal
    }
}

/// Capacity of the timing buffer of one receive cycle.
pub const TIMINGS_SIZE: usize = 120;
/// A level held longer than this, in microseconds, ends the frame.
pub const PULSE_TIMEOUT_US: u32 = 18000;
/// Interval between two samples of the input pin, in microseconds.
pub const SAMPLE_INTERVAL_US: u64 = 15;
/// Quiet period after a frame before the receiver listens again, in milliseconds.
pub const FRAME_QUIET_MS: u64 = 120;

/// Whether sampling of the current pulse stops: the pin changed level, or
/// the pulse has lasted past the timeout.
pub fn pulse_ended(level_changed: bool, elapsed_us: u64) -> (r: bool)
    ensures
        r == (level_changed || elapsed_us > PULSE_TIMEOUT_US as u64),
{
    level_changed || elapsed_us > PULSE_TIMEOUT_US as u64
}

/// The pulse durations of one receive cycle, as they are measured.
pub struct PulseCapture {
    timings: Vec<u32>,
    done: bool,
}

impl PulseCapture {
    /// The durations recorded so far.
    pub closed spec fn timings_spec(&self) -> Seq<u32> {
        self.timings@
    }

    /// Whether the cycle has ended.
    pub closed spec fn done_spec(&self) -> bool {
        self.done
    }

    pub open spec fn wf(&self) -> bool {
        &&& self.timings_spec().len() <= TIMINGS_SIZE
        &&& self.timings_spec().len() == TIMINGS_SIZE ==> self.done_spec()
        &&& forall|i: int| 0 <= i < self.timings_spec().len() ==> #[trigger] self.timings_spec()[i] <= PULSE_TIMEOUT_US
    }

    pub fn new() -> (r: PulseCapture)
        ensures
            r.wf(),
            r.timings_spec() == Seq::<u32>::empty(),
            !r.done_spec(),
    {
        PulseCapture { timings: Vec::new(), done: false }
    }

    /// Records the duration of the pulse that just ended. A duration past
    /// the timeout ends the cycle and is not kept; the cycle also ends when
    /// the buffer is full. Returns whether more pulses are wanted.
    pub fn record(&mut self, elapsed_us: u64) -> (r: bool)
        requires
            old(self).wf(),
        ensures
            final(self).wf(),
            r == !final(self).done_spec(),
            old(self).done_spec() ==> *final(self) == *old(self),
            !old(self).done_spec() && elapsed_us > PULSE_TIMEOUT_US as u64 ==> {
                &&& final(self).timings_spec() == old(self).timings_spec()
                &&& final(self).done_spec()
            },
            !old(self).done_spec() && elapsed_us <= PULSE_TIMEOUT_US as u64 ==> {
                &&& final(self).timings_spec() == old(self).timings_spec().push(elapsed_us as u32)
                &&& final(self).done_spec() == (final(self).timings_spec().len() == TIMINGS_SIZE)
            },
    {
        if self.done {
            return false;
        }
        if elapsed_us > PULSE_TIMEOUT_US as u64 {
            self.done = true;
            return false;
        }
        self.timings.push(elapsed_us as u32);
        if self.timings.len() == TIMINGS_SIZE {
            self.done = true;
        }
        !self.done
    }

    /// Whether the cycle has ended.
    pub fn is_done(&self) -> (r: bool)
        ensures
            r == self.done_spec(),
    {
        self.done
    }

    /// The durations recorded, for the decoder.
    pub fn timings(&self) -> (r: &[u32])
        ensures
            r@ == self.timings_spec(),
    {
        self.timings.as_slice()
    }
}

impl IrRemoteController {
    /// Reacts to one decoding outcome: a button goes to its handler; a
    /// repeat code or no signal changes nothing.
    pub fn on_decoded(&mut self, result: IrDecodeResult)
        ensures
            *final(self) == match result {
                IrDecodeResult::Button(b) => old(self).handled(b),
                _ => *old(self),
            },
    {
        match result {
            IrDecodeResult::Button(b) => b.execute(self),
            _ => {},
        }
    }
}

/// A sequence too short to hold a frame decodes to no signal.
pub proof fn lemma_short_is_no_signal(t: Seq<u32>)
    requires
        t.len() < NEC_FRAME_LEN,
    ensures
        decode_spec(t) == IrDecodeResult::NoSignal,
{
}

/// A sequence of frame length that starts with the repeat leader
/// (9000, 2250) decodes to a repeat code, whatever follows.
pub proof fn lemma_repeat_leader(t: Seq<u32>)
    requires
        t.len() >= NEC_FRAME_LEN,
        t[0] == 9000,
        t[1] == 2250,
    ensures
        decode_spec(t) == IrDecodeResult::Repeat,
{
}

/// A sequence of frame length that starts with the frame leader
/// (9000, 4500) decodes to the button of its command byte, bits 16 to 23
/// of the data word.
pub proof fn lemma_frame_leader(t: Seq<u32>)
    requires
        t.len() >= NEC_FRAME_LEN,
        t[0] == 9000,
        t[1] == 4500,
    ensures
        decode_spec(t) == IrDecodeResult::Button(button_of(nec_command(t))),
{
}

/// Bit `j` of `w`.
pub open spec fn word_bit(w: u32, j: int) -> bool {
    (w as nat / pow2(j as nat)) % 2 == 1
}

/// The pulses a remote sends for the data word `w`: the leader (9000, 4500),
/// then for each bit, least significant first, a 560 pulse followed by
/// 1690 for a one or 560 for a zero.
pub open spec fn nec_frame(w: u32) -> Seq<u32> {
    Seq::new(
        NEC_FRAME_LEN as nat,
        |i: int|
            if i == 0 {
                9000u32
            } else if i == 1 {
                4500u32
            } else if i % 2 == 0 {
                560u32
            } else if word_bit(w, (i - 3) / 2) {
                1690u32
            } else {
                560u32
            },
    )
}

/// Sending a data word and decoding the pulses gives back the button of
/// the word's command byte.
pub proof fn lemma_frame_round_trip(w: u32)
    ensures
        decode_spec(nec_frame(w)) == IrDecodeResult::Button(button_of(((w / 0x10000) % 0x100) as u8)),
{
    let t = nec_frame(w);
    lemma_nec_word_of_frame(w, 32);
    lemma2_to64();
    lemma_small_mod(w as nat, pow2(32));
}

proof fn lemma_nec_word_of_frame(w: u32, n: nat)
    requires
        n <= 32,
    ensures
        nec_word(nec_frame(w), n) == w as nat % pow2(n),
    decreases n,
{
    if n > 0 {
        let m = (n - 1) as nat;
        lemma_nec_word_of_frame(w, m);
        lemma_pow2_pos(m);
        lemma_pow2_unfold(n);
        lemma_mod_breakdown(w as int, pow2(m) as int, 2);
        let k = 2 + 2 * m + 1;
        assert((k - 3) / 2 == m);
        assert(k % 2 == 1);
        if word_bit(w, m as int) {
            assert(nec_frame(w)[k as int] == 1690u32);
        } else {
            assert(nec_frame(w)[k as int] == 560u32);
        }
        let b = (w as nat / pow2(m)) % 2;
        assert(nec_bit(nec_frame(w), m) == b);
        assert(pow2(m) * 2 == pow2(n));
        assert(w as int % (pow2(m) as int * 2) == pow2(m) as int * ((w as int / pow2(m) as int) % 2) + w as int % pow2(m) as int);
        assert(nec_word(nec_frame(w), n) == nec_word(nec_frame(w), m) + b * pow2(m));
        assert(b * pow2(m) == pow2(m) * b) by (nonlinear_arith);
    } else {
        assert(pow2(0) == 1) by {
            lemma2_to64();
        }
    }
}

proof fn lemma_pow2_le(a: nat, b: nat)
    requires
        a <= b,
    ensures
        pow2(a) <= pow2(b),
    decreases b - a,
{
    if a < b {
        lemma_pow2_le(a, (b - 1) as nat);
        lemma_pow2_unfold(b);
    }
}

} // verus!
