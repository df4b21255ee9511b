use vstd::prelude::*;
use crate::twim::TwinCommand;

verus! {

/// An intent for the big-LED controller.
#[derive(Clone, Copy, Debug, PartialEq, Eq, Structural)]
pub enum BigLedCommand {
    Toggle,
}

/// Bus channel of the left big LED.
pub const LEFT_LED_CHANNEL: u8 = 0x09;
/// Bus channel of the right big LED.
pub const RIGHT_LED_CHANNEL: u8 = 0x0A;
/// Level of a big LED that is on; off is 0.
pub const BIG_LED_ON: u8 = 0xFF;

/// One of the two big LEDs at the front, with the level last set on it.
#[derive(Clone, Copy, Debug, PartialEq, Eq, Structural)]
pub struct BigLed {
    pub channel: u8,
    pub value: u8,
}

impl BigLed {
    pub fn new(channel: u8, value: u8) -> (r: BigLed)
        ensures
            r == (BigLed { channel, value }),
    {
        BigLed { channel, value }
    }

    /// Both big LEDs, left first, off.
    pub fn all_leds() -> (r: [BigLed; 2])
        ensures
            r@ == seq![
                BigLed { channel: LEFT_LED_CHANNEL, value: 0 },
                BigLed { channel: RIGHT_LED_CHANNEL, value: 0 },
            ],
    {
        let r = [BigLed::new(LEFT_LED_CHANNEL, 0x00), BigLed::new(RIGHT_LED_CHANNEL, 0x00)];
        assert(r@ =~= seq![
            BigLed { channel: LEFT_LED_CHANNEL, value: 0 },
            BigLed { channel: RIGHT_LED_CHANNEL, value: 0 },
        ]);
        r
    }

    /// Records `value` as this LED's level and returns the bus write that sets it.
    pub fn set_value(&mut self, value: u8) -> (r: TwinCommand)
        ensures
            *final(self) == (BigLed { channel: old(self).channel, value }),
            r == (TwinCommand { channel: old(self).channel, value }),
    {
        self.value = value;
        TwinCommand::new(self.channel, value)
    }
}

/// The big-LED controller: one level, off or on, shared by both LEDs.
#[derive(Clone, Copy, Debug, PartialEq, Eq, Structural)]
pub struct BigLedController {
    level: u8,
}

impl BigLedController {
    /// The level both LEDs were last set to.
    pub closed spec fn level_spec(self) -> u8 {
        self.level
    }

    pub open spec fn wf(self) -> bool {
        self.level_spec() == 0 || self.level_spec() == BIG_LED_ON
    }

    /// Starts with both LEDs off.
    pub fn new() -> (r: BigLedController)
        ensures
            r.level_spec() == 0,
            r.wf(),
    {
        BigLedController { level: 0x00 }
    }

    pub fn level(&self) -> (r: u8)
        ensures
            r == self.level_spec(),
    {
        self.level
    }

    /// Flips the level and returns the writes that apply it to the left and
    /// then the right LED.
    pub fn handle(&mut self, cmd: BigLedCommand) -> (r: [TwinCommand; 2])
        requires
            old(self).wf(),
        ensures
            final(self).wf(),
            final(self).level_spec() == if old(self).level_spec() == 0 { BIG_LED_ON } else { 0 },
            r@ == seq![
                TwinCommand { channel: LEFT_LED_CHANNEL, value: final(self).level_spec() },
                TwinCommand { channel: RIGHT_LED_CHANNEL, value: final(self).level_spec() },
            ],
    {
        match cmd {
            BigLedCommand::Toggle => {
                self.level = if self.level == 0x00 { BIG_LED_ON } else { 0x00 };
            },
        }
        let leds = BigLed::all_leds();
        let mut left = leds[0];
        let mut right = leds[1];
        let r = [left.set_value(self.level), right.set_value(self.level)];
        assert(r@ =~= seq![
            TwinCommand { channel: LEFT_LED_CHANNEL, value: self.level },
            TwinCommand { channel: RIGHT_LED_CHANNEL, value: self.level },
        ]);
        r
    }
}

} // verus!
