use vstd::prelude::*;

verus! {

/// Duty code of a one bit: polarity flag 0x8000 with 13 of 20 ticks high.
pub const T1H: u16 = 0x800D;
/// Duty code of a zero bit: polarity flag 0x8000 with 7 of 20 ticks high.
pub const T0H: u16 = 0x8007;
/// Reset code that ends a transmission.
pub const RES: u16 = 0x8000;
/// Duty codes per LED: eight bits each of green, red and blue.
pub const CODES_PER_LED: usize = 24;
/// Number of LEDs on the line.
pub const LED_COUNT: usize = 4;

/// An intent for the bottom-LED actor. Not yet acted on: the actor runs its
/// self-test animation.
#[derive(Clone, Copy, Debug)]
pub enum BottomLedCommand {
    AllOff,
    AllOn,
    SetColor(usize, Color),
    SetAllColors([Color; 4]),
    Toggle(usize),
    Pattern([Color; 4]),
}

#[derive(Clone, Copy, Debug, PartialEq, Eq, Structural)]
pub enum LedSide {
    Left,
    Right,
}

#[derive(Clone, Copy, Debug, PartialEq, Eq, Structural)]
pub enum LedPosition {
    Front,
    Back,
}

/// A color, stored in the green-red-blue order the LEDs expect.
#[derive(Clone, Copy, Debug, PartialEq, Eq, Structural)]
pub struct Color {
    pub g: u8,
    pub r: u8,
    pub b: u8,
}

/// The byte that code `i` of an LED is taken from: green, then red, then blue.
pub open spec fn color_byte(c: Color, i: int) -> u8 {
    if i < 8 {
        c.g
    } else if i < 16 {
        c.r
    } else {
        c.b
    }
}

/// The logical bit that code `i` carries: bit `7 - i % 8` of its byte,
/// so each byte goes most significant bit first.
pub open spec fn color_bit(c: Color, i: int) -> bool {
    (color_byte(c, i) >> ((7 - i % 8) as u8)) & 1 == 1
}

pub open spec fn code_of(bit: bool) -> u16 {
    if bit {
        T1H
    } else {
        T0H
    }
}

/// The duty codes for one LED showing `c`.
pub open spec fn encoding(c: Color) -> Seq<u16> {
    Seq::new(CODES_PER_LED as nat, |i: int| code_of(color_bit(c, i)))
}

impl Color {
    pub fn new(r: u8, g: u8, b: u8) -> (c: Color)
        ensures
            c.r == r,
            c.g == g,
            c.b == b,
    {
        Color { g, r, b }
    }

    /// Writes the 24 duty codes for this color at the start of `buf`,
    /// leaving the rest of `buf` as it was.
    pub fn encode(&self, buf: &mut [u16])
        requires
            old(buf)@.len() >= CODES_PER_LED,
        ensures
            final(buf)@.len() == old(buf)@.len(),
            final(buf)@.subrange(0, CODES_PER_LED as int) == encoding(*self),
            final(buf)@.subrange(CODES_PER_LED as int, old(buf)@.len() as int)
                == old(buf)@.subrange(CODES_PER_LED as int, old(buf)@.len() as int),
    {
        let bytes: [u8; 3] = [self.g, self.r, self.b];
        let mut i: usize = 0;
        while i < 3
            invariant
                i <= 3,
                bytes@ == seq![self.g, self.r, self.b],
                old(buf)@.len() >= CODES_PER_LED,
                buf@.len() == old(buf)@.len(),
                forall|p: int| 0 <= p < 8 * i ==> #[trigger] buf@[p] == code_of(color_bit(*self, p)),
                forall|p: int| 8 * i <= p < buf@.len() ==> #[trigger] buf@[p] == old(buf)@[p],
            decreases 3 - i,
        {
            let byte = bytes[i];
            let mut bit: usize = 0;
            while bit < 8
                invariant
                    i < 3,
                    bit <= 8,
                    byte == bytes@[i as int],
                    old(buf)@.len() >= CODES_PER_LED,
                    bytes@ == seq![self.g, self.r, self.b],
                    buf@.len() == old(buf)@.len(),
                    forall|p: int| 0 <= p < 8 * i + bit ==> #[trigger] buf@[p] == code_of(color_bit(*self, p)),
                    forall|p: int| 8 * i + bit <= p < buf@.len() ==> #[trigger] buf@[p] == old(buf)@[p],
                decreases 8 - bit,
            {
                let s: u8 = bit as u8;
                proof {
                    assert(((byte << s) & 0x80u8 != 0u8) == ((byte >> ((7 - s) as u8)) & 1u8 == 1u8))
                        by (bit_vector)
                        requires
                            s < 8,
                    ;
                    assert((8 * i + bit) % 8 == bit as int);
                    assert(byte == color_byte(*self, 8 * i + bit));
                }
                buf[i * 8 + bit] = if (byte << s) & 0x80 != 0 { T1H } else { T0H };
                bit = bit + 1;
            }
            i = i + 1;
        }
        assert(buf@.subrange(0, CODES_PER_LED as int) =~= encoding(*self));
        assert(buf@.subrange(CODES_PER_LED as int, old(buf)@.len() as int)
            =~= old(buf)@.subrange(CODES_PER_LED as int, old(buf)@.len() as int));
    }
}

/// One of the four addressable LEDs under the robot.
#[derive(Clone, Copy, Debug, PartialEq, Eq, Structural)]
pub struct BottomLed {
    pub side: LedSide,
    pub position: LedPosition,
    pub color: Color,
}

pub open spec fn dark_led(side: LedSide, position: LedPosition) -> BottomLed {
    BottomLed { side, position, color: Color { g: 0, r: 0, b: 0 } }
}

impl BottomLed {
    pub fn new(side: LedSide, position: LedPosition, color: Color) -> (r: BottomLed)
        ensures
            r == (BottomLed { side, position, color }),
    {
        BottomLed { side, position, color }
    }

    fn dark(side: LedSide, position: LedPosition) -> (r: BottomLed)
        ensures
            r == dark_led(side, position),
    {
        BottomLed::new(side, position, Color::new(0, 0, 0))
    }

    /// The four LEDs in the order they sit on the data line.
    pub fn all_leds() -> (r: [BottomLed; 4])
        ensures
            r@ == seq![
                dark_led(LedSide::Left, LedPosition::Front),
                dark_led(LedSide::Right, LedPosition::Front),
                dark_led(LedSide::Left, LedPosition::Back),
                dark_led(LedSide::Right, LedPosition::Back),
            ],
    {
        let r = [
            BottomLed::dark(LedSide::Left, LedPosition::Front),
            BottomLed::dark(LedSide::Right, LedPosition::Front),
            BottomLed::dark(LedSide::Left, LedPosition::Back),
            BottomLed::dark(LedSide::Right, LedPosition::Back),
        ];
        assert(r@ =~= seq![
            dark_led(LedSide::Left, LedPosition::Front),
            dark_led(LedSide::Right, LedPosition::Front),
            dark_led(LedSide::Left, LedPosition::Back),
            dark_led(LedSide::Right, LedPosition::Back),
        ]);
        r
    }

    pub fn left_side_leds() -> (r: [BottomLed; 2])
        ensures
            r@ == seq![dark_led(LedSide::Left, LedPosition::Front), dark_led(LedSide::Left, LedPosition::Back)],
    {
        let r = [BottomLed::dark(LedSide::Left, LedPosition::Front), BottomLed::dark(LedSide::Left, LedPosition::Back)];
        assert(r@ =~= seq![dark_led(LedSide::Left, LedPosition::Front), dark_led(LedSide::Left, LedPosition::Back)]);
        r
    }

    pub fn right_side_leds() -> (r: [BottomLed; 2])
        ensures
            r@ == seq![dark_led(LedSide::Right, LedPosition::Front), dark_led(LedSide::Right, LedPosition::Back)],
    {
        let r = [BottomLed::dark(LedSide::Right, LedPosition::Front), BottomLed::dark(LedSide::Right, LedPosition::Back)];
        assert(r@ =~= seq![dark_led(LedSide::Right, LedPosition::Front), dark_led(LedSide::Right, LedPosition::Back)]);
        r
    }

    pub fn front_leds() -> (r: [BottomLed; 2])
        ensures
            r@ == seq![dark_led(LedSide::Left, LedPosition::Front), dark_led(LedSide::Right, LedPosition::Front)],
    {
        let r = [BottomLed::dark(LedSide::Left, LedPosition::Front), BottomLed::dark(LedSide::Right, LedPosition::Front)];
        assert(r@ =~= seq![dark_led(LedSide::Left, LedPosition::Front), dark_led(LedSide::Right, LedPosition::Front)]);
        r
    }

    pub fn back_leds() -> (r: [BottomLed; 2])
        ensures
            r@ == seq![dark_led(LedSide::Left, LedPosition::Back), dark_led(LedSide::Right, LedPosition::Back)],
    {
        let r = [BottomLed::dark(LedSide::Left, LedPosition::Back), BottomLed::dark(LedSide::Right, LedPosition::Back)];
        assert(r@ =~= seq![dark_led(LedSide::Left, LedPosition::Back), dark_led(LedSide::Right, LedPosition::Back)]);
        r
    }
}

/// Length of a full transmission: the codes of every LED and a reset code.
pub const FRAME_LEN: usize = 97;

/// The duty codes that show `colors` on the four LEDs, in line order,
/// followed by the reset code.
pub fn frame_words(colors: &[Color; 4]) -> (r: Vec<u16>)
    ensures
        r@.len() == FRAME_LEN,
        forall|k: int| 0 <= k < 4 ==> #[trigger] r@.subrange(24 * k, 24 * k + 24) == encoding(colors@[k]),
        r@[96] == RES,
{
    let mut out: Vec<u16> = Vec::new();
    let mut k: usize = 0;
    while k < LED_COUNT
        invariant
            k <= 4,
            out@.len() == 24 * k,
            forall|q: int| 0 <= q < k ==> #[trigger] out@.subrange(24 * q, 24 * q + 24) == encoding(colors@[q]),
        decreases 4 - k,
    {
        let mut codes: [u16; 24] = [RES; 24];
        colors[k].encode(&mut codes);
        assert(codes@.subrange(0, 24) =~= codes@);
        let ghost before = out@;
        let mut p: usize = 0;
        while p < CODES_PER_LED
            invariant
                k < 4,
                p <= 24,
                before.len() == 24 * k,
                codes@ == encoding(colors@[k as int]),
                out@ == before + codes@.subrange(0, p as int),
            decreases 24 - p,
        {
            out.push(codes[p]);
            assert(codes@.subrange(0, p + 1) =~= codes@.subrange(0, p as int).push(codes@[p as int]));
            p = p + 1;
        }
        assert forall|q: int| 0 <= q < k + 1 implies #[trigger] out@.subrange(24 * q, 24 * q + 24)
            == encoding(colors@[q]) by {
            if q < k {
                assert(out@.subrange(24 * q, 24 * q + 24) =~= before.subrange(24 * q, 24 * q + 24));
            } else {
                assert(out@.subrange(24 * q, 24 * q + 24) =~= codes@);
            }
        }
        k = k + 1;
    }
    let ghost body = out@;
    out.push(RES);
    assert forall|q: int| 0 <= q < 4 implies #[trigger] out@.subrange(24 * q, 24 * q + 24)
        == encoding(colors@[q]) by {
        assert(out@.subrange(24 * q, 24 * q + 24) =~= body.subrange(24 * q, 24 * q + 24));
    }
    out
}

/// The self-test animation of the bottom LEDs: one bit position of blue,
/// between codes 16 and 20 of every LED, walks up setting zero bits and
/// back down setting one bits.
#[derive(Clone, Copy, Debug, PartialEq, Eq, Structural)]
pub struct LedAnimation {
    pub color_bit: usize,
    pub bit_value: u16,
}

/// The state after one animation step.
pub open spec fn animation_next(s: LedAnimation) -> LedAnimation {
    if s.bit_value == T0H {
        if s.color_bit == 20 {
            LedAnimation { color_bit: 20, bit_value: T1H }
        } else {
            LedAnimation { color_bit: (s.color_bit + 1) as usize, bit_value: T0H }
        }
    } else {
        if s.color_bit == 16 {
            LedAnimation { color_bit: 16, bit_value: T0H }
        } else {
            LedAnimation { color_bit: (s.color_bit - 1) as usize, bit_value: T1H }
        }
    }
}

/// `words` with the code at `bit` of every LED set to `value`.
pub open spec fn with_bit(words: Seq<u16>, bit: int, value: u16) -> Seq<u16> {
    Seq::new(words.len(), |p: int| if p < 96 && p % 24 == bit { value } else { words[p] })
}

impl LedAnimation {
    pub open spec fn wf(self) -> bool {
        &&& 16 <= self.color_bit <= 20
        &&& self.bit_value == T0H || self.bit_value == T1H
    }

    /// The animation's first state, on the frame of four blue LEDs.
    pub fn new() -> (r: LedAnimation)
        ensures
            r == (LedAnimation { color_bit: 16, bit_value: T0H }),
            r.wf(),
    {
        LedAnimation { color_bit: 16, bit_value: T0H }
    }

    /// Moves to the next state and writes its code into `words`, the frame
    /// shown on the line, at the same bit of every LED.
    pub fn step(&mut self, words: &mut [u16])
        requires
            old(self).wf(),
            old(words)@.len() >= 96,
        ensures
            *final(self) == animation_next(*old(self)),
            final(self).wf(),
            final(words)@ == with_bit(old(words)@, final(self).color_bit as int, final(self).bit_value),
    {
        if self.bit_value == T0H {
            if self.color_bit == 20 {
                self.bit_value = T1H;
            } else {
                self.color_bit = self.color_bit + 1;
            }
        } else {
            if self.color_bit == 16 {
                self.bit_value = T0H;
            } else {
                self.color_bit = self.color_bit - 1;
            }
        }
        let mut i: usize = 0;
        while i < LED_COUNT
            invariant
                i <= 4,
                16 <= self.color_bit <= 20,
                words@.len() == old(words)@.len(),
                old(words)@.len() >= 96,
                forall|p: int| 0 <= p < words@.len() ==> #[trigger] words@[p] == if p < 24 * i && p % 24 == self.color_bit {
                    self.bit_value
                } else {
                    old(words)@[p]
                },
            decreases 4 - i,
        {
            words[self.color_bit + i * 24] = self.bit_value;
            i = i + 1;
        }
        assert(words@ =~= with_bit(old(words)@, self.color_bit as int, self.bit_value));
    }
}

/// The encoding of a color is 24 codes, each the one-code or the zero-code;
/// codes 0 to 7 carry the bits of green, 8 to 15 those of red and 16 to 23
/// those of blue, most significant first, so each code depends on one bit
/// of one byte only.
pub proof fn lemma_encoding_layout(c: Color, d: Color)
    ensures
        encoding(c).len() == 24,
        T1H != T0H,
        forall|i: int| 0 <= i < 24 ==> #[trigger] encoding(c)[i] == T1H || encoding(c)[i] == T0H,
        forall|i: int| 0 <= i < 8 ==> #[trigger] encoding(c)[i] == code_of((c.g >> ((7 - i) as u8)) & 1 == 1),
        forall|i: int| 8 <= i < 16 ==> #[trigger] encoding(c)[i] == code_of((c.r >> ((15 - i) as u8)) & 1 == 1),
        forall|i: int| 16 <= i < 24 ==> #[trigger] encoding(c)[i] == code_of((c.b >> ((23 - i) as u8)) & 1 == 1),
        forall|i: int|
            0 <= i < 8 && (c.g >> ((7 - i) as u8)) & 1 == (d.g >> ((7 - i) as u8)) & 1
                ==> #[trigger] encoding(c)[i] == encoding(d)[i],
        forall|i: int|
            8 <= i < 16 && (c.r >> ((15 - i) as u8)) & 1 == (d.r >> ((15 - i) as u8)) & 1
                ==> #[trigger] encoding(c)[i] == encoding(d)[i],
        forall|i: int|
            16 <= i < 24 && (c.b >> ((23 - i) as u8)) & 1 == (d.b >> ((23 - i) as u8)) & 1
                ==> #[trigger] encoding(c)[i] == encoding(d)[i],
{
    assert forall|i: int| 8 <= i < 16 implies #[trigger] encoding(c)[i] == code_of(
        (c.r >> ((15 - i) as u8)) & 1 == 1,
    ) by {
        assert(i % 8 == i - 8);
    }
    assert forall|i: int| 16 <= i < 24 implies #[trigger] encoding(c)[i] == code_of(
        (c.b >> ((23 - i) as u8)) & 1 == 1,
    ) by {
        assert(i % 8 == i - 16);
    }
    assert forall|i: int| 8 <= i < 16 implies #[trigger] encoding(d)[i] == code_of(
        (d.r >> ((15 - i) as u8)) & 1 == 1,
    ) by {
        assert(i % 8 == i - 8);
    }
    assert forall|i: int| 16 <= i < 24 implies #[trigger] encoding(d)[i] == code_of(
        (d.b >> ((23 - i) as u8)) & 1 == 1,
    ) by {
        assert(i % 8 == i - 16);
    }
}

} // verus!
