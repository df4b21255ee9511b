//! Control core of a small robot: infrared (NEC) decoding, addressable-LED
//! bit-stream encoding, motor and LED translation into two-byte bus commands,
//! and the decision steps of the actors that drive them.

mod big_led;
mod bottom_led;
mod ir_remote_control;
mod motor;
mod servo;
mod twim;

pub use big_led::{
    BigLed, BigLedCommand, BigLedController, BIG_LED_ON, LEFT_LED_CHANNEL, RIGHT_LED_CHANNEL,
};
pub use bottom_led::{
    animation_next, code_of, color_bit, encoding, frame_words, lemma_encoding_layout, with_bit,
    BottomLed, BottomLedCommand, Color, LedAnimation, LedPosition, LedSide, CODES_PER_LED,
    FRAME_LEN, LED_COUNT, RES, T0H, T1H,
};
pub use ir_remote_control::{
    button_of, decode_nec, decode_spec, lemma_frame_leader, lemma_frame_round_trip,
    lemma_repeat_leader, lemma_short_is_no_signal, nec_command, nec_frame, pulse_ended,
    request_for, ControllerRequest, IrButton, IrButtonHandler, IrDecodeResult,
    IrRemoteController, PulseCapture, FRAME_QUIET_MS, NEC_FRAME_LEN, PULSE_TIMEOUT_US,
    SAMPLE_INTERVAL_US, TIMINGS_SIZE,
};
pub use motor::{
    channels_of, command_writes, intent_power, lemma_motor_channels_disjoint, lemma_stop_twice,
    lemma_turn_left_writes,
    power_writes, Motor, MotorCommand, MotorPosition, MotorPower, MotorSide, MOTOR_MAX_SPEED,
};
pub use servo::{
    duty_spec, lemma_sweep_cycle, sweep_next, ServoDirection, SERVO_DWELL_MS, SERVO_MAX_DUTY,
};
pub use twim::{bus_trace, lemma_bus_trace_units, TwinCommand, BUS_ADDRESS};
