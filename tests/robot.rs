use robot_core::{
    decode_nec, frame_words, pulse_ended, BigLed, BigLedCommand, BigLedController, BottomLed,
    Color, ControllerRequest, IrButton, IrDecodeResult, IrRemoteController, LedAnimation,
    LedPosition, LedSide, Motor, MotorCommand, MotorPosition, MotorPower, MotorSide,
    PulseCapture, ServoDirection, TwinCommand, RES, T0H, T1H, TIMINGS_SIZE,
};

fn nec_pulses(word: u32) -> Vec<u32> {
    let mut t = vec![9000, 4500];
    for j in 0..32 {
        t.push(560);
        t.push(if (word >> j) & 1 == 1 { 1690 } else { 560 });
    }
    t
}

fn nec_word(address: u8, command: u8) -> u32 {
    (address as u32) | ((!address as u32) << 8) | ((command as u32) << 16) | ((!command as u32) << 24)
}

fn writes(pairs: &[(u8, u8)]) -> Vec<TwinCommand> {
    pairs.iter().map(|&(c, v)| TwinCommand::new(c, v)).collect()
}

#[test]
fn decode_ok_button() {
    let t = nec_pulses(nec_word(0x00, 0x40));
    assert_eq!(t.len(), 66);
    assert_eq!(decode_nec(&t), IrDecodeResult::Button(IrButton::OkKey));
}

#[test]
fn decode_every_mapped_command() {
    let table = [
        (0x40, IrButton::OkKey),
        (0x44, IrButton::Left),
        (0x46, IrButton::Up),
        (0x43, IrButton::Right),
        (0x15, IrButton::Down),
        (0x16, IrButton::Num(1)),
        (0x19, IrButton::Num(2)),
        (0x0D, IrButton::Num(3)),
        (0x0C, IrButton::Num(4)),
        (0x18, IrButton::Num(5)),
        (0x5E, IrButton::Num(6)),
        (0x08, IrButton::Num(7)),
        (0x1C, IrButton::Num(8)),
        (0x5A, IrButton::Num(9)),
        (0x42, IrButton::Star),
        (0x52, IrButton::Num(0)),
        (0x4A, IrButton::Hash),
    ];
    for (cmd, button) in table {
        assert_eq!(IrButton::from_command(cmd), button);
        assert_eq!(decode_nec(&nec_pulses(nec_word(0x00, cmd))), IrDecodeResult::Button(button));
    }
    assert_eq!(IrButton::from_command(0x99), IrButton::Unknown(0x99));
    assert_eq!(
        decode_nec(&nec_pulses(nec_word(0x12, 0x99))),
        IrDecodeResult::Button(IrButton::Unknown(0x99))
    );
}

#[test]
fn decode_ignores_address_and_check_byte() {
    // Only bits 16 to 23 matter: a corrupted inverse byte is still accepted.
    let word = 0x0000_4600u32 | (0x46 << 16);
    assert_eq!(decode_nec(&nec_pulses(word)), IrDecodeResult::Button(IrButton::Up));
}

#[test]
fn decode_repeat_code() {
    let mut t = vec![9000, 2250];
    t.extend(std::iter::repeat(0).take(64));
    assert_eq!(decode_nec(&t), IrDecodeResult::Repeat);
}

#[test]
fn decode_repeat_leader_alone_is_too_short() {
    assert_eq!(decode_nec(&[9000, 2250]), IrDecodeResult::NoSignal);
}

#[test]
fn decode_short_sequences() {
    let t = nec_pulses(nec_word(0x00, 0x40));
    for n in 0..66 {
        assert_eq!(decode_nec(&t[..n]), IrDecodeResult::NoSignal);
    }
}

#[test]
fn decode_leader_windows_are_exclusive() {
    let mut t = nec_pulses(nec_word(0x00, 0x40));
    t[0] = 8000;
    assert_eq!(decode_nec(&t), IrDecodeResult::NoSignal);
    t[0] = 8001;
    assert_eq!(decode_nec(&t), IrDecodeResult::Button(IrButton::OkKey));
    t[1] = 5000;
    assert_eq!(decode_nec(&t), IrDecodeResult::NoSignal);
    t[1] = 2500;
    assert_eq!(decode_nec(&t), IrDecodeResult::NoSignal);
    t[1] = 2001;
    assert_eq!(decode_nec(&t), IrDecodeResult::Repeat);
}

#[test]
fn decode_bit_threshold() {
    let mut t = vec![9000, 4500];
    t.extend(std::iter::repeat(560).take(64));
    // data bit 16 is pulse 2 + 2 * 16 + 1
    t[35] = 1000;
    assert_eq!(decode_nec(&t), IrDecodeResult::Button(IrButton::Unknown(0)));
    t[35] = 1001;
    assert_eq!(decode_nec(&t), IrDecodeResult::Button(IrButton::Unknown(1)));
}

#[test]
fn encode_color_layout() {
    let c = Color::new(0x0F, 0xA5, 0x01);
    let mut buf = [0u16; 24];
    c.encode(&mut buf);
    let expected_bits: [u8; 24] = [
        1, 0, 1, 0, 0, 1, 0, 1, // green 0xA5
        0, 0, 0, 0, 1, 1, 1, 1, // red 0x0F
        0, 0, 0, 0, 0, 0, 0, 1, // blue 0x01
    ];
    for i in 0..24 {
        let want = if expected_bits[i] == 1 { T1H } else { T0H };
        assert_eq!(buf[i], want, "code {}", i);
    }
    assert_eq!(T1H, 0x800D);
    assert_eq!(T0H, 0x8007);
}

#[test]
fn encode_keeps_rest_of_buffer() {
    let mut buf = [0x1234u16; 30];
    Color::new(0xFF, 0x00, 0xFF).encode(&mut buf);
    assert!(buf[..8].iter().all(|&w| w == T0H));
    assert!(buf[8..16].iter().all(|&w| w == T1H));
    assert!(buf[16..24].iter().all(|&w| w == T1H));
    assert!(buf[24..].iter().all(|&w| w == 0x1234));
}

#[test]
fn frame_of_four_blue_leds() {
    let blue = Color::new(0, 0, 0xFF);
    let words = frame_words(&[blue; 4]);
    assert_eq!(words.len(), 97);
    for k in 0..4 {
        for i in 0..24 {
            let want = if i >= 16 { T1H } else { T0H };
            assert_eq!(words[24 * k + i], want);
        }
    }
    assert_eq!(words[96], RES);
}

#[test]
fn animation_walks_up_and_down() {
    let mut words = frame_words(&[Color::new(0, 0, 0xFF); 4]);
    let mut a = LedAnimation::new();
    let mut states = vec![];
    for _ in 0..10 {
        a.step(&mut words);
        states.push((a.color_bit, a.bit_value));
    }
    assert_eq!(
        states,
        vec![
            (17, T0H),
            (18, T0H),
            (19, T0H),
            (20, T0H),
            (20, T1H),
            (19, T1H),
            (18, T1H),
            (17, T1H),
            (16, T1H),
            (16, T0H),
        ]
    );
    let mut words = frame_words(&[Color::new(0, 0, 0xFF); 4]);
    let mut a = LedAnimation::new();
    a.step(&mut words);
    for k in 0..4 {
        assert_eq!(words[24 * k + 17], T0H);
        assert_eq!(words[24 * k + 18], T1H);
    }
    assert_eq!(words[96], RES);
}

#[test]
fn bottom_led_groups() {
    let all = BottomLed::all_leds();
    let order: Vec<(LedSide, LedPosition)> = all.iter().map(|l| (l.side, l.position)).collect();
    assert_eq!(
        order,
        vec![
            (LedSide::Left, LedPosition::Front),
            (LedSide::Right, LedPosition::Front),
            (LedSide::Left, LedPosition::Back),
            (LedSide::Right, LedPosition::Back),
        ]
    );
    assert!(all.iter().all(|l| l.color == Color::new(0, 0, 0)));
    assert_eq!(BottomLed::left_side_leds(), [all[0], all[2]]);
    assert_eq!(BottomLed::right_side_leds(), [all[1], all[3]]);
    assert_eq!(BottomLed::front_leds(), [all[0], all[1]]);
    assert_eq!(BottomLed::back_leds(), [all[2], all[3]]);
}

#[test]
fn turn_left_drives_left_back_and_right_forward() {
    assert_eq!(
        MotorCommand::Left.execute(),
        writes(&[(3, 255), (4, 0), (7, 255), (8, 0), (1, 0), (2, 255), (5, 0), (6, 255)])
    );
}

#[test]
fn turn_right_drives_left_forward_and_right_back() {
    assert_eq!(
        MotorCommand::Right.execute(),
        writes(&[(3, 0), (4, 255), (7, 0), (8, 255), (1, 255), (2, 0), (5, 255), (6, 0)])
    );
}

#[test]
fn backward_drives_all_back() {
    assert_eq!(
        MotorCommand::Backward.execute(),
        writes(&[(1, 255), (2, 0), (3, 255), (4, 0), (5, 255), (6, 0), (7, 255), (8, 0)])
    );
}

#[test]
fn stop_twice_gives_same_writes() {
    let first = MotorCommand::Stop.execute();
    let second = MotorCommand::Stop.execute();
    assert_eq!(first, second);
    assert_eq!(first, writes(&[(1, 0), (2, 0), (3, 0), (4, 0), (5, 0), (6, 0), (7, 0), (8, 0)]));
}

#[test]
fn up_button_drives_forward() {
    let mut controller = IrRemoteController::new();
    let result = decode_nec(&nec_pulses(nec_word(0x00, 0x46)));
    assert_eq!(result, IrDecodeResult::Button(IrButton::Up));
    controller.on_decoded(result);
    let request = controller.take_request();
    assert_eq!(request, Some(ControllerRequest::Motor(MotorCommand::Forward)));
    assert_eq!(controller.take_request(), None);
    let cmds = MotorCommand::Forward.execute();
    assert_eq!(cmds.len(), 8);
    for w in &cmds {
        let want = if w.channel() % 2 == 1 { 0 } else { 255 };
        assert_eq!(w.value(), want, "channel {}", w.channel());
    }
    let mut channels: Vec<u8> = cmds.iter().map(|w| w.channel()).collect();
    channels.sort();
    assert_eq!(channels, vec![1, 2, 3, 4, 5, 6, 7, 8]);
}

#[test]
fn dispatch_of_each_button() {
    let cases = [
        (IrButton::OkKey, Some(ControllerRequest::Motor(MotorCommand::Stop))),
        (IrButton::Left, Some(ControllerRequest::Motor(MotorCommand::Left))),
        (IrButton::Up, Some(ControllerRequest::Motor(MotorCommand::Forward))),
        (IrButton::Right, Some(ControllerRequest::Motor(MotorCommand::Right))),
        (IrButton::Down, Some(ControllerRequest::Motor(MotorCommand::Backward))),
        (IrButton::Star, Some(ControllerRequest::BigLed(BigLedCommand::Toggle))),
        (IrButton::Num(3), None),
        (IrButton::Hash, None),
        (IrButton::Unknown(0x77), None),
    ];
    for (button, want) in cases {
        let mut c = IrRemoteController::new();
        button.execute(&mut c);
        assert_eq!(c.take_request(), want);
    }
}

#[test]
fn repeat_and_no_signal_dispatch_nothing() {
    let mut c = IrRemoteController::new();
    c.on_decoded(IrDecodeResult::Repeat);
    assert_eq!(c.take_request(), None);
    c.on_decoded(IrDecodeResult::NoSignal);
    assert_eq!(c.take_request(), None);
}

#[test]
fn motor_channels_and_power() {
    let all = Motor::all_motors();
    let pairs: Vec<(u8, u8)> = all.iter().map(|m| m.channel()).collect();
    assert_eq!(pairs, vec![(1, 2), (3, 4), (5, 6), (7, 8)]);
    assert_eq!(Motor::left_side_motors()[0].channel(), (3, 4));
    assert_eq!(Motor::left_side_motors()[1].channel(), (7, 8));
    assert_eq!(Motor::right_side_motors()[0].channel(), (1, 2));
    assert_eq!(Motor::right_side_motors()[1].channel(), (5, 6));
    let mut m = Motor::new(MotorSide::Left, MotorPosition::Back, MotorPower::Stop);
    assert_eq!(m.set_power(MotorPower::Forward(100)), [TwinCommand::new(7, 0), TwinCommand::new(8, 100)]);
    assert_eq!(m.power(), MotorPower::Forward(100));
    assert_eq!(m.set_power(MotorPower::Backward(7)), [TwinCommand::new(7, 7), TwinCommand::new(8, 0)]);
    assert_eq!(m.set_power(MotorPower::Stop), [TwinCommand::new(7, 0), TwinCommand::new(8, 0)]);
}

#[test]
fn big_led_toggle() {
    let mut c = BigLedController::new();
    assert_eq!(c.level(), 0);
    assert_eq!(c.handle(BigLedCommand::Toggle), [TwinCommand::new(9, 0xFF), TwinCommand::new(10, 0xFF)]);
    assert_eq!(c.level(), 0xFF);
    assert_eq!(c.handle(BigLedCommand::Toggle), [TwinCommand::new(9, 0), TwinCommand::new(10, 0)]);
    assert_eq!(c.level(), 0);
    let leds = BigLed::all_leds();
    assert_eq!(leds, [BigLed::new(0x09, 0), BigLed::new(0x0A, 0)]);
    let mut l = leds[1];
    assert_eq!(l.set_value(0x42), TwinCommand::new(0x0A, 0x42));
    assert_eq!(l.value, 0x42);
}

#[test]
fn bus_payloads_are_whole_units_in_order() {
    let cmds = MotorCommand::Forward.execute();
    let mut bytes = vec![];
    for c in &cmds {
        bytes.extend_from_slice(&c.payload());
    }
    assert_eq!(bytes.len(), 16);
    for (i, c) in cmds.iter().enumerate() {
        assert_eq!(bytes[2 * i], c.channel());
        assert_eq!(bytes[2 * i + 1], c.value());
    }
    assert_eq!(TwinCommand::new(0x05, 0x80).payload(), [0x05, 0x80]);
}

#[test]
fn servo_duties() {
    assert_eq!(ServoDirection::Right.direction_to_duty(), 2431);
    assert_eq!(ServoDirection::RightFront.direction_to_duty(), 2375);
    assert_eq!(ServoDirection::Front.direction_to_duty(), 2312);
    assert_eq!(ServoDirection::LeftFront.direction_to_duty(), 2250);
    assert_eq!(ServoDirection::Left.direction_to_duty(), 2194);
}

#[test]
fn servo_sweep_order() {
    let mut d = ServoDirection::Left;
    let mut seen = vec![d];
    for _ in 0..5 {
        d = d.next();
        seen.push(d);
    }
    assert_eq!(
        seen,
        vec![
            ServoDirection::Left,
            ServoDirection::LeftFront,
            ServoDirection::Front,
            ServoDirection::RightFront,
            ServoDirection::Right,
            ServoDirection::Left,
        ]
    );
}

#[test]
fn pulse_capture_stops_on_timeout() {
    let mut cap = PulseCapture::new();
    assert!(cap.record(9000));
    assert!(cap.record(4500));
    assert!(!cap.record(18001));
    assert!(cap.is_done());
    assert_eq!(cap.timings(), &[9000, 4500]);
    assert!(!cap.record(500));
    assert_eq!(cap.timings(), &[9000, 4500]);
}

#[test]
fn pulse_capture_stops_when_full() {
    let mut cap = PulseCapture::new();
    for i in 0..TIMINGS_SIZE - 1 {
        assert!(cap.record(18000), "sample {}", i);
    }
    assert!(!cap.record(100));
    assert_eq!(cap.timings().len(), 120);
    assert_eq!(cap.timings()[119], 100);
}

#[test]
fn pulse_end_condition() {
    assert!(pulse_ended(true, 0));
    assert!(!pulse_ended(false, 18000));
    assert!(pulse_ended(false, 18001));
}

#[test]
fn decode_round_trip_every_command_byte() {
    for cmd in 0..=255u8 {
        for address in [0x00u8, 0x5A, 0xFF] {
            let word = nec_word(address, cmd);
            assert_eq!(
                decode_nec(&nec_pulses(word)),
                IrDecodeResult::Button(IrButton::from_command(cmd)),
                "command {:#04x}",
                cmd
            );
        }
    }
}

#[test]
fn decode_ignores_pulses_past_the_frame() {
    let mut t = nec_pulses(nec_word(0x00, 0x42));
    t.extend([560, 40000, 9000]);
    assert_eq!(decode_nec(&t), IrDecodeResult::Button(IrButton::Star));
}
