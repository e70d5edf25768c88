use aura_climate::builder::{
    build_connect_packet, build_info_request_packet, build_remote_temp_packet,
    build_settings_packet,
};
use aura_climate::checksum::{calculate_checksum, verify_checksum};
use aura_climate::parser::{Cn105Event, FrameParser, ParseError};
use aura_climate::temperature::{
    decode_msz_a24na_setpoint, decode_temperature, encode_msz_a24na_setpoint,
    encode_remote_temperature, encode_temperature_b,
};
use aura_climate::types::{
    FanSpeed, HeatpumpSettings, Mode, Power, SetpointRequest, Stage, SubMode, VanePosition,
    WantedSettings, WideVane,
};

/// A temperature in °C as the half steps the library takes.
fn half_steps(t: f32) -> i32 {
    (t * 2.0).round() as i32
}

fn setpoint(t: f32) -> SetpointRequest {
    SetpointRequest { half_steps: half_steps(t), whole_degrees: t.round() as i32 }
}

fn feed_all(parser: &mut FrameParser, bytes: &[u8]) -> Vec<Result<Option<Cn105Event>, ParseError>> {
    bytes.iter().map(|&b| parser.feed(b)).collect()
}

#[test]
fn test_connect_packet() {
    let p = build_connect_packet(false);
    assert!(verify_checksum(&p));
    assert_eq!(p[1], 0x5a);

    let p_inst = build_connect_packet(true);
    assert!(verify_checksum(&p_inst));
    assert_eq!(p_inst[1], 0x5b);
}

#[test]
fn test_info_request_packet() {
    let p = build_info_request_packet(0x02);
    assert!(verify_checksum(&p));
    assert_eq!(p[0], 0xfc);
    assert_eq!(p[1], 0x42);
    assert_eq!(p[5], 0x02);
}

#[test]
fn test_remote_temp_packet() {
    let p = build_remote_temp_packet(Some(half_steps(22.5)));
    assert!(verify_checksum(&p));
    assert_eq!(p[5], 0x07);
    assert_eq!(p[6], 0x01);
}

#[test]
fn test_settings_packet() {
    let wanted = WantedSettings {
        power: Some(Power::On),
        mode: Some(Mode::Cool),
        temperature: Some(setpoint(23.0)),
        fan_speed: Some(FanSpeed::Speed3),
        vane: Some(VanePosition::Auto),
        wide_vane: Some(WideVane::Center),
    };
    let p = build_settings_packet(&wanted);
    assert!(verify_checksum(&p));
    assert_eq!(p[8], 0x01); // Power On
    assert_eq!(p[9], 0x03); // Mode Cool
    assert_eq!(p[11], 0x05); // Fan Speed 3
}

#[test]
fn test_connect_packet_checksum() {
    // Standard connect packet: 0xfc, 0x5a, 0x01, 0x30, 0x02, 0xca, 0x01, 0xa8
    let connect = [0xfc, 0x5a, 0x01, 0x30, 0x02, 0xca, 0x01, 0xa8];
    assert!(verify_checksum(&connect));
    assert_eq!(calculate_checksum(&connect[..7]), 0xa8);
}

#[test]
fn test_arbitrary_checksum() {
    let dummy = [0xfc, 0x41, 0x01, 0x30, 0x10];
    let c = calculate_checksum(&dummy);
    let mut full = dummy.to_vec();
    full.push(c);
    assert!(verify_checksum(&full));
}

#[test]
fn test_stream_parser_status_packet() {
    // Real packet from heatpump:
    // FC 62 01 30 10 06 00 00 1A 01 00 00 00 00 00 00 00 00 00 00 00 3C
    let raw_packet = [
        0xFC, 0x62, 0x01, 0x30, 0x10, 0x06, 0x00, 0x00, 0x1A, 0x01, 0x00, 0x00, 0x00, 0x00,
        0x00, 0x00, 0x00, 0x00, 0x00, 0x00, 0x00, 0x3C,
    ];

    let mut parser = FrameParser::new();

    // Feed garbage bytes before packet
    assert_eq!(parser.feed(0x00).unwrap(), None);
    assert_eq!(parser.feed(0xFF).unwrap(), None);
    assert_eq!(parser.feed(0xAA).unwrap(), None);

    // Feed packet bytes
    let mut last_event = None;
    for &b in &raw_packet {
        if let Some(event) = parser.feed(b).unwrap() {
            last_event = Some(event);
        }
    }

    assert_eq!(
        last_event,
        Some(Cn105Event::Status {
            operating: true,
            compressor_frequency: 0x1A, // 26 Hz
            input_power_w: Some(0),
            kwh_tenths: Some(0),
        })
    );
}

#[test]
fn test_stream_parser_update_success() {
    // 0x61 ACK packet: FC 61 01 30 00 chk
    // len = 0, total bytes = 5 + 0 + 1 = 6
    let mut packet = vec![0xFC, 0x61, 0x01, 0x30, 0x00];
    let chk = calculate_checksum(&packet);
    packet.push(chk);

    let mut parser = FrameParser::new();
    let mut last_event = None;
    for &b in &packet {
        if let Some(ev) = parser.feed(b).unwrap() {
            last_event = Some(ev);
        }
    }

    assert_eq!(last_event, Some(Cn105Event::UpdateSuccess));
}

#[test]
fn test_temperature_encoding_decoding() {
    let temp = 22.5f32;
    let enc_b = encode_temperature_b(half_steps(temp));
    assert_eq!(enc_b, 173); // 22.5 * 2 + 128 = 45 + 128 = 173
    let decoded = decode_temperature(0, enc_b, 10);
    assert_eq!(decoded as f32 / 2.0, 22.5);
}

#[test]
fn test_remote_temperature_encoding() {
    let (a, b) = encode_remote_temperature(half_steps(21.0));
    // 21.0 * 2 = 42
    // a = 42 - 16 = 26
    // b = 42 + 128 = 170
    assert_eq!(a, 26);
    assert_eq!(b, 170);
}

#[test]
fn connect_packet_exact_bytes() {
    assert_eq!(build_connect_packet(false), [0xfc, 0x5a, 0x01, 0x30, 0x02, 0xca, 0x01, 0xa8]);
    assert_eq!(build_connect_packet(true), [0xfc, 0x5b, 0x01, 0x30, 0x02, 0xca, 0x01, 0xa7]);
}

#[test]
fn checksum_formula_and_rejections() {
    // 0xFC - (0xfc + 0x41) mod 256
    assert_eq!(calculate_checksum(&[0xfc, 0x41]), 0xbf);
    assert_eq!(calculate_checksum(&[]), 0xfc);
    assert!(!verify_checksum(&[0xfc]));
    assert!(!verify_checksum(&[]));
    assert!(!verify_checksum(&[0xfc, 0x5a, 0x01, 0x30, 0x02, 0xca, 0x01, 0xa9]));
}

#[test]
fn remote_temp_packet_clear_and_clamp() {
    let p = build_remote_temp_packet(None);
    assert!(verify_checksum(&p));
    assert_eq!(p[6], 0x00);
    assert_eq!(p[7], 0x00);
    assert_eq!(p[8], 0x80);
    // 40 °C clamps to 35 °C: half steps 70
    let p = build_remote_temp_packet(Some(half_steps(40.0)));
    assert_eq!(p[7], 54);
    assert_eq!(p[8], 198);
}

#[test]
fn settings_packet_fields_and_flags() {
    let wanted = WantedSettings {
        power: Some(Power::On),
        mode: Some(Mode::Cool),
        temperature: Some(setpoint(23.0)),
        fan_speed: Some(FanSpeed::Speed3),
        vane: Some(VanePosition::Auto),
        wide_vane: Some(WideVane::Center),
    };
    let p = build_settings_packet(&wanted);
    assert_eq!(&p[..6], &[0xfc, 0x41, 0x01, 0x30, 0x10, 0x01]);
    assert_eq!(p[6], 0x1f);
    assert_eq!(p[7], 0x01);
    assert_eq!(p[10], 31 - 23);
    assert_eq!(p[12], 0x00);
    assert_eq!(p[18], 0x03);
    assert_eq!(p[19], 46 + 128);

    let only_fan = WantedSettings { fan_speed: Some(FanSpeed::Quiet), ..Default::default() };
    let p = build_settings_packet(&only_fan);
    assert_eq!(p[6], 0x08);
    assert_eq!(p[7], 0x00);
    assert_eq!(p[11], 0x01);
    assert_eq!(p[19], 0x00);

    // 35 °C is outside the legacy index range and clamps to 31.5 °C.
    let hot = WantedSettings { temperature: Some(setpoint(35.0)), ..Default::default() };
    let p = build_settings_packet(&hot);
    assert_eq!(p[10], 0);
    assert_eq!(p[19], 191);
}

#[test]
fn byte_codes_round_trip() {
    for p in [Power::Off, Power::On] {
        assert_eq!(Power::from_byte(p.to_byte()), Some(p));
    }
    for m in [Mode::Heat, Mode::Dry, Mode::Cool, Mode::Fan, Mode::Auto] {
        assert_eq!(Mode::from_byte(m.to_byte()), Some(m));
    }
    assert_eq!(Mode::from_byte(0x04), None);
    assert_eq!(FanSpeed::from_byte(0x04), None);
    assert_eq!(FanSpeed::from_byte(0x06), Some(FanSpeed::Speed4));
    assert_eq!(VanePosition::from_byte(0x07), Some(VanePosition::Swing));
    assert_eq!(VanePosition::from_byte(0x06), None);
    // Only the low nibble counts for the wide vane.
    assert_eq!(WideVane::from_byte(0x83), Some(WideVane::Center));
    assert_eq!(WideVane::from_byte(0x0C), Some(WideVane::Swing));
    assert_eq!(WideVane::from_byte(0x06), None);
    assert_eq!(SubMode::from_byte(0x10), Some(SubMode::Off));
    assert_eq!(SubMode::from_byte(0x03), None);
    assert_eq!(Stage::from_byte(0x06), Some(Stage::Diffuse));
    assert_eq!(Stage::from_byte(0x07), None);
}

#[test]
fn temperature_encodings() {
    assert_eq!(decode_temperature(12, 0, 10), 44); // 22 °C in half degrees
    assert_eq!(decode_temperature(0, 173, 10), 45);
    assert_eq!(encode_temperature_b(half_steps(5.0)), 148);
    assert_eq!(encode_temperature_b(half_steps(40.0)), 191);
    // MSZ-A24NA: 22.5 °C is 13 half steps above 16 °C
    let b = encode_msz_a24na_setpoint(half_steps(22.5));
    assert_eq!(b, 0x19);
    assert_eq!(decode_msz_a24na_setpoint(b), 45);
    assert_eq!(decode_msz_a24na_setpoint(encode_msz_a24na_setpoint(half_steps(10.0))), 32);
}

#[test]
fn parser_decodes_settings_frame() {
    // Settings reply: power on, heat with i-see, Encoding B 22.5 °C, fan speed 2,
    // vane swing, wide vane center, 45 % humidity.
    let mut frame = vec![0xFC, 0x62, 0x01, 0x30, 0x10];
    let payload = [
        0x02, 0x00, 0x00, 0x01, 0x09, 0x0C, 0x03, 0x07, 0x00, 0x00, 0x03, 0xAD, 45, 0x00, 0x00,
        0x00,
    ];
    frame.extend_from_slice(&payload);
    let chk = calculate_checksum(&frame);
    frame.push(chk);
    let mut parser = FrameParser::new();
    let results = feed_all(&mut parser, &frame);
    assert!(results[..results.len() - 1].iter().all(|r| *r == Ok(None)));
    assert_eq!(
        results[results.len() - 1],
        Ok(Some(Cn105Event::Settings(HeatpumpSettings {
            power: Some(Power::On),
            mode: Some(Mode::Heat),
            target_temperature: Some(45),
            fan_speed: Some(FanSpeed::Speed2),
            vane: Some(VanePosition::Swing),
            wide_vane: Some(WideVane::Center),
            isee: true,
            target_humidity: Some(45),
            connected: true,
        })))
    );
}

#[test]
fn parser_reports_checksum_mismatch_and_recovers() {
    let mut frame = vec![0xFC, 0x61, 0x01, 0x30, 0x00];
    let good = calculate_checksum(&frame);
    frame.push(good.wrapping_add(1));
    let mut parser = FrameParser::new();
    let results = feed_all(&mut parser, &frame);
    assert_eq!(
        results[5],
        Err(ParseError::ChecksumMismatch { expected: good, actual: good.wrapping_add(1) })
    );
    // The parser hunts for the next frame afterwards.
    let mut ok = vec![0xFC, 0x7B, 0x01, 0x30, 0x00];
    ok.push(calculate_checksum(&ok));
    let results = feed_all(&mut parser, &ok);
    assert_eq!(results[5], Ok(Some(Cn105Event::Connected { installer: true })));
}

#[test]
fn parser_rejects_oversized_header() {
    let mut parser = FrameParser::new();
    let results = feed_all(&mut parser, &[0xFC, 0x62, 0x01, 0x30, 59]);
    assert_eq!(results[4], Err(ParseError::BufferOverflow));
    // 58 bytes of payload still fit.
    let results = feed_all(&mut parser, &[0xFC, 0x62, 0x01, 0x30, 58]);
    assert_eq!(results[4], Ok(None));
}

#[test]
fn decode_frame_other_replies() {
    assert_eq!(
        FrameParser::decode_frame(0x62, &[0x03, 0, 0, 12, 0, 0x9C, 0, 0, 0, 0, 0, 0x00, 0x01, 0x2C]),
        Cn105Event::RoomTemperature {
            room_temp: 44,
            outside_temp: Some(28),
            runtime_minutes: Some(300),
        }
    );
    assert_eq!(
        FrameParser::decode_frame(0x62, &[0x06, 0, 0, 40, 0, 0x01, 0x9A, 0x00, 0x1F]),
        Cn105Event::Status {
            operating: false,
            compressor_frequency: 0,
            input_power_w: Some(410),
            kwh_tenths: Some(31),
        }
    );
    assert_eq!(
        FrameParser::decode_frame(0x62, &[0x04, 0, 0, 0, 0x85, 0x02]),
        Cn105Event::ErrorInfo { error_code: 5, sub_code: 2, is_error: true }
    );
    assert_eq!(
        FrameParser::decode_frame(0x62, &[0x09, 0, 0, 0x02, 0x05]),
        Cn105Event::StagesAndModes { stage: Some(Stage::High), sub_mode: Some(SubMode::Defrost) }
    );
    assert_eq!(
        FrameParser::decode_frame(0x62, &[0x05, 1, 2]),
        Cn105Event::Raw { command: 0x62, payload: vec![0x05, 1, 2] }
    );
    assert_eq!(FrameParser::decode_frame(0x62, &[]), Cn105Event::Raw { command: 0x62, payload: vec![] });
    assert_eq!(
        FrameParser::decode_frame(0x42, &[9]),
        Cn105Event::Raw { command: 0x42, payload: vec![9] }
    );
}

#[test]
fn built_frames_parse_whole() {
    let mut parser = FrameParser::new();
    let info = build_info_request_packet(0x03);
    let results = feed_all(&mut parser, &info);
    assert!(results[..21].iter().all(|r| *r == Ok(None)));
    assert_eq!(
        results[21],
        Ok(Some(Cn105Event::Raw { command: 0x42, payload: info[5..21].to_vec() }))
    );
    let connect = build_connect_packet(true);
    let results = feed_all(&mut parser, &connect);
    assert_eq!(
        results[7],
        Ok(Some(Cn105Event::Raw { command: 0x5b, payload: vec![0xca, 0x01] }))
    );
}
