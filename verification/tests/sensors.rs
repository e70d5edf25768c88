use aura_climate::ld2410::{Ld2410Parser, TargetType};
use aura_climate::shtc3::{check_crc, parse_shtc3_data, RawReading, Shtc3Error};

fn crc8(bytes: &[u8]) -> u8 {
    let mut crc: u8 = 0xFF;
    for &b in bytes {
        crc ^= b;
        for _ in 0..8 {
            crc = if (crc & 0x80) != 0 { (crc << 1) ^ 0x31 } else { crc << 1 };
        }
    }
    crc
}

fn temperature_celsius(r: &RawReading) -> f32 {
    let t = -45.0 + (175.0 * r.raw_temperature as f32 / 65535.0);
    (t * 10.0).round() / 10.0
}

fn humidity_percent(r: &RawReading) -> f32 {
    let h = (100.0 * r.raw_humidity as f32 / 65535.0).clamp(0.0, 100.0);
    (h * 10.0).round() / 10.0
}

#[test]
fn test_ld2410_stationary_presence() {
    let mut parser = Ld2410Parser::new();

    let raw = [
        0xF4, 0xF3, 0xF2, 0xF1,
        0x0B, 0x00,
        0x02,
        0x02, // stationary target
        0x00, 0x00,
        0x00,
        0xC8, 0x00, // 200 cm
        0x55,       // energy 85
        0xC8, 0x00,
        0xF8, 0xF7, 0xF6, 0xF5,
    ];

    let res = parser.push_bytes(&raw).expect("frame decodes");
    assert!(res.presence_detected);
    assert_eq!(res.target_type, TargetType::StationaryTarget);
    assert_eq!(res.stationary_distance_cm, 200);
    assert_eq!(res.stationary_energy, 85);
}

#[test]
fn test_crc_and_parsing() {
    // Raw data for T=21.5 °C, RH=45.0 %: raw_temp ~ 24907 (0x614B), raw_hum ~ 29491 (0x7333)
    let t_bytes = [0x61, 0x4B];
    let mut crc_t: u8 = 0xFF;
    for &b in &t_bytes {
        crc_t ^= b;
        for _ in 0..8 {
            crc_t = if (crc_t & 0x80) != 0 { (crc_t << 1) ^ 0x31 } else { crc_t << 1 };
        }
    }

    let rh_bytes = [0x73, 0x33];
    let mut crc_rh: u8 = 0xFF;
    for &b in &rh_bytes {
        crc_rh ^= b;
        for _ in 0..8 {
            crc_rh = if (crc_rh & 0x80) != 0 { (crc_rh << 1) ^ 0x31 } else { crc_rh << 1 };
        }
    }

    let packet = [t_bytes[0], t_bytes[1], crc_t, rh_bytes[0], rh_bytes[1], crc_rh];
    let reading = parse_shtc3_data(&packet).expect("parsing succeeds");

    let temperature = temperature_celsius(&reading);
    let humidity = humidity_percent(&reading);
    assert!(temperature > 20.0 && temperature < 23.0);
    assert!(humidity > 44.0 && humidity < 46.0);
}

#[test]
fn crc_known_vector_and_errors() {
    // Sensirion datasheet example: CRC of 0xBEEF is 0x92.
    assert!(check_crc(&[0xBE, 0xEF], 0x92));
    assert!(!check_crc(&[0xBE, 0xEF], 0x93));
    assert!(check_crc(&[], 0xFF));
    let t = [0x61, 0x4B];
    let h = [0x73, 0x33];
    let good = [t[0], t[1], crc8(&t), h[0], h[1], crc8(&h)];
    assert_eq!(
        parse_shtc3_data(&good),
        Ok(RawReading { raw_temperature: 0x614B, raw_humidity: 0x7333 })
    );
    let mut bad_t = good;
    bad_t[2] ^= 1;
    bad_t[5] ^= 1;
    assert_eq!(parse_shtc3_data(&bad_t), Err(Shtc3Error::TemperatureCrc));
    let mut bad_h = good;
    bad_h[5] ^= 1;
    assert_eq!(parse_shtc3_data(&bad_h), Err(Shtc3Error::HumidityCrc));
}

#[test]
fn ld2410_skips_noise_and_waits_for_footer() {
    let mut parser = Ld2410Parser::new();
    let frame = [
        0xF4, 0xF3, 0xF2, 0xF1, 0x0B, 0x00, 0x02, 0x01, 0x64, 0x00, 0x30, 0x00, 0x00, 0x00,
        0x64, 0x00, 0xF8, 0xF7, 0xF6, 0xF5,
    ];
    // Noise, then the frame in two pieces.
    assert_eq!(parser.push_bytes(&[0x00, 0x11, 0xF4]), None);
    assert_eq!(parser.push_bytes(&frame[..10]), None);
    let d = parser.push_bytes(&frame[10..]).expect("frame decodes");
    assert_eq!(d.target_type, TargetType::MovingTarget);
    assert_eq!(d.moving_distance_cm, 100);
    assert_eq!(d.moving_energy, 0x30);
    assert_eq!(d.detection_distance_cm, 100);
    assert!(d.presence_detected);
}

#[test]
fn ld2410_no_target_and_short_frame() {
    let mut parser = Ld2410Parser::new();
    let frame = [
        0xF4, 0xF3, 0xF2, 0xF1, 0x0B, 0x00, 0x02, 0x00, 0x00, 0x00, 0x00, 0x00, 0x00, 0x00,
        0x00, 0x00, 0xF8, 0xF7, 0xF6, 0xF5,
    ];
    let d = parser.push_bytes(&frame).expect("frame decodes");
    assert_eq!(d.target_type, TargetType::NoTarget);
    assert!(!d.presence_detected);
    // A footer right after a short header cuts a frame too short to report.
    let short = [
        0xF4, 0xF3, 0xF2, 0xF1, 0x01, 0x02, 0x03, 0x04, 0xF8, 0xF7, 0xF6, 0xF5, 0, 0, 0, 0,
    ];
    assert_eq!(parser.push_bytes(&short), None);
}
