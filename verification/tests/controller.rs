use aura_climate::builder::{
    build_connect_packet, build_info_request_packet, build_remote_temp_packet,
    build_settings_packet,
};
use aura_climate::checksum::calculate_checksum;
use aura_climate::controller::HvacController;
use aura_climate::parser::Cn105Event;
use aura_climate::types::{Mode, Power, WantedSettings};

const SEC: i64 = 1_000_000_000;

fn frame(command: u8, payload: &[u8]) -> Vec<u8> {
    let mut f = vec![0xFC, command, 0x01, 0x30, payload.len() as u8];
    f.extend_from_slice(payload);
    f.push(calculate_checksum(&f));
    f
}

fn feed(c: &mut HvacController, bytes: &[u8], now: i64) -> Option<Cn105Event> {
    let mut last = None;
    for &b in bytes {
        if let Some(e) = c.on_uart_byte(b, now) {
            last = Some(e);
        }
    }
    last
}

#[test]
fn controller_handshake_until_connected() {
    let mut c = HvacController::new(0);
    assert_eq!(c.get_next_outgoing_packet(0), Some(build_connect_packet(false).to_vec()));
    // Not again before the connect timeout.
    assert_eq!(c.get_next_outgoing_packet(5 * SEC), None);
    assert_eq!(c.get_next_outgoing_packet(5 * SEC + 1), Some(build_connect_packet(false).to_vec()));
    // The unit answers the handshake.
    let reply = [0xFC, 0x7A, 0x01, 0x30, 0x02, 0xCA, 0x01, 0x88];
    let e = feed(&mut c, &reply, 6 * SEC);
    assert_eq!(e, Some(Cn105Event::Connected { installer: false }));
    assert!(c.is_connected);
    // Now the polling cycle starts.
    assert_eq!(c.get_next_outgoing_packet(6 * SEC), Some(build_info_request_packet(0x02).to_vec()));
}

#[test]
fn controller_polling_cycle_and_priorities() {
    let mut c = HvacController::new(0);
    c.is_connected = true;
    let mut codes = Vec::new();
    for k in 0..5 {
        let p = c.get_next_outgoing_packet(k * 3 * SEC).expect("a query is due");
        codes.push(p[5]);
    }
    assert_eq!(codes, vec![0x02, 0x03, 0x04, 0x06, 0x02]);
    // Nothing due right after a query.
    assert_eq!(c.get_next_outgoing_packet(12 * SEC + 1), None);

    let wanted = WantedSettings { power: Some(Power::On), mode: Some(Mode::Heat), ..Default::default() };
    c.queue_wanted_settings(wanted);
    c.set_remote_temperature(Some(43), 13 * SEC);
    assert_eq!(c.get_next_outgoing_packet(13 * SEC), Some(build_settings_packet(&wanted).to_vec()));
    assert_eq!(c.get_next_outgoing_packet(13 * SEC + 1), Some(build_remote_temp_packet(Some(43)).to_vec()));
    // The keepalive waits its interval.
    assert_eq!(c.get_next_outgoing_packet(13 * SEC + 2), None);
    assert_eq!(c.create_published_state(14 * SEC).is_remote_temp_active, true);
}

#[test]
fn controller_applies_reports() {
    let mut c = HvacController::new(0);
    let settings = frame(0x62, &[0x02, 0, 0, 0x01, 0x03, 0, 0x02, 0x01, 0, 0, 0x04, 0xAC, 0, 0, 0, 0]);
    feed(&mut c, &settings, 2 * SEC);
    assert!(c.is_connected);
    assert_eq!(c.settings.power, Some(Power::On));
    assert_eq!(c.settings.mode, Some(Mode::Cool));
    assert_eq!(c.settings.target_temperature, Some(44));
    let room = frame(0x62, &[0x03, 0, 0, 11, 0, 0, 0, 0, 0, 0, 0, 0, 0, 0, 0, 0]);
    feed(&mut c, &room, 3 * SEC);
    assert_eq!(c.status.room_temperature, 42);
    assert_eq!(c.status.outside_temperature, None);
    assert_eq!(c.status.runtime_minutes, Some(0));
    let status = frame(0x62, &[0x06, 0, 0, 30, 1, 0x01, 0x00, 0x00, 0x10, 0, 0, 0, 0, 0, 0, 0]);
    feed(&mut c, &status, 4 * SEC);
    assert!(c.status.operating);
    assert_eq!(c.status.compressor_frequency, 30);
    assert_eq!(c.status.input_power_watts, Some(256));
    assert_eq!(c.status.energy_kwh_tenths, Some(16));
    let p = c.create_published_state(9 * SEC + 500_000_000);
    assert_eq!(p.last_updated_secs_ago, 5);
    assert_eq!(p.power, Some(Power::On));
    assert_eq!(p.room_temperature, 42);
    // A corrupted frame changes nothing.
    let mut bad = frame(0x62, &[0x06, 0, 0, 99, 1, 0, 0, 0, 0, 0, 0, 0, 0, 0, 0, 0]);
    let n = bad.len();
    bad[n - 1] ^= 0xFF;
    assert_eq!(feed(&mut c, &bad, 10 * SEC), None);
    assert_eq!(c.status.compressor_frequency, 30);
}
