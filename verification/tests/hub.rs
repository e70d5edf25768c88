use aura_climate::assets::asset_content_type;
use aura_climate::hub::{ControlCommand, HomeState, NewHvacPayload, NewSensorPayload};

fn command(action: &str) -> ControlCommand {
    ControlCommand {
        action: action.to_string(),
        hvac_id: None,
        power: None,
        mode: None,
        temperature: None,
        fan: None,
        vane: None,
        preset: None,
        assigned_sensor_id: None,
    }
}

#[test]
fn hub_default_home() {
    let h = HomeState::default();
    assert_eq!(h.selected_hvac_id, "ac_living_room");
    assert_eq!(h.global_mode, "auto_comfort");
    assert_eq!(h.hvacs.len(), 2);
    assert_eq!(h.sensors.len(), 4);
    assert_eq!(h.hvacs[1].assigned_sensor_id.as_deref(), Some("sensor_bedroom"));
    assert_eq!(h.sensors[0].battery, None);
}

#[test]
fn hub_control_commands() {
    let mut h = HomeState::default();
    let mut c = command("set_temperature");
    c.temperature = Some(235);
    h.handle_control(&c);
    assert_eq!(h.hvacs[0].target_temperature, 235);

    let mut c = command("set_mode");
    c.hvac_id = Some("ac_bedroom".to_string());
    c.mode = Some("Cool".to_string());
    h.handle_control(&c);
    assert_eq!(h.hvacs[1].mode, "Cool");
    assert_eq!(h.hvacs[1].power, "On");

    let mut c = command("select_hvac");
    c.hvac_id = Some("ac_bedroom".to_string());
    h.handle_control(&c);
    assert_eq!(h.selected_hvac_id, "ac_bedroom");

    // Unknown units are ignored.
    let mut c = command("select_hvac");
    c.hvac_id = Some("nope".to_string());
    h.handle_control(&c);
    assert_eq!(h.selected_hvac_id, "ac_bedroom");

    let mut c = command("set_preset");
    c.preset = Some("sleep".to_string());
    h.handle_control(&c);
    assert_eq!(h.global_mode, "sleep");
    for u in &h.hvacs {
        assert_eq!(u.target_temperature, 210);
        assert_eq!(u.mode, "Heat");
        assert_eq!(u.fan_speed, "Quiet");
    }

    let mut c = command("assign_sensor");
    c.assigned_sensor_id = Some("sensor_office".to_string());
    h.handle_control(&c);
    assert_eq!(h.hvacs[1].assigned_sensor_id.as_deref(), Some("sensor_office"));
}

#[test]
fn hub_register_and_delete() {
    let mut h = HomeState::default();
    let id = h.register_hvac(NewHvacPayload {
        id: "ac_office".to_string(),
        name: "Office".to_string(),
        model: None,
        assigned_sensor_id: Some("sensor_office".to_string()),
    });
    assert_eq!(id, "ac_office");
    assert_eq!(h.hvacs.len(), 3);
    assert_eq!(h.hvacs[2].model, "Mitsubishi Electric CN105");
    assert_eq!(h.hvacs[2].power, "Off");

    h.delete_hvac(&"ac_living_room".to_string());
    assert_eq!(h.hvacs.len(), 2);
    assert_eq!(h.selected_hvac_id, "ac_bedroom");

    h.register_sensor(NewSensorPayload {
        id: "sensor_hall".to_string(),
        name: "Hall".to_string(),
        room_zone: "Hall".to_string(),
        initial_temp: None,
        initial_humidity: Some(420),
    });
    assert_eq!(h.sensors[4].temperature, 210);
    assert_eq!(h.sensors[4].humidity, 420);
    assert_eq!(h.sensors[4].battery, Some(100));

    h.delete_sensor(&"sensor_office".to_string());
    assert_eq!(h.sensors.len(), 4);
    assert!(h.sensors.iter().all(|s| s.id != "sensor_office"));
    assert_eq!(h.hvacs[1].assigned_sensor_id, None);
}

#[test]
fn hub_orchestrator_round() {
    let mut h = HomeState::default();
    // Living room unit: on, target 22.0, bound to its sensor at 23.1, fan Auto.
    h.hvacs[0].fan_speed = "Speed1".to_string();
    h.sensors[0].temperature = 240;
    // Bedroom unit loses its binding and follows presence (first: living room).
    h.hvacs[1].assigned_sensor_id = None;
    h.orchestrate();
    assert_eq!(h.hvacs[0].room_temperature, 240);
    assert_eq!(h.hvacs[0].fan_speed, "Speed3");
    assert_eq!(h.hvacs[1].room_temperature, 240);
    // The bedroom unit is off: its fan stays.
    assert_eq!(h.hvacs[1].fan_speed, "Quiet");
    // A second round changes nothing.
    h.orchestrate();
    assert_eq!(h.hvacs[0].fan_speed, "Speed3");

    h.sensors[0].temperature = 222;
    h.orchestrate();
    assert_eq!(h.hvacs[0].fan_speed, "Quiet");
}

#[test]
fn hub_socket_command_and_telemetry() {
    let mut h = HomeState::default();
    let mut c = command("anything");
    c.temperature = Some(190);
    c.fan = Some("Speed2".to_string());
    h.apply_socket_command(&c);
    assert_eq!(h.hvacs[0].target_temperature, 190);
    assert_eq!(h.hvacs[0].fan_speed, "Speed2");
    let rows = h.telemetry_points();
    assert_eq!(rows.len(), 4);
    assert_eq!(rows[2].room_id, "sensor_office");
    assert_eq!(rows[2].compressor_freq, 32);
    assert_eq!(rows[2].power_watts, 4100);
}

#[test]
fn asset_content_types() {
    assert_eq!(asset_content_type("style.css", false), "text/css");
    assert_eq!(asset_content_type("index.html", false), "text/html");
    assert_eq!(asset_content_type("app.js", false), "text/javascript");
    assert_eq!(asset_content_type("LICENSE", false), "application/octet-stream");
    assert_eq!(asset_content_type("missing.png", true), "text/html");
}

#[test]
fn hub_register_then_delete_restores() {
    let mut h = HomeState::default();
    h.register_hvac(NewHvacPayload {
        id: "ac_new".to_string(),
        name: "New".to_string(),
        model: Some("Custom".to_string()),
        assigned_sensor_id: None,
    });
    assert_eq!(h.hvacs[2].model, "Custom");
    h.delete_hvac(&"ac_new".to_string());
    let d = HomeState::default();
    assert_eq!(h.hvacs.len(), d.hvacs.len());
    for (a, b) in h.hvacs.iter().zip(d.hvacs.iter()) {
        assert_eq!(a.id, b.id);
        assert_eq!(a.target_temperature, b.target_temperature);
    }
    assert_eq!(h.selected_hvac_id, d.selected_hvac_id);
}
