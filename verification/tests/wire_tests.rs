use swarm_relay::store::{Position, SwarmSettings, UavState, Velocity};
use swarm_relay::wire::{parse_u64, push_u64_dec, settings_echo_to_json, settings_sim_to_json,
    snapshot_to_json, to_ascii_lower, uav_to_json};

fn wb(t: &str) -> Vec<u8> {
    t.as_bytes().to_vec()
}

fn ws(v: &[u8]) -> String {
    String::from_utf8(v.to_vec()).unwrap()
}

fn sample_uav(id: u64) -> UavState {
    UavState {
        id,
        position: Position { x: wb("1.5"), y: wb("2.0"), z: wb("3.25") },
        velocity: Velocity { vx: wb("0.1"), vy: wb("-0.2"), vz: wb("1e3") },
        timestamp: wb("2024-01-01T00:00:00Z"),
    }
}

#[test]
fn uav_json_is_exact() {
    let u = sample_uav(7);
    assert_eq!(
        ws(&uav_to_json(&u)),
        "{\"id\":7,\"position\":{\"x\":1.5,\"y\":2.0,\"z\":3.25},\"velocity\":{\"vx\":0.1,\"vy\":-0.2,\"vz\":1e3},\"timestamp\":\"2024-01-01T00:00:00Z\"}"
    );
}

#[test]
fn snapshot_json_is_exact() {
    assert_eq!(ws(&snapshot_to_json(&Vec::new())), "[]");
    let us = vec![sample_uav(1), sample_uav(2)];
    let expect_one = ws(&uav_to_json(&us[0]));
    let expect_two = ws(&uav_to_json(&us[1]));
    assert_eq!(ws(&snapshot_to_json(&us)), format!("[{},{}]", expect_one, expect_two));
}

#[test]
fn settings_echo_has_five_camel_free_fields() {
    let st = SwarmSettings {
        cohesion: wb("1.5"),
        separation: wb("2"),
        alignment: wb("3.0"),
        max_speed: wb("10"),
        target_altitude: wb("25.5"),
        swarm_size: wb("7"),
    };
    assert_eq!(
        ws(&settings_echo_to_json(&st)),
        "{\"type\":\"settings_update\",\"payload\":{\"cohesion\":1.5,\"separation\":2,\"alignment\":3.0,\"max_speed\":10,\"target_altitude\":25.5}}"
    );
}

#[test]
fn simulator_settings_envelope_is_snake_case_with_swarm_size() {
    let st = SwarmSettings {
        cohesion: wb("1.5"),
        separation: wb("2"),
        alignment: wb("3.0"),
        max_speed: wb("10"),
        target_altitude: wb("25.5"),
        swarm_size: wb("7"),
    };
    assert_eq!(
        ws(&settings_sim_to_json(&st)),
        "{\"type\":\"swarm_settings\",\"payload\":{\"cohesion\":1.5,\"separation\":2,\"alignment\":3.0,\"max_speed\":10,\"target_altitude\":25.5,\"swarm_size\":7}}"
    );
}

#[test]
fn parse_u64_accepts_plain_digit_strings() {
    assert_eq!(parse_u64(&wb("0")), Some(0));
    assert_eq!(parse_u64(&wb("42")), Some(42));
    assert_eq!(parse_u64(&wb("0080")), Some(80));
    assert_eq!(parse_u64(&wb("1234567890123456789")), Some(1234567890123456789));
    assert_eq!(parse_u64(&wb("")), None);
    assert_eq!(parse_u64(&wb("-1")), None);
    assert_eq!(parse_u64(&wb("1.5")), None);
    assert_eq!(parse_u64(&wb("12345678901234567890")), None);
}

#[test]
fn decimal_digits_render_exactly() {
    let mut out = Vec::new();
    push_u64_dec(&mut out, 0);
    out.push(b'|');
    push_u64_dec(&mut out, 1234567890);
    assert_eq!(ws(&out), "0|1234567890");
}

#[test]
fn ascii_lowercasing_folds_letters_only() {
    assert_eq!(ws(&to_ascii_lower(&wb("NorthWest-37"))), "northwest-37");
}
