use swarm_relay::store::{Position, SwarmSettings, SwarmState, UavState, Velocity};

fn sb(t: &str) -> Vec<u8> {
    t.as_bytes().to_vec()
}

fn uav(id: u64, x: &str, ts: &str) -> UavState {
    UavState {
        id,
        position: Position { x: sb(x), y: sb("2.0"), z: sb("3.0") },
        velocity: Velocity { vx: sb("0.1"), vy: sb("0.2"), vz: sb("0.3") },
        timestamp: sb(ts),
    }
}

#[test]
fn last_write_wins_per_identifier() {
    let mut st = SwarmState::new();
    st.upsert_uav(uav(1, "1.0", "2024-01-01T00:00:00Z"));
    st.upsert_uav(uav(2, "9.0", "2024-01-01T00:00:01Z"));
    st.upsert_uav(uav(1, "5.5", "2024-01-01T00:00:02Z"));
    let got = st.get_uav(1).unwrap();
    assert_eq!(got.position.x, sb("5.5"));
    assert_eq!(got.timestamp, sb("2024-01-01T00:00:02Z"));
    let other = st.get_uav(2).unwrap();
    assert_eq!(other.position.x, sb("9.0"));
}

#[test]
fn list_length_counts_distinct_identifiers() {
    let mut st = SwarmState::new();
    st.upsert_uav(uav(1, "1.0", "t"));
    st.upsert_uav(uav(2, "1.0", "t"));
    st.upsert_uav(uav(1, "2.0", "t"));
    st.upsert_uav(uav(3, "1.0", "t"));
    st.upsert_uav(uav(2, "4.0", "t"));
    assert_eq!(st.list_uavs().len(), 3);
}

#[test]
fn get_unknown_identifier_is_none() {
    let st = SwarmState::new();
    assert!(st.get_uav(42).is_none());
}

#[test]
fn settings_visible_after_apply() {
    let mut st = SwarmState::new();
    let new = SwarmSettings {
        cohesion: sb("1.5"),
        separation: sb("2"),
        alignment: sb("3.0"),
        max_speed: sb("10"),
        target_altitude: sb("25.5"),
        swarm_size: sb("7"),
    };
    st.apply_settings(new);
    let cur = st.current_settings();
    assert_eq!(cur.cohesion, sb("1.5"));
    assert_eq!(cur.swarm_size, sb("7"));
}

#[test]
fn environment_update_is_partial() {
    let mut st = SwarmState::new();
    st.apply_environment(None, Some(Some(sb("{\"x\":1}"))));
    st.apply_environment(Some(sb("[{\"kind\":\"wall\"}]")), None);
    let (obstacles, goal) = st.current_environment();
    assert_eq!(obstacles, sb("[{\"kind\":\"wall\"}]"));
    assert_eq!(goal, Some(sb("{\"x\":1}")));
    st.apply_environment(None, Some(Some(sb("{\"x\":2}"))));
    let (obstacles2, goal2) = st.current_environment();
    assert_eq!(obstacles2, sb("[{\"kind\":\"wall\"}]"));
    assert_eq!(goal2, Some(sb("{\"x\":2}")));
    st.apply_environment(None, Some(None));
    let (_, goal3) = st.current_environment();
    assert_eq!(goal3, None);
}

#[test]
fn last_command_is_recorded() {
    let mut st = SwarmState::new();
    assert!(st.last_command().is_none());
    st.apply_command(sb("{\"type\":\"dance\"}"));
    assert_eq!(st.last_command(), Some(sb("{\"type\":\"dance\"}")));
}

#[test]
fn default_settings_match_documented_values() {
    let st = SwarmState::new();
    let cur = st.current_settings();
    assert_eq!(cur.cohesion, sb("1.0"));
    assert_eq!(cur.separation, sb("1.0"));
    assert_eq!(cur.alignment, sb("1.0"));
    assert_eq!(cur.max_speed, sb("10.0"));
    assert_eq!(cur.target_altitude, sb("10.0"));
}
