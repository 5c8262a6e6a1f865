use swarm_relay::fanout::RecvOutcome;
use swarm_relay::ingest::{ingest_frame, TelemetryShared};
use swarm_relay::session::{on_channel_event, on_client_text, on_connect};

fn tb(t: &str) -> Vec<u8> {
    t.as_bytes().to_vec()
}

fn ts(v: &[u8]) -> String {
    String::from_utf8(v.to_vec()).unwrap()
}

fn seed_frame(id: u64, x: &str) -> Vec<u8> {
    tb(&format!(
        "{{\"id\":{},\"position\":{{\"x\":{},\"y\":2.0,\"z\":3.0}},\"velocity\":{{\"vx\":0.1,\"vy\":0.2,\"vz\":0.3}},\"timestamp\":\"2024-01-01T00:00:00Z\"}}",
        id, x
    ))
}

#[test]
fn snapshot_on_connect_holds_every_known_agent() {
    let mut shared = TelemetryShared::new(16);
    for id in 1..=3u64 {
        ingest_frame(&mut shared, &seed_frame(id, "1.0"), tb("now"));
    }
    let (_rx, snapshot, env) = on_connect(&shared);
    let text = ts(&snapshot);
    assert!(text.starts_with('[') && text.ends_with(']'));
    for id in 1..=3u64 {
        assert!(text.contains(&format!("{{\"id\":{},", id)));
    }
    assert_eq!(text.matches("\"id\":").count(), 3);
    assert!(env.is_none());
}

#[test]
fn update_published_after_connect_is_not_lost() {
    let mut shared = TelemetryShared::new(16);
    ingest_frame(&mut shared, &seed_frame(1, "1.0"), tb("now"));
    let (mut rx, _snapshot, _env) = on_connect(&shared);
    ingest_frame(&mut shared, &seed_frame(2, "4.0"), tb("now"));
    match shared.tx.recv(&mut rx) {
        RecvOutcome::Msg(u) => {
            assert_eq!(u.id, 2);
            let (fwd, close) = on_channel_event(&RecvOutcome::Msg(u));
            assert!(!close);
            assert!(ts(&fwd.unwrap()).starts_with("{\"id\":2,"));
        },
        _ => panic!("expected the live update"),
    }
    assert!(matches!(shared.tx.recv(&mut rx), RecvOutcome::Empty));
}

#[test]
fn settings_update_is_echoed_to_the_sender_only() {
    let mut shared = TelemetryShared::new(16);
    let (mut other_rx, _s, _e) = on_connect(&shared);
    let msg = tb(
        "{\"type\":\"swarm_settings\",\"payload\":{\"cohesion\":1.5,\"separation\":2,\"alignment\":3.0,\"maxSpeed\":10,\"targetAltitude\":25.5,\"swarm_size\":7}}",
    );
    let step = on_client_text(&mut shared, &msg);
    assert_eq!(
        ts(&step.reply.unwrap()),
        "{\"type\":\"settings_update\",\"payload\":{\"cohesion\":1.5,\"separation\":2,\"alignment\":3.0,\"max_speed\":10,\"target_altitude\":25.5}}"
    );
    assert_eq!(
        ts(&step.sim_msg.unwrap()),
        "{\"type\":\"swarm_settings\",\"payload\":{\"cohesion\":1.5,\"separation\":2,\"alignment\":3.0,\"max_speed\":10,\"target_altitude\":25.5,\"swarm_size\":7}}"
    );
    assert!(step.update.is_none());
    let cur = shared.swarm.current_settings();
    assert_eq!(cur.max_speed, tb("10"));
    assert!(matches!(shared.tx.recv(&mut other_rx), RecvOutcome::Empty));
}

#[test]
fn environment_update_with_only_obstacles_keeps_the_goal() {
    let mut shared = TelemetryShared::new(16);
    on_client_text(&mut shared, &tb("{\"type\":\"environment\",\"goal\":{\"x\":5}}"));
    on_client_text(&mut shared, &tb("{\"type\":\"environment\",\"obstacles\":[{\"r\":1}]}"));
    let (obstacles, goal) = shared.swarm.current_environment();
    assert_eq!(obstacles, tb("[{\"r\":1}]"));
    assert_eq!(goal, Some(tb("{\"x\":5}")));
    on_client_text(&mut shared, &tb("{\"type\":\"environment\",\"goal\":null}"));
    let (obstacles2, goal2) = shared.swarm.current_environment();
    assert_eq!(obstacles2, tb("[{\"r\":1}]"));
    assert!(goal2.is_none());
}

#[test]
fn environment_is_pushed_on_connect_once_set() {
    let mut shared = TelemetryShared::new(16);
    let (_r1, _s1, env1) = on_connect(&shared);
    assert!(env1.is_none());
    on_client_text(&mut shared, &tb("{\"type\":\"environment\",\"obstacles\":[{\"r\":1}],\"goal\":{\"x\":5}}"));
    let (_r2, _s2, env2) = on_connect(&shared);
    assert_eq!(
        ts(&env2.unwrap()),
        "{\"type\":\"environment\",\"payload\":{\"obstacles\":[{\"r\":1}],\"goal\":{\"x\":5}}}"
    );
}

#[test]
fn formation_vee_yields_exactly_one_simulator_datagram() {
    let mut shared = TelemetryShared::new(16);
    let step = on_client_text(
        &mut shared,
        &tb("{\"type\":\"command\",\"payload\":{\"type\":\"formation\",\"mode\":\"vee\"}}"),
    );
    assert_eq!(step.sim_msg, Some(tb("vee")));
    assert!(step.reply.is_none());
    assert!(step.update.is_none());
    assert!(shared.swarm.last_command().is_none());
}

#[test]
fn unknown_formation_yields_no_datagram() {
    let mut shared = TelemetryShared::new(16);
    let step = on_client_text(
        &mut shared,
        &tb("{\"type\":\"command\",\"payload\":{\"type\":\"formation\",\"mode\":\"hexagon\"}}"),
    );
    assert!(step.sim_msg.is_none());
    assert!(step.reply.is_none());
    assert!(step.update.is_none());
}

#[test]
fn leader_movement_is_lowercased_for_the_simulator() {
    let mut shared = TelemetryShared::new(16);
    let step = on_client_text(
        &mut shared,
        &tb("{\"type\":\"command\",\"payload\":{\"type\":\"move_leader\",\"direction\":\"North\"}}"),
    );
    assert_eq!(step.sim_msg, Some(tb("move_leader north")));
}

#[test]
fn altitude_change_keeps_the_amount_text() {
    let mut shared = TelemetryShared::new(16);
    let step = on_client_text(
        &mut shared,
        &tb("{\"type\":\"command\",\"payload\":{\"type\":\"altitude_change\",\"amount\":-2.5}}"),
    );
    assert_eq!(step.sim_msg, Some(tb("altitude_change -2.5")));
}

#[test]
fn legacy_flat_formation_shape_is_recognised() {
    let mut shared = TelemetryShared::new(16);
    let step = on_client_text(
        &mut shared,
        &tb("{\"type\":\"command\",\"payload\":{\"formation\":\"line\"}}"),
    );
    assert_eq!(step.sim_msg, Some(tb("line")));
    assert!(shared.swarm.last_command().is_none());
}

#[test]
fn unrecognised_command_is_recorded_locally() {
    let mut shared = TelemetryShared::new(16);
    let step = on_client_text(
        &mut shared,
        &tb("{\"type\":\"command\",\"payload\":{\"type\":\"dance\",\"tempo\":3}}"),
    );
    assert!(step.sim_msg.is_none());
    assert_eq!(shared.swarm.last_command(), Some(tb("{\"type\":\"dance\",\"tempo\":3}")));
}

#[test]
fn telemetry_over_the_session_mirrors_the_ingest_path() {
    let mut shared = TelemetryShared::new(16);
    let (mut rx, _s, _e) = on_connect(&shared);
    let step = on_client_text(
        &mut shared,
        &tb("{\"type\":\"telemetry\",\"payload\":{\"id\":5,\"position\":{\"x\":1.0,\"y\":2.0,\"z\":3.0},\"velocity\":{\"vx\":0.1,\"vy\":0.2,\"vz\":0.3},\"timestamp\":\"2024-01-01T00:00:00Z\"}}"),
    );
    assert!(step.update.is_some());
    assert_eq!(step.update.unwrap().id, 5);
    assert!(shared.swarm.get_uav(5).is_some());
    assert!(matches!(shared.tx.recv(&mut rx), RecvOutcome::Msg(_)));
}

#[test]
fn malformed_session_text_changes_nothing() {
    let mut shared = TelemetryShared::new(16);
    ingest_frame(&mut shared, &seed_frame(1, "1.0"), tb("now"));
    for bad in ["not json", "{\"type\":\"swarm_settings\",\"payload\":{\"cohesion\":1}}",
        "{\"type\":\"telemetry\",\"payload\":{\"id\":9}}", "{\"type\":\"mystery\"}", "[1,2]"] {
        let step = on_client_text(&mut shared, &tb(bad));
        assert!(step.reply.is_none() && step.sim_msg.is_none() && step.update.is_none());
    }
    assert_eq!(shared.swarm.list_uavs().len(), 1);
    assert!(shared.swarm.get_uav(9).is_none());
    assert_eq!(shared.swarm.current_settings().cohesion, tb("1.0"));
}

#[test]
fn slow_session_overflow_resynchronises_without_closing() {
    let mut shared = TelemetryShared::new(2);
    let (mut rx, _s, _e) = on_connect(&shared);
    for id in 1..=5u64 {
        ingest_frame(&mut shared, &seed_frame(id, "1.0"), tb("now"));
    }
    match shared.tx.recv(&mut rx) {
        RecvOutcome::Lagged(n) => {
            assert_eq!(n, 3);
            let (fwd, close) = on_channel_event(&RecvOutcome::Lagged(n));
            assert!(fwd.is_none());
            assert!(!close);
        },
        _ => panic!("expected a lag notice"),
    }
    match shared.tx.recv(&mut rx) {
        RecvOutcome::Msg(u) => assert_eq!(u.id, 4),
        _ => panic!("expected the oldest retained update"),
    }
    match shared.tx.recv(&mut rx) {
        RecvOutcome::Msg(u) => assert_eq!(u.id, 5),
        _ => panic!("expected the newest update"),
    }
    assert!(matches!(shared.tx.recv(&mut rx), RecvOutcome::Empty));
}

#[test]
fn environment_message_without_fields_is_a_noop() {
    let mut shared = TelemetryShared::new(16);
    on_client_text(&mut shared, &tb("{\"type\":\"environment\",\"goal\":{\"x\":5}}"));
    let step = on_client_text(&mut shared, &tb("{\"type\":\"environment\"}"));
    assert!(step.reply.is_none() && step.sim_msg.is_none() && step.update.is_none());
    let (obstacles, goal) = shared.swarm.current_environment();
    assert_eq!(obstacles, tb("[]"));
    assert_eq!(goal, Some(tb("{\"x\":5}")));
}

#[test]
fn non_array_obstacles_are_rejected_quietly() {
    let mut shared = TelemetryShared::new(16);
    on_client_text(&mut shared, &tb("{\"type\":\"environment\",\"obstacles\":5}"));
    let (obstacles, _) = shared.swarm.current_environment();
    assert_eq!(obstacles, tb("[]"));
}

#[test]
fn formation_command_without_mode_is_dropped() {
    let mut shared = TelemetryShared::new(16);
    let step = on_client_text(
        &mut shared,
        &tb("{\"type\":\"command\",\"payload\":{\"type\":\"formation\"}}"),
    );
    assert!(step.sim_msg.is_none());
    assert!(shared.swarm.last_command().is_none());
}
