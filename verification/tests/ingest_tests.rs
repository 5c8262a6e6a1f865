use swarm_relay::clock::parse_rfc3339_ok;
use swarm_relay::fanout::RecvOutcome;
use swarm_relay::ingest::{decode_telemetry, decode_wire_frame, ingest_datagram, ingest_frame, TelemetryShared};

fn ib(t: &str) -> Vec<u8> {
    t.as_bytes().to_vec()
}

fn frame_text(id: u64, x: &str) -> String {
    format!(
        "{{\"id\":{},\"position\":{{\"x\":{},\"y\":2.0,\"z\":3.0}},\"velocity\":{{\"vx\":0.1,\"vy\":0.2,\"vz\":0.3}},\"timestamp\":\"2024-01-01T00:00:00Z\"}}",
        id, x
    )
}

#[test]
fn valid_frame_is_stored_and_published() {
    let mut shared = TelemetryShared::new(16);
    let mut rx = shared.tx.subscribe();
    let out = ingest_frame(&mut shared, &ib(&frame_text(7, "1.5")), ib("now"));
    assert!(out.is_some());
    let got = shared.swarm.get_uav(7).unwrap();
    assert_eq!(got.position.x, ib("1.5"));
    assert_eq!(got.timestamp, ib("2024-01-01T00:00:00Z"));
    match shared.tx.recv(&mut rx) {
        RecvOutcome::Msg(u) => assert_eq!(u.id, 7),
        _ => panic!("expected the published update"),
    }
}

#[test]
fn malformed_datagram_changes_nothing_between_two_valid_frames() {
    let mut shared = TelemetryShared::new(16);
    let now = ib("2024-01-01T00:00:09Z");
    assert!(ingest_frame(&mut shared, &ib(&frame_text(1, "1.0")), now.clone()).is_some());
    assert!(ingest_frame(&mut shared, &ib("this is not json"), now.clone()).is_none());
    assert_eq!(shared.swarm.list_uavs().len(), 1);
    assert!(ingest_frame(&mut shared, &ib(&frame_text(1, "9.0")), now.clone()).is_some());
    let list = shared.swarm.list_uavs();
    assert_eq!(list.len(), 1);
    assert_eq!(list[0].position.x, ib("9.0"));
}

#[test]
fn frame_without_timestamp_gets_the_receipt_time() {
    let mut shared = TelemetryShared::new(16);
    let text = "{\"id\":3,\"position\":{\"x\":1.0,\"y\":2.0,\"z\":3.0},\"velocity\":{\"vx\":0.1,\"vy\":0.2,\"vz\":0.3}}";
    let out = ingest_frame(&mut shared, &ib(text), ib("2030-05-05T05:05:05Z"));
    assert!(out.is_some());
    let got = shared.swarm.get_uav(3).unwrap();
    assert_eq!(got.timestamp, ib("2030-05-05T05:05:05Z"));
}

#[test]
fn frame_with_bad_timestamp_is_rejected() {
    let text = "{\"id\":3,\"position\":{\"x\":1.0,\"y\":2.0,\"z\":3.0},\"velocity\":{\"vx\":0.1,\"vy\":0.2,\"vz\":0.3},\"timestamp\":\"yesterday\"}";
    assert!(decode_wire_frame(&ib(text)).is_none());
}

#[test]
fn frame_with_missing_parts_is_rejected() {
    assert!(decode_wire_frame(&ib("{\"id\":3}")).is_none());
    let no_id = "{\"position\":{\"x\":1.0,\"y\":2.0,\"z\":3.0},\"velocity\":{\"vx\":0.1,\"vy\":0.2,\"vz\":0.3}}";
    assert!(decode_wire_frame(&ib(no_id)).is_none());
    let huge_id = "{\"id\":99999999999999999999999,\"position\":{\"x\":1.0,\"y\":2.0,\"z\":3.0},\"velocity\":{\"vx\":0.1,\"vy\":0.2,\"vz\":0.3}}";
    assert!(decode_wire_frame(&ib(huge_id)).is_none());
}

#[test]
fn wire_frame_keeps_its_own_timestamp() {
    let f = decode_wire_frame(&ib(&frame_text(9, "4.25"))).unwrap();
    assert_eq!(f.id, 9);
    assert_eq!(f.timestamp, Some(ib("2024-01-01T00:00:00Z")));
    let u = decode_telemetry(&ib(&frame_text(9, "4.25"))).unwrap();
    assert_eq!(u.timestamp, ib("2024-01-01T00:00:00Z"));
}

#[test]
fn telemetry_without_timestamp_is_rejected() {
    let text = "{\"id\":3,\"position\":{\"x\":1.0,\"y\":2.0,\"z\":3.0},\"velocity\":{\"vx\":0.1,\"vy\":0.2,\"vz\":0.3}}";
    assert!(decode_telemetry(&ib(text)).is_none());
}

#[test]
fn receipt_timestamp_is_a_real_rfc3339_text() {
    let mut shared = TelemetryShared::new(16);
    let text = "{\"id\":4,\"position\":{\"x\":1.0,\"y\":2.0,\"z\":3.0},\"velocity\":{\"vx\":0.1,\"vy\":0.2,\"vz\":0.3}}";
    assert!(ingest_datagram(&mut shared, &ib(text)).is_some());
    let got = shared.swarm.get_uav(4).unwrap();
    assert!(!got.timestamp.is_empty());
    assert!(parse_rfc3339_ok(&got.timestamp));
    assert!(!parse_rfc3339_ok(&ib("yesterday")));
}
