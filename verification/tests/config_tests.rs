use swarm_relay::config::AppConfig;

fn kb(t: &str) -> Vec<u8> {
    t.as_bytes().to_vec()
}

#[test]
fn absent_values_take_the_documented_defaults() {
    let cfg = AppConfig::from_parts(None, None, None, None);
    assert_eq!(cfg.http_bind_addr, kb("0.0.0.0"));
    assert_eq!(cfg.http_port, 8080);
    assert_eq!(cfg.udp_bind_addr, kb("0.0.0.0"));
    assert_eq!(cfg.udp_port, 6000);
}

#[test]
fn supplied_values_are_taken() {
    let cfg = AppConfig::from_parts(
        Some(kb("127.0.0.1")),
        Some(kb("9000")),
        Some(kb("10.0.0.1")),
        Some(kb("6001")),
    );
    assert_eq!(cfg.http_bind_addr, kb("127.0.0.1"));
    assert_eq!(cfg.http_port, 9000);
    assert_eq!(cfg.udp_bind_addr, kb("10.0.0.1"));
    assert_eq!(cfg.udp_port, 6001);
}

#[test]
fn unparseable_ports_fall_back_to_the_default() {
    let cfg = AppConfig::from_parts(None, Some(kb("eighty")), None, Some(kb("70000")));
    assert_eq!(cfg.http_port, 8080);
    assert_eq!(cfg.udp_port, 6000);
}
