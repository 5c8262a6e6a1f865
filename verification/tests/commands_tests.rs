use swarm_relay::commands::{translate_altitude, translate_flight_mode, translate_formation,
    translate_move_leader};

fn cb(t: &str) -> Vec<u8> {
    t.as_bytes().to_vec()
}

#[test]
fn known_formations_map_to_their_token() {
    assert_eq!(translate_formation(&cb("line")), Some(cb("line")));
    assert_eq!(translate_formation(&cb("vee")), Some(cb("vee")));
    assert_eq!(translate_formation(&cb("circle")), Some(cb("circle")));
}

#[test]
fn unknown_formation_is_dropped() {
    assert_eq!(translate_formation(&cb("hexagon")), None);
    assert_eq!(translate_formation(&cb("")), None);
    assert_eq!(translate_formation(&cb("Vee")), None);
}

#[test]
fn leader_movement_is_case_normalised() {
    assert_eq!(translate_move_leader(&cb("North")), cb("move_leader north"));
}

#[test]
fn altitude_command_keeps_the_amount_text() {
    assert_eq!(translate_altitude(&cb("-12.5")), cb("altitude_change -12.5"));
}

#[test]
fn flight_mode_command_is_case_normalised() {
    assert_eq!(translate_flight_mode(&cb("Autonomous")), cb("flight_mode autonomous"));
}
