//! The byte constants of the relay's wire formats: field names, command
//! tokens and the fixed fragments of the outbound JSON envelopes.

use vstd::prelude::*;

verus! {

/// `type`
pub open spec fn k_type() -> Seq<u8> {
    seq![116u8, 121u8, 112u8, 101u8]
}

pub fn mk_type() -> (r: Vec<u8>)
    ensures
        r@ == k_type(),
{
    let v: Vec<u8> = vec![116u8, 121u8, 112u8, 101u8];
    proof {
        assert(v@ =~= k_type());
    }
    v
}

/// `payload`
pub open spec fn k_payload() -> Seq<u8> {
    seq![112u8, 97u8, 121u8, 108u8, 111u8, 97u8, 100u8]
}

pub fn mk_payload() -> (r: Vec<u8>)
    ensures
        r@ == k_payload(),
{
    let v: Vec<u8> = vec![112u8, 97u8, 121u8, 108u8, 111u8, 97u8, 100u8];
    proof {
        assert(v@ =~= k_payload());
    }
    v
}

/// `mode`
pub open spec fn k_mode() -> Seq<u8> {
    seq![109u8, 111u8, 100u8, 101u8]
}

pub fn mk_mode() -> (r: Vec<u8>)
    ensures
        r@ == k_mode(),
{
    let v: Vec<u8> = vec![109u8, 111u8, 100u8, 101u8];
    proof {
        assert(v@ =~= k_mode());
    }
    v
}

/// `direction`
pub open spec fn k_direction() -> Seq<u8> {
    seq![100u8, 105u8, 114u8, 101u8, 99u8, 116u8, 105u8, 111u8, 110u8]
}

pub fn mk_direction() -> (r: Vec<u8>)
    ensures
        r@ == k_direction(),
{
    let v: Vec<u8> = vec![100u8, 105u8, 114u8, 101u8, 99u8, 116u8, 105u8, 111u8, 110u8];
    proof {
        assert(v@ =~= k_direction());
    }
    v
}

/// `amount`
pub open spec fn k_amount() -> Seq<u8> {
    seq![97u8, 109u8, 111u8, 117u8, 110u8, 116u8]
}

pub fn mk_amount() -> (r: Vec<u8>)
    ensures
        r@ == k_amount(),
{
    let v: Vec<u8> = vec![97u8, 109u8, 111u8, 117u8, 110u8, 116u8];
    proof {
        assert(v@ =~= k_amount());
    }
    v
}

/// `formation`
pub open spec fn k_formation() -> Seq<u8> {
    seq![102u8, 111u8, 114u8, 109u8, 97u8, 116u8, 105u8, 111u8, 110u8]
}

pub fn mk_formation() -> (r: Vec<u8>)
    ensures
        r@ == k_formation(),
{
    let v: Vec<u8> = vec![102u8, 111u8, 114u8, 109u8, 97u8, 116u8, 105u8, 111u8, 110u8];
    proof {
        assert(v@ =~= k_formation());
    }
    v
}

/// `obstacles`
pub open spec fn k_obstacles() -> Seq<u8> {
    seq![111u8, 98u8, 115u8, 116u8, 97u8, 99u8, 108u8, 101u8, 115u8]
}

pub fn mk_obstacles() -> (r: Vec<u8>)
    ensures
        r@ == k_obstacles(),
{
    let v: Vec<u8> = vec![111u8, 98u8, 115u8, 116u8, 97u8, 99u8, 108u8, 101u8, 115u8];
    proof {
        assert(v@ =~= k_obstacles());
    }
    v
}

/// `goal`
pub open spec fn k_goal() -> Seq<u8> {
    seq![103u8, 111u8, 97u8, 108u8]
}

pub fn mk_goal() -> (r: Vec<u8>)
    ensures
        r@ == k_goal(),
{
    let v: Vec<u8> = vec![103u8, 111u8, 97u8, 108u8];
    proof {
        assert(v@ =~= k_goal());
    }
    v
}

/// `id`
pub open spec fn k_id() -> Seq<u8> {
    seq![105u8, 100u8]
}

pub fn mk_id() -> (r: Vec<u8>)
    ensures
        r@ == k_id(),
{
    let v: Vec<u8> = vec![105u8, 100u8];
    proof {
        assert(v@ =~= k_id());
    }
    v
}

/// `position`
pub open spec fn k_position() -> Seq<u8> {
    seq![112u8, 111u8, 115u8, 105u8, 116u8, 105u8, 111u8, 110u8]
}

pub fn mk_position() -> (r: Vec<u8>)
    ensures
        r@ == k_position(),
{
    let v: Vec<u8> = vec![112u8, 111u8, 115u8, 105u8, 116u8, 105u8, 111u8, 110u8];
    proof {
        assert(v@ =~= k_position());
    }
    v
}

/// `velocity`
pub open spec fn k_velocity() -> Seq<u8> {
    seq![118u8, 101u8, 108u8, 111u8, 99u8, 105u8, 116u8, 121u8]
}

pub fn mk_velocity() -> (r: Vec<u8>)
    ensures
        r@ == k_velocity(),
{
    let v: Vec<u8> = vec![118u8, 101u8, 108u8, 111u8, 99u8, 105u8, 116u8, 121u8];
    proof {
        assert(v@ =~= k_velocity());
    }
    v
}

/// `timestamp`
pub open spec fn k_timestamp() -> Seq<u8> {
    seq![116u8, 105u8, 109u8, 101u8, 115u8, 116u8, 97u8, 109u8, 112u8]
}

pub fn mk_timestamp() -> (r: Vec<u8>)
    ensures
        r@ == k_timestamp(),
{
    let v: Vec<u8> = vec![116u8, 105u8, 109u8, 101u8, 115u8, 116u8, 97u8, 109u8, 112u8];
    proof {
        assert(v@ =~= k_timestamp());
    }
    v
}

/// `x`
pub open spec fn k_x() -> Seq<u8> {
    seq![120u8]
}

pub fn mk_x() -> (r: Vec<u8>)
    ensures
        r@ == k_x(),
{
    let v: Vec<u8> = vec![120u8];
    proof {
        assert(v@ =~= k_x());
    }
    v
}

/// `y`
pub open spec fn k_y() -> Seq<u8> {
    seq![121u8]
}

pub fn mk_y() -> (r: Vec<u8>)
    ensures
        r@ == k_y(),
{
    let v: Vec<u8> = vec![121u8];
    proof {
        assert(v@ =~= k_y());
    }
    v
}

/// `z`
pub open spec fn k_z() -> Seq<u8> {
    seq![122u8]
}

pub fn mk_z() -> (r: Vec<u8>)
    ensures
        r@ == k_z(),
{
    let v: Vec<u8> = vec![122u8];
    proof {
        assert(v@ =~= k_z());
    }
    v
}

/// `vx`
pub open spec fn k_vx() -> Seq<u8> {
    seq![118u8, 120u8]
}

pub fn mk_vx() -> (r: Vec<u8>)
    ensures
        r@ == k_vx(),
{
    let v: Vec<u8> = vec![118u8, 120u8];
    proof {
        assert(v@ =~= k_vx());
    }
    v
}

/// `vy`
pub open spec fn k_vy() -> Seq<u8> {
    seq![118u8, 121u8]
}

pub fn mk_vy() -> (r: Vec<u8>)
    ensures
        r@ == k_vy(),
{
    let v: Vec<u8> = vec![118u8, 121u8];
    proof {
        assert(v@ =~= k_vy());
    }
    v
}

/// `vz`
pub open spec fn k_vz() -> Seq<u8> {
    seq![118u8, 122u8]
}

pub fn mk_vz() -> (r: Vec<u8>)
    ensures
        r@ == k_vz(),
{
    let v: Vec<u8> = vec![118u8, 122u8];
    proof {
        assert(v@ =~= k_vz());
    }
    v
}

/// `cohesion`
pub open spec fn k_cohesion() -> Seq<u8> {
    seq![99u8, 111u8, 104u8, 101u8, 115u8, 105u8, 111u8, 110u8]
}

pub fn mk_cohesion() -> (r: Vec<u8>)
    ensures
        r@ == k_cohesion(),
{
    let v: Vec<u8> = vec![99u8, 111u8, 104u8, 101u8, 115u8, 105u8, 111u8, 110u8];
    proof {
        assert(v@ =~= k_cohesion());
    }
    v
}

/// `separation`
pub open spec fn k_separation() -> Seq<u8> {
    seq![115u8, 101u8, 112u8, 97u8, 114u8, 97u8, 116u8, 105u8, 111u8, 110u8]
}

pub fn mk_separation() -> (r: Vec<u8>)
    ensures
        r@ == k_separation(),
{
    let v: Vec<u8> = vec![115u8, 101u8, 112u8, 97u8, 114u8, 97u8, 116u8, 105u8, 111u8, 110u8];
    proof {
        assert(v@ =~= k_separation());
    }
    v
}

/// `alignment`
pub open spec fn k_alignment() -> Seq<u8> {
    seq![97u8, 108u8, 105u8, 103u8, 110u8, 109u8, 101u8, 110u8, 116u8]
}

pub fn mk_alignment() -> (r: Vec<u8>)
    ensures
        r@ == k_alignment(),
{
    let v: Vec<u8> = vec![97u8, 108u8, 105u8, 103u8, 110u8, 109u8, 101u8, 110u8, 116u8];
    proof {
        assert(v@ =~= k_alignment());
    }
    v
}

/// `maxSpeed`
pub open spec fn k_max_speed_camel() -> Seq<u8> {
    seq![109u8, 97u8, 120u8, 83u8, 112u8, 101u8, 101u8, 100u8]
}

pub fn mk_max_speed_camel() -> (r: Vec<u8>)
    ensures
        r@ == k_max_speed_camel(),
{
    let v: Vec<u8> = vec![109u8, 97u8, 120u8, 83u8, 112u8, 101u8, 101u8, 100u8];
    proof {
        assert(v@ =~= k_max_speed_camel());
    }
    v
}

/// `targetAltitude`
pub open spec fn k_target_altitude_camel() -> Seq<u8> {
    seq![116u8, 97u8, 114u8, 103u8, 101u8, 116u8, 65u8, 108u8, 116u8, 105u8, 116u8, 117u8, 100u8, 101u8]
}

pub fn mk_target_altitude_camel() -> (r: Vec<u8>)
    ensures
        r@ == k_target_altitude_camel(),
{
    let v: Vec<u8> = vec![116u8, 97u8, 114u8, 103u8, 101u8, 116u8, 65u8, 108u8, 116u8, 105u8, 116u8, 117u8, 100u8, 101u8];
    proof {
        assert(v@ =~= k_target_altitude_camel());
    }
    v
}

/// `swarm_size`
pub open spec fn k_swarm_size() -> Seq<u8> {
    seq![115u8, 119u8, 97u8, 114u8, 109u8, 95u8, 115u8, 105u8, 122u8, 101u8]
}

pub fn mk_swarm_size() -> (r: Vec<u8>)
    ensures
        r@ == k_swarm_size(),
{
    let v: Vec<u8> = vec![115u8, 119u8, 97u8, 114u8, 109u8, 95u8, 115u8, 105u8, 122u8, 101u8];
    proof {
        assert(v@ =~= k_swarm_size());
    }
    v
}

/// `environment`
pub open spec fn k_environment() -> Seq<u8> {
    seq![101u8, 110u8, 118u8, 105u8, 114u8, 111u8, 110u8, 109u8, 101u8, 110u8, 116u8]
}

pub fn mk_environment() -> (r: Vec<u8>)
    ensures
        r@ == k_environment(),
{
    let v: Vec<u8> = vec![101u8, 110u8, 118u8, 105u8, 114u8, 111u8, 110u8, 109u8, 101u8, 110u8, 116u8];
    proof {
        assert(v@ =~= k_environment());
    }
    v
}

/// `command`
pub open spec fn k_command() -> Seq<u8> {
    seq![99u8, 111u8, 109u8, 109u8, 97u8, 110u8, 100u8]
}

pub fn mk_command() -> (r: Vec<u8>)
    ensures
        r@ == k_command(),
{
    let v: Vec<u8> = vec![99u8, 111u8, 109u8, 109u8, 97u8, 110u8, 100u8];
    proof {
        assert(v@ =~= k_command());
    }
    v
}

/// `swarm_settings`
pub open spec fn k_swarm_settings() -> Seq<u8> {
    seq![115u8, 119u8, 97u8, 114u8, 109u8, 95u8, 115u8, 101u8, 116u8, 116u8, 105u8, 110u8, 103u8, 115u8]
}

pub fn mk_swarm_settings() -> (r: Vec<u8>)
    ensures
        r@ == k_swarm_settings(),
{
    let v: Vec<u8> = vec![115u8, 119u8, 97u8, 114u8, 109u8, 95u8, 115u8, 101u8, 116u8, 116u8, 105u8, 110u8, 103u8, 115u8];
    proof {
        assert(v@ =~= k_swarm_settings());
    }
    v
}

/// `telemetry`
pub open spec fn k_telemetry() -> Seq<u8> {
    seq![116u8, 101u8, 108u8, 101u8, 109u8, 101u8, 116u8, 114u8, 121u8]
}

pub fn mk_telemetry() -> (r: Vec<u8>)
    ensures
        r@ == k_telemetry(),
{
    let v: Vec<u8> = vec![116u8, 101u8, 108u8, 101u8, 109u8, 101u8, 116u8, 114u8, 121u8];
    proof {
        assert(v@ =~= k_telemetry());
    }
    v
}

/// `line`
pub open spec fn k_line() -> Seq<u8> {
    seq![108u8, 105u8, 110u8, 101u8]
}

pub fn mk_line() -> (r: Vec<u8>)
    ensures
        r@ == k_line(),
{
    let v: Vec<u8> = vec![108u8, 105u8, 110u8, 101u8];
    proof {
        assert(v@ =~= k_line());
    }
    v
}

/// `vee`
pub open spec fn k_vee() -> Seq<u8> {
    seq![118u8, 101u8, 101u8]
}

pub fn mk_vee() -> (r: Vec<u8>)
    ensures
        r@ == k_vee(),
{
    let v: Vec<u8> = vec![118u8, 101u8, 101u8];
    proof {
        assert(v@ =~= k_vee());
    }
    v
}

/// `circle`
pub open spec fn k_circle() -> Seq<u8> {
    seq![99u8, 105u8, 114u8, 99u8, 108u8, 101u8]
}

pub fn mk_circle() -> (r: Vec<u8>)
    ensures
        r@ == k_circle(),
{
    let v: Vec<u8> = vec![99u8, 105u8, 114u8, 99u8, 108u8, 101u8];
    proof {
        assert(v@ =~= k_circle());
    }
    v
}

/// `move_leader `
pub open spec fn k_move_leader_prefix() -> Seq<u8> {
    seq![109u8, 111u8, 118u8, 101u8, 95u8, 108u8, 101u8, 97u8, 100u8, 101u8, 114u8, 32u8]
}

pub fn mk_move_leader_prefix() -> (r: Vec<u8>)
    ensures
        r@ == k_move_leader_prefix(),
{
    let v: Vec<u8> = vec![109u8, 111u8, 118u8, 101u8, 95u8, 108u8, 101u8, 97u8, 100u8, 101u8, 114u8, 32u8];
    proof {
        assert(v@ =~= k_move_leader_prefix());
    }
    v
}

/// `altitude_change `
pub open spec fn k_altitude_change_prefix() -> Seq<u8> {
    seq![97u8, 108u8, 116u8, 105u8, 116u8, 117u8, 100u8, 101u8, 95u8, 99u8, 104u8, 97u8, 110u8, 103u8, 101u8, 32u8]
}

pub fn mk_altitude_change_prefix() -> (r: Vec<u8>)
    ensures
        r@ == k_altitude_change_prefix(),
{
    let v: Vec<u8> = vec![97u8, 108u8, 116u8, 105u8, 116u8, 117u8, 100u8, 101u8, 95u8, 99u8, 104u8, 97u8, 110u8, 103u8, 101u8, 32u8];
    proof {
        assert(v@ =~= k_altitude_change_prefix());
    }
    v
}

/// `flight_mode `
pub open spec fn k_flight_mode_prefix() -> Seq<u8> {
    seq![102u8, 108u8, 105u8, 103u8, 104u8, 116u8, 95u8, 109u8, 111u8, 100u8, 101u8, 32u8]
}

pub fn mk_flight_mode_prefix() -> (r: Vec<u8>)
    ensures
        r@ == k_flight_mode_prefix(),
{
    let v: Vec<u8> = vec![102u8, 108u8, 105u8, 103u8, 104u8, 116u8, 95u8, 109u8, 111u8, 100u8, 101u8, 32u8];
    proof {
        assert(v@ =~= k_flight_mode_prefix());
    }
    v
}

/// `{"id":`
pub open spec fn k_uav_open() -> Seq<u8> {
    seq![123u8, 34u8, 105u8, 100u8, 34u8, 58u8]
}

pub fn mk_uav_open() -> (r: Vec<u8>)
    ensures
        r@ == k_uav_open(),
{
    let v: Vec<u8> = vec![123u8, 34u8, 105u8, 100u8, 34u8, 58u8];
    proof {
        assert(v@ =~= k_uav_open());
    }
    v
}

/// `,"position":{"x":`
pub open spec fn k_uav_position() -> Seq<u8> {
    seq![44u8, 34u8, 112u8, 111u8, 115u8, 105u8, 116u8, 105u8, 111u8, 110u8, 34u8, 58u8, 123u8, 34u8, 120u8, 34u8, 58u8]
}

pub fn mk_uav_position() -> (r: Vec<u8>)
    ensures
        r@ == k_uav_position(),
{
    let v: Vec<u8> = vec![44u8, 34u8, 112u8, 111u8, 115u8, 105u8, 116u8, 105u8, 111u8, 110u8, 34u8, 58u8, 123u8, 34u8, 120u8, 34u8, 58u8];
    proof {
        assert(v@ =~= k_uav_position());
    }
    v
}

/// `,"y":`
pub open spec fn k_uav_y() -> Seq<u8> {
    seq![44u8, 34u8, 121u8, 34u8, 58u8]
}

pub fn mk_uav_y() -> (r: Vec<u8>)
    ensures
        r@ == k_uav_y(),
{
    let v: Vec<u8> = vec![44u8, 34u8, 121u8, 34u8, 58u8];
    proof {
        assert(v@ =~= k_uav_y());
    }
    v
}

/// `,"z":`
pub open spec fn k_uav_z() -> Seq<u8> {
    seq![44u8, 34u8, 122u8, 34u8, 58u8]
}

pub fn mk_uav_z() -> (r: Vec<u8>)
    ensures
        r@ == k_uav_z(),
{
    let v: Vec<u8> = vec![44u8, 34u8, 122u8, 34u8, 58u8];
    proof {
        assert(v@ =~= k_uav_z());
    }
    v
}

/// `},"velocity":{"vx":`
pub open spec fn k_uav_velocity() -> Seq<u8> {
    seq![125u8, 44u8, 34u8, 118u8, 101u8, 108u8, 111u8, 99u8, 105u8, 116u8, 121u8, 34u8, 58u8, 123u8, 34u8, 118u8, 120u8, 34u8, 58u8]
}

pub fn mk_uav_velocity() -> (r: Vec<u8>)
    ensures
        r@ == k_uav_velocity(),
{
    let v: Vec<u8> = vec![125u8, 44u8, 34u8, 118u8, 101u8, 108u8, 111u8, 99u8, 105u8, 116u8, 121u8, 34u8, 58u8, 123u8, 34u8, 118u8, 120u8, 34u8, 58u8];
    proof {
        assert(v@ =~= k_uav_velocity());
    }
    v
}

/// `,"vy":`
pub open spec fn k_uav_vy() -> Seq<u8> {
    seq![44u8, 34u8, 118u8, 121u8, 34u8, 58u8]
}

pub fn mk_uav_vy() -> (r: Vec<u8>)
    ensures
        r@ == k_uav_vy(),
{
    let v: Vec<u8> = vec![44u8, 34u8, 118u8, 121u8, 34u8, 58u8];
    proof {
        assert(v@ =~= k_uav_vy());
    }
    v
}

/// `,"vz":`
pub open spec fn k_uav_vz() -> Seq<u8> {
    seq![44u8, 34u8, 118u8, 122u8, 34u8, 58u8]
}

pub fn mk_uav_vz() -> (r: Vec<u8>)
    ensures
        r@ == k_uav_vz(),
{
    let v: Vec<u8> = vec![44u8, 34u8, 118u8, 122u8, 34u8, 58u8];
    proof {
        assert(v@ =~= k_uav_vz());
    }
    v
}

/// `},"timestamp":"`
pub open spec fn k_uav_timestamp() -> Seq<u8> {
    seq![125u8, 44u8, 34u8, 116u8, 105u8, 109u8, 101u8, 115u8, 116u8, 97u8, 109u8, 112u8, 34u8, 58u8, 34u8]
}

pub fn mk_uav_timestamp() -> (r: Vec<u8>)
    ensures
        r@ == k_uav_timestamp(),
{
    let v: Vec<u8> = vec![125u8, 44u8, 34u8, 116u8, 105u8, 109u8, 101u8, 115u8, 116u8, 97u8, 109u8, 112u8, 34u8, 58u8, 34u8];
    proof {
        assert(v@ =~= k_uav_timestamp());
    }
    v
}

/// `"}`
pub open spec fn k_uav_close() -> Seq<u8> {
    seq![34u8, 125u8]
}

pub fn mk_uav_close() -> (r: Vec<u8>)
    ensures
        r@ == k_uav_close(),
{
    let v: Vec<u8> = vec![34u8, 125u8];
    proof {
        assert(v@ =~= k_uav_close());
    }
    v
}

/// `{"type":"environment","payload":{"obstacles":`
pub open spec fn k_env_open() -> Seq<u8> {
    seq![123u8, 34u8, 116u8, 121u8, 112u8, 101u8, 34u8, 58u8, 34u8, 101u8, 110u8, 118u8, 105u8, 114u8, 111u8, 110u8, 109u8, 101u8, 110u8, 116u8, 34u8, 44u8, 34u8, 112u8, 97u8, 121u8, 108u8, 111u8, 97u8, 100u8, 34u8, 58u8, 123u8, 34u8, 111u8, 98u8, 115u8, 116u8, 97u8, 99u8, 108u8, 101u8, 115u8, 34u8, 58u8]
}

pub fn mk_env_open() -> (r: Vec<u8>)
    ensures
        r@ == k_env_open(),
{
    let v: Vec<u8> = vec![123u8, 34u8, 116u8, 121u8, 112u8, 101u8, 34u8, 58u8, 34u8, 101u8, 110u8, 118u8, 105u8, 114u8, 111u8, 110u8, 109u8, 101u8, 110u8, 116u8, 34u8, 44u8, 34u8, 112u8, 97u8, 121u8, 108u8, 111u8, 97u8, 100u8, 34u8, 58u8, 123u8, 34u8, 111u8, 98u8, 115u8, 116u8, 97u8, 99u8, 108u8, 101u8, 115u8, 34u8, 58u8];
    proof {
        assert(v@ =~= k_env_open());
    }
    v
}

/// `,"goal":`
pub open spec fn k_env_goal() -> Seq<u8> {
    seq![44u8, 34u8, 103u8, 111u8, 97u8, 108u8, 34u8, 58u8]
}

pub fn mk_env_goal() -> (r: Vec<u8>)
    ensures
        r@ == k_env_goal(),
{
    let v: Vec<u8> = vec![44u8, 34u8, 103u8, 111u8, 97u8, 108u8, 34u8, 58u8];
    proof {
        assert(v@ =~= k_env_goal());
    }
    v
}

/// `}}`
pub open spec fn k_obj_close2() -> Seq<u8> {
    seq![125u8, 125u8]
}

pub fn mk_obj_close2() -> (r: Vec<u8>)
    ensures
        r@ == k_obj_close2(),
{
    let v: Vec<u8> = vec![125u8, 125u8];
    proof {
        assert(v@ =~= k_obj_close2());
    }
    v
}

/// `null`
pub open spec fn k_null() -> Seq<u8> {
    seq![110u8, 117u8, 108u8, 108u8]
}

pub fn mk_null() -> (r: Vec<u8>)
    ensures
        r@ == k_null(),
{
    let v: Vec<u8> = vec![110u8, 117u8, 108u8, 108u8];
    proof {
        assert(v@ =~= k_null());
    }
    v
}

/// `{"type":"settings_update","payload":{"cohesion":`
pub open spec fn k_echo_open() -> Seq<u8> {
    seq![123u8, 34u8, 116u8, 121u8, 112u8, 101u8, 34u8, 58u8, 34u8, 115u8, 101u8, 116u8, 116u8, 105u8, 110u8, 103u8, 115u8, 95u8, 117u8, 112u8, 100u8, 97u8, 116u8, 101u8, 34u8, 44u8, 34u8, 112u8, 97u8, 121u8, 108u8, 111u8, 97u8, 100u8, 34u8, 58u8, 123u8, 34u8, 99u8, 111u8, 104u8, 101u8, 115u8, 105u8, 111u8, 110u8, 34u8, 58u8]
}

pub fn mk_echo_open() -> (r: Vec<u8>)
    ensures
        r@ == k_echo_open(),
{
    let v: Vec<u8> = vec![123u8, 34u8, 116u8, 121u8, 112u8, 101u8, 34u8, 58u8, 34u8, 115u8, 101u8, 116u8, 116u8, 105u8, 110u8, 103u8, 115u8, 95u8, 117u8, 112u8, 100u8, 97u8, 116u8, 101u8, 34u8, 44u8, 34u8, 112u8, 97u8, 121u8, 108u8, 111u8, 97u8, 100u8, 34u8, 58u8, 123u8, 34u8, 99u8, 111u8, 104u8, 101u8, 115u8, 105u8, 111u8, 110u8, 34u8, 58u8];
    proof {
        assert(v@ =~= k_echo_open());
    }
    v
}

/// `{"type":"swarm_settings","payload":{"cohesion":`
pub open spec fn k_sim_settings_open() -> Seq<u8> {
    seq![123u8, 34u8, 116u8, 121u8, 112u8, 101u8, 34u8, 58u8, 34u8, 115u8, 119u8, 97u8, 114u8, 109u8, 95u8, 115u8, 101u8, 116u8, 116u8, 105u8, 110u8, 103u8, 115u8, 34u8, 44u8, 34u8, 112u8, 97u8, 121u8, 108u8, 111u8, 97u8, 100u8, 34u8, 58u8, 123u8, 34u8, 99u8, 111u8, 104u8, 101u8, 115u8, 105u8, 111u8, 110u8, 34u8, 58u8]
}

pub fn mk_sim_settings_open() -> (r: Vec<u8>)
    ensures
        r@ == k_sim_settings_open(),
{
    let v: Vec<u8> = vec![123u8, 34u8, 116u8, 121u8, 112u8, 101u8, 34u8, 58u8, 34u8, 115u8, 119u8, 97u8, 114u8, 109u8, 95u8, 115u8, 101u8, 116u8, 116u8, 105u8, 110u8, 103u8, 115u8, 34u8, 44u8, 34u8, 112u8, 97u8, 121u8, 108u8, 111u8, 97u8, 100u8, 34u8, 58u8, 123u8, 34u8, 99u8, 111u8, 104u8, 101u8, 115u8, 105u8, 111u8, 110u8, 34u8, 58u8];
    proof {
        assert(v@ =~= k_sim_settings_open());
    }
    v
}

/// `,"separation":`
pub open spec fn k_sep_separation() -> Seq<u8> {
    seq![44u8, 34u8, 115u8, 101u8, 112u8, 97u8, 114u8, 97u8, 116u8, 105u8, 111u8, 110u8, 34u8, 58u8]
}

pub fn mk_sep_separation() -> (r: Vec<u8>)
    ensures
        r@ == k_sep_separation(),
{
    let v: Vec<u8> = vec![44u8, 34u8, 115u8, 101u8, 112u8, 97u8, 114u8, 97u8, 116u8, 105u8, 111u8, 110u8, 34u8, 58u8];
    proof {
        assert(v@ =~= k_sep_separation());
    }
    v
}

/// `,"alignment":`
pub open spec fn k_sep_alignment() -> Seq<u8> {
    seq![44u8, 34u8, 97u8, 108u8, 105u8, 103u8, 110u8, 109u8, 101u8, 110u8, 116u8, 34u8, 58u8]
}

pub fn mk_sep_alignment() -> (r: Vec<u8>)
    ensures
        r@ == k_sep_alignment(),
{
    let v: Vec<u8> = vec![44u8, 34u8, 97u8, 108u8, 105u8, 103u8, 110u8, 109u8, 101u8, 110u8, 116u8, 34u8, 58u8];
    proof {
        assert(v@ =~= k_sep_alignment());
    }
    v
}

/// `,"max_speed":`
pub open spec fn k_sep_max_speed() -> Seq<u8> {
    seq![44u8, 34u8, 109u8, 97u8, 120u8, 95u8, 115u8, 112u8, 101u8, 101u8, 100u8, 34u8, 58u8]
}

pub fn mk_sep_max_speed() -> (r: Vec<u8>)
    ensures
        r@ == k_sep_max_speed(),
{
    let v: Vec<u8> = vec![44u8, 34u8, 109u8, 97u8, 120u8, 95u8, 115u8, 112u8, 101u8, 101u8, 100u8, 34u8, 58u8];
    proof {
        assert(v@ =~= k_sep_max_speed());
    }
    v
}

/// `,"target_altitude":`
pub open spec fn k_sep_target_altitude() -> Seq<u8> {
    seq![44u8, 34u8, 116u8, 97u8, 114u8, 103u8, 101u8, 116u8, 95u8, 97u8, 108u8, 116u8, 105u8, 116u8, 117u8, 100u8, 101u8, 34u8, 58u8]
}

pub fn mk_sep_target_altitude() -> (r: Vec<u8>)
    ensures
        r@ == k_sep_target_altitude(),
{
    let v: Vec<u8> = vec![44u8, 34u8, 116u8, 97u8, 114u8, 103u8, 101u8, 116u8, 95u8, 97u8, 108u8, 116u8, 105u8, 116u8, 117u8, 100u8, 101u8, 34u8, 58u8];
    proof {
        assert(v@ =~= k_sep_target_altitude());
    }
    v
}

/// `,"swarm_size":`
pub open spec fn k_sep_swarm_size() -> Seq<u8> {
    seq![44u8, 34u8, 115u8, 119u8, 97u8, 114u8, 109u8, 95u8, 115u8, 105u8, 122u8, 101u8, 34u8, 58u8]
}

pub fn mk_sep_swarm_size() -> (r: Vec<u8>)
    ensures
        r@ == k_sep_swarm_size(),
{
    let v: Vec<u8> = vec![44u8, 34u8, 115u8, 119u8, 97u8, 114u8, 109u8, 95u8, 115u8, 105u8, 122u8, 101u8, 34u8, 58u8];
    proof {
        assert(v@ =~= k_sep_swarm_size());
    }
    v
}

/// `move_leader`
pub open spec fn k_move_leader() -> Seq<u8> {
    seq![109u8, 111u8, 118u8, 101u8, 95u8, 108u8, 101u8, 97u8, 100u8, 101u8, 114u8]
}

pub fn mk_move_leader() -> (r: Vec<u8>)
    ensures
        r@ == k_move_leader(),
{
    let v: Vec<u8> = vec![109u8, 111u8, 118u8, 101u8, 95u8, 108u8, 101u8, 97u8, 100u8, 101u8, 114u8];
    proof {
        assert(v@ =~= k_move_leader());
    }
    v
}

/// `altitude_change`
pub open spec fn k_altitude_change() -> Seq<u8> {
    seq![97u8, 108u8, 116u8, 105u8, 116u8, 117u8, 100u8, 101u8, 95u8, 99u8, 104u8, 97u8, 110u8, 103u8, 101u8]
}

pub fn mk_altitude_change() -> (r: Vec<u8>)
    ensures
        r@ == k_altitude_change(),
{
    let v: Vec<u8> = vec![97u8, 108u8, 116u8, 105u8, 116u8, 117u8, 100u8, 101u8, 95u8, 99u8, 104u8, 97u8, 110u8, 103u8, 101u8];
    proof {
        assert(v@ =~= k_altitude_change());
    }
    v
}

/// `flight_mode`
pub open spec fn k_flight_mode() -> Seq<u8> {
    seq![102u8, 108u8, 105u8, 103u8, 104u8, 116u8, 95u8, 109u8, 111u8, 100u8, 101u8]
}

pub fn mk_flight_mode() -> (r: Vec<u8>)
    ensures
        r@ == k_flight_mode(),
{
    let v: Vec<u8> = vec![102u8, 108u8, 105u8, 103u8, 104u8, 116u8, 95u8, 109u8, 111u8, 100u8, 101u8];
    proof {
        assert(v@ =~= k_flight_mode());
    }
    v
}

/// `0.0.0.0`
pub open spec fn k_default_bind() -> Seq<u8> {
    seq![48u8, 46u8, 48u8, 46u8, 48u8, 46u8, 48u8]
}

pub fn mk_default_bind() -> (r: Vec<u8>)
    ensures
        r@ == k_default_bind(),
{
    let v: Vec<u8> = vec![48u8, 46u8, 48u8, 46u8, 48u8, 46u8, 48u8];
    proof {
        assert(v@ =~= k_default_bind());
    }
    v
}
} // verus!
