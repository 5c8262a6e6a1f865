//! The datagram ingest step: decode an inbound frame, upsert it into the
//! store and publish it on the fan-out channel.  A malformed datagram changes
//! nothing; the caller's receive loop carries on.

use vstd::prelude::*;
use crate::clock::{rfc3339_ok, parse_rfc3339_ok, now_rfc3339};
use crate::fanout::{FanoutChannel, chan_wf, chan_end, send_spec};
use crate::json::{field_number, field_raw, field_string, has_field, get_field_number,
    get_field_raw, get_field_string, get_has_field};
use crate::store::{Position, PositionV, SwarmState, UavState, UavStateV, Velocity, VelocityV,
    upsert_seq, map_of};
use crate::text::{k_id, k_position, k_velocity, k_timestamp, k_x, k_y, k_z, k_vx, k_vy, k_vz,
    mk_id, mk_position, mk_velocity, mk_timestamp, mk_x, mk_y, mk_z, mk_vx, mk_vy, mk_vz};
use crate::wire::{u64_lexeme, parse_u64};

verus! {

/// The shared handles of the relay: the store and the fan-out channel.
pub struct TelemetryShared {
    pub swarm: SwarmState,
    pub tx: FanoutChannel,
}

impl TelemetryShared {
    pub open spec fn wf(&self) -> bool {
        self.swarm.wf() && chan_wf(self.tx@)
    }

    pub fn new(capacity: usize) -> (r: TelemetryShared)
        requires
            capacity >= 1,
        ensures
            r.swarm@.uavs =~= Seq::<UavStateV>::empty(),
            r.swarm@.settings == crate::store::default_settings(),
            r.swarm@.obstacles == crate::store::empty_obstacles(),
            r.swarm@.goal is None,
            r.swarm@.last_command is None,
            r.tx@.cap == capacity as nat,
            chan_end(r.tx@) == 0,
            r.wf(),
    {
        TelemetryShared { swarm: SwarmState::new(), tx: FanoutChannel::new(capacity) }
    }
}

/// The position object of a wire frame: three numbers.
pub open spec fn position_spec(p: Seq<u8>) -> Option<PositionV> {
    match (field_number(p, k_x()), field_number(p, k_y()), field_number(p, k_z())) {
        (Some(x), Some(y), Some(z)) => Some(PositionV { x, y, z }),
        _ => None,
    }
}

/// The velocity object of a wire frame: three numbers.
pub open spec fn velocity_spec(p: Seq<u8>) -> Option<VelocityV> {
    match (field_number(p, k_vx()), field_number(p, k_vy()), field_number(p, k_vz())) {
        (Some(vx), Some(vy), Some(vz)) => Some(VelocityV { vx, vy, vz }),
        _ => None,
    }
}

/// The untrusted wire representation of one telemetry frame: what an inbound
/// datagram decodes to before it becomes an `UavState`.  The timestamp is
/// the wire's own when it carries one.
pub struct TelemetryFrame {
    pub id: u64,
    pub position: Position,
    pub velocity: Velocity,
    pub timestamp: Option<Vec<u8>>,
}

#[verifier::ext_equal]
pub struct TelemetryFrameV {
    pub id: u64,
    pub position: PositionV,
    pub velocity: VelocityV,
    pub timestamp: Option<Seq<u8>>,
}

impl View for TelemetryFrame {
    type V = TelemetryFrameV;

    open spec fn view(&self) -> TelemetryFrameV {
        TelemetryFrameV {
            id: self.id,
            position: self.position@,
            velocity: self.velocity@,
            timestamp: crate::store::opt_view(self.timestamp),
        }
    }
}

/// The frame's own timestamp: absent, or a well-formed RFC 3339 string;
/// a present but ill-formed one makes the whole frame malformed.
pub open spec fn wire_timestamp_spec(s: Seq<u8>) -> Option<Option<Seq<u8>>> {
    if has_field(s, k_timestamp()) {
        match field_string(s, k_timestamp()) {
            None => None,
            Some(t) => if rfc3339_ok(t) {
                Some(Some(t))
            } else {
                None
            },
        }
    } else {
        Some(None)
    }
}

/// What a wire frame decodes to: identifier, position, velocity and optional
/// timestamp, or nothing when any part is missing or malformed.
pub open spec fn wire_frame_spec(s: Seq<u8>) -> Option<TelemetryFrameV> {
    match field_number(s, k_id()) {
        None => None,
        Some(lx) => match u64_lexeme(lx) {
            None => None,
            Some(id) => match field_raw(s, k_position()) {
                None => None,
                Some(p) => match position_spec(p) {
                    None => None,
                    Some(position) => match field_raw(s, k_velocity()) {
                        None => None,
                        Some(v) => match velocity_spec(v) {
                            None => None,
                            Some(velocity) => match wire_timestamp_spec(s) {
                                None => None,
                                Some(timestamp) => Some(
                                    TelemetryFrameV { id, position, velocity, timestamp },
                                ),
                            },
                        },
                    },
                },
            },
        },
    }
}

/// The state a wire frame becomes: its own timestamp when it carries one,
/// else the receipt timestamp when one is allowed.
pub open spec fn frame_spec(s: Seq<u8>, now: Option<Seq<u8>>) -> Option<UavStateV> {
    match wire_frame_spec(s) {
        None => None,
        Some(f) => match f.timestamp {
            Some(t) => Some(
                UavStateV { id: f.id, position: f.position, velocity: f.velocity, timestamp: t },
            ),
            None => match now {
                Some(n) => Some(
                    UavStateV {
                        id: f.id,
                        position: f.position,
                        velocity: f.velocity,
                        timestamp: n,
                    },
                ),
                None => None,
            },
        },
    }
}

fn decode_position(p: &Vec<u8>) -> (r: Option<Position>)
    ensures
        (match r {
            Some(q) => position_spec(p@) == Some(q@),
            None => position_spec(p@) is None,
        }),
{
    let x = match get_field_number(p, &mk_x()) {
        Some(v) => v,
        None => {
            return None;
        },
    };
    let y = match get_field_number(p, &mk_y()) {
        Some(v) => v,
        None => {
            return None;
        },
    };
    let z = match get_field_number(p, &mk_z()) {
        Some(v) => v,
        None => {
            return None;
        },
    };
    let q = Position { x, y, z };
    proof {
        assert(position_spec(p@) == Some(q@));
    }
    Some(q)
}

fn decode_velocity(p: &Vec<u8>) -> (r: Option<Velocity>)
    ensures
        (match r {
            Some(q) => velocity_spec(p@) == Some(q@),
            None => velocity_spec(p@) is None,
        }),
{
    let vx = match get_field_number(p, &mk_vx()) {
        Some(v) => v,
        None => {
            return None;
        },
    };
    let vy = match get_field_number(p, &mk_vy()) {
        Some(v) => v,
        None => {
            return None;
        },
    };
    let vz = match get_field_number(p, &mk_vz()) {
        Some(v) => v,
        None => {
            return None;
        },
    };
    let q = Velocity { vx, vy, vz };
    proof {
        assert(velocity_spec(p@) == Some(q@));
    }
    Some(q)
}

/// Decode one wire frame; `now` is the receipt timestamp used when the frame
/// carries none.
pub fn decode_frame(s: &Vec<u8>, now: Vec<u8>) -> (r: Option<UavState>)
    ensures
        (match r {
            Some(u) => frame_spec(s@, Some(now@)) == Some(u@),
            None => frame_spec(s@, Some(now@)) is None,
        }),
{
    match decode_wire_frame(s) {
        None => None,
        Some(f) => {
            let ts = match f.timestamp {
                Some(t) => t,
                None => now,
            };
            let u = UavState { id: f.id, position: f.position, velocity: f.velocity,
                timestamp: ts };
            proof {
                assert(frame_spec(s@, Some(now@)) == Some(u@));
            }
            Some(u)
        },
    }
}

/// Decode a telemetry message that must carry its own timestamp.
pub fn decode_telemetry(s: &Vec<u8>) -> (r: Option<UavState>)
    ensures
        (match r {
            Some(u) => frame_spec(s@, None) == Some(u@),
            None => frame_spec(s@, None) is None,
        }),
{
    match decode_wire_frame(s) {
        None => None,
        Some(f) => match f.timestamp {
            Some(t) => {
                let u = UavState { id: f.id, position: f.position, velocity: f.velocity,
                    timestamp: t };
                proof {
                    assert(frame_spec(s@, None) == Some(u@));
                }
                Some(u)
            },
            None => None,
        },
    }
}

/// Decode the wire representation itself.
pub fn decode_wire_frame(s: &Vec<u8>) -> (r: Option<TelemetryFrame>)
    ensures
        (match r {
            Some(f) => wire_frame_spec(s@) == Some(f@),
            None => wire_frame_spec(s@) is None,
        }),
{
    let lx = match get_field_number(s, &mk_id()) {
        Some(v) => v,
        None => {
            return None;
        },
    };
    let id = match parse_u64(&lx) {
        Some(v) => v,
        None => {
            return None;
        },
    };
    let praw = match get_field_raw(s, &mk_position()) {
        Some(v) => v,
        None => {
            return None;
        },
    };
    let position = match decode_position(&praw) {
        Some(v) => v,
        None => {
            return None;
        },
    };
    let vraw = match get_field_raw(s, &mk_velocity()) {
        Some(v) => v,
        None => {
            return None;
        },
    };
    let velocity = match decode_velocity(&vraw) {
        Some(v) => v,
        None => {
            return None;
        },
    };
    let timestamp: Option<Vec<u8>> = if get_has_field(s, &mk_timestamp()) {
        let t = match get_field_string(s, &mk_timestamp()) {
            Some(v) => v,
            None => {
                return None;
            },
        };
        if !parse_rfc3339_ok(&t) {
            return None;
        }
        Some(t)
    } else {
        None
    };
    let f = TelemetryFrame { id, position, velocity, timestamp };
    proof {
        assert(wire_frame_spec(s@) == Some(f@));
    }
    Some(f)
}

/// One ingest step for one datagram, with the receipt timestamp supplied:
/// a decoded frame is upserted and published; a malformed datagram changes
/// neither the store nor the channel.
pub fn ingest_frame(shared: &mut TelemetryShared, data: &Vec<u8>, now: Vec<u8>) -> (r: Option<
    UavState,
>)
    requires
        old(shared).wf(),
        chan_end(old(shared).tx@) < u64::MAX,
    ensures
        final(shared).wf(),
        (match frame_spec(data@, Some(now@)) {
            None => *final(shared) == *old(shared) && r is None,
            Some(u) => {
                &&& (match r {
                    Some(ru) => ru@ == u,
                    None => false,
                })
                &&& final(shared).swarm@.uavs == upsert_seq(old(shared).swarm@.uavs, u)
                &&& map_of(final(shared).swarm@.uavs) =~= map_of(old(shared).swarm@.uavs).insert(
                    u.id,
                    u,
                )
                &&& final(shared).swarm@.settings == old(shared).swarm@.settings
                &&& final(shared).swarm@.obstacles == old(shared).swarm@.obstacles
                &&& final(shared).swarm@.goal == old(shared).swarm@.goal
                &&& final(shared).swarm@.last_command == old(shared).swarm@.last_command
                &&& final(shared).tx@ == send_spec(old(shared).tx@, u)
            },
        }),
{
    match decode_frame(data, now) {
        Some(u) => {
            let copy = u.duplicate();
            shared.swarm.upsert_uav(u);
            let copy2 = copy.duplicate();
            shared.tx.send(copy);
            Some(copy2)
        },
        None => None,
    }
}

/// One ingest step for one datagram, stamping frames that carry no timestamp
/// with the moment of receipt.
pub fn ingest_datagram(shared: &mut TelemetryShared, data: &Vec<u8>) -> (r: Option<UavState>)
    requires
        old(shared).wf(),
        chan_end(old(shared).tx@) < u64::MAX,
    ensures
        final(shared).wf(),
        frame_spec(data@, None) is Some ==> (match frame_spec(data@, None) {
            Some(u) => r is Some && (match r {
                Some(ru) => ru@ == u,
                None => false,
            }),
            None => true,
        }),
        r is None ==> *final(shared) == *old(shared),
        (match wire_frame_spec(data@) {
            None => r is None,
            Some(f) => (match r {
                Some(ru) => ru@.id == f.id && ru@.position == f.position && ru@.velocity
                    == f.velocity && (match f.timestamp {
                    Some(t) => ru@.timestamp == t,
                    None => true,
                }),
                None => false,
            }),
        }),
        (match r {
            Some(ru) => {
                &&& final(shared).swarm@.uavs == upsert_seq(old(shared).swarm@.uavs, ru@)
                &&& map_of(final(shared).swarm@.uavs) =~= map_of(old(shared).swarm@.uavs).insert(
                    ru@.id,
                    ru@,
                )
                &&& final(shared).swarm@.settings == old(shared).swarm@.settings
                &&& final(shared).swarm@.obstacles == old(shared).swarm@.obstacles
                &&& final(shared).swarm@.goal == old(shared).swarm@.goal
                &&& final(shared).swarm@.last_command == old(shared).swarm@.last_command
                &&& final(shared).tx@ == send_spec(old(shared).tx@, ru@)
            },
            None => true,
        }),
{
    let now = now_rfc3339();
    ingest_frame(shared, data, now)
}

} // verus!
