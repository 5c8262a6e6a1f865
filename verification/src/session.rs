//! Per-connection session logic: the initial snapshot on connect, the
//! routing of each inbound client message, and the handling of each fan-out
//! channel event.  The caller owns the transport: it feeds text frames and
//! channel events in, performs the returned actions, and closes only on
//! transport failure or stream end.

use vstd::prelude::*;
use crate::commands::{bytes_eq, formation_token, move_leader_command, altitude_command,
    flight_mode_command, translate_formation, translate_move_leader, translate_altitude,
    translate_flight_mode};
use crate::fanout::{FanoutChannelV, FanoutReceiver, RecvOutcome, RecvOutcomeV, chan_wf, chan_end,
    send_spec};
use crate::ingest::{TelemetryShared, frame_spec, decode_telemetry};
use crate::json::{field_number, field_raw, field_string, field_is_null, is_json, json_validate,
    get_field_number, get_field_raw, get_field_string, get_field_is_null, ws_count, ws_skip};
use crate::store::{SwarmState, SwarmStateV, SwarmSettings, SwarmSettingsV, UavState, UavStateV,
    opt_view, with_environment, with_last_command, with_settings, upsert_seq};
use crate::text::{k_type, k_payload, k_mode, k_direction, k_amount, k_formation, k_obstacles,
    k_goal, k_cohesion, k_separation, k_alignment, k_max_speed_camel, k_target_altitude_camel,
    k_swarm_size, k_environment, k_command, k_swarm_settings, k_telemetry, k_move_leader,
    k_altitude_change, k_flight_mode, mk_type, mk_payload, mk_mode, mk_direction, mk_amount,
    mk_formation, mk_obstacles, mk_goal, mk_cohesion, mk_separation, mk_alignment,
    mk_max_speed_camel, mk_target_altitude_camel, mk_swarm_size, mk_environment, mk_command,
    mk_swarm_settings, mk_telemetry, mk_move_leader, mk_altitude_change, mk_flight_mode};
use crate::wire::{snapshot_json, snapshot_to_json, environment_json, environment_to_json,
    settings_echo_json, settings_echo_to_json, settings_sim_json, settings_sim_to_json, uav_json,
    uav_to_json};

verus! {

/// What one inbound client message makes the session do: an echo back to the
/// same client, a datagram to the simulator, and a live update to forward.
pub struct SessionStep {
    pub reply: Option<Vec<u8>>,
    pub sim_msg: Option<Vec<u8>>,
    pub update: Option<UavState>,
}

#[verifier::ext_equal]
pub struct SessionStepV {
    pub reply: Option<Seq<u8>>,
    pub sim_msg: Option<Seq<u8>>,
    pub update: Option<UavStateV>,
}

impl View for SessionStep {
    type V = SessionStepV;

    open spec fn view(&self) -> SessionStepV {
        SessionStepV {
            reply: opt_view(self.reply),
            sim_msg: opt_view(self.sim_msg),
            update: match self.update {
                Some(u) => Some(u@),
                None => None,
            },
        }
    }
}

/// A message that is logged and otherwise ignored.
pub open spec fn quiet_step() -> SessionStepV {
    SessionStepV { reply: None, sim_msg: None, update: None }
}

/// A message whose only effect is one datagram to the simulator.
pub open spec fn sim_step(m: Seq<u8>) -> SessionStepV {
    SessionStepV { reply: None, sim_msg: Some(m), update: None }
}

/// The settings payload: all six behaviour numbers, camel-case speed and
/// altitude keys as the UI sends them.
pub open spec fn settings_spec(p: Seq<u8>) -> Option<SwarmSettingsV> {
    match (
        field_number(p, k_cohesion()),
        field_number(p, k_separation()),
        field_number(p, k_alignment()),
        field_number(p, k_max_speed_camel()),
        field_number(p, k_target_altitude_camel()),
        field_number(p, k_swarm_size()),
    ) {
        (Some(c), Some(s), Some(a), Some(m), Some(t), Some(z)) => Some(
            SwarmSettingsV {
                cohesion: c,
                separation: s,
                alignment: a,
                max_speed: m,
                target_altitude: t,
                swarm_size: z,
            },
        ),
        _ => None,
    }
}

pub fn decode_settings(p: &Vec<u8>) -> (r: Option<SwarmSettings>)
    ensures
        (match r {
            Some(st) => settings_spec(p@) == Some(st@),
            None => settings_spec(p@) is None,
        }),
{
    let cohesion = match get_field_number(p, &mk_cohesion()) {
        Some(v) => v,
        None => {
            return None;
        },
    };
    let separation = match get_field_number(p, &mk_separation()) {
        Some(v) => v,
        None => {
            return None;
        },
    };
    let alignment = match get_field_number(p, &mk_alignment()) {
        Some(v) => v,
        None => {
            return None;
        },
    };
    let max_speed = match get_field_number(p, &mk_max_speed_camel()) {
        Some(v) => v,
        None => {
            return None;
        },
    };
    let target_altitude = match get_field_number(p, &mk_target_altitude_camel()) {
        Some(v) => v,
        None => {
            return None;
        },
    };
    let swarm_size = match get_field_number(p, &mk_swarm_size()) {
        Some(v) => v,
        None => {
            return None;
        },
    };
    let st = SwarmSettings { cohesion, separation, alignment, max_speed, target_altitude,
        swarm_size };
    proof {
        assert(settings_spec(p@) == Some(st@));
    }
    Some(st)
}

/// The obstacle replacement an environment message carries: its `obstacles`
/// field when that is an array; anything else leaves the stored list as is.
pub open spec fn env_obstacles_update(s: Seq<u8>) -> Option<Seq<u8>> {
    match field_raw(s, k_obstacles()) {
        None => None,
        Some(o) => if o.len() > 0 && o[0] == 91 {
            Some(o)
        } else {
            None
        },
    }
}

/// The goal replacement an environment message carries: `null` clears the
/// goal, any other value sets it, an absent field leaves it untouched.
pub open spec fn env_goal_update(s: Seq<u8>) -> Option<Option<Seq<u8>>> {
    if field_is_null(s, k_goal()) {
        Some(None)
    } else {
        match field_raw(s, k_goal()) {
            Some(g) => Some(Some(g)),
            None => None,
        }
    }
}

/// Routing of a command payload: known command kinds go to the simulator;
/// anything else is recorded as the last command.
pub open spec fn command_step(sw: SwarmStateV, cmd: Seq<u8>) -> (SwarmStateV, SessionStepV) {
    match field_string(cmd, k_type()) {
        Some(ct) => {
            if ct == k_formation() {
                match field_string(cmd, k_mode()) {
                    Some(m) => match formation_token(m) {
                        Some(tok) => (sw, sim_step(tok)),
                        None => (sw, quiet_step()),
                    },
                    None => (sw, quiet_step()),
                }
            } else if ct == k_move_leader() {
                match field_string(cmd, k_direction()) {
                    Some(d) => (sw, sim_step(move_leader_command(d))),
                    None => (sw, quiet_step()),
                }
            } else if ct == k_altitude_change() {
                match field_number(cmd, k_amount()) {
                    Some(a) => (sw, sim_step(altitude_command(a))),
                    None => (sw, quiet_step()),
                }
            } else if ct == k_flight_mode() {
                match field_string(cmd, k_mode()) {
                    Some(m) => (sw, sim_step(flight_mode_command(m))),
                    None => (sw, quiet_step()),
                }
            } else {
                (with_last_command(sw, cmd), quiet_step())
            }
        },
        None => {
            match field_string(cmd, k_formation()) {
                Some(f) => match formation_token(f) {
                    Some(tok) => (sw, sim_step(tok)),
                    None => (sw, quiet_step()),
                },
                None => (with_last_command(sw, cmd), quiet_step()),
            }
        },
    }
}

/// What one inbound text message does to the store, the channel, and the
/// session's own outputs.
pub open spec fn step_spec(sw: SwarmStateV, ch: FanoutChannelV, s: Seq<u8>) -> (
    SwarmStateV,
    FanoutChannelV,
    SessionStepV,
) {
    if !is_json(s) {
        (sw, ch, quiet_step())
    } else if field_string(s, k_type()) == Some(k_environment()) {
        (with_environment(sw, env_obstacles_update(s), env_goal_update(s)), ch, quiet_step())
    } else {
        match field_string(s, k_type()) {
            Some(t) => {
                if t == k_command() {
                    match field_raw(s, k_payload()) {
                        Some(cmd) => {
                            let (sw2, st) = command_step(sw, cmd);
                            (sw2, ch, st)
                        },
                        None => (sw, ch, quiet_step()),
                    }
                } else if t == k_swarm_settings() {
                    match field_raw(s, k_payload()) {
                        Some(p) => match settings_spec(p) {
                            Some(st) => (
                                with_settings(sw, st),
                                ch,
                                SessionStepV {
                                    reply: Some(settings_echo_json(st)),
                                    sim_msg: Some(settings_sim_json(st)),
                                    update: None,
                                },
                            ),
                            None => (sw, ch, quiet_step()),
                        },
                        None => (sw, ch, quiet_step()),
                    }
                } else if t == k_telemetry() {
                    match field_raw(s, k_payload()) {
                        Some(p) => match frame_spec(p, None) {
                            Some(u) => (
                                SwarmStateV { uavs: upsert_seq(sw.uavs, u), ..sw },
                                send_spec(ch, u),
                                SessionStepV { reply: None, sim_msg: None, update: Some(u) },
                            ),
                            None => (sw, ch, quiet_step()),
                        },
                        None => (sw, ch, quiet_step()),
                    }
                } else {
                    (sw, ch, quiet_step())
                }
            },
            None => (sw, ch, quiet_step()),
        }
    }
}

fn quiet() -> (r: SessionStep)
    ensures
        r@ == quiet_step(),
{
    let r = SessionStep { reply: None, sim_msg: None, update: None };
    proof {
        assert(r@ =~= quiet_step());
    }
    r
}

/// Handle one inbound text message: apply its effect to the store and the
/// channel and return the session's own actions.  A malformed message is
/// logged and ignored; the connection stays open.
#[verifier::rlimit(100)]
pub fn on_client_text(shared: &mut TelemetryShared, text: &Vec<u8>) -> (step: SessionStep)
    requires
        old(shared).wf(),
        chan_end(old(shared).tx@) < u64::MAX,
    ensures
        final(shared).wf(),
        ({
            let (sw2, ch2, st2) = step_spec(old(shared).swarm@, old(shared).tx@, text@);
            final(shared).swarm@ == sw2 && final(shared).tx@ == ch2 && step@ == st2
        }),
{
    let ghost sw0 = shared.swarm@;
    let ghost ch0 = shared.tx@;
    let ghost expect = step_spec(sw0, ch0, text@);
    if !json_validate(text) {
        return quiet();
    }
    let is_env = match get_field_string(text, &mk_type()) {
        Some(t) => bytes_eq(&t, &mk_environment()),
        None => false,
    };
    if is_env {
        let obs: Option<Vec<u8>> = match get_field_raw(text, &mk_obstacles()) {
            Some(o) => {
                if o.len() > 0 && o[0] == 91 {
                    Some(o)
                } else {
                    None
                }
            },
            None => None,
        };
        let goal_up: Option<Option<Vec<u8>>> = if get_field_is_null(text, &mk_goal()) {
            Some(None)
        } else {
            match get_field_raw(text, &mk_goal()) {
                Some(g) => Some(Some(g)),
                None => None,
            }
        };
        proof {
            assert(opt_view(obs) == env_obstacles_update(text@));
            assert(crate::store::opt_opt_view(goal_up) == env_goal_update(text@));
        }
        shared.swarm.apply_environment(obs, goal_up);
        proof {
            assert(final(shared).swarm@ == expect.0);
        }
        return quiet();
    }
    let t = match get_field_string(text, &mk_type()) {
        Some(t) => t,
        None => {
            return quiet();
        },
    };
    if bytes_eq(&t, &mk_command()) {
        let cmd = match get_field_raw(text, &mk_payload()) {
            Some(c) => c,
            None => {
                return quiet();
            },
        };
        match get_field_string(&cmd, &mk_type()) {
            Some(ct) => {
                if bytes_eq(&ct, &mk_formation()) {
                    match get_field_string(&cmd, &mk_mode()) {
                        Some(m) => match translate_formation(&m) {
                            Some(tok) => {
                                let r = SessionStep { reply: None, sim_msg: Some(tok),
                                    update: None };
                                proof {
                                    assert(r@ =~= expect.2);
                                }
                                r
                            },
                            None => quiet(),
                        },
                        None => quiet(),
                    }
                } else if bytes_eq(&ct, &mk_move_leader()) {
                    match get_field_string(&cmd, &mk_direction()) {
                        Some(d) => {
                            let msg = translate_move_leader(&d);
                            let r = SessionStep { reply: None, sim_msg: Some(msg), update: None };
                            proof {
                                assert(r@ =~= expect.2);
                            }
                            r
                        },
                        None => quiet(),
                    }
                } else if bytes_eq(&ct, &mk_altitude_change()) {
                    match get_field_number(&cmd, &mk_amount()) {
                        Some(a) => {
                            let msg = translate_altitude(&a);
                            let r = SessionStep { reply: None, sim_msg: Some(msg), update: None };
                            proof {
                                assert(r@ =~= expect.2);
                            }
                            r
                        },
                        None => quiet(),
                    }
                } else if bytes_eq(&ct, &mk_flight_mode()) {
                    match get_field_string(&cmd, &mk_mode()) {
                        Some(m) => {
                            let msg = translate_flight_mode(&m);
                            let r = SessionStep { reply: None, sim_msg: Some(msg), update: None };
                            proof {
                                assert(r@ =~= expect.2);
                            }
                            r
                        },
                        None => quiet(),
                    }
                } else {
                    shared.swarm.apply_command(cmd);
                    proof {
                        assert(final(shared).swarm@ == expect.0);
                    }
                    quiet()
                }
            },
            None => {
                match get_field_string(&cmd, &mk_formation()) {
                    Some(f) => match translate_formation(&f) {
                        Some(tok) => {
                            let r = SessionStep { reply: None, sim_msg: Some(tok), update: None };
                            proof {
                                assert(r@ =~= expect.2);
                            }
                            r
                        },
                        None => quiet(),
                    },
                    None => {
                        shared.swarm.apply_command(cmd);
                        proof {
                            assert(final(shared).swarm@ == expect.0);
                        }
                        quiet()
                    },
                }
            },
        }
    } else if bytes_eq(&t, &mk_swarm_settings()) {
        let p = match get_field_raw(text, &mk_payload()) {
            Some(p) => p,
            None => {
                return quiet();
            },
        };
        let st = match decode_settings(&p) {
            Some(st) => st,
            None => {
                return quiet();
            },
        };
        let echo = settings_echo_to_json(&st);
        let sim = settings_sim_to_json(&st);
        shared.swarm.apply_settings(st);
        let r = SessionStep { reply: Some(echo), sim_msg: Some(sim), update: None };
        proof {
            assert(final(shared).swarm@ == expect.0);
            assert(r@ =~= expect.2);
        }
        r
    } else if bytes_eq(&t, &mk_telemetry()) {
        let p = match get_field_raw(text, &mk_payload()) {
            Some(p) => p,
            None => {
                return quiet();
            },
        };
        let u = match decode_telemetry(&p) {
            Some(u) => u,
            None => {
                return quiet();
            },
        };
        let copy = u.duplicate();
        shared.swarm.upsert_uav(u);
        let copy2 = copy.duplicate();
        shared.tx.send(copy);
        let r = SessionStep { reply: None, sim_msg: None, update: Some(copy2) };
        proof {
            assert(final(shared).swarm@ =~= expect.0);
            assert(final(shared).tx@ == expect.1);
            assert(r@ =~= expect.2);
        }
        r
    } else {
        quiet()
    }
}

/// Whether a stored obstacle text is the empty array.
pub open spec fn obstacles_empty(o: Seq<u8>) -> bool {
    o.len() >= 2 && o[0] == 91 && 1 + ws_count(o, 1) == o.len() - 1 && o[o.len() - 1] == 93
}

fn obstacles_is_empty(o: &Vec<u8>) -> (r: bool)
    ensures
        r == obstacles_empty(o@),
{
    if o.len() < 2 || o[0] != 91 {
        return false;
    }
    let a = ws_skip(o, 1);
    a == o.len() - 1 && o[o.len() - 1] == 93
}

/// Whether a store's environment slots hold anything to push on connect.
pub open spec fn env_present(sw: SwarmStateV) -> bool {
    !obstacles_empty(sw.obstacles) || sw.goal is Some
}

/// Entering the session: subscribe and take the snapshot in one step, so no
/// update published after it can be missed, then push the environment if any
/// is set.
pub fn on_connect(shared: &TelemetryShared) -> (r: (FanoutReceiver, Vec<u8>, Option<Vec<u8>>))
    requires
        shared.wf(),
    ensures
        r.0.next as nat == chan_end(shared.tx@),
        r.1@ == snapshot_json(shared.swarm@.uavs),
        (match r.2 {
            Some(m) => env_present(shared.swarm@) && m@ == environment_json(
                shared.swarm@.obstacles,
                shared.swarm@.goal,
            ),
            None => !env_present(shared.swarm@),
        }),
{
    let rx = shared.tx.subscribe();
    let list = shared.swarm.list_uavs();
    let snapshot = snapshot_to_json(&list);
    let env = if !obstacles_is_empty(&shared.swarm.obstacles) || shared.swarm.goal.is_some() {
        Some(environment_to_json(&shared.swarm.obstacles, &shared.swarm.goal))
    } else {
        None
    };
    (rx, snapshot, env)
}

/// What one fan-out channel event makes the session do: forward the message,
/// or nothing.  Neither an empty read nor a lag notice closes the session:
/// a lagged reader has been resynchronised and reads on.
pub open spec fn channel_step(ev: RecvOutcomeV) -> (Option<Seq<u8>>, bool) {
    match ev {
        RecvOutcomeV::Msg(u) => (Some(uav_json(u)), false),
        RecvOutcomeV::Lagged(_) => (None, false),
        RecvOutcomeV::Empty => (None, false),
    }
}

pub fn on_channel_event(ev: &RecvOutcome) -> (r: (Option<Vec<u8>>, bool))
    ensures
        ({
            let (m, close) = channel_step(ev@);
            (match r.0 {
                Some(v) => m == Some(v@),
                None => m is None,
            }) && r.1 == close
        }),
{
    match ev {
        RecvOutcome::Msg(u) => (Some(uav_to_json(u)), false),
        RecvOutcome::Lagged(_) => (None, false),
        RecvOutcome::Empty => (None, false),
    }
}

/// A settings update is applied to the store before the step returns, echoed
/// to the session that sent it, forwarded to the simulator, and not
/// broadcast on the fan-out channel.
#[verifier::rlimit(100)]
pub proof fn lemma_settings_update_echoed_not_broadcast(
    sw: SwarmStateV,
    ch: FanoutChannelV,
    s: Seq<u8>,
    p: Seq<u8>,
    st: SwarmSettingsV,
)
    requires
        is_json(s),
        field_string(s, k_type()) == Some(k_swarm_settings()),
        field_raw(s, k_payload()) == Some(p),
        settings_spec(p) == Some(st),
    ensures
        step_spec(sw, ch, s).0 == with_settings(sw, st),
        step_spec(sw, ch, s).0.settings == st,
        step_spec(sw, ch, s).1 == ch,
        step_spec(sw, ch, s).2.reply == Some(settings_echo_json(st)),
        step_spec(sw, ch, s).2.sim_msg == Some(settings_sim_json(st)),
        step_spec(sw, ch, s).2.update is None,
{
    assert(k_swarm_settings() != k_environment()) by {
        assert(k_swarm_settings().len() == 14);
        assert(k_environment().len() == 11);
    }
    assert(k_swarm_settings() != k_command()) by {
        assert(k_swarm_settings().len() == 14);
        assert(k_command().len() == 7);
    }
    let r = step_spec(sw, ch, s);
    assert(r.0 == with_settings(sw, st));
    assert(r.1 == ch);
    assert(r.2 =~= SessionStepV {
        reply: Some(settings_echo_json(st)),
        sim_msg: Some(settings_sim_json(st)),
        update: None,
    });
}

/// A formation command routes through the translator: a known mode produces
/// exactly one outbound simulator datagram holding that mode's token, an
/// unknown mode produces none; the store and the channel are untouched
/// either way.
#[verifier::rlimit(100)]
pub proof fn lemma_formation_command_routing(
    sw: SwarmStateV,
    ch: FanoutChannelV,
    s: Seq<u8>,
    cmd: Seq<u8>,
    m: Seq<u8>,
)
    requires
        is_json(s),
        field_string(s, k_type()) == Some(k_command()),
        field_raw(s, k_payload()) == Some(cmd),
        field_string(cmd, k_type()) == Some(k_formation()),
        field_string(cmd, k_mode()) == Some(m),
    ensures
        step_spec(sw, ch, s).0 == sw,
        step_spec(sw, ch, s).1 == ch,
        step_spec(sw, ch, s).2.reply is None,
        step_spec(sw, ch, s).2.update is None,
        step_spec(sw, ch, s).2.sim_msg == formation_token(m),
{
    assert(k_command() != k_environment()) by {
        assert(k_command().len() == 7);
        assert(k_environment().len() == 11);
    }
    match formation_token(m) {
        Some(tok) => {
            assert(step_spec(sw, ch, s).2 =~= sim_step(tok));
        },
        None => {
            assert(step_spec(sw, ch, s).2 =~= quiet_step());
        },
    }
}

} // verus!
