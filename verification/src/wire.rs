//! Building the relay's outbound wire messages, byte-exact: the UAV state
//! JSON, the snapshot array, the environment push, the settings echo and the
//! simulator's snake-case settings envelope.

use vstd::prelude::*;
use crate::json::is_digit;
use crate::store::{UavState, UavStateV, SwarmSettings, SwarmSettingsV, deep_uavs};
use crate::text::{k_echo_open, k_env_goal, k_env_open, k_null, k_obj_close2, k_sep_alignment, k_sep_max_speed, k_sep_separation, k_sep_swarm_size, k_sep_target_altitude, k_sim_settings_open, k_uav_close, k_uav_open, k_uav_position, k_uav_timestamp, k_uav_velocity, k_uav_vy, k_uav_vz, k_uav_y, k_uav_z, mk_echo_open, mk_env_goal, mk_env_open, mk_null, mk_obj_close2, mk_sep_alignment, mk_sep_max_speed, mk_sep_separation, mk_sep_swarm_size, mk_sep_target_altitude, mk_sim_settings_open, mk_uav_close, mk_uav_open, mk_uav_position, mk_uav_timestamp, mk_uav_velocity, mk_uav_vy, mk_uav_vz, mk_uav_y, mk_uav_z};

verus! {

/// The decimal digits of a number, most significant first.
pub open spec fn dec_digits(n: nat) -> Seq<u8>
    decreases n,
{
    if n < 10 {
        seq![(48 + n) as u8]
    } else {
        dec_digits(n / 10).push((48 + n % 10) as u8)
    }
}

pub open spec fn all_digits(s: Seq<u8>) -> bool {
    forall|k: int| 0 <= k < s.len() ==> is_digit(s[k])
}

/// The value of a digit string.
pub open spec fn dec_val(s: Seq<u8>) -> int
    decreases s.len(),
{
    if s.len() == 0 {
        0
    } else {
        dec_val(s.drop_last()) * 10 + (s.last() - 48)
    }
}

pub open spec fn pow10(k: nat) -> nat
    decreases k,
{
    if k == 0 {
        1
    } else {
        10 * pow10((k - 1) as nat)
    }
}

/// The identifier a digit string denotes, when it is short enough to be one.
pub open spec fn u64_lexeme(s: Seq<u8>) -> Option<u64> {
    if 1 <= s.len() <= 19 && all_digits(s) {
        Some(dec_val(s) as u64)
    } else {
        None
    }
}

pub proof fn lemma_dec_val_bound(s: Seq<u8>)
    requires
        all_digits(s),
    ensures
        0 <= dec_val(s) < pow10(s.len()),
    decreases s.len(),
{
    if s.len() > 0 {
        assert(all_digits(s.drop_last()));
        lemma_dec_val_bound(s.drop_last());
        assert(is_digit(s.last()));
    }
}

pub proof fn lemma_pow10_mono(a: nat, b: nat)
    requires
        a <= b,
    ensures
        pow10(a) <= pow10(b),
    decreases b,
{
    if a < b {
        lemma_pow10_mono(a, (b - 1) as nat);
        assert(pow10(b) == 10 * pow10((b - 1) as nat));
    }
}

pub proof fn lemma_pow10_19()
    ensures
        pow10(19) == 10_000_000_000_000_000_000,
{
    reveal_with_fuel(pow10, 21);
}

/// Parse a decimal identifier; digit strings longer than 19 places are out of
/// the identifier range this relay carries.
pub fn parse_u64(s: &Vec<u8>) -> (r: Option<u64>)
    ensures
        r == u64_lexeme(s@),
{
    if s.len() < 1 || s.len() > 19 {
        return None;
    }
    let mut acc: u64 = 0;
    let mut k: usize = 0;
    while k < s.len()
        invariant
            k <= s.len(),
            1 <= s.len() <= 19,
            all_digits(s@.subrange(0, k as int)),
            acc == dec_val(s@.subrange(0, k as int)),
            acc < pow10(k as nat),
        decreases s.len() - k,
    {
        let b = s[k];
        if !(48 <= b && b <= 57) {
            return None;
        }
        proof {
            lemma_pow10_mono(k as nat, 18);
            lemma_pow10_19();
            assert(pow10(18) == pow10(19) / 10);
            assert(acc < 1_000_000_000_000_000_000);
        }
        acc = acc * 10 + ((b - 48) as u64);
        proof {
            assert(s@.subrange(0, k as int + 1).drop_last() =~= s@.subrange(0, k as int));
            assert(s@.subrange(0, k as int + 1).last() == b);
            assert(all_digits(s@.subrange(0, k as int + 1)));
        }
        k = k + 1;
    }
    proof {
        assert(s@.subrange(0, s@.len() as int) =~= s@);
        lemma_dec_val_bound(s@);
    }
    Some(acc)
}

/// Append the decimal digits of `n`.
pub fn push_u64_dec(out: &mut Vec<u8>, n: u64)
    ensures
        final(out)@ == old(out)@ + dec_digits(n as nat),
    decreases n,
{
    if n < 10 {
        out.push((48 + n) as u8);
        proof {
            assert(final(out)@ =~= old(out)@ + dec_digits(n as nat));
        }
    } else {
        push_u64_dec(out, n / 10);
        out.push(48 + (n % 10) as u8);
        proof {
            assert((n / 10) as nat == n as nat / 10);
            assert((n % 10) as nat == n as nat % 10);
            assert(final(out)@ =~= old(out)@ + dec_digits(n as nat));
        }
    }
}

pub open spec fn lower_byte(b: u8) -> u8 {
    if 65 <= b && b <= 90 {
        (b + 32) as u8
    } else {
        b
    }
}

/// ASCII case folding, the case normalisation this relay applies to command
/// words.
pub open spec fn ascii_lower(s: Seq<u8>) -> Seq<u8> {
    s.map_values(|b: u8| lower_byte(b))
}

pub fn to_ascii_lower(s: &Vec<u8>) -> (r: Vec<u8>)
    ensures
        r@ == ascii_lower(s@),
{
    let mut r: Vec<u8> = Vec::new();
    let mut k: usize = 0;
    while k < s.len()
        invariant
            k <= s.len(),
            r@.len() == k,
            forall|m: int| 0 <= m < k ==> r@[m] == lower_byte(s@[m]),
        decreases s.len() - k,
    {
        let b = s[k];
        if 65 <= b && b <= 90 {
            r.push(b + 32);
        } else {
            r.push(b);
        }
        k = k + 1;
    }
    proof {
        assert(r@ =~= ascii_lower(s@));
    }
    r
}

/// Append a byte string.
pub fn push_bytes(out: &mut Vec<u8>, add: &Vec<u8>)
    ensures
        final(out)@ == old(out)@ + add@,
{
    let mut k: usize = 0;
    while k < add.len()
        invariant
            k <= add.len(),
            out@ == old(out)@ + add@.subrange(0, k as int),
        decreases add.len() - k,
    {
        out.push(add[k]);
        proof {
            assert(out@ =~= old(out)@ + add@.subrange(0, k as int + 1));
        }
        k = k + 1;
    }
    proof {
        assert(add@.subrange(0, add@.len() as int) =~= add@);
    }
}

/// The JSON text of one UAV state, as sent in live updates and snapshots.
pub open spec fn uav_json(u: UavStateV) -> Seq<u8> {
    k_uav_open() + dec_digits(u.id as nat) + k_uav_position() + u.position.x + k_uav_y()
        + u.position.y + k_uav_z() + u.position.z + k_uav_velocity() + u.velocity.vx + k_uav_vy()
        + u.velocity.vy + k_uav_vz() + u.velocity.vz + k_uav_timestamp() + u.timestamp
        + k_uav_close()
}

pub fn uav_to_json(u: &UavState) -> (r: Vec<u8>)
    ensures
        r@ == uav_json(u@),
{
    let mut out: Vec<u8> = mk_uav_open();
    push_u64_dec(&mut out, u.id);
    push_bytes(&mut out, &mk_uav_position());
    push_bytes(&mut out, &u.position.x);
    push_bytes(&mut out, &mk_uav_y());
    push_bytes(&mut out, &u.position.y);
    push_bytes(&mut out, &mk_uav_z());
    push_bytes(&mut out, &u.position.z);
    push_bytes(&mut out, &mk_uav_velocity());
    push_bytes(&mut out, &u.velocity.vx);
    push_bytes(&mut out, &mk_uav_vy());
    push_bytes(&mut out, &u.velocity.vy);
    push_bytes(&mut out, &mk_uav_vz());
    push_bytes(&mut out, &u.velocity.vz);
    push_bytes(&mut out, &mk_uav_timestamp());
    push_bytes(&mut out, &u.timestamp);
    push_bytes(&mut out, &mk_uav_close());
    out
}

/// The items of a snapshot array, comma separated.
pub open spec fn uav_items_json(us: Seq<UavStateV>) -> Seq<u8>
    decreases us.len(),
{
    if us.len() == 0 {
        Seq::empty()
    } else if us.len() == 1 {
        uav_json(us[0])
    } else {
        uav_items_json(us.drop_last()) + seq![44u8] + uav_json(us.last())
    }
}

/// The snapshot sent to a newly connected session: the JSON array of every
/// known UAV state.
pub open spec fn snapshot_json(us: Seq<UavStateV>) -> Seq<u8> {
    seq![91u8] + uav_items_json(us) + seq![93u8]
}

pub fn snapshot_to_json(us: &Vec<UavState>) -> (r: Vec<u8>)
    ensures
        r@ == snapshot_json(deep_uavs(us@)),
{
    let mut out: Vec<u8> = Vec::new();
    out.push(91u8);
    let mut k: usize = 0;
    while k < us.len()
        invariant
            k <= us.len(),
            out@ == seq![91u8] + uav_items_json(deep_uavs(us@).subrange(0, k as int)),
        decreases us.len() - k,
    {
        if k > 0 {
            out.push(44u8);
        }
        let item = uav_to_json(&us[k]);
        push_bytes(&mut out, &item);
        proof {
            let pre = deep_uavs(us@).subrange(0, k as int);
            let cur = deep_uavs(us@).subrange(0, k as int + 1);
            assert(cur.drop_last() =~= pre);
            assert(cur.last() == us@[k as int]@);
            if k == 0 {
                assert(uav_items_json(cur) == uav_json(cur[0]));
                assert(cur[0] == us@[0]@);
            }
            assert(out@ =~= seq![91u8] + uav_items_json(cur));
        }
        k = k + 1;
    }
    out.push(93u8);
    proof {
        assert(deep_uavs(us@).subrange(0, us@.len() as int) =~= deep_uavs(us@));
        assert(out@ =~= snapshot_json(deep_uavs(us@)));
    }
    out
}

/// The environment push: obstacles and goal, the goal `null` when unset.
pub open spec fn environment_json(obstacles: Seq<u8>, goal: Option<Seq<u8>>) -> Seq<u8> {
    k_env_open() + obstacles + k_env_goal() + (match goal {
        Some(g) => g,
        None => k_null(),
    }) + k_obj_close2()
}

pub fn environment_to_json(obstacles: &Vec<u8>, goal: &Option<Vec<u8>>) -> (r: Vec<u8>)
    ensures
        r@ == environment_json(obstacles@, crate::store::opt_view(*goal)),
{
    let mut out: Vec<u8> = mk_env_open();
    push_bytes(&mut out, obstacles);
    push_bytes(&mut out, &mk_env_goal());
    match goal {
        Some(g) => push_bytes(&mut out, g),
        None => push_bytes(&mut out, &mk_null()),
    }
    push_bytes(&mut out, &mk_obj_close2());
    out
}

/// The settings echo sent back to the session that applied a settings update.
pub open spec fn settings_echo_json(s: SwarmSettingsV) -> Seq<u8> {
    k_echo_open() + s.cohesion + k_sep_separation() + s.separation + k_sep_alignment()
        + s.alignment + k_sep_max_speed() + s.max_speed + k_sep_target_altitude()
        + s.target_altitude + k_obj_close2()
}

pub fn settings_echo_to_json(s: &SwarmSettings) -> (r: Vec<u8>)
    ensures
        r@ == settings_echo_json(s@),
{
    let mut out: Vec<u8> = mk_echo_open();
    push_bytes(&mut out, &s.cohesion);
    push_bytes(&mut out, &mk_sep_separation());
    push_bytes(&mut out, &s.separation);
    push_bytes(&mut out, &mk_sep_alignment());
    push_bytes(&mut out, &s.alignment);
    push_bytes(&mut out, &mk_sep_max_speed());
    push_bytes(&mut out, &s.max_speed);
    push_bytes(&mut out, &mk_sep_target_altitude());
    push_bytes(&mut out, &s.target_altitude);
    push_bytes(&mut out, &mk_obj_close2());
    out
}

/// The settings envelope for the simulator, snake-case keys throughout: the
/// simulator's expected casing, a deliberate boundary translation.
pub open spec fn settings_sim_json(s: SwarmSettingsV) -> Seq<u8> {
    k_sim_settings_open() + s.cohesion + k_sep_separation() + s.separation + k_sep_alignment()
        + s.alignment + k_sep_max_speed() + s.max_speed + k_sep_target_altitude()
        + s.target_altitude + k_sep_swarm_size() + s.swarm_size + k_obj_close2()
}

pub fn settings_sim_to_json(s: &SwarmSettings) -> (r: Vec<u8>)
    ensures
        r@ == settings_sim_json(s@),
{
    let mut out: Vec<u8> = mk_sim_settings_open();
    push_bytes(&mut out, &s.cohesion);
    push_bytes(&mut out, &mk_sep_separation());
    push_bytes(&mut out, &s.separation);
    push_bytes(&mut out, &mk_sep_alignment());
    push_bytes(&mut out, &s.alignment);
    push_bytes(&mut out, &mk_sep_max_speed());
    push_bytes(&mut out, &s.max_speed);
    push_bytes(&mut out, &mk_sep_target_altitude());
    push_bytes(&mut out, &s.target_altitude);
    push_bytes(&mut out, &mk_sep_swarm_size());
    push_bytes(&mut out, &s.swarm_size);
    push_bytes(&mut out, &mk_obj_close2());
    out
}

} // verus!
