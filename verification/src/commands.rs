//! The outbound command translator: pure mappings from a client command to
//! the simulator's wire message.

use vstd::prelude::*;
use crate::json::bytes_eq_range;
use crate::text::{k_line, k_vee, k_circle, k_move_leader_prefix, k_altitude_change_prefix,
    k_flight_mode_prefix, mk_line, mk_vee, mk_circle, mk_move_leader_prefix,
    mk_altitude_change_prefix, mk_flight_mode_prefix};
use crate::wire::{ascii_lower, to_ascii_lower, push_bytes};

verus! {

/// Whether two byte strings are equal.
pub fn bytes_eq(a: &Vec<u8>, b: &Vec<u8>) -> (r: bool)
    ensures
        r == (a@ == b@),
{
    let r = bytes_eq_range(a, 0, a.len(), b);
    proof {
        assert(a@.subrange(0, a@.len() as int) =~= a@);
    }
    r
}

/// The simulator's token for a formation mode; an unknown mode has none and
/// is dropped, not sent.
pub open spec fn formation_token(mode: Seq<u8>) -> Option<Seq<u8>> {
    if mode == k_line() {
        Some(k_line())
    } else if mode == k_vee() {
        Some(k_vee())
    } else if mode == k_circle() {
        Some(k_circle())
    } else {
        None
    }
}

pub fn translate_formation(mode: &Vec<u8>) -> (r: Option<Vec<u8>>)
    ensures
        (match r {
            Some(v) => formation_token(mode@) == Some(v@),
            None => formation_token(mode@) is None,
        }),
{
    if bytes_eq(mode, &mk_line()) {
        Some(mk_line())
    } else if bytes_eq(mode, &mk_vee()) {
        Some(mk_vee())
    } else if bytes_eq(mode, &mk_circle()) {
        Some(mk_circle())
    } else {
        None
    }
}

/// `move_leader <direction>`, the direction case-normalised.
pub open spec fn move_leader_command(direction: Seq<u8>) -> Seq<u8> {
    k_move_leader_prefix() + ascii_lower(direction)
}

pub fn translate_move_leader(direction: &Vec<u8>) -> (r: Vec<u8>)
    ensures
        r@ == move_leader_command(direction@),
{
    let mut out = mk_move_leader_prefix();
    let low = to_ascii_lower(direction);
    push_bytes(&mut out, &low);
    out
}

/// `altitude_change <amount>`, the amount's decimal text unchanged.
pub open spec fn altitude_command(amount: Seq<u8>) -> Seq<u8> {
    k_altitude_change_prefix() + amount
}

pub fn translate_altitude(amount: &Vec<u8>) -> (r: Vec<u8>)
    ensures
        r@ == altitude_command(amount@),
{
    let mut out = mk_altitude_change_prefix();
    push_bytes(&mut out, amount);
    out
}

/// `flight_mode <mode>`, the mode case-normalised.
pub open spec fn flight_mode_command(mode: Seq<u8>) -> Seq<u8> {
    k_flight_mode_prefix() + ascii_lower(mode)
}

pub fn translate_flight_mode(mode: &Vec<u8>) -> (r: Vec<u8>)
    ensures
        r@ == flight_mode_command(mode@),
{
    let mut out = mk_flight_mode_prefix();
    let low = to_ascii_lower(mode);
    push_bytes(&mut out, &low);
    out
}

} // verus!
