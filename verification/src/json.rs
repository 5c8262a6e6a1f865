//! Byte-level JSON handling for the relay's wire formats.
//!
//! The relay never computes with the values it carries, so the codec works on
//! the raw bytes: it checks that a message is well-formed JSON, finds the
//! value of a named field in a top-level object, and hands back that value's
//! exact text.  String values are kept as their raw (still escaped) content
//! and numbers as their decimal text, so a relayed value is reproduced byte
//! for byte.  Nesting deeper than `MAX_DEPTH` is rejected, as common JSON
//! decoders do.

use vstd::prelude::*;

verus! {

pub const MAX_DEPTH: u32 = 128;

pub open spec fn is_ws(b: u8) -> bool {
    b == 32 || b == 9 || b == 10 || b == 13
}

pub open spec fn is_digit(b: u8) -> bool {
    48 <= b && b <= 57
}

pub open spec fn is_hex(b: u8) -> bool {
    is_digit(b) || (65 <= b && b <= 70) || (97 <= b && b <= 102)
}

/// A one-character escape: `" \ / b f n r t`.
pub open spec fn is_simple_escape(b: u8) -> bool {
    b == 34 || b == 92 || b == 47 || b == 98 || b == 102 || b == 110 || b == 114 || b == 116
}

/// How many whitespace bytes stand at position `i`.
pub open spec fn ws_count(s: Seq<u8>, i: int) -> nat
    decreases s.len() - i,
{
    if 0 <= i && i < s.len() && is_ws(s[i]) {
        1 + ws_count(s, i + 1)
    } else {
        0
    }
}

/// How many decimal digits stand at position `i`.
pub open spec fn digit_count(s: Seq<u8>, i: int) -> nat
    decreases s.len() - i,
{
    if 0 <= i && i < s.len() && is_digit(s[i]) {
        1 + digit_count(s, i + 1)
    } else {
        0
    }
}

/// Length of the fraction part starting at `k`, if well-formed: nothing, or a
/// point followed by at least one digit.
pub open spec fn frac_len(s: Seq<u8>, k: int) -> Option<nat> {
    if 0 <= k && k < s.len() && s[k] == 46 {
        let d = digit_count(s, k + 1);
        if d == 0 {
            None
        } else {
            Some(1 + d)
        }
    } else {
        Some(0)
    }
}

/// Length of the exponent part starting at `k`, if well-formed.
pub open spec fn exp_len(s: Seq<u8>, k: int) -> Option<nat> {
    if 0 <= k && k < s.len() && (s[k] == 101 || s[k] == 69) {
        let sgn: nat = if 0 <= k + 1 && k + 1 < s.len() && (s[k + 1] == 43 || s[k + 1] == 45) {
            1
        } else {
            0
        };
        let d = digit_count(s, k + 1 + sgn);
        if d == 0 {
            None
        } else {
            Some(1 + sgn + d)
        }
    } else {
        Some(0)
    }
}

/// Length of the JSON number starting at `i`, if one does.
pub open spec fn number_len(s: Seq<u8>, i: int) -> Option<nat> {
    let neg: nat = if 0 <= i && i < s.len() && s[i] == 45 {
        1
    } else {
        0
    };
    let j = i + neg;
    if !(0 <= j && j < s.len() && is_digit(s[j])) {
        None
    } else {
        let ip: nat = if s[j] == 48 {
            1
        } else {
            digit_count(s, j)
        };
        match frac_len(s, j + ip) {
            None => None,
            Some(f) => match exp_len(s, j + ip + f) {
                None => None,
                Some(x) => Some(neg + ip + f + x),
            },
        }
    }
}

/// Length of a string body starting right after the opening quote, up to and
/// including the closing quote.  Escapes are checked but left in place.
pub open spec fn string_body_len(s: Seq<u8>, i: int) -> Option<nat>
    decreases s.len() - i,
{
    if !(0 <= i && i < s.len()) {
        None
    } else if s[i] == 34 {
        Some(1)
    } else if s[i] == 92 {
        if i + 1 < s.len() && is_simple_escape(s[i + 1]) {
            match string_body_len(s, i + 2) {
                None => None,
                Some(n) => Some(n + 2),
            }
        } else if i + 1 < s.len() && s[i + 1] == 117 && i + 5 < s.len() && is_hex(s[i + 2])
            && is_hex(s[i + 3]) && is_hex(s[i + 4]) && is_hex(s[i + 5]) {
            match string_body_len(s, i + 6) {
                None => None,
                Some(n) => Some(n + 6),
            }
        } else {
            None
        }
    } else if s[i] >= 32 {
        match string_body_len(s, i + 1) {
            None => None,
            Some(n) => Some(n + 1),
        }
    } else {
        None
    }
}

/// Length of the JSON value starting at `i` (no leading whitespace), given a
/// remaining nesting budget.
pub open spec fn value_len(s: Seq<u8>, i: int, depth: nat) -> Option<nat>
    decreases depth, s.len() - i, 0int,
{
    if !(0 <= i && i < s.len()) {
        None
    } else if s[i] == 34 {
        match string_body_len(s, i + 1) {
            None => None,
            Some(n) => Some(n + 1),
        }
    } else if s[i] == 45 || is_digit(s[i]) {
        number_len(s, i)
    } else if s[i] == 116 {
        if i + 3 < s.len() && s[i + 1] == 114 && s[i + 2] == 117 && s[i + 3] == 101 {
            Some(4)
        } else {
            None
        }
    } else if s[i] == 102 {
        if i + 4 < s.len() && s[i + 1] == 97 && s[i + 2] == 108 && s[i + 3] == 115 && s[i + 4]
            == 101 {
            Some(5)
        } else {
            None
        }
    } else if s[i] == 110 {
        if i + 3 < s.len() && s[i + 1] == 117 && s[i + 2] == 108 && s[i + 3] == 108 {
            Some(4)
        } else {
            None
        }
    } else if s[i] == 91 {
        if depth == 0 {
            None
        } else {
            let a = i + 1 + ws_count(s, i + 1);
            if a < s.len() && s[a] == 93 {
                Some((a + 1 - i) as nat)
            } else {
                match items_len(s, i + 1, (depth - 1) as nat) {
                    None => None,
                    Some(n) => Some(n + 1),
                }
            }
        }
    } else if s[i] == 123 {
        if depth == 0 {
            None
        } else {
            let a = i + 1 + ws_count(s, i + 1);
            if a < s.len() && s[a] == 125 {
                Some((a + 1 - i) as nat)
            } else {
                match members_len(s, i + 1, (depth - 1) as nat) {
                    None => None,
                    Some(n) => Some(n + 1),
                }
            }
        }
    } else {
        None
    }
}

/// Length of an array tail: items from `i` (after `[` or a comma) up to and
/// including the closing bracket.
pub open spec fn items_len(s: Seq<u8>, i: int, depth: nat) -> Option<nat>
    decreases depth, s.len() - i, 1int,
{
    if i < 0 {
        None
    } else {
        let a = i + ws_count(s, i);
        if a >= s.len() {
            None
        } else {
            match value_len(s, a, depth) {
                None => None,
                Some(n) => {
                    let b = a + n + ws_count(s, a + n);
                    if b < s.len() && s[b] == 44 {
                        match items_len(s, b + 1, depth) {
                            None => None,
                            Some(m) => Some((b + 1 - i + m) as nat),
                        }
                    } else if b < s.len() && s[b] == 93 {
                        Some((b + 1 - i) as nat)
                    } else {
                        None
                    }
                },
            }
        }
    }
}

/// Length of an object tail: members from `i` (after `{` or a comma) up to
/// and including the closing brace.
pub open spec fn members_len(s: Seq<u8>, i: int, depth: nat) -> Option<nat>
    decreases depth, s.len() - i, 1int,
{
    if i < 0 {
        None
    } else {
        let a = i + ws_count(s, i);
        if !(a < s.len() && s[a] == 34) {
            None
        } else {
            match string_body_len(s, a + 1) {
                None => None,
                Some(kn) => {
                    let c = a + 1 + kn + ws_count(s, a + 1 + kn);
                    if !(c < s.len() && s[c] == 58) {
                        None
                    } else {
                        let v = c + 1 + ws_count(s, c + 1);
                        if v >= s.len() {
                            None
                        } else {
                            match value_len(s, v, depth) {
                                None => None,
                                Some(n) => {
                                    let b = v + n + ws_count(s, v + n);
                                    if b < s.len() && s[b] == 44 {
                                        match members_len(s, b + 1, depth) {
                                            None => None,
                                            Some(m) => Some((b + 1 - i + m) as nat),
                                        }
                                    } else if b < s.len() && s[b] == 125 {
                                        Some((b + 1 - i) as nat)
                                    } else {
                                        None
                                    }
                                },
                            }
                        }
                    }
                },
            }
        }
    }
}

/// The span of the single JSON value a whole message holds, allowing
/// surrounding whitespace.
pub open spec fn json_span(s: Seq<u8>) -> Option<(int, int)> {
    let i = ws_count(s, 0) as int;
    match value_len(s, i, MAX_DEPTH as nat) {
        None => None,
        Some(n) => {
            if i + n + ws_count(s, i + n) == s.len() {
                Some((i, i + n))
            } else {
                None
            }
        },
    }
}

/// Whether a whole message is one well-formed JSON value.
pub open spec fn is_json(s: Seq<u8>) -> bool {
    json_span(s) is Some
}

/// The value span of the last member named `key`, searching members from `i`.
pub open spec fn find_from(s: Seq<u8>, i: int, depth: nat, key: Seq<u8>) -> Option<(int, int)>
    decreases depth, s.len() - i, 2int,
{
    if i < 0 {
        None
    } else {
        let a = i + ws_count(s, i);
        if !(a < s.len() && s[a] == 34) {
            None
        } else {
            match string_body_len(s, a + 1) {
                None => None,
                Some(kn) => {
                    let name = s.subrange(a + 1, a + kn);
                    let c = a + 1 + kn + ws_count(s, a + 1 + kn);
                    if !(c < s.len() && s[c] == 58) {
                        None
                    } else {
                        let v = c + 1 + ws_count(s, c + 1);
                        if v >= s.len() {
                            None
                        } else {
                            match value_len(s, v, depth) {
                                None => None,
                                Some(n) => {
                                    let here: Option<(int, int)> = if name == key {
                                        Some((v, v + n))
                                    } else {
                                        None
                                    };
                                    let b = v + n + ws_count(s, v + n);
                                    if b < s.len() && s[b] == 44 {
                                        match find_from(s, b + 1, depth, key) {
                                            Some(sp) => Some(sp),
                                            None => here,
                                        }
                                    } else if b < s.len() && s[b] == 125 {
                                        here
                                    } else {
                                        None
                                    }
                                },
                            }
                        }
                    }
                },
            }
        }
    }
}

/// The value span of field `key` when the whole message is one JSON object;
/// the last member wins when a key repeats.
pub open spec fn obj_field(s: Seq<u8>, key: Seq<u8>) -> Option<(int, int)> {
    if !is_json(s) {
        None
    } else {
        let i = ws_count(s, 0) as int;
        if !(i < s.len() && s[i] == 123) {
            None
        } else {
            let a = i + 1 + ws_count(s, i + 1);
            if a < s.len() && s[a] == 125 {
                None
            } else {
                find_from(s, i + 1, (MAX_DEPTH - 1) as nat, key)
            }
        }
    }
}

/// The raw text of field `key`: the exact bytes of its value.
pub open spec fn field_raw(s: Seq<u8>, key: Seq<u8>) -> Option<Seq<u8>> {
    match obj_field(s, key) {
        None => None,
        Some(sp) => Some(s.subrange(sp.0, sp.1)),
    }
}

/// The still-escaped content of field `key` when its value is a string.
pub open spec fn field_string(s: Seq<u8>, key: Seq<u8>) -> Option<Seq<u8>> {
    match obj_field(s, key) {
        None => None,
        Some(sp) => if s[sp.0] == 34 {
            Some(s.subrange(sp.0 + 1, sp.1 - 1))
        } else {
            None
        },
    }
}

/// The decimal text of field `key` when its value is a number.
pub open spec fn field_number(s: Seq<u8>, key: Seq<u8>) -> Option<Seq<u8>> {
    match obj_field(s, key) {
        None => None,
        Some(sp) => if s[sp.0] == 45 || is_digit(s[sp.0]) {
            Some(s.subrange(sp.0, sp.1))
        } else {
            None
        },
    }
}

/// Whether field `key` is present with the value `null`.
pub open spec fn field_is_null(s: Seq<u8>, key: Seq<u8>) -> bool {
    match obj_field(s, key) {
        None => false,
        Some(sp) => s[sp.0] == 110,
    }
}

/// Whether field `key` is present at all.
pub open spec fn has_field(s: Seq<u8>, key: Seq<u8>) -> bool {
    obj_field(s, key) is Some
}

pub open spec fn opt_add(o: Option<nat>, d: nat) -> Option<nat> {
    match o {
        Some(n) => Some(n + d),
        None => None,
    }
}

pub open spec fn opt_or(a: Option<(int, int)>, b: Option<(int, int)>) -> Option<(int, int)> {
    match a {
        Some(sp) => Some(sp),
        None => b,
    }
}

pub open spec fn opt_span_view(o: Option<(usize, usize)>) -> Option<(int, int)> {
    match o {
        Some(sp) => Some((sp.0 as int, sp.1 as int)),
        None => None,
    }
}

pub fn ws_skip(s: &Vec<u8>, i: usize) -> (r: usize)
    requires
        i <= s.len(),
    ensures
        i <= r <= s.len(),
        r == i + ws_count(s@, i as int),
{
    let mut j = i;
    while j < s.len() && (s[j] == 32 || s[j] == 9 || s[j] == 10 || s[j] == 13)
        invariant
            i <= j <= s.len(),
            i + ws_count(s@, i as int) == j + ws_count(s@, j as int),
        decreases s.len() - j,
    {
        proof {
            assert(ws_count(s@, j as int) == 1 + ws_count(s@, j as int + 1));
        }
        j = j + 1;
    }
    proof {
        assert(ws_count(s@, j as int) == 0);
    }
    j
}

pub fn digit_skip(s: &Vec<u8>, i: usize) -> (r: usize)
    requires
        i <= s.len(),
    ensures
        i <= r <= s.len(),
        r == i + digit_count(s@, i as int),
{
    let mut j = i;
    while j < s.len() && 48 <= s[j] && s[j] <= 57
        invariant
            i <= j <= s.len(),
            i + digit_count(s@, i as int) == j + digit_count(s@, j as int),
        decreases s.len() - j,
    {
        proof {
            assert(digit_count(s@, j as int) == 1 + digit_count(s@, j as int + 1));
        }
        j = j + 1;
    }
    proof {
        assert(digit_count(s@, j as int) == 0);
    }
    j
}

pub fn scan_number(s: &Vec<u8>, i: usize) -> (r: Option<usize>)
    requires
        i <= s.len(),
    ensures
        (match r {
            Some(j) => i < j <= s.len() && number_len(s@, i as int) == Some((j - i) as nat),
            None => number_len(s@, i as int) is None,
        }),
{
    let mut j = i;
    if j < s.len() && s[j] == 45 {
        j = j + 1;
    }
    if !(j < s.len() && 48 <= s[j] && s[j] <= 57) {
        return None;
    }
    let k = if s[j] == 48 {
        j + 1
    } else {
        digit_skip(s, j)
    };
    let k2 = if k < s.len() && s[k] == 46 {
        let d = digit_skip(s, k + 1);
        if d == k + 1 {
            return None;
        }
        d
    } else {
        k
    };
    let k3 = if k2 < s.len() && (s[k2] == 101 || s[k2] == 69) {
        let e0 = if s.len() - k2 > 1 && (s[k2 + 1] == 43 || s[k2 + 1] == 45) {
            k2 + 2
        } else {
            k2 + 1
        };
        let d = digit_skip(s, e0);
        if d == e0 {
            return None;
        }
        d
    } else {
        k2
    };
    Some(k3)
}

fn esc_simple(b: u8) -> (r: bool)
    ensures
        r == is_simple_escape(b),
{
    b == 34 || b == 92 || b == 47 || b == 98 || b == 102 || b == 110 || b == 114 || b == 116
}

fn hex_digit(b: u8) -> (r: bool)
    ensures
        r == is_hex(b),
{
    (48 <= b && b <= 57) || (65 <= b && b <= 70) || (97 <= b && b <= 102)
}

pub fn scan_string_body(s: &Vec<u8>, i: usize) -> (r: Option<usize>)
    requires
        i <= s.len(),
    ensures
        (match r {
            Some(j) => i < j <= s.len() && string_body_len(s@, i as int) == Some((j - i) as nat),
            None => string_body_len(s@, i as int) is None,
        }),
{
    let mut j = i;
    loop
        invariant
            i <= j <= s.len(),
            string_body_len(s@, i as int) == opt_add(string_body_len(s@, j as int), (j - i) as nat),
        decreases s.len() - j,
    {
        if j >= s.len() {
            return None;
        }
        let b = s[j];
        if b == 34 {
            return Some(j + 1);
        }
        if b == 92 {
            if s.len() - j > 1 && esc_simple(s[j + 1]) {
                proof {
                    assert(string_body_len(s@, j as int)
                        == opt_add(string_body_len(s@, j as int + 2), 2));
                }
                j = j + 2;
            } else if s.len() - j > 5 && s[j + 1] == 117 && hex_digit(s[j + 2])
                && hex_digit(s[j + 3]) && hex_digit(s[j + 4]) && hex_digit(s[j + 5]) {
                proof {
                    assert(string_body_len(s@, j as int)
                        == opt_add(string_body_len(s@, j as int + 6), 6));
                }
                j = j + 6;
            } else {
                return None;
            }
        } else if b >= 32 {
            proof {
                assert(string_body_len(s@, j as int)
                    == opt_add(string_body_len(s@, j as int + 1), 1));
            }
            j = j + 1;
        } else {
            return None;
        }
    }
}

pub fn scan_value(s: &Vec<u8>, i: usize, depth: u32) -> (r: Option<usize>)
    requires
        i <= s.len(),
    ensures
        (match r {
            Some(j) => i < j <= s.len() && value_len(s@, i as int, depth as nat) == Some(
                (j - i) as nat,
            ),
            None => value_len(s@, i as int, depth as nat) is None,
        }),
    decreases depth, s.len() - i, 0int,
{
    if i >= s.len() {
        return None;
    }
    let b = s[i];
    if b == 34 {
        scan_string_body(s, i + 1)
    } else if b == 45 || (48 <= b && b <= 57) {
        scan_number(s, i)
    } else if b == 116 {
        if s.len() - i > 3 && s[i + 1] == 114 && s[i + 2] == 117 && s[i + 3] == 101 {
            Some(i + 4)
        } else {
            None
        }
    } else if b == 102 {
        if s.len() - i > 4 && s[i + 1] == 97 && s[i + 2] == 108 && s[i + 3] == 115 && s[i + 4]
            == 101 {
            Some(i + 5)
        } else {
            None
        }
    } else if b == 110 {
        if s.len() - i > 3 && s[i + 1] == 117 && s[i + 2] == 108 && s[i + 3] == 108 {
            Some(i + 4)
        } else {
            None
        }
    } else if b == 91 {
        if depth == 0 {
            return None;
        }
        let a = ws_skip(s, i + 1);
        if a < s.len() && s[a] == 93 {
            Some(a + 1)
        } else {
            scan_items(s, i + 1, depth - 1)
        }
    } else if b == 123 {
        if depth == 0 {
            return None;
        }
        let a = ws_skip(s, i + 1);
        if a < s.len() && s[a] == 125 {
            Some(a + 1)
        } else {
            scan_members(s, i + 1, depth - 1)
        }
    } else {
        None
    }
}

pub fn scan_items(s: &Vec<u8>, i: usize, depth: u32) -> (r: Option<usize>)
    requires
        i <= s.len(),
    ensures
        (match r {
            Some(j) => i < j <= s.len() && items_len(s@, i as int, depth as nat) == Some(
                (j - i) as nat,
            ),
            None => items_len(s@, i as int, depth as nat) is None,
        }),
    decreases depth, s.len() - i, 1int,
{
    let mut p = i;
    loop
        invariant
            i <= p <= s.len(),
            items_len(s@, i as int, depth as nat) == opt_add(
                items_len(s@, p as int, depth as nat),
                (p - i) as nat,
            ),
        decreases s.len() - p,
    {
        let a = ws_skip(s, p);
        if a >= s.len() {
            return None;
        }
        let jv = match scan_value(s, a, depth) {
            Some(j) => j,
            None => {
                return None;
            },
        };
        let b2 = ws_skip(s, jv);
        if b2 < s.len() && s[b2] == 44 {
            proof {
                assert(items_len(s@, p as int, depth as nat) == opt_add(
                    items_len(s@, b2 as int + 1, depth as nat),
                    (b2 + 1 - p) as nat,
                ));
            }
            p = b2 + 1;
        } else if b2 < s.len() && s[b2] == 93 {
            return Some(b2 + 1);
        } else {
            return None;
        }
    }
}

pub fn scan_members(s: &Vec<u8>, i: usize, depth: u32) -> (r: Option<usize>)
    requires
        i <= s.len(),
    ensures
        (match r {
            Some(j) => i < j <= s.len() && members_len(s@, i as int, depth as nat) == Some(
                (j - i) as nat,
            ),
            None => members_len(s@, i as int, depth as nat) is None,
        }),
    decreases depth, s.len() - i, 1int,
{
    let mut p = i;
    loop
        invariant
            i <= p <= s.len(),
            members_len(s@, i as int, depth as nat) == opt_add(
                members_len(s@, p as int, depth as nat),
                (p - i) as nat,
            ),
        decreases s.len() - p,
    {
        let a = ws_skip(s, p);
        if !(a < s.len() && s[a] == 34) {
            return None;
        }
        let ke = match scan_string_body(s, a + 1) {
            Some(j) => j,
            None => {
                return None;
            },
        };
        let c = ws_skip(s, ke);
        if !(c < s.len() && s[c] == 58) {
            return None;
        }
        let v = ws_skip(s, c + 1);
        if v >= s.len() {
            return None;
        }
        let jv = match scan_value(s, v, depth) {
            Some(j) => j,
            None => {
                return None;
            },
        };
        let b2 = ws_skip(s, jv);
        if b2 < s.len() && s[b2] == 44 {
            proof {
                assert(members_len(s@, p as int, depth as nat) == opt_add(
                    members_len(s@, b2 as int + 1, depth as nat),
                    (b2 + 1 - p) as nat,
                ));
            }
            p = b2 + 1;
        } else if b2 < s.len() && s[b2] == 125 {
            return Some(b2 + 1);
        } else {
            return None;
        }
    }
}

/// Whether a whole message is one well-formed JSON value.
pub fn json_validate(s: &Vec<u8>) -> (r: bool)
    ensures
        r == is_json(s@),
{
    let i = ws_skip(s, 0);
    match scan_value(s, i, MAX_DEPTH) {
        None => false,
        Some(j) => ws_skip(s, j) == s.len(),
    }
}

pub fn bytes_eq_range(s: &Vec<u8>, lo: usize, hi: usize, key: &Vec<u8>) -> (r: bool)
    requires
        lo <= hi <= s.len(),
    ensures
        r == (s@.subrange(lo as int, hi as int) == key@),
{
    if hi - lo != key.len() {
        proof {
            assert(s@.subrange(lo as int, hi as int).len() == hi - lo);
        }
        return false;
    }
    let mut k: usize = 0;
    while k < key.len()
        invariant
            k <= key.len(),
            lo <= hi <= s.len(),
            hi - lo == key.len(),
            forall|m: int| 0 <= m < k ==> s@[lo + m] == key@[m],
        decreases key.len() - k,
    {
        if s[lo + k] != key[k] {
            proof {
                assert(s@.subrange(lo as int, hi as int)[k as int] == s@[lo + k]);
            }
            return false;
        }
        k = k + 1;
    }
    proof {
        assert(s@.subrange(lo as int, hi as int) =~= key@);
    }
    true
}

/// The exact bytes of `s` between two positions.
pub fn bytes_range(s: &Vec<u8>, lo: usize, hi: usize) -> (r: Vec<u8>)
    requires
        lo <= hi <= s.len(),
    ensures
        r@ == s@.subrange(lo as int, hi as int),
{
    let mut r: Vec<u8> = Vec::new();
    let mut k: usize = lo;
    while k < hi
        invariant
            lo <= k <= hi <= s.len(),
            r@ == s@.subrange(lo as int, k as int),
        decreases hi - k,
    {
        r.push(s[k]);
        proof {
            assert(r@ =~= s@.subrange(lo as int, k as int + 1));
        }
        k = k + 1;
    }
    r
}

/// The value span of field `key` in a message that is one JSON object.
#[verifier::rlimit(100)]
pub fn obj_field_span(s: &Vec<u8>, key: &Vec<u8>) -> (r: Option<(usize, usize)>)
    ensures
        opt_span_view(r) == obj_field(s@, key@),
        (match r {
            Some(sp) => sp.0 < sp.1 <= s.len() && (s@[sp.0 as int] == 34 ==> sp.1 - sp.0 >= 2),
            None => true,
        }),
{
    let i = ws_skip(s, 0);
    let j = match scan_value(s, i, MAX_DEPTH) {
        Some(j) => j,
        None => {
            return None;
        },
    };
    if ws_skip(s, j) != s.len() {
        return None;
    }
    proof {
        assert(is_json(s@));
    }
    if !(i < s.len() && s[i] == 123) {
        return None;
    }
    let a0 = ws_skip(s, i + 1);
    if a0 < s.len() && s[a0] == 125 {
        return None;
    }
    let ghost d: nat = (MAX_DEPTH - 1) as nat;
    let mut p = i + 1;
    let mut best: Option<(usize, usize)> = None;
    proof {
        assert(obj_field(s@, key@) == find_from(s@, p as int, d, key@));
    }
    loop
        invariant
            d == (MAX_DEPTH - 1) as nat,
            i + 1 <= p <= s.len(),
            opt_or(find_from(s@, p as int, d, key@), opt_span_view(best)) == obj_field(s@, key@),
            (match best {
                Some(sp) => sp.0 < sp.1 <= s.len() && (s@[sp.0 as int] == 34 ==> sp.1 - sp.0 >= 2),
                None => true,
            }),
        decreases s.len() - p,
    {
        let ghost ff = find_from(s@, p as int, d, key@);
        let a = ws_skip(s, p);
        if !(a < s.len() && s[a] == 34) {
            proof {
                assert(ff is None);
            }
            return best;
        }
        let ke = match scan_string_body(s, a + 1) {
            Some(x) => x,
            None => {
                proof {
                    assert(ff is None);
                }
                return best;
            },
        };
        let c = ws_skip(s, ke);
        if !(c < s.len() && s[c] == 58) {
            proof {
                assert(ff is None);
            }
            return best;
        }
        let v = ws_skip(s, c + 1);
        if v >= s.len() {
            proof {
                assert(ff is None);
            }
            return best;
        }
        let jv = match scan_value(s, v, MAX_DEPTH - 1) {
            Some(x) => x,
            None => {
                proof {
                    assert(ff is None);
                }
                return best;
            },
        };
        let matched = bytes_eq_range(s, a + 1, ke - 1, key);
        proof {
            assert(s@.subrange(a as int + 1, ke as int - 1)
                == s@.subrange(a as int + 1, a as int + (ke - a - 1)));
            if s@[v as int] == 34 {
                assert(value_len(s@, v as int, d) == Some((jv - v) as nat));
                assert(jv - v >= 2);
            }
        }
        let here: Option<(usize, usize)> = if matched {
            Some((v, jv))
        } else {
            best
        };
        let ghost here_spec: Option<(int, int)> = if s@.subrange(a as int + 1, ke as int - 1)
            == key@ {
            Some((v as int, jv as int))
        } else {
            None
        };
        let b2 = ws_skip(s, jv);
        if b2 < s.len() && s[b2] == 44 {
            proof {
                assert(ff == opt_or(find_from(s@, b2 as int + 1, d, key@), here_spec));
                assert(opt_or(ff, opt_span_view(best)) == opt_or(
                    find_from(s@, b2 as int + 1, d, key@),
                    opt_span_view(here),
                ));
            }
            best = here;
            p = b2 + 1;
        } else if b2 < s.len() && s[b2] == 125 {
            proof {
                assert(ff == here_spec);
                assert(opt_or(ff, opt_span_view(best)) == opt_span_view(here));
            }
            return here;
        } else {
            proof {
                assert(ff is None);
            }
            return best;
        }
    }
}

/// The raw value text of field `key`.
pub fn get_field_raw(s: &Vec<u8>, key: &Vec<u8>) -> (r: Option<Vec<u8>>)
    ensures
        (match r {
            Some(v) => field_raw(s@, key@) == Some(v@),
            None => field_raw(s@, key@) is None,
        }),
{
    match obj_field_span(s, key) {
        Some(sp) => Some(bytes_range(s, sp.0, sp.1)),
        None => None,
    }
}

/// The still-escaped content of string field `key`.
pub fn get_field_string(s: &Vec<u8>, key: &Vec<u8>) -> (r: Option<Vec<u8>>)
    ensures
        (match r {
            Some(v) => field_string(s@, key@) == Some(v@),
            None => field_string(s@, key@) is None,
        }),
{
    match obj_field_span(s, key) {
        Some(sp) => {
            if s[sp.0] == 34 {
                proof {
                    assert(sp.1 - sp.0 >= 2);
                }
                Some(bytes_range(s, sp.0 + 1, sp.1 - 1))
            } else {
                None
            }
        },
        None => None,
    }
}

/// The decimal text of number field `key`.
pub fn get_field_number(s: &Vec<u8>, key: &Vec<u8>) -> (r: Option<Vec<u8>>)
    ensures
        (match r {
            Some(v) => field_number(s@, key@) == Some(v@),
            None => field_number(s@, key@) is None,
        }),
{
    match obj_field_span(s, key) {
        Some(sp) => {
            let b = s[sp.0];
            if b == 45 || (48 <= b && b <= 57) {
                Some(bytes_range(s, sp.0, sp.1))
            } else {
                None
            }
        },
        None => None,
    }
}

/// Whether field `key` is present with the value `null`.
pub fn get_field_is_null(s: &Vec<u8>, key: &Vec<u8>) -> (r: bool)
    ensures
        r == field_is_null(s@, key@),
{
    match obj_field_span(s, key) {
        Some(sp) => s[sp.0] == 110,
        None => false,
    }
}

/// Whether field `key` is present at all.
pub fn get_has_field(s: &Vec<u8>, key: &Vec<u8>) -> (r: bool)
    ensures
        r == has_field(s@, key@),
{
    match obj_field_span(s, key) {
        Some(_) => true,
        None => false,
    }
}

} // verus!
