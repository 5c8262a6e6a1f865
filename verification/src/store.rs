//! The swarm store: the single source of truth for agent state, behaviour
//! settings, environment data and the last diagnostic command.
//!
//! Numeric telemetry values travel through the bridge as their exact decimal
//! wire text, so a relayed value is reproduced byte for byte.

use vstd::prelude::*;
use vstd::pervasive::VecAdditionalExecFns;

verus! {

/// 3D position, each coordinate kept as its JSON number text.
pub struct Position {
    pub x: Vec<u8>,
    pub y: Vec<u8>,
    pub z: Vec<u8>,
}

/// Velocity vector, each component kept as its JSON number text.
pub struct Velocity {
    pub vx: Vec<u8>,
    pub vy: Vec<u8>,
    pub vz: Vec<u8>,
}

/// State of a single UAV as sent to duplex-stream clients.
pub struct UavState {
    pub id: u64,
    pub position: Position,
    pub velocity: Velocity,
    pub timestamp: Vec<u8>,
}

/// Swarm behaviour settings sent from the UI; each field is a JSON number text.
pub struct SwarmSettings {
    pub cohesion: Vec<u8>,
    pub separation: Vec<u8>,
    pub alignment: Vec<u8>,
    pub max_speed: Vec<u8>,
    pub target_altitude: Vec<u8>,
    pub swarm_size: Vec<u8>,
}

#[verifier::ext_equal]
pub struct PositionV {
    pub x: Seq<u8>,
    pub y: Seq<u8>,
    pub z: Seq<u8>,
}

#[verifier::ext_equal]
pub struct VelocityV {
    pub vx: Seq<u8>,
    pub vy: Seq<u8>,
    pub vz: Seq<u8>,
}

#[verifier::ext_equal]
pub struct UavStateV {
    pub id: u64,
    pub position: PositionV,
    pub velocity: VelocityV,
    pub timestamp: Seq<u8>,
}

#[verifier::ext_equal]
pub struct SwarmSettingsV {
    pub cohesion: Seq<u8>,
    pub separation: Seq<u8>,
    pub alignment: Seq<u8>,
    pub max_speed: Seq<u8>,
    pub target_altitude: Seq<u8>,
    pub swarm_size: Seq<u8>,
}

impl View for Position {
    type V = PositionV;

    open spec fn view(&self) -> PositionV {
        PositionV { x: self.x@, y: self.y@, z: self.z@ }
    }
}

impl View for Velocity {
    type V = VelocityV;

    open spec fn view(&self) -> VelocityV {
        VelocityV { vx: self.vx@, vy: self.vy@, vz: self.vz@ }
    }
}

impl View for UavState {
    type V = UavStateV;

    open spec fn view(&self) -> UavStateV {
        UavStateV {
            id: self.id,
            position: self.position@,
            velocity: self.velocity@,
            timestamp: self.timestamp@,
        }
    }
}

impl View for SwarmSettings {
    type V = SwarmSettingsV;

    open spec fn view(&self) -> SwarmSettingsV {
        SwarmSettingsV {
            cohesion: self.cohesion@,
            separation: self.separation@,
            alignment: self.alignment@,
            max_speed: self.max_speed@,
            target_altitude: self.target_altitude@,
            swarm_size: self.swarm_size@,
        }
    }
}

pub fn copy_bytes(v: &Vec<u8>) -> (r: Vec<u8>)
    ensures
        r@ == v@,
{
    v.clone()
}

pub fn copy_opt_bytes(v: &Option<Vec<u8>>) -> (r: Option<Vec<u8>>)
    ensures
        opt_view(r) == opt_view(*v),
{
    match v {
        Some(b) => Some(b.clone()),
        None => None,
    }
}

pub open spec fn opt_view(o: Option<Vec<u8>>) -> Option<Seq<u8>> {
    match o {
        Some(v) => Some(v@),
        None => None,
    }
}

impl UavState {
    pub fn duplicate(&self) -> (r: UavState)
        ensures
            r@ == self@,
    {
        let r = UavState {
            id: self.id,
            position: Position {
                x: self.position.x.clone(),
                y: self.position.y.clone(),
                z: self.position.z.clone(),
            },
            velocity: Velocity {
                vx: self.velocity.vx.clone(),
                vy: self.velocity.vy.clone(),
                vz: self.velocity.vz.clone(),
            },
            timestamp: self.timestamp.clone(),
        };
        proof {
            assert(r@ =~= self@);
        }
        r
    }
}

impl SwarmSettings {
    pub fn duplicate(&self) -> (r: SwarmSettings)
        ensures
            r@ == self@,
    {
        let r = SwarmSettings {
            cohesion: self.cohesion.clone(),
            separation: self.separation.clone(),
            alignment: self.alignment.clone(),
            max_speed: self.max_speed.clone(),
            target_altitude: self.target_altitude.clone(),
            swarm_size: self.swarm_size.clone(),
        };
        proof {
            assert(r@ =~= self@);
        }
        r
    }
}

/// Sequence of record views held by a store.
pub open spec fn deep_uavs(s: Seq<UavState>) -> Seq<UavStateV> {
    s.map_values(|u: UavState| u@)
}

/// The store never holds two records for the same identifier.
pub open spec fn uavs_wf(s: Seq<UavStateV>) -> bool {
    forall|i: int, j: int| 0 <= i < j < s.len() ==> s[i].id != s[j].id
}

/// The mapping from identifier to record described by a record sequence.
pub open spec fn map_of(s: Seq<UavStateV>) -> Map<u64, UavStateV>
    decreases s.len(),
{
    if s.len() == 0 {
        Map::empty()
    } else {
        map_of(s.drop_last()).insert(s.last().id, s.last())
    }
}

pub open spec fn has_id(s: Seq<UavStateV>, id: u64) -> bool {
    exists|i: int| 0 <= i < s.len() && s[i].id == id
}

pub open spec fn id_index(s: Seq<UavStateV>, id: u64) -> int {
    choose|i: int| 0 <= i < s.len() && s[i].id == id
}

/// Inserting or replacing one record: replace in place when the identifier is
/// known, append otherwise.
pub open spec fn upsert_seq(s: Seq<UavStateV>, u: UavStateV) -> Seq<UavStateV> {
    if has_id(s, u.id) {
        s.update(id_index(s, u.id), u)
    } else {
        s.push(u)
    }
}

pub proof fn lemma_map_of_contains(s: Seq<UavStateV>, id: u64)
    ensures
        map_of(s).contains_key(id) <==> has_id(s, id),
    decreases s.len(),
{
    if s.len() > 0 {
        lemma_map_of_contains(s.drop_last(), id);
        if has_id(s.drop_last(), id) {
            let i = choose|i: int| 0 <= i < s.drop_last().len() && s.drop_last()[i].id == id;
            assert(s[i].id == id);
        }
        if has_id(s, id) && s.last().id != id {
            let i = choose|i: int| 0 <= i < s.len() && s[i].id == id;
            assert(s.drop_last()[i].id == id);
        }
    }
}

pub proof fn lemma_map_of_index(s: Seq<UavStateV>, i: int)
    requires
        uavs_wf(s),
        0 <= i < s.len(),
    ensures
        map_of(s).contains_key(s[i].id),
        map_of(s)[s[i].id] == s[i],
    decreases s.len(),
{
    if i < s.len() - 1 {
        assert(uavs_wf(s.drop_last())) by {
            assert(forall|p: int, q: int|
                0 <= p < q < s.drop_last().len() ==> s.drop_last()[p].id != s.drop_last()[q].id);
        }
        assert(s.drop_last()[i] == s[i]);
        lemma_map_of_index(s.drop_last(), i);
        assert(s[i].id != s.last().id);
    }
}

pub proof fn lemma_wf_drop_last(s: Seq<UavStateV>)
    requires
        uavs_wf(s),
        s.len() > 0,
    ensures
        uavs_wf(s.drop_last()),
{
    assert(forall|p: int, q: int|
        0 <= p < q < s.drop_last().len() ==> s.drop_last()[p].id != s.drop_last()[q].id);
}

pub proof fn lemma_map_of_update(s: Seq<UavStateV>, i: int, u: UavStateV)
    requires
        uavs_wf(s),
        0 <= i < s.len(),
        s[i].id == u.id,
    ensures
        map_of(s.update(i, u)) =~= map_of(s).insert(u.id, u),
    decreases s.len(),
{
    let t = s.update(i, u);
    if i == s.len() - 1 {
        assert(t.drop_last() =~= s.drop_last());
        assert(t.last() == u);
    } else {
        lemma_wf_drop_last(s);
        assert(t.drop_last() =~= s.drop_last().update(i, u));
        assert(s.drop_last()[i] == s[i]);
        lemma_map_of_update(s.drop_last(), i, u);
        assert(s.last().id != u.id);
        assert(t.last() == s.last());
        assert(map_of(t) =~= map_of(s.drop_last()).insert(u.id, u).insert(s.last().id, s.last()));
        assert(map_of(s.drop_last()).insert(u.id, u).insert(s.last().id, s.last())
            =~= map_of(s.drop_last()).insert(s.last().id, s.last()).insert(u.id, u));
    }
}

/// Replacing or appending one record updates the identifier map pointwise and
/// keeps identifiers unique.
pub proof fn lemma_upsert_map(s: Seq<UavStateV>, u: UavStateV)
    requires
        uavs_wf(s),
    ensures
        uavs_wf(upsert_seq(s, u)),
        map_of(upsert_seq(s, u)) =~= map_of(s).insert(u.id, u),
        upsert_seq(s, u).len() == if has_id(s, u.id) { s.len() } else { s.len() + 1 },
{
    let t = upsert_seq(s, u);
    if has_id(s, u.id) {
        let i = id_index(s, u.id);
        assert(0 <= i < s.len() && s[i].id == u.id);
        lemma_map_of_update(s, i, u);
        assert(forall|p: int, q: int| 0 <= p < q < t.len() ==> t[p].id != t[q].id) by {
            assert(forall|p: int| 0 <= p < t.len() && p != i ==> t[p] == s[p]);
        }
    } else {
        assert(t.drop_last() =~= s);
        assert(forall|p: int, q: int| 0 <= p < q < t.len() ==> t[p].id != t[q].id) by {
            assert(forall|p: int| 0 <= p < s.len() ==> t[p] == s[p] && s[p].id != u.id);
        }
    }
}

/// The effect of a whole run of upserts, first to last.
pub open spec fn apply_upserts(s: Seq<UavStateV>, ops: Seq<UavStateV>) -> Seq<UavStateV>
    decreases ops.len(),
{
    if ops.len() == 0 {
        s
    } else {
        upsert_seq(apply_upserts(s, ops.drop_last()), ops.last())
    }
}

pub proof fn lemma_apply_upserts_wf(s: Seq<UavStateV>, ops: Seq<UavStateV>)
    requires
        uavs_wf(s),
    ensures
        uavs_wf(apply_upserts(s, ops)),
    decreases ops.len(),
{
    if ops.len() > 0 {
        lemma_apply_upserts_wf(s, ops.drop_last());
        lemma_upsert_map(apply_upserts(s, ops.drop_last()), ops.last());
    }
}

/// Last write wins: after any run of upserts, the record stored under an
/// identifier is exactly the argument of the latest upsert for that
/// identifier, with no merging of fields.
pub proof fn lemma_last_write_wins(s: Seq<UavStateV>, ops: Seq<UavStateV>, k: int)
    requires
        uavs_wf(s),
        0 <= k < ops.len(),
        forall|j: int| k < j < ops.len() ==> ops[j].id != ops[k].id,
    ensures
        map_of(apply_upserts(s, ops)).contains_key(ops[k].id),
        map_of(apply_upserts(s, ops))[ops[k].id] == ops[k],
    decreases ops.len(),
{
    let prev = apply_upserts(s, ops.drop_last());
    lemma_apply_upserts_wf(s, ops.drop_last());
    lemma_upsert_map(prev, ops.last());
    if k < ops.len() - 1 {
        assert(forall|j: int| k < j < ops.drop_last().len() ==> ops.drop_last()[j].id != ops.drop_last()[k].id);
        lemma_last_write_wins(s, ops.drop_last(), k);
        assert(ops.drop_last()[k] == ops[k]);
        assert(ops.last().id != ops[k].id);
    }
}

/// The set of identifiers appearing in a record sequence.
pub open spec fn seq_ids(s: Seq<UavStateV>) -> Set<u64>
    decreases s.len(),
{
    if s.len() == 0 {
        Set::empty()
    } else {
        seq_ids(s.drop_last()).insert(s.last().id)
    }
}

pub proof fn lemma_seq_ids_finite(s: Seq<UavStateV>)
    ensures
        seq_ids(s).finite(),
    decreases s.len(),
{
    if s.len() > 0 {
        lemma_seq_ids_finite(s.drop_last());
    }
}

pub proof fn lemma_seq_ids_contains(s: Seq<UavStateV>, id: u64)
    ensures
        seq_ids(s).contains(id) <==> has_id(s, id),
    decreases s.len(),
{
    if s.len() > 0 {
        lemma_seq_ids_contains(s.drop_last(), id);
        if has_id(s.drop_last(), id) {
            let i = choose|i: int| 0 <= i < s.drop_last().len() && s.drop_last()[i].id == id;
            assert(s[i].id == id);
        }
        if has_id(s, id) && s.last().id != id {
            let i = choose|i: int| 0 <= i < s.len() && s[i].id == id;
            assert(s.drop_last()[i].id == id);
        }
    }
}

pub proof fn lemma_wf_len_is_card(s: Seq<UavStateV>)
    requires
        uavs_wf(s),
    ensures
        seq_ids(s).finite(),
        s.len() == seq_ids(s).len(),
    decreases s.len(),
{
    lemma_seq_ids_finite(s);
    if s.len() > 0 {
        lemma_wf_drop_last(s);
        lemma_wf_len_is_card(s.drop_last());
        lemma_seq_ids_contains(s.drop_last(), s.last().id);
        assert(!has_id(s.drop_last(), s.last().id)) by {
            assert(forall|i: int| 0 <= i < s.drop_last().len() ==> s[i].id != s.last().id);
        }
    }
}

/// The identifier set after a run of upserts is the starting identifier set
/// joined with every upserted identifier.
pub proof fn lemma_apply_upserts_ids(s: Seq<UavStateV>, ops: Seq<UavStateV>)
    requires
        uavs_wf(s),
    ensures
        seq_ids(apply_upserts(s, ops)) =~= seq_ids(s).union(seq_ids(ops)),
    decreases ops.len(),
{
    if ops.len() == 0 {
        assert(seq_ids(s).union(Set::empty()) =~= seq_ids(s));
    } else {
        let prev = apply_upserts(s, ops.drop_last());
        lemma_apply_upserts_ids(s, ops.drop_last());
        lemma_apply_upserts_wf(s, ops.drop_last());
        lemma_upsert_map(prev, ops.last());
        let t = apply_upserts(s, ops);
        lemma_seq_ids_contains(prev, ops.last().id);
        if has_id(prev, ops.last().id) {
            let i = id_index(prev, ops.last().id);
            assert(t =~= prev.update(i, ops.last()));
            lemma_seq_ids_update(prev, i, ops.last());
        } else {
            assert(t =~= prev.push(ops.last()));
            assert(t.drop_last() =~= prev);
        }
    }
}

pub proof fn lemma_seq_ids_update(s: Seq<UavStateV>, i: int, u: UavStateV)
    requires
        0 <= i < s.len(),
        s[i].id == u.id,
    ensures
        seq_ids(s.update(i, u)) =~= seq_ids(s),
    decreases s.len(),
{
    let t = s.update(i, u);
    if i == s.len() - 1 {
        assert(t.drop_last() =~= s.drop_last());
        assert(t.last().id == s.last().id);
    } else {
        assert(t.drop_last() =~= s.drop_last().update(i, u));
        assert(s.drop_last()[i] == s[i]);
        lemma_seq_ids_update(s.drop_last(), i, u);
        assert(t.last() == s.last());
    }
}

/// The number of stored records equals the number of distinct identifiers
/// ever upserted, however often each one was updated.
pub proof fn lemma_store_len_counts_distinct_ids(ops: Seq<UavStateV>)
    ensures
        apply_upserts(Seq::<UavStateV>::empty(), ops).len() == seq_ids(ops).len(),
{
    let s0 = Seq::<UavStateV>::empty();
    lemma_apply_upserts_wf(s0, ops);
    lemma_apply_upserts_ids(s0, ops);
    lemma_wf_len_is_card(apply_upserts(s0, ops));
    assert(seq_ids(s0).union(seq_ids(ops)) =~= seq_ids(ops));
}

/// Default behaviour settings in place before the first settings update.
pub open spec fn default_settings() -> SwarmSettingsV {
    SwarmSettingsV {
        cohesion: seq![49u8, 46u8, 48u8],
        separation: seq![49u8, 46u8, 48u8],
        alignment: seq![49u8, 46u8, 48u8],
        max_speed: seq![49u8, 48u8, 46u8, 48u8],
        target_altitude: seq![49u8, 48u8, 46u8, 48u8],
        swarm_size: seq![53u8],
    }
}

/// The obstacle list before the first environment update: an empty JSON array.
pub open spec fn empty_obstacles() -> Seq<u8> {
    seq![91u8, 93u8]
}


/// A store view with only the diagnostic command slot replaced.
pub open spec fn with_last_command(s: SwarmStateV, cmd: Seq<u8>) -> SwarmStateV {
    SwarmStateV { last_command: Some(cmd), ..s }
}

/// A store view with only the settings slot replaced.
pub open spec fn with_settings(s: SwarmStateV, settings: SwarmSettingsV) -> SwarmStateV {
    SwarmStateV { settings: settings, ..s }
}

/// A store view with the environment slots replaced where an update supplies
/// them and untouched where it does not.
pub open spec fn with_environment(
    s: SwarmStateV,
    obstacles: Option<Seq<u8>>,
    goal: Option<Option<Seq<u8>>>,
) -> SwarmStateV {
    SwarmStateV {
        obstacles: match obstacles {
            Some(o) => o,
            None => s.obstacles,
        },
        goal: match goal {
            Some(g) => g,
            None => s.goal,
        },
        ..s
    }
}

/// An update's view, for an optional obstacle text and an optional goal
/// update.
pub open spec fn opt_opt_view(o: Option<Option<Vec<u8>>>) -> Option<Option<Seq<u8>>> {
    match o {
        Some(g) => Some(opt_view(g)),
        None => None,
    }
}

/// The store: a mapping from agent identifier to its latest known state, the
/// current behaviour settings, the current environment data and the most
/// recent opaque command.  Each operation is one atomic step; concurrent
/// callers guard a shared store with a lock.
pub struct SwarmState {
    pub uavs: Vec<UavState>,
    /// Raw JSON array text holding the current obstacle descriptors.
    pub obstacles: Vec<u8>,
    /// Raw JSON value text of the current goal point, if one is set.
    pub goal: Option<Vec<u8>>,
    pub settings: SwarmSettings,
    /// Raw JSON text of the most recent unrecognised command, for diagnostics.
    pub last_command: Option<Vec<u8>>,
}

#[verifier::ext_equal]
pub struct SwarmStateV {
    pub uavs: Seq<UavStateV>,
    pub obstacles: Seq<u8>,
    pub goal: Option<Seq<u8>>,
    pub settings: SwarmSettingsV,
    pub last_command: Option<Seq<u8>>,
}

impl View for SwarmState {
    type V = SwarmStateV;

    open spec fn view(&self) -> SwarmStateV {
        SwarmStateV {
            uavs: deep_uavs(self.uavs@),
            obstacles: self.obstacles@,
            goal: opt_view(self.goal),
            settings: self.settings@,
            last_command: opt_view(self.last_command),
        }
    }
}

impl SwarmState {
    /// Identifiers are unique keys: the store never holds two records for the
    /// same identifier.
    pub open spec fn wf(&self) -> bool {
        uavs_wf(self@.uavs)
    }

    pub fn new() -> (r: SwarmState)
        ensures
            r@.uavs =~= Seq::<UavStateV>::empty(),
            r@.obstacles == empty_obstacles(),
            r@.goal is None,
            r@.settings == default_settings(),
            r@.last_command is None,
            r.wf(),
    {
        let r = SwarmState {
            uavs: Vec::new(),
            obstacles: vec![91u8, 93u8],
            goal: None,
            settings: SwarmSettings {
                cohesion: vec![49u8, 46u8, 48u8],
                separation: vec![49u8, 46u8, 48u8],
                alignment: vec![49u8, 46u8, 48u8],
                max_speed: vec![49u8, 48u8, 46u8, 48u8],
                target_altitude: vec![49u8, 48u8, 46u8, 48u8],
                swarm_size: vec![53u8],
            },
            last_command: None,
        };
        proof {
            assert(r@.obstacles =~= empty_obstacles());
            assert(r@.settings =~= default_settings());
        }
        r
    }

    /// Insert or replace the record for `state.id`; every other slot of the
    /// store is untouched.
    pub fn upsert_uav(&mut self, state: UavState)
        requires
            old(self).wf(),
        ensures
            final(self)@.uavs == upsert_seq(old(self)@.uavs, state@),
            map_of(final(self)@.uavs) =~= map_of(old(self)@.uavs).insert(state@.id, state@),
            final(self)@.obstacles == old(self)@.obstacles,
            final(self)@.goal == old(self)@.goal,
            final(self)@.settings == old(self)@.settings,
            final(self)@.last_command == old(self)@.last_command,
            final(self).wf(),
    {
        let ghost s0 = self@.uavs;
        proof {
            lemma_upsert_map(s0, state@);
        }
        let mut i: usize = 0;
        while i < self.uavs.len()
            invariant
                i <= self.uavs.len(),
                *self == *old(self),
                s0 == self@.uavs,
                uavs_wf(s0),
                forall|j: int| 0 <= j < i ==> s0[j].id != state@.id,
            decreases self.uavs.len() - i,
        {
            if self.uavs[i].id == state.id {
                proof {
                    assert(s0[i as int] == self.uavs@[i as int]@);
                    assert(s0[i as int].id == state@.id);
                    assert(has_id(s0, state@.id));
                    let w = id_index(s0, state@.id);
                    assert(0 <= w < s0.len() && s0[w].id == state@.id);
                    if w != i as int {
                        assert(s0[w].id != s0[i as int].id);
                    }
                    lemma_upsert_map(s0, state@);
                }
                self.uavs.set(i, state);
                proof {
                    assert(self@.uavs =~= upsert_seq(s0, state@));
                    assert(map_of(self@.uavs) =~= map_of(s0).insert(state@.id, state@));
                }
                return;
            }
            i = i + 1;
        }
        proof {
            assert(!has_id(s0, state@.id)) by {
                if has_id(s0, state@.id) {
                    let w = choose|w: int| 0 <= w < s0.len() && s0[w].id == state@.id;
                    assert(s0[w].id != state@.id);
                }
            }
        }
        self.uavs.push(state);
        proof {
            assert(self@.uavs =~= upsert_seq(s0, state@));
        }
    }

    /// Return the latest record for an identifier, or nothing if it was never
    /// upserted.
    pub fn get_uav(&self, id: u64) -> (r: Option<UavState>)
        requires
            self.wf(),
        ensures
            match r {
                Some(u) => map_of(self@.uavs).contains_key(id) && u@ == map_of(self@.uavs)[id],
                None => !map_of(self@.uavs).contains_key(id),
            },
    {
        let mut i: usize = 0;
        while i < self.uavs.len()
            invariant
                i <= self.uavs.len(),
                self.wf(),
                forall|j: int| 0 <= j < i ==> self@.uavs[j].id != id,
            decreases self.uavs.len() - i,
        {
            if self.uavs[i].id == id {
                proof {
                    assert(self@.uavs[i as int] == self.uavs@[i as int]@);
                    lemma_map_of_index(self@.uavs, i as int);
                }
                return Some(self.uavs[i].duplicate());
            }
            proof {
                assert(self@.uavs[i as int] == self.uavs@[i as int]@);
            }
            i = i + 1;
        }
        proof {
            lemma_map_of_contains(self@.uavs, id);
            assert(!has_id(self@.uavs, id)) by {
                if has_id(self@.uavs, id) {
                    let w = choose|w: int| 0 <= w < self@.uavs.len() && self@.uavs[w].id == id;
                    assert(self@.uavs[w].id != id);
                }
            }
        }
        None
    }

    /// Return a snapshot copy of every record; order is the store's own and
    /// callers must not rely on it.
    pub fn list_uavs(&self) -> (r: Vec<UavState>)
        ensures
            deep_uavs(r@) == self@.uavs,
    {
        let mut r: Vec<UavState> = Vec::new();
        let mut i: usize = 0;
        while i < self.uavs.len()
            invariant
                i <= self.uavs.len(),
                r@.len() == i,
                forall|j: int| 0 <= j < i ==> r@[j]@ == self@.uavs[j],
            decreases self.uavs.len() - i,
        {
            r.push(self.uavs[i].duplicate());
            i = i + 1;
        }
        proof {
            assert(deep_uavs(r@) =~= self@.uavs);
        }
        r
    }

    /// Record the most recent opaque command payload; nothing else changes.
    pub fn apply_command(&mut self, cmd: Vec<u8>)
        ensures
            final(self)@ == with_last_command(old(self)@, cmd@),
    {
        self.last_command = Some(cmd);
        proof {
            assert(final(self)@ =~= with_last_command(old(self)@, cmd@));
        }
    }

    /// Replace the behaviour settings wholesale; nothing else changes.
    pub fn apply_settings(&mut self, settings: SwarmSettings)
        ensures
            final(self)@ == with_settings(old(self)@, settings@),
    {
        self.settings = settings;
        proof {
            assert(final(self)@ =~= with_settings(old(self)@, final(self).settings@));
        }
    }

    /// Read the current behaviour settings.
    pub fn current_settings(&self) -> (r: SwarmSettings)
        ensures
            r@ == self@.settings,
    {
        self.settings.duplicate()
    }

    /// Read the most recent opaque command, if any.
    pub fn last_command(&self) -> (r: Option<Vec<u8>>)
        ensures
            opt_view(r) == self@.last_command,
    {
        copy_opt_bytes(&self.last_command)
    }

    /// Partial environment update: a supplied obstacle list replaces the old
    /// one and leaves the goal untouched, and the other way round.  A goal
    /// update may also clear the goal.
    pub fn apply_environment(&mut self, obstacles: Option<Vec<u8>>, goal: Option<Option<Vec<u8>>>)
        ensures
            final(self)@ == with_environment(old(self)@, opt_view(obstacles), opt_opt_view(goal)),
    {
        let ghost ov = opt_view(obstacles);
        let ghost gv = opt_opt_view(goal);
        match obstacles {
            Some(o) => {
                self.obstacles = o;
            },
            None => {},
        }
        match goal {
            Some(g) => {
                self.goal = g;
            },
            None => {},
        }
        proof {
            assert(final(self)@ =~= with_environment(old(self)@, ov, gv));
        }
    }

    /// Read the current environment data: the obstacle text and the goal.
    pub fn current_environment(&self) -> (r: (Vec<u8>, Option<Vec<u8>>))
        ensures
            r.0@ == self@.obstacles,
            opt_view(r.1) == self@.goal,
    {
        (copy_bytes(&self.obstacles), copy_opt_bytes(&self.goal))
    }
}

} // verus!
