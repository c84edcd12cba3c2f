//! Per-tick world snapshots and client-side reconciliation.
//!
//! Every tick the authority broadcasts the full snapshot map — one entry per
//! registered identity — over the unreliable channel.  Each client overwrites
//! every locally held entity, its own included, from the matching entry: a
//! hard correction, never a blend, so a dropped snapshot is simply superseded
//! by the next one.

use vstd::prelude::*;
use crate::lobby::Lobby;
use crate::player::{Player, QuatMilli, Vec3Milli};

verus! {

/// One tick's full authoritative state of one entity: its transform, the
/// vertical camera offset (kept off the body transform), its aim direction
/// and its replicated logical state.
#[derive(Clone, Copy, PartialEq, Eq, Structural, Debug)]
pub struct PlayerState {
    pub translation: Vec3Milli,
    pub rotation: QuatMilli,
    pub cam_vertical_motion: i64,
    pub look_to: Vec3Milli,
    pub state: Player,
}

/// One snapshot-map entry: an identity and its state for this tick.
#[derive(Clone, Copy, PartialEq, Eq, Structural, Debug)]
pub struct SnapshotEntry {
    pub id: u64,
    pub state: PlayerState,
}

/// The broadcast payload: the mapping from identity to per-tick state, one
/// entry per currently registered lobby member.
#[derive(Debug)]
pub struct SnapshotMap {
    pub entries: Vec<SnapshotEntry>,
}

/// The mapping a sequence of snapshot entries denotes; on a duplicate
/// identity the later entry wins, as for the map it models.
pub open spec fn snapshot_entries_map(s: Seq<SnapshotEntry>) -> Map<u64, PlayerState>
    decreases s.len(),
{
    if s.len() == 0 {
        Map::empty()
    } else {
        snapshot_entries_map(s.drop_last()).insert(s.last().id, s.last().state)
    }
}

/// No two entries carry the same identity.
pub open spec fn unique_snapshot_ids(s: Seq<SnapshotEntry>) -> bool {
    forall|i: int, j: int| 0 <= i < j < s.len() ==> (#[trigger] s[i]).id != (#[trigger] s[j]).id
}

/// An identity appears in the denoted mapping exactly when an entry carries
/// it, and with unique identities each entry's state is what the mapping
/// holds for its identity.
pub proof fn lemma_snapshot_map_props(s: Seq<SnapshotEntry>)
    ensures
        forall|id: u64|
            snapshot_entries_map(s).contains_key(id) <==> exists|i: int|
                0 <= i < s.len() && (#[trigger] s[i]).id == id,
        unique_snapshot_ids(s) ==> forall|i: int|
            0 <= i < s.len() ==> snapshot_entries_map(s)[(#[trigger] s[i]).id] == s[i].state,
    decreases s.len(),
{
    if s.len() > 0 {
        let t = s.drop_last();
        lemma_snapshot_map_props(t);
        assert forall|id: u64| snapshot_entries_map(s).contains_key(id) implies exists|i: int|
            0 <= i < s.len() && (#[trigger] s[i]).id == id by {
            if id == s.last().id {
                assert(s[s.len() - 1].id == id);
            } else {
                assert(snapshot_entries_map(t).contains_key(id));
                let j = choose|j: int| 0 <= j < t.len() && (#[trigger] t[j]).id == id;
                assert(s[j] == t[j]);
                assert(s[j].id == id);
            }
        }
        assert forall|id: u64|
            (exists|i: int|
                0 <= i < s.len() && (#[trigger] s[i]).id == id) implies snapshot_entries_map(
            s,
        ).contains_key(id) by {
            let i = choose|i: int| 0 <= i < s.len() && (#[trigger] s[i]).id == id;
            if i < s.len() - 1 {
                assert(t[i] == s[i]);
                assert(t[i].id == id);
                assert(snapshot_entries_map(t).contains_key(id));
            }
        }
        if unique_snapshot_ids(s) {
            assert forall|p: int, q: int| 0 <= p < q < t.len() implies (#[trigger] t[p]).id != (
            #[trigger] t[q]).id by {
                assert(t[p] == s[p]);
                assert(t[q] == s[q]);
            }
            assert forall|i: int| 0 <= i < s.len() implies snapshot_entries_map(s)[(
            #[trigger] s[i]).id] == s[i].state by {
                if i < s.len() - 1 {
                    assert(s[i].id != s.last().id);
                    assert(t[i] == s[i]);
                    assert(snapshot_entries_map(t)[s[i].id] == s[i].state);
                }
            }
        }
    }
}

/// Overwriting the entry that already carries `e.id` updates exactly that
/// identity in the denoted mapping.
pub proof fn lemma_snapshot_map_update(s: Seq<SnapshotEntry>, i: int, e: SnapshotEntry)
    requires
        unique_snapshot_ids(s),
        0 <= i < s.len(),
        s[i].id == e.id,
    ensures
        snapshot_entries_map(s.update(i, e)) =~= snapshot_entries_map(s).insert(e.id, e.state),
    decreases s.len(),
{
    lemma_snapshot_map_props(s);
    if i == s.len() - 1 {
        assert(s.update(i, e).drop_last() =~= s.drop_last());
    } else {
        let t = s.drop_last();
        assert forall|p: int, q: int| 0 <= p < q < t.len() implies (#[trigger] t[p]).id != (
        #[trigger] t[q]).id by {
            assert(t[p] == s[p]);
            assert(t[q] == s[q]);
        }
        lemma_snapshot_map_update(t, i, e);
        assert(s.update(i, e).drop_last() =~= t.update(i, e));
        assert(s.update(i, e).last() == s.last());
        assert(s[i].id != s.last().id);
    }
}

impl View for SnapshotMap {
    type V = Map<u64, PlayerState>;

    open spec fn view(&self) -> Map<u64, PlayerState> {
        snapshot_entries_map(self.entries@)
    }
}

impl SnapshotMap {
    /// A snapshot map is well formed when it holds one entry per identity.
    pub open spec fn wf(&self) -> bool {
        unique_snapshot_ids(self.entries@)
    }

    /// The empty snapshot map.
    pub fn new() -> (r: SnapshotMap)
        ensures
            r.wf(),
            r@ == Map::<u64, PlayerState>::empty(),
    {
        SnapshotMap { entries: Vec::new() }
    }

    /// Number of entries.
    pub fn len(&self) -> (n: usize)
        ensures
            n == self.entries@.len(),
    {
        self.entries.len()
    }

    /// Index of the entry carrying `id`, if any.
    fn find(&self, id: u64) -> (r: Option<usize>)
        ensures
            match r {
                Some(i) => i < self.entries@.len() && self.entries@[i as int].id == id,
                None => forall|i: int|
                    0 <= i < self.entries@.len() ==> (#[trigger] self.entries@[i]).id != id,
            },
    {
        let mut i: usize = 0;
        while i < self.entries.len()
            invariant
                i <= self.entries@.len(),
                forall|j: int| 0 <= j < i ==> (#[trigger] self.entries@[j]).id != id,
            decreases self.entries@.len() - i,
        {
            if self.entries[i].id == id {
                return Some(i);
            }
            i = i + 1;
        }
        None
    }

    /// Sets the state recorded for `id`, overwriting an existing entry.
    pub fn insert(&mut self, id: u64, state: PlayerState)
        requires
            old(self).wf(),
        ensures
            final(self).wf(),
            final(self)@ == old(self)@.insert(id, state),
    {
        proof {
            lemma_snapshot_map_props(self.entries@);
        }
        match self.find(id) {
            Some(i) => {
                proof {
                    lemma_snapshot_map_update(
                        self.entries@,
                        i as int,
                        SnapshotEntry { id, state },
                    );
                    let s = self.entries@.update(i as int, SnapshotEntry { id, state });
                    assert forall|p: int, q: int| 0 <= p < q < s.len() implies (
                    #[trigger] s[p]).id != (#[trigger] s[q]).id by {
                        assert(s[p].id == self.entries@[p].id);
                        assert(s[q].id == self.entries@[q].id);
                    }
                }
                self.entries.set(i, SnapshotEntry { id, state });
            },
            None => {
                self.entries.push(SnapshotEntry { id, state });
                proof {
                    let s = self.entries@;
                    assert(s.drop_last() =~= old(self).entries@);
                    assert forall|p: int, q: int| 0 <= p < q < s.len() implies (
                    #[trigger] s[p]).id != (#[trigger] s[q]).id by {
                        if q < s.len() - 1 {
                            assert(s[p] == old(self).entries@[p]);
                            assert(s[q] == old(self).entries@[q]);
                        } else {
                            assert(s[p] == old(self).entries@[p]);
                            assert(old(self).entries@[p].id != id);
                        }
                    }
                }
            },
        }
    }

    /// The state recorded for `id`, if any.
    pub fn get(&self, id: u64) -> (r: Option<&PlayerState>)
        requires
            self.wf(),
        ensures
            match r {
                Some(st) => self@.contains_key(id) && *st == self@[id],
                None => !self@.contains_key(id),
            },
    {
        proof {
            lemma_snapshot_map_props(self.entries@);
        }
        match self.find(id) {
            Some(i) => {
                proof {
                    assert(self@.contains_key(id)) by {
                        assert(0 <= i < self.entries@.len() && self.entries@[i as int].id == id);
                    }
                    assert(snapshot_entries_map(self.entries@)[self.entries@[i as int].id]
                        == self.entries@[i as int].state);
                }
                Some(&self.entries[i].state)
            },
            None => {
                proof {
                    assert(!self@.contains_key(id)) by {
                        if self@.contains_key(id) {
                            let j = choose|j: int|
                                0 <= j < self.entries@.len() && (#[trigger] self.entries@[j]).id
                                    == id;
                        }
                    }
                }
                None
            },
        }
    }
}

/// Assembles the tick's broadcast payload from the per-entity states the
/// simulation produced, keyed by identity; on a duplicate identity the later
/// state wins, as in the map it builds.
pub fn server_sync_players(players: &Vec<SnapshotEntry>) -> (r: SnapshotMap)
    ensures
        r.wf(),
        r@ == snapshot_entries_map(players@),
{
    let mut snap = SnapshotMap::new();
    let mut i: usize = 0;
    while i < players.len()
        invariant
            i <= players@.len(),
            snap.wf(),
            snap@ == snapshot_entries_map(players@.subrange(0, i as int)),
        decreases players@.len() - i,
    {
        let entry = players[i];
        snap.insert(entry.id, entry.state);
        proof {
            let prefix2 = players@.subrange(0, i + 1 as int);
            assert(prefix2.drop_last() =~= players@.subrange(0, i as int));
            assert(prefix2.last() == entry);
        }
        i = i + 1;
    }
    proof {
        assert(players@.subrange(0, players@.len() as int) =~= players@);
    }
    snap
}

/// What applying a snapshot map does to a client's local states: every
/// identity that is both registered locally and present in the snapshot is
/// overwritten with the snapshot's state; every other local state is kept.
pub open spec fn snapshot_apply(
    locals: Map<u64, PlayerState>,
    members: Set<u64>,
    snap: Map<u64, PlayerState>,
) -> Map<u64, PlayerState> {
    locals.union_prefer_right(snap.restrict(members))
}

/// Re-applying the same received snapshot map twice leaves exactly the state
/// that applying it once left: reconciliation overwrites, it never
/// accumulates.
pub proof fn lemma_snapshot_idempotent(
    locals: Map<u64, PlayerState>,
    members: Set<u64>,
    snap: Map<u64, PlayerState>,
)
    ensures
        snapshot_apply(snapshot_apply(locals, members, snap), members, snap) =~= snapshot_apply(
            locals,
            members,
            snap,
        ),
{
}

/// Everything the client holds about the replicated world: the lobby it
/// mirrors from lifecycle events and the last authoritative state it stored
/// for each identity.
#[derive(Debug)]
pub struct ClientWorld {
    pub lobby: Lobby,
    pub locals: SnapshotMap,
}

impl ClientWorld {
    pub open spec fn wf(&self) -> bool {
        self.lobby.wf() && self.locals.wf()
    }

    /// A client world with an empty lobby and no stored state.
    pub fn new() -> (r: ClientWorld)
        ensures
            r.wf(),
            r.lobby@ == Map::<u64, u64>::empty(),
            r.locals@ == Map::<u64, PlayerState>::empty(),
    {
        ClientWorld { lobby: Lobby::new(), locals: SnapshotMap::new() }
    }

    /// Reconciliation: overwrites the stored state of every registered
    /// identity from the received snapshot map; entries for unregistered
    /// identities are dropped silently.  Returns whether this tick revealed
    /// the controlled entity dead: its snapshot entry was applied and carries
    /// `hp <= 0`.
    pub fn apply_snapshot(&mut self, snap: &SnapshotMap, current_id: u64) -> (died: bool)
        requires
            old(self).wf(),
            snap.wf(),
        ensures
            final(self).wf(),
            final(self).lobby == old(self).lobby,
            final(self).locals@ == snapshot_apply(
                old(self).locals@,
                old(self).lobby@.dom(),
                snap@,
            ),
            died <==> (snap@.contains_key(current_id) && old(self).lobby@.contains_key(current_id)
                && snap@[current_id].state.hp <= 0),
    {
        proof {
            lemma_snapshot_map_props(snap.entries@);
        }
        let ghost members = self.lobby@.dom();
        let ghost locals0 = self.locals@;
        let mut died: bool = false;
        let mut i: usize = 0;
        while i < snap.entries.len()
            invariant
                self.wf(),
                snap.wf(),
                self.lobby == old(self).lobby,
                i <= snap.entries@.len(),
                members == self.lobby@.dom(),
                locals0 == old(self).locals@,
                self.locals@ == snapshot_apply(
                    locals0,
                    members,
                    snapshot_entries_map(snap.entries@.subrange(0, i as int)),
                ),
                died <==> exists|j: int|
                    0 <= j < i && (#[trigger] snap.entries@[j]).id == current_id
                        && members.contains(current_id) && snap.entries@[j].state.hp_dead(),
            decreases snap.entries@.len() - i,
        {
            let entry = snap.entries[i];
            let ghost prefix = snap.entries@.subrange(0, i as int);
            let ghost prefix2 = snap.entries@.subrange(0, i + 1 as int);
            proof {
                assert(prefix2.drop_last() =~= prefix);
                assert(prefix2.last() == entry);
            }
            match self.lobby.resolve(entry.id) {
                Some(_) => {
                    if entry.id == current_id && entry.state.state.hp <= 0 {
                        died = true;
                        proof {
                            assert(snap.entries@[i as int].id == current_id);
                            assert(snap.entries@[i as int].state.hp_dead());
                        }
                    }
                    self.locals.insert(entry.id, entry.state);
                    proof {
                        assert(self.locals@ =~= snapshot_apply(
                            locals0,
                            members,
                            snapshot_entries_map(prefix2),
                        ));
                    }
                },
                None => {
                    proof {
                        assert(self.locals@ =~= snapshot_apply(
                            locals0,
                            members,
                            snapshot_entries_map(prefix2),
                        ));
                    }
                },
            }
            i = i + 1;
        }
        proof {
            assert(snap.entries@.subrange(0, snap.entries@.len() as int) =~= snap.entries@);
            if died {
                let j = choose|j: int|
                    0 <= j < snap.entries@.len() && (#[trigger] snap.entries@[j]).id == current_id
                        && members.contains(current_id) && snap.entries@[j].state.hp_dead();
                assert(snap@[current_id] == snap.entries@[j].state);
            }
            if snap@.contains_key(current_id) && members.contains(current_id)
                && snap@[current_id].state.hp <= 0 {
                let j = choose|j: int|
                    0 <= j < snap.entries@.len() && (#[trigger] snap.entries@[j]).id == current_id;
                assert(snap@[current_id] == snap.entries@[j].state);
                assert(snap.entries@[j].state.hp_dead());
            }
        }
        died
    }
}

impl PlayerState {
    /// Whether this replicated state shows the entity dead.
    pub open spec fn hp_dead(&self) -> bool {
        crate::player::player_is_dead(self.state)
    }
}

} // verus!
