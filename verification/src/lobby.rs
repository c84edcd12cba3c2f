//! The session registry: the mapping from connected identities to their
//! simulated entities.
//!
//! Entries are inserted only when a connect event is handled and removed only
//! when a disconnect event is handled; no other path touches the registry.
//! Entity handles are opaque `u64` values issued by the world that owns the
//! entities.

use vstd::prelude::*;

verus! {

/// Why a registry operation was refused.
#[derive(Clone, Copy, PartialEq, Eq, Structural, Debug)]
pub enum LobbyError {
    /// `register` found the identity already present.
    DuplicateIdentity,
    /// `unregister` found no entry for the identity.
    UnknownIdentity,
}

/// One registry entry: a connected identity and the entity it controls.
#[derive(Clone, Copy, PartialEq, Eq, Structural, Debug)]
pub struct LobbyEntry {
    pub id: u64,
    pub entity: u64,
}

/// The registry itself.  Entries are kept in connection order, one per
/// identity; the abstract value is the mapping from identity to entity.
#[derive(Debug)]
pub struct Lobby {
    pub players: Vec<LobbyEntry>,
}

/// The mapping that a sequence of entries denotes: later entries would win,
/// but a well-formed lobby never holds the same identity twice.
pub open spec fn entries_map(s: Seq<LobbyEntry>) -> Map<u64, u64>
    decreases s.len(),
{
    if s.len() == 0 {
        Map::empty()
    } else {
        entries_map(s.drop_last()).insert(s.last().id, s.last().entity)
    }
}

/// An identity appears in `entries_map(s)` exactly when some entry carries it,
/// and a well-formed sequence maps each identity to its entry's entity.
pub proof fn lemma_entries_map_props(s: Seq<LobbyEntry>)
    ensures
        forall|id: u64|
            entries_map(s).contains_key(id) <==> exists|i: int|
                0 <= i < s.len() && (#[trigger] s[i]).id == id,
        unique_ids(s) ==> forall|i: int|
            0 <= i < s.len() ==> entries_map(s)[(#[trigger] s[i]).id] == s[i].entity,
    decreases s.len(),
{
    if s.len() > 0 {
        let t = s.drop_last();
        lemma_entries_map_props(t);
        assert forall|id: u64| entries_map(s).contains_key(id) implies exists|i: int|
            0 <= i < s.len() && (#[trigger] s[i]).id == id by {
            if id == s.last().id {
                assert(s[s.len() - 1].id == id);
            } else {
                assert(entries_map(t).contains_key(id));
                let j = choose|j: int| 0 <= j < t.len() && (#[trigger] t[j]).id == id;
                assert(s[j] == t[j]);
                assert(s[j].id == id);
            }
        }
        assert forall|id: u64|
            (exists|i: int|
                0 <= i < s.len() && (#[trigger] s[i]).id == id) implies entries_map(
            s,
        ).contains_key(id) by {
            let i = choose|i: int| 0 <= i < s.len() && (#[trigger] s[i]).id == id;
            if i < s.len() - 1 {
                assert(t[i] == s[i]);
                assert(t[i].id == id);
                assert(entries_map(t).contains_key(id));
            }
        }
        if unique_ids(s) {
            assert forall|p: int, q: int| 0 <= p < q < t.len() implies (#[trigger] t[p]).id != (
            #[trigger] t[q]).id by {
                assert(t[p] == s[p]);
                assert(t[q] == s[q]);
            }
            assert forall|i: int| 0 <= i < s.len() implies entries_map(s)[(#[trigger] s[i]).id]
                == s[i].entity by {
                if i < s.len() - 1 {
                    assert(s[i].id != s.last().id);
                    assert(t[i] == s[i]);
                    assert(entries_map(t)[s[i].id] == s[i].entity);
                }
            }
        }
    }
}

/// No two entries carry the same identity.
pub open spec fn unique_ids(s: Seq<LobbyEntry>) -> bool {
    forall|i: int, j: int| 0 <= i < j < s.len() ==> (#[trigger] s[i]).id != (#[trigger] s[j]).id
}

/// Removing the entry that carries `s[i].id` removes exactly that identity
/// from the denoted mapping.
pub proof fn lemma_entries_map_remove(s: Seq<LobbyEntry>, i: int)
    requires
        unique_ids(s),
        0 <= i < s.len(),
    ensures
        entries_map(s.remove(i)) =~= entries_map(s).remove(s[i].id),
    decreases s.len(),
{
    lemma_entries_map_props(s);
    lemma_entries_map_props(s.remove(i));
    if i == s.len() - 1 {
        assert(s.remove(i) =~= s.drop_last());
        lemma_entries_map_props(s.drop_last());
        assert(!entries_map(s.drop_last()).contains_key(s[i].id)) by {
            assert(forall|j: int|
                0 <= j < s.len() - 1 ==> (#[trigger] s.drop_last()[j]).id != s[i].id);
        }
    } else {
        let t = s.drop_last();
        assert(unique_ids(t)) by {
            assert(forall|p: int, q: int|
                0 <= p < q < t.len() ==> (#[trigger] t[p]).id != (#[trigger] t[q]).id);
        }
        lemma_entries_map_remove(t, i);
        assert(s.remove(i).drop_last() =~= t.remove(i));
        assert(s.remove(i).last() == s.last());
        assert(s[i].id != s.last().id);
    }
}

/// One registry operation, as the lifecycle handlers perform it.
#[derive(Clone, Copy, PartialEq, Eq, Structural, Debug)]
pub enum LobbyOp {
    Register { id: u64, entity: u64 },
    Unregister { id: u64 },
}

/// What one operation does to the abstract registry.  This is exactly what
/// [`Lobby::register`] and [`Lobby::unregister`] promise of the lobby they
/// mutate: a register of a present identity is refused and changes nothing,
/// an unregister removes the identity (or nothing, when it is absent).
pub open spec fn apply_op(m: Map<u64, u64>, op: LobbyOp) -> Map<u64, u64> {
    match op {
        LobbyOp::Register { id, entity } => if m.contains_key(id) {
            m
        } else {
            m.insert(id, entity)
        },
        LobbyOp::Unregister { id } => m.remove(id),
    }
}

/// The registry that a sequence of operations leaves behind.
pub open spec fn apply_ops(m: Map<u64, u64>, ops: Seq<LobbyOp>) -> Map<u64, u64>
    decreases ops.len(),
{
    if ops.len() == 0 {
        m
    } else {
        apply_op(apply_ops(m, ops.drop_last()), ops.last())
    }
}

/// Whatever sequence of register and unregister operations ran, the registry
/// maps each identity to at most one entity: registering an identity that is
/// already present changes nothing (and the exec `register` refuses it), and
/// resolving an identity right after a sequence that ends by unregistering it
/// finds nothing.
pub proof fn lemma_registry_consistency(
    m: Map<u64, u64>,
    ops: Seq<LobbyOp>,
    id: u64,
    entity: u64,
)
    ensures
        m.contains_key(id) ==> apply_op(m, LobbyOp::Register { id, entity }) == m,
        !m.contains_key(id) ==> apply_op(m, LobbyOp::Register { id, entity })[id] == entity,
        !apply_ops(m, ops.push(LobbyOp::Unregister { id })).contains_key(id),
{
    let ops2 = ops.push(LobbyOp::Unregister { id });
    assert(ops2.drop_last() =~= ops);
    assert(ops2.last() == LobbyOp::Unregister { id });
}

impl View for Lobby {
    type V = Map<u64, u64>;

    open spec fn view(&self) -> Map<u64, u64> {
        entries_map(self.players@)
    }
}

impl Lobby {
    /// The entries in connection order.
    pub open spec fn members(&self) -> Seq<LobbyEntry> {
        self.players@
    }

    /// A lobby is well formed when no identity is registered twice.  Every
    /// operation of the registry preserves this.
    pub open spec fn wf(&self) -> bool {
        unique_ids(self.players@)
    }

    /// The empty registry.
    pub fn new() -> (r: Lobby)
        ensures
            r.wf(),
            r@ == Map::<u64, u64>::empty(),
            r.members() == Seq::<LobbyEntry>::empty(),
    {
        Lobby { players: Vec::new() }
    }

    /// Number of registered identities.
    pub fn len(&self) -> (n: usize)
        ensures
            n == self.members().len(),
    {
        self.players.len()
    }

    /// The registered entries, in connection order.
    pub fn member_entries(&self) -> (r: &Vec<LobbyEntry>)
        ensures
            r@ == self.members(),
    {
        &self.players
    }

    /// Index of the entry carrying `id`, if any.
    fn find(&self, id: u64) -> (r: Option<usize>)
        ensures
            match r {
                Some(i) => i < self.players@.len() && self.players@[i as int].id == id,
                None => forall|i: int|
                    0 <= i < self.players@.len() ==> (#[trigger] self.players@[i]).id != id,
            },
    {
        let mut i: usize = 0;
        while i < self.players.len()
            invariant
                i <= self.players@.len(),
                forall|j: int| 0 <= j < i ==> (#[trigger] self.players@[j]).id != id,
            decreases self.players@.len() - i,
        {
            if self.players[i].id == id {
                return Some(i);
            }
            i = i + 1;
        }
        None
    }

    /// Registers `id` as controlling `entity`.  Fails with
    /// [`LobbyError::DuplicateIdentity`], changing nothing, exactly when `id`
    /// is already present; otherwise the entry is appended.
    pub fn register(&mut self, id: u64, entity: u64) -> (r: Result<(), LobbyError>)
        requires
            old(self).wf(),
        ensures
            final(self).wf(),
            old(self)@.contains_key(id) ==> r == Result::<(), LobbyError>::Err(
                LobbyError::DuplicateIdentity,
            ) && *final(self) == *old(self),
            !old(self)@.contains_key(id) ==> r == Result::<(), LobbyError>::Ok(()) && final(self)@
                == old(self)@.insert(id, entity) && final(self).members() == old(
                self,
            ).members().push(LobbyEntry { id, entity }),
    {
        proof {
            lemma_entries_map_props(self.players@);
        }
        match self.find(id) {
            Some(i) => {
                proof {
                    assert(old(self)@.contains_key(id)) by {
                        assert(0 <= i < self.players@.len() && self.players@[i as int].id == id);
                    }
                }
                Err(LobbyError::DuplicateIdentity)
            },
            None => {
                proof {
                    assert(!old(self)@.contains_key(id)) by {
                        if old(self)@.contains_key(id) {
                            let j = choose|j: int|
                                0 <= j < old(self).players@.len() && (
                                #[trigger] old(self).players@[j]).id == id;
                        }
                    }
                }
                self.players.push(LobbyEntry { id, entity });
                proof {
                    let s = self.players@;
                    assert(s.drop_last() =~= old(self).players@);
                    assert(s.last() == LobbyEntry { id, entity });
                    assert forall|p: int, q: int| 0 <= p < q < s.len() implies (
                    #[trigger] s[p]).id != (#[trigger] s[q]).id by {
                        if q < s.len() - 1 {
                            assert(s[p] == old(self).players@[p]);
                            assert(s[q] == old(self).players@[q]);
                        } else {
                            assert(s[p] == old(self).players@[p]);
                            assert(old(self).players@[p].id != id);
                        }
                    }
                }
                Ok(())
            },
        }
    }

    /// Removes the entry for `id` and returns its entity for teardown.  Fails
    /// with [`LobbyError::UnknownIdentity`], changing nothing, exactly when
    /// `id` is absent.
    pub fn unregister(&mut self, id: u64) -> (r: Result<u64, LobbyError>)
        requires
            old(self).wf(),
        ensures
            final(self).wf(),
            !old(self)@.contains_key(id) ==> r == Result::<u64, LobbyError>::Err(
                LobbyError::UnknownIdentity,
            ) && *final(self) == *old(self),
            old(self)@.contains_key(id) ==> r == Result::<u64, LobbyError>::Ok(old(self)@[id])
                && final(self)@ == old(self)@.remove(id),
    {
        proof {
            lemma_entries_map_props(self.players@);
        }
        match self.find(id) {
            Some(i) => {
                let entry = self.players[i];
                proof {
                    assert(old(self)@.contains_key(id)) by {
                        assert(0 <= i < self.players@.len() && self.players@[i as int].id == id);
                    }
                    assert(old(self)@[id] == entry.entity) by {
                        assert(entries_map(self.players@)[self.players@[i as int].id]
                            == self.players@[i as int].entity);
                    }
                    lemma_entries_map_remove(self.players@, i as int);
                    assert forall|p: int, q: int|
                        0 <= p < q < self.players@.remove(i as int).len() implies (
                    #[trigger] self.players@.remove(i as int)[p]).id != (
                    #[trigger] self.players@.remove(i as int)[q]).id by {
                        let s = self.players@;
                        if q < i {
                            assert(s.remove(i as int)[p] == s[p] && s.remove(i as int)[q] == s[q]);
                        } else if p < i {
                            assert(s.remove(i as int)[p] == s[p] && s.remove(i as int)[q] == s[q
                                + 1]);
                        } else {
                            assert(s.remove(i as int)[p] == s[p + 1] && s.remove(i as int)[q]
                                == s[q + 1]);
                        }
                    }
                }
                self.players.remove(i);
                Ok(entry.entity)
            },
            None => {
                proof {
                    assert(!old(self)@.contains_key(id)) by {
                        if old(self)@.contains_key(id) {
                            let j = choose|j: int|
                                0 <= j < old(self).players@.len() && (
                                #[trigger] old(self).players@[j]).id == id;
                        }
                    }
                }
                Err(LobbyError::UnknownIdentity)
            },
        }
    }

    /// Looks `id` up without touching the registry.  Every inbound-message
    /// handler calls this first and silently drops messages whose identity is
    /// not registered.
    pub fn resolve(&self, id: u64) -> (r: Option<u64>)
        requires
            self.wf(),
        ensures
            r == if self@.contains_key(id) {
                Some(self@[id])
            } else {
                None::<u64>
            },
    {
        proof {
            lemma_entries_map_props(self.players@);
        }
        match self.find(id) {
            Some(i) => {
                proof {
                    assert(self@.contains_key(id)) by {
                        assert(0 <= i < self.players@.len() && self.players@[i as int].id == id);
                    }
                    assert(entries_map(self.players@)[self.players@[i as int].id]
                        == self.players@[i as int].entity);
                }
                Some(self.players[i].entity)
            },
            None => {
                proof {
                    assert(!self@.contains_key(id)) by {
                        if self@.contains_key(id) {
                            let j = choose|j: int|
                                0 <= j < self.players@.len() && (#[trigger] self.players@[j]).id
                                    == id;
                        }
                    }
                }
                None
            },
        }
    }
}

} // verus!
