//! The two-channel wire protocol and the lifecycle handlers of both sides.
//!
//! Lifecycle events (connect, disconnect) and per-tick inputs travel the
//! ordered-reliable channel: a missed or reordered one would corrupt the
//! session registry.  The full snapshot map travels the unreliable channel,
//! re-sent every tick, so a dropped one is superseded rather than retried.
//!
//! The handlers here decide; the shell around the library performs: it spawns
//! and despawns entities, serializes the returned messages and hands them to
//! the transport.

use vstd::prelude::*;
use crate::lobby::{Lobby, LobbyError};

verus! {

/// Identifies this application's traffic to the transport.
pub const PROTOCOL_ID: u64 = 7;

/// The identity this process connected under.
#[derive(Clone, Copy, PartialEq, Eq, Structural, Debug)]
pub struct ClientId(pub u64);

/// The delivery guarantee a payload is sent with.
#[derive(Clone, Copy, PartialEq, Eq, Structural, Debug)]
pub enum Channel {
    /// In-order, exactly-once-effective delivery.
    ReliableOrdered,
    /// Best-effort latest-state delivery; a loss is healed by the next tick.
    Unreliable,
}

/// A lifecycle event, broadcast by the server over the ordered channel.
#[derive(Clone, Copy, PartialEq, Eq, Structural, Debug)]
pub enum ServerMessages {
    PlayerConnected { id: u64 },
    PlayerDisconnected { id: u64 },
}

impl ServerMessages {
    /// Lifecycle events always travel the ordered-reliable channel.
    pub fn channel(&self) -> (c: Channel)
        ensures
            c == Channel::ReliableOrdered,
    {
        Channel::ReliableOrdered
    }
}

/// A connection-level event reported by the transport.
#[derive(Clone, Copy, PartialEq, Eq, Structural, Debug)]
pub enum ServerEvent {
    ClientConnected { client_id: u64 },
    ClientDisconnected { client_id: u64 },
}

/// What the server must do after handling one transport event.
#[derive(Debug)]
pub enum ServerAction {
    /// A client joined: keep the spawned entity, send each `replay_to_new`
    /// message to the new client only (so a late joiner learns about everyone
    /// already present), then broadcast `broadcast` to all clients.
    Connected { replay_to_new: Vec<ServerMessages>, broadcast: ServerMessages },
    /// A client left: despawn `entity`, then broadcast `broadcast`.
    Disconnected { entity: u64, broadcast: ServerMessages },
    /// The event referenced an identity in the wrong state; the registry is
    /// untouched and nothing is sent.
    Rejected { error: LobbyError },
}

/// Handles one transport event on the authority.
///
/// On a connect the new identity is registered as controlling `new_entity`
/// (the entity the caller just spawned), the connect events of every
/// previously registered member are replayed for the new client in connection
/// order, and the newcomer's own connect event is broadcast.  On a disconnect
/// the identity is unregistered before any further message for it can be
/// processed, and its disconnect event is broadcast.  An identity in the
/// wrong state is rejected and nothing changes.
pub fn server_receive_events(lobby: &mut Lobby, event: &ServerEvent, new_entity: u64) -> (r:
    ServerAction)
    requires
        old(lobby).wf(),
    ensures
        final(lobby).wf(),
        match *event {
            ServerEvent::ClientConnected { client_id } => {
                if old(lobby)@.contains_key(client_id) {
                    r == (ServerAction::Rejected { error: LobbyError::DuplicateIdentity })
                        && *final(lobby) == *old(lobby)
                } else {
                    &&& final(lobby)@ == old(lobby)@.insert(client_id, new_entity)
                    &&& final(lobby).members() == old(lobby).members().push(
                        crate::lobby::LobbyEntry { id: client_id, entity: new_entity },
                    )
                    &&& r matches ServerAction::Connected { replay_to_new, broadcast }
                        && replay_to_new@.len() == old(lobby).members().len() && (forall|j: int|
                        0 <= j < old(lobby).members().len() ==> replay_to_new@[j] == (
                        ServerMessages::PlayerConnected {
                            id: (#[trigger] old(lobby).members()[j]).id,
                        })) && broadcast == (ServerMessages::PlayerConnected { id: client_id })
                }
            },
            ServerEvent::ClientDisconnected { client_id } => {
                if old(lobby)@.contains_key(client_id) {
                    final(lobby)@ == old(lobby)@.remove(client_id) && r == (
                    ServerAction::Disconnected {
                        entity: old(lobby)@[client_id],
                        broadcast: ServerMessages::PlayerDisconnected { id: client_id },
                    })
                } else {
                    r == (ServerAction::Rejected { error: LobbyError::UnknownIdentity })
                        && *final(lobby) == *old(lobby)
                }
            },
        },
{
    match event {
        ServerEvent::ClientConnected { client_id } => {
            // replay the connect event of everyone already present, in
            // connection order, before the newcomer is registered
            let members = lobby.member_entries();
            let mut replay_to_new: Vec<ServerMessages> = Vec::new();
            let mut i: usize = 0;
            while i < members.len()
                invariant
                    i <= members@.len(),
                    members@ == old(lobby).members(),
                    replay_to_new@.len() == i,
                    forall|j: int|
                        0 <= j < i ==> replay_to_new@[j] == (ServerMessages::PlayerConnected {
                            id: (#[trigger] members@[j]).id,
                        }),
                decreases members@.len() - i,
            {
                replay_to_new.push(ServerMessages::PlayerConnected { id: members[i].id });
                i = i + 1;
            }
            match lobby.register(*client_id, new_entity) {
                Ok(_) => ServerAction::Connected {
                    replay_to_new,
                    broadcast: ServerMessages::PlayerConnected { id: *client_id },
                },
                Err(error) => ServerAction::Rejected { error },
            }
        },
        ServerEvent::ClientDisconnected { client_id } => {
            match lobby.unregister(*client_id) {
                Ok(entity) => ServerAction::Disconnected {
                    entity,
                    broadcast: ServerMessages::PlayerDisconnected { id: *client_id },
                },
                Err(error) => ServerAction::Rejected { error },
            }
        },
    }
}

/// What the client must do after handling one lifecycle message.
#[derive(Clone, Copy, PartialEq, Eq, Structural, Debug)]
pub enum ClientLifecycleAction {
    /// A player became known: keep its freshly spawned entity; `is_current`
    /// says whether it is the one this process controls.
    Spawned { id: u64, is_current: bool },
    /// A player left: despawn `entity`.
    Despawned { id: u64, entity: u64 },
    /// The message referenced an identity in the wrong state; dropped
    /// silently, as connect/disconnect races make this expected.
    Dropped { error: LobbyError },
}

/// Handles one lifecycle message on a client.
///
/// A connect registers the identity as controlling `new_entity` (the entity
/// the caller just spawned) and says whether it is the locally controlled
/// one; a disconnect unregisters it and hands the entity back for teardown.
/// An identity in the wrong state drops the message and changes nothing.
pub fn client_connections_handler(
    lobby: &mut Lobby,
    message: &ServerMessages,
    client_id: u64,
    new_entity: u64,
) -> (r: ClientLifecycleAction)
    requires
        old(lobby).wf(),
    ensures
        final(lobby).wf(),
        match *message {
            ServerMessages::PlayerConnected { id } => {
                if old(lobby)@.contains_key(id) {
                    r == (ClientLifecycleAction::Dropped { error: LobbyError::DuplicateIdentity })
                        && *final(lobby) == *old(lobby)
                } else {
                    final(lobby)@ == old(lobby)@.insert(id, new_entity) && r == (
                    ClientLifecycleAction::Spawned { id, is_current: id == client_id })
                }
            },
            ServerMessages::PlayerDisconnected { id } => {
                if old(lobby)@.contains_key(id) {
                    final(lobby)@ == old(lobby)@.remove(id) && r == (
                    ClientLifecycleAction::Despawned { id, entity: old(lobby)@[id] })
                } else {
                    r == (ClientLifecycleAction::Dropped { error: LobbyError::UnknownIdentity })
                        && *final(lobby) == *old(lobby)
                }
            },
        },
{
    match message {
        ServerMessages::PlayerConnected { id } => {
            match lobby.register(*id, new_entity) {
                Ok(_) => ClientLifecycleAction::Spawned { id: *id, is_current: *id == client_id },
                Err(error) => ClientLifecycleAction::Dropped { error },
            }
        },
        ServerMessages::PlayerDisconnected { id } => {
            match lobby.unregister(*id) {
                Ok(entity) => ClientLifecycleAction::Despawned { id: *id, entity },
                Err(error) => ClientLifecycleAction::Dropped { error },
            }
        },
    }
}

/// The transport-fatal policy: any connection-level error the transport
/// reports is unrecoverable by design, so the process must terminate — no
/// retry, no reconnect loop.  Returns whether the caller must do so; the
/// unverified shell panics exactly when this returns true.
pub fn panic_on_error_system(transport_errors: &Vec<String>) -> (fatal: bool)
    ensures
        fatal <==> transport_errors@.len() > 0,
{
    transport_errors.len() > 0
}

} // verus!
