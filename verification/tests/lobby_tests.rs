use shooter_core::lobby::{Lobby, LobbyError};

#[test]
fn register_then_resolve() {
    let mut lobby = Lobby::new();
    assert!(lobby.register(100, 7).is_ok());
    assert_eq!(lobby.resolve(100), Some(7));
    assert_eq!(lobby.len(), 1);
}

#[test]
fn duplicate_register_refused() {
    let mut lobby = Lobby::new();
    assert!(lobby.register(100, 7).is_ok());
    assert_eq!(lobby.register(100, 8), Err(LobbyError::DuplicateIdentity));
    // the first registration is untouched: never two entries for one identity
    assert_eq!(lobby.resolve(100), Some(7));
    assert_eq!(lobby.len(), 1);
}

#[test]
fn unregister_returns_entity() {
    let mut lobby = Lobby::new();
    lobby.register(42, 9).unwrap();
    assert_eq!(lobby.unregister(42), Ok(9));
    assert_eq!(lobby.len(), 0);
}

#[test]
fn unregister_unknown_refused() {
    let mut lobby = Lobby::new();
    assert_eq!(lobby.unregister(42), Err(LobbyError::UnknownIdentity));
}

#[test]
fn resolve_after_unregister_returns_none() {
    let mut lobby = Lobby::new();
    lobby.register(1, 10).unwrap();
    lobby.register(2, 20).unwrap();
    lobby.unregister(1).unwrap();
    assert_eq!(lobby.resolve(1), None);
    // the other registration is unaffected
    assert_eq!(lobby.resolve(2), Some(20));
}

#[test]
fn members_keep_connection_order() {
    let mut lobby = Lobby::new();
    lobby.register(3, 30).unwrap();
    lobby.register(1, 10).unwrap();
    lobby.register(2, 20).unwrap();
    let ids: Vec<u64> = lobby.member_entries().iter().map(|e| e.id).collect();
    assert_eq!(ids, vec![3, 1, 2]);
}

#[test]
fn reregister_after_unregister_is_fresh() {
    let mut lobby = Lobby::new();
    lobby.register(5, 50).unwrap();
    lobby.unregister(5).unwrap();
    assert!(lobby.register(5, 51).is_ok());
    assert_eq!(lobby.resolve(5), Some(51));
}
