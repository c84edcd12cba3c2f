//! Authoritative-networking and combat-resolution core of a first-person
//! multiplayer shooter.
//!
//! The library keeps one server's simulation consistent with several
//! independently predicting clients and resolves weapon fire into damage
//! deterministically.  It covers the session registry (lobby), the two-channel
//! lifecycle/snapshot protocol, the weapon state machine (fire gating, recoil,
//! reload) and client-side snapshot reconciliation.
//!
//! All quantities are plain integers so that every rule can be verified
//! exactly:
//! - time is in milliseconds (`u64`),
//! - hit points and damage multipliers are in tenths of a point
//!   (`100.0` hp is stored as `1000`; the head multiplier `3.5` as `35`),
//! - spatial coordinates, directions and recoil offsets are in milli-units
//!   (thousandths of a world unit).
//!
//! Rendering, audio playback, physics integration and the transport itself sit
//! outside the library and exchange plain values with it.

pub mod game;
pub mod hitbox;
pub mod lobby;
pub mod movement;
pub mod player;
pub mod protocol;
pub mod reload;
pub mod shoot;
pub mod sound;
pub mod snapshot;
pub mod weapon;
