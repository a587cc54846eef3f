//! Pairing, authentication and session core of a LAN remote-control host.
//!
//! A companion device pairs with a short-lived code, receives a token whose
//! hash is kept in an allow-list, and then authenticates with that token.
//! Failed attempts are counted per source address and answered with a
//! time-bounded lockout. At most one device holds the active session; a
//! watchdog reclaims it after prolonged silence.
//!
//! All time-dependent rules are functions of an explicit reading of a
//! monotonic clock in milliseconds, so that every rule is stated, and proved,
//! for every instant.

pub mod auth_store;
pub mod clock;
pub mod digest;
pub mod discovery;
pub mod pairing;
pub mod protocol;
pub mod rate_limit;
pub mod session;

pub use auth_store::{AuthorizedDevice, AuthorizedStore};
pub use pairing::{generate_pairing_code, PairingState};
pub use session::Connection;
