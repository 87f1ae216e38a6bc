//! Connection lifecycle and GATT service discovery for one Bluetooth LE
//! peripheral, as a set of verified decision procedures.
//!
//! The platform Bluetooth stack is driven by the caller: every function here
//! takes what the platform answered and says what happens next.
pub mod error;
pub mod setup;
pub mod discovery;
pub mod connection;
pub mod teardown;
pub mod status;

pub use error::{Error, ErrorModel};
pub use setup::Subscription;
pub use status::{CacheMode, CommunicationStatus, ConnectionStatus};
