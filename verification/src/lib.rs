//! A registry of claims on content fingerprints.
//!
//! An account claims a fingerprint at a ledger height and may later revoke
//! its own claim. Every operation either applies in full, appending one event
//! to the log, or is rejected and leaves the state as it was.

pub mod config;
pub mod error;
pub mod laws;
pub mod model;
pub mod pallet;
pub mod registry;
pub mod types;

pub use config::Config;
pub use error::Error;
pub use model::{EventView, Operation, State};
pub use pallet::{Call, Event, Pallet};
pub use registry::{ClaimRecord, ClaimRecordView, ClaimRegistry};
pub use types::{AccountId, Fingerprint, Height};
