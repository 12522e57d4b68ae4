//! BootKeeper core: the startup-item model, the risk rule engine, item ids,
//! snapshots, and the decisions behind write operations.
//!
//! Everything here is platform-independent logic with its specification.
//! Reading and changing the registry, the startup folders and the task
//! scheduler is done by the program around the library, which hands the
//! library plain values and performs the changes that it plans.

pub mod enrich;
pub mod error;
pub mod frontend;
pub mod helper;
pub mod model;
pub mod ops;
pub mod platform;
pub mod regvalue;
pub mod rules;
pub mod snapshot;
pub mod text;
pub mod write;

pub use enrich::enrich;
pub use error::Error;
pub use model::{Category, RawEntry, Risk, Signature, Snapshot, SnapshotEntry, StartupItem};
pub use rules::{evaluate, RuleResult};
pub use snapshot::SnapshotStore;
pub use write::{parse_item_id, WriteOp, WriteResult};
