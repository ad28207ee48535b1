//! Self-update agent for a single system service binary.
//!
//! The library holds the verified core of the update transaction: semantic
//! version resolution and comparison, the architecture/download-URL rules,
//! and the transaction coordinator — a state machine that sequences
//! download, verification, binary swap, service restart and rollback, and
//! guarantees that every terminated run either leaves a binary in the live
//! slot or is flagged as a critical failure.

pub mod artifact;
pub mod coordinator;
pub mod errors;
pub mod manifest;
pub mod version;

pub use coordinator::Action;
pub use coordinator::Binary;
pub use coordinator::Coordinator;
pub use coordinator::Event;
pub use coordinator::Phase;
pub use coordinator::Slots;
pub use errors::Outcome;
pub use errors::ServiceAction;
pub use errors::UpdateError;
pub use manifest::Manifest;
pub use version::SemanticVersion;
