//! The error taxonomy of an update run, and the outcome a run terminates
//! with. A failure carries a `critical` flag exactly when the managed
//! service may be left non-running after a swap was attempted — the one
//! condition that requires operator intervention.

use vstd::prelude::*;

verus! {

/// A service-manager action: start or stop the managed service.
#[derive(Clone, Copy, Debug, PartialEq, Eq, Structural)]
pub enum ServiceAction {
    Start,
    Stop,
}

/// Everything that can go wrong during one update run.
#[derive(Clone, Copy, Debug, PartialEq, Eq, Structural)]
pub enum UpdateError {
    /// The remote manifest could not be fetched or parsed.
    ManifestFetch,
    /// The manifest's version field is not a well-formed semantic version.
    InvalidVersion,
    /// The running CPU architecture is outside the explicit allow-list.
    UnsupportedPlatform,
    /// The artifact download failed (transport error or non-2xx status).
    Fetch,
    /// The staged binary could not be marked executable.
    Permission,
    /// The staged binary's reported version is unreadable or differs from
    /// the manifest's remote version.
    ArtifactVerificationFailed,
    /// The service manager reported failure for the given action.
    ServiceControl(ServiceAction),
    /// The backup-rename or the promotion copy of the swap failed.
    Swap,
    /// The rollback's rename of the backup into the live slot failed.
    Rollback,
}

/// The terminal outcome of one update run.
#[derive(Clone, Copy, Debug, PartialEq, Eq, Structural)]
pub enum Outcome {
    /// The local version is already at least the remote one; nothing done.
    UpToDate,
    /// The new binary is in place and the service started on it.
    Updated,
    /// The new binary failed to start; the previous binary was restored and
    /// the service is running on it.
    RolledBack,
    /// The run failed. `critical` marks the outcomes after which the
    /// service may be left non-running, which require operator attention.
    Failed { error: UpdateError, critical: bool },
}

impl Outcome {
    /// Does this outcome require operator intervention because the service
    /// may be left non-running?
    pub fn is_critical(&self) -> (r: bool)
        ensures
            r == (self matches Outcome::Failed { critical: true, .. }),
    {
        match self {
            Outcome::Failed { critical, .. } => *critical,
            _ => false,
        }
    }
}

} // verus!
