//! The update transaction coordinator: a state machine that sequences one
//! update attempt — version check, download, artifact verification, service
//! stop, binary swap, and restart with a bounded retry-then-rollback policy.
//!
//! The coordinator decides; its driver performs. Each call of [`Coordinator::step`]
//! consumes one event (the result of the previous action) and yields the
//! next [`Action`] for the driver to perform. Alongside the control state
//! the coordinator tracks a model of the three binary slots — live, backup,
//! staged — and its well-formedness invariant guarantees: whenever a run
//! terminates without the critical flag, the live slot holds a binary.

use crate::artifact::TargetArch;
use crate::artifact::arch_segment_of;
use crate::artifact::arch_target;
use crate::artifact::build_download_url;
use crate::artifact::download_url_of;
use crate::artifact::map_arch;
use crate::errors::Outcome;
use crate::errors::ServiceAction;
use crate::errors::UpdateError;
use crate::manifest::Manifest;
use crate::version::SemanticVersion;
use crate::version::resolve_local_version;
use crate::version::resolve_remote_version;
use crate::version::spec_local_version;
use crate::version::spec_parse_semver;
use crate::version::update_warranted;
use crate::version::version_lt;
use vstd::prelude::*;

verus! {

/// How many times the service is started with the new binary before the
/// coordinator rolls back.
pub const MAX_START_ATTEMPTS: u8 = 3;

/// The fixed wait between start attempts, in seconds.
pub const RETRY_DELAY_SECONDS: u64 = 2;

/// What a binary slot holds: the binary that was live before this run, the
/// freshly downloaded one, or a stale backup left by an earlier run.
#[derive(Clone, Copy, Debug, PartialEq, Eq, Structural)]
pub enum Binary {
    Prior,
    Fresh,
    Stale,
}

/// The coordinator's model of the three filesystem slots.
#[derive(Clone, Copy, Debug, PartialEq, Eq)]
pub struct Slots {
    /// The location the service launches its executable from.
    pub live: Option<Binary>,
    /// The location holding the immediately prior live binary during and
    /// after a swap.
    pub backup: Option<Binary>,
    /// The transient location a candidate binary is downloaded to.
    pub staged: Option<Binary>,
}

/// The control state of one update run. Each non-terminal phase awaits the
/// result of exactly one action.
#[derive(Clone, Debug)]
pub enum Phase {
    /// Awaiting the fetched manifest.
    FetchingManifest,
    /// Awaiting the version report of the live binary.
    ResolvingLocal { remote: SemanticVersion, raw: String },
    /// Awaiting the artifact download result.
    Downloading { remote: SemanticVersion },
    /// Awaiting the result of marking the staged binary executable.
    SettingPermissions { remote: SemanticVersion },
    /// Awaiting the version report of the staged binary.
    VerifyingArtifact { remote: SemanticVersion },
    /// Awaiting the result of stopping the service.
    StoppingService,
    /// Awaiting removal of a stale backup left by an earlier run.
    DiscardingStaleBackup,
    /// Awaiting the rename of the live binary to the backup slot.
    BackingUpLive,
    /// Awaiting the copy of the staged binary into the live slot.
    PromotingStaged,
    /// Awaiting a start attempt with the new binary.
    StartingService { attempt: u8 },
    /// Awaiting the fixed delay before the next start attempt or rollback.
    WaitingToRetry { attempt: u8 },
    /// Awaiting the best-effort removal of the live slot before rollback.
    ClearingLiveForRollback,
    /// Awaiting the rename of the backup back into the live slot.
    RestoringBackup,
    /// Awaiting the single start attempt with the restored binary.
    StartingRestored,
    /// The run is over; no further event is consumed.
    Terminated { outcome: Outcome },
}

/// What the driver reports back to the coordinator: the result of the one
/// action the current phase is awaiting.
pub enum Event {
    /// The manifest, or nothing if fetching or parsing it failed.
    ManifestFetched { manifest: Option<Manifest> },
    /// The trimmed standard output of a version query, or nothing if the
    /// binary is missing, failed to run, or exited non-zero.
    VersionReported { output: Option<String> },
    /// Whether the artifact download succeeded.
    Transferred { ok: bool },
    /// Whether the staged binary was marked executable.
    PermissionsSet { ok: bool },
    /// Whether the service manager reported success.
    ServiceControlled { ok: bool },
    /// The stale backup was discarded (best effort; never fails the run).
    BackupDiscarded,
    /// Whether the live binary was renamed to the backup slot.
    LiveBackedUp { ok: bool },
    /// Whether the staged binary was copied into the live slot.
    StagedPromoted { ok: bool },
    /// The fixed retry delay elapsed.
    DelayElapsed,
    /// The live slot was cleared (best effort; never fails the run).
    LiveCleared,
    /// Whether the backup was renamed back into the live slot.
    BackupRestored { ok: bool },
}

/// What the driver must do next.
pub enum Action {
    /// Fetch and parse the remote manifest.
    FetchManifest,
    /// Query the live binary for its version.
    QueryLiveVersion,
    /// Download the artifact at `url` to the staging path.
    Download { url: String },
    /// Mark the staged binary executable.
    MarkExecutable,
    /// Query the staged binary for its version.
    QueryStagedVersion,
    /// Ask the service manager to start or stop the service.
    ControlService { action: ServiceAction },
    /// Remove the stale backup, best effort.
    DiscardBackup,
    /// Rename the live binary to the backup slot.
    BackUpLive,
    /// Copy the staged binary into the live slot.
    PromoteStaged,
    /// Wait the fixed delay before the next start attempt.
    Delay { seconds: u64 },
    /// Remove whatever occupies the live slot, best effort.
    ClearLive,
    /// Rename the backup back into the live slot.
    RestoreBackup,
    /// The run is over; report the outcome and perform nothing further.
    Report,
}

/// One update run: the control phase, the slot model, and the artifact
/// architecture resolved at construction.
pub struct Coordinator {
    pub phase: Phase,
    pub slots: Slots,
    pub arch: Option<TargetArch>,
}

/// The terminal phase for a failed run.
pub open spec fn failed_phase(error: UpdateError, critical: bool) -> Phase {
    Phase::Terminated { outcome: Outcome::Failed { error, critical } }
}

/// The coordinator a run starts from: live slot occupied by the prior
/// binary, backup slot as found on disk, staging empty; terminated at once
/// with `UnsupportedPlatform` when the architecture is outside the
/// allow-list, so that no network request is ever made for it.
pub open spec fn spec_new(arch: Seq<char>, backup_exists: bool) -> Coordinator {
    Coordinator {
        phase: if arch_target(arch) is Some {
            Phase::FetchingManifest
        } else {
            failed_phase(UpdateError::UnsupportedPlatform, false)
        },
        slots: Slots {
            live: Some(Binary::Prior),
            backup: if backup_exists {
                Some(Binary::Stale)
            } else {
                None
            },
            staged: None,
        },
        arch: arch_target(arch),
    }
}

impl Coordinator {
    /// The well-formedness invariant: the attempt counter stays in bounds,
    /// the architecture is resolved while the run is live, and the slot
    /// model matches the phase — in particular, every terminated run
    /// without the critical flag has the live slot occupied.
    pub open spec fn wf(self) -> bool {
        &&& (!(self.phase is Terminated) ==> self.arch is Some)
        &&& match self.phase {
            Phase::FetchingManifest => self.slots.live == Some(Binary::Prior),
            Phase::ResolvingLocal { .. } => self.slots.live == Some(Binary::Prior),
            Phase::Downloading { .. } => self.slots.live == Some(Binary::Prior),
            Phase::SettingPermissions { .. } => self.slots.live == Some(Binary::Prior)
                && self.slots.staged == Some(Binary::Fresh),
            Phase::VerifyingArtifact { .. } => self.slots.live == Some(Binary::Prior)
                && self.slots.staged == Some(Binary::Fresh),
            Phase::StoppingService => self.slots.live == Some(Binary::Prior) && self.slots.staged
                == Some(Binary::Fresh),
            Phase::DiscardingStaleBackup => self.slots.live == Some(Binary::Prior)
                && self.slots.backup is Some && self.slots.staged == Some(Binary::Fresh),
            Phase::BackingUpLive => self.slots.live == Some(Binary::Prior) && self.slots.backup
                is None && self.slots.staged == Some(Binary::Fresh),
            Phase::PromotingStaged => self.slots.live is None && self.slots.backup == Some(
                Binary::Prior,
            ) && self.slots.staged == Some(Binary::Fresh),
            Phase::StartingService { attempt } => 1 <= attempt <= MAX_START_ATTEMPTS
                && self.slots.live == Some(Binary::Fresh) && self.slots.backup == Some(
                Binary::Prior,
            ),
            Phase::WaitingToRetry { attempt } => 1 <= attempt <= MAX_START_ATTEMPTS
                && self.slots.live == Some(Binary::Fresh) && self.slots.backup == Some(
                Binary::Prior,
            ),
            Phase::ClearingLiveForRollback => self.slots.backup == Some(Binary::Prior),
            Phase::RestoringBackup => self.slots.live is None && self.slots.backup == Some(
                Binary::Prior,
            ),
            Phase::StartingRestored => self.slots.live == Some(Binary::Prior) && self.slots.backup
                is None,
            Phase::Terminated { outcome } => match outcome {
                Outcome::UpToDate => self.slots.live == Some(Binary::Prior),
                Outcome::Updated => self.slots.live == Some(Binary::Fresh),
                Outcome::RolledBack => self.slots.live == Some(Binary::Prior) && self.slots.backup
                    is None,
                Outcome::Failed { critical, .. } => !critical ==> self.slots.live is Some,
            },
        }
    }

    /// Does the current phase await this event?
    pub open spec fn expects(self, event: Event) -> bool {
        match (self.phase, event) {
            (Phase::FetchingManifest, Event::ManifestFetched { .. }) => true,
            (Phase::ResolvingLocal { .. }, Event::VersionReported { .. }) => true,
            (Phase::Downloading { .. }, Event::Transferred { .. }) => true,
            (Phase::SettingPermissions { .. }, Event::PermissionsSet { .. }) => true,
            (Phase::VerifyingArtifact { .. }, Event::VersionReported { .. }) => true,
            (Phase::StoppingService, Event::ServiceControlled { .. }) => true,
            (Phase::DiscardingStaleBackup, Event::BackupDiscarded) => true,
            (Phase::BackingUpLive, Event::LiveBackedUp { .. }) => true,
            (Phase::PromotingStaged, Event::StagedPromoted { .. }) => true,
            (Phase::StartingService { .. }, Event::ServiceControlled { .. }) => true,
            (Phase::WaitingToRetry { .. }, Event::DelayElapsed) => true,
            (Phase::ClearingLiveForRollback, Event::LiveCleared) => true,
            (Phase::RestoringBackup, Event::BackupRestored { .. }) => true,
            (Phase::StartingRestored, Event::ServiceControlled { .. }) => true,
            _ => false,
        }
    }
}

/// The transition table: the coordinator that follows from consuming one
/// event in one phase. For an event the phase does not await, the
/// coordinator is unchanged.
pub open spec fn spec_step(pre: Coordinator, event: Event) -> Coordinator {
    match (pre.phase, event) {
        (Phase::FetchingManifest, Event::ManifestFetched { manifest }) => match manifest {
            None => Coordinator {
                phase: failed_phase(UpdateError::ManifestFetch, false),
                ..pre
            },
            Some(m) => match spec_parse_semver(m.version@) {
                None => Coordinator { phase: failed_phase(UpdateError::InvalidVersion, false), ..pre },
                Some(remote) => Coordinator {
                    phase: Phase::ResolvingLocal { remote, raw: m.version },
                    ..pre
                },
            },
        },
        (Phase::ResolvingLocal { remote, .. }, Event::VersionReported { output }) => {
            if version_lt(spec_local_version(output), remote) {
                Coordinator { phase: Phase::Downloading { remote }, ..pre }
            } else {
                Coordinator { phase: Phase::Terminated { outcome: Outcome::UpToDate }, ..pre }
            }
        },
        (Phase::Downloading { remote }, Event::Transferred { ok }) => {
            if ok {
                Coordinator {
                    phase: Phase::SettingPermissions { remote },
                    slots: Slots { staged: Some(Binary::Fresh), ..pre.slots },
                    ..pre
                }
            } else {
                Coordinator { phase: failed_phase(UpdateError::Fetch, false), ..pre }
            }
        },
        (Phase::SettingPermissions { remote }, Event::PermissionsSet { ok }) => {
            if ok {
                Coordinator { phase: Phase::VerifyingArtifact { remote }, ..pre }
            } else {
                Coordinator { phase: failed_phase(UpdateError::Permission, false), ..pre }
            }
        },
        (Phase::VerifyingArtifact { remote }, Event::VersionReported { output }) => match output {
            Some(text) => match spec_parse_semver(text@) {
                Some(v) => if v == remote {
                    Coordinator { phase: Phase::StoppingService, ..pre }
                } else {
                    Coordinator {
                        phase: failed_phase(UpdateError::ArtifactVerificationFailed, false),
                        ..pre
                    }
                },
                None => Coordinator {
                    phase: failed_phase(UpdateError::ArtifactVerificationFailed, false),
                    ..pre
                },
            },
            None => Coordinator {
                phase: failed_phase(UpdateError::ArtifactVerificationFailed, false),
                ..pre
            },
        },
        (Phase::StoppingService, Event::ServiceControlled { ok }) => {
            if ok {
                if pre.slots.backup is Some {
                    Coordinator { phase: Phase::DiscardingStaleBackup, ..pre }
                } else {
                    Coordinator { phase: Phase::BackingUpLive, ..pre }
                }
            } else {
                Coordinator {
                    phase: failed_phase(UpdateError::ServiceControl(ServiceAction::Stop), false),
                    ..pre
                }
            }
        },
        (Phase::DiscardingStaleBackup, Event::BackupDiscarded) => Coordinator {
            phase: Phase::BackingUpLive,
            slots: Slots { backup: None, ..pre.slots },
            ..pre
        },
        (Phase::BackingUpLive, Event::LiveBackedUp { ok }) => {
            if ok {
                Coordinator {
                    phase: Phase::PromotingStaged,
                    slots: Slots { live: None, backup: pre.slots.live, ..pre.slots },
                    ..pre
                }
            } else {
                Coordinator { phase: failed_phase(UpdateError::Swap, true), ..pre }
            }
        },
        (Phase::PromotingStaged, Event::StagedPromoted { ok }) => {
            if ok {
                Coordinator {
                    phase: Phase::StartingService { attempt: 1 },
                    slots: Slots { live: pre.slots.staged, ..pre.slots },
                    ..pre
                }
            } else {
                Coordinator { phase: failed_phase(UpdateError::Swap, true), ..pre }
            }
        },
        (Phase::StartingService { attempt }, Event::ServiceControlled { ok }) => {
            if ok {
                Coordinator { phase: Phase::Terminated { outcome: Outcome::Updated }, ..pre }
            } else {
                Coordinator { phase: Phase::WaitingToRetry { attempt }, ..pre }
            }
        },
        (Phase::WaitingToRetry { attempt }, Event::DelayElapsed) => {
            if attempt < MAX_START_ATTEMPTS {
                Coordinator {
                    phase: Phase::StartingService { attempt: (attempt + 1) as u8 },
                    ..pre
                }
            } else {
                Coordinator { phase: Phase::ClearingLiveForRollback, ..pre }
            }
        },
        (Phase::ClearingLiveForRollback, Event::LiveCleared) => Coordinator {
            phase: Phase::RestoringBackup,
            slots: Slots { live: None, ..pre.slots },
            ..pre
        },
        (Phase::RestoringBackup, Event::BackupRestored { ok }) => {
            if ok {
                Coordinator {
                    phase: Phase::StartingRestored,
                    slots: Slots { live: pre.slots.backup, backup: None, ..pre.slots },
                    ..pre
                }
            } else {
                Coordinator { phase: failed_phase(UpdateError::Rollback, true), ..pre }
            }
        },
        (Phase::StartingRestored, Event::ServiceControlled { ok }) => {
            if ok {
                Coordinator { phase: Phase::Terminated { outcome: Outcome::RolledBack }, ..pre }
            } else {
                Coordinator {
                    phase: failed_phase(UpdateError::ServiceControl(ServiceAction::Start), true),
                    ..pre
                }
            }
        },
        _ => pre,
    }
}

/// The action the coordinator owes the driver after consuming `event` in
/// state `pre`: the table pins the action's variant everywhere, and for a
/// download also the URL it carries.
pub open spec fn spec_action(pre: Coordinator, event: Event, a: Action) -> bool {
    match (pre.phase, event) {
        (Phase::FetchingManifest, Event::ManifestFetched { manifest }) => match manifest {
            None => a is Report,
            Some(m) => match spec_parse_semver(m.version@) {
                None => a is Report,
                Some(_) => a is QueryLiveVersion,
            },
        },
        (Phase::ResolvingLocal { remote, raw }, Event::VersionReported { output }) => {
            if version_lt(spec_local_version(output), remote) {
                pre.arch matches Some(t) && (a matches Action::Download { url } && url@
                    == download_url_of(raw@, arch_segment_of(t)))
            } else {
                a is Report
            }
        },
        (Phase::Downloading { .. }, Event::Transferred { ok }) => {
            if ok {
                a is MarkExecutable
            } else {
                a is Report
            }
        },
        (Phase::SettingPermissions { .. }, Event::PermissionsSet { ok }) => {
            if ok {
                a is QueryStagedVersion
            } else {
                a is Report
            }
        },
        (Phase::VerifyingArtifact { remote }, Event::VersionReported { output }) => match output {
            Some(text) => match spec_parse_semver(text@) {
                Some(v) => if v == remote {
                    a == (Action::ControlService { action: ServiceAction::Stop })
                } else {
                    a is Report
                },
                None => a is Report,
            },
            None => a is Report,
        },
        (Phase::StoppingService, Event::ServiceControlled { ok }) => {
            if ok {
                if pre.slots.backup is Some {
                    a is DiscardBackup
                } else {
                    a is BackUpLive
                }
            } else {
                a is Report
            }
        },
        (Phase::DiscardingStaleBackup, Event::BackupDiscarded) => a is BackUpLive,
        (Phase::BackingUpLive, Event::LiveBackedUp { ok }) => {
            if ok {
                a is PromoteStaged
            } else {
                a is Report
            }
        },
        (Phase::PromotingStaged, Event::StagedPromoted { ok }) => {
            if ok {
                a == (Action::ControlService { action: ServiceAction::Start })
            } else {
                a is Report
            }
        },
        (Phase::StartingService { .. }, Event::ServiceControlled { ok }) => {
            if ok {
                a is Report
            } else {
                a == (Action::Delay { seconds: RETRY_DELAY_SECONDS })
            }
        },
        (Phase::WaitingToRetry { attempt }, Event::DelayElapsed) => {
            if attempt < MAX_START_ATTEMPTS {
                a == (Action::ControlService { action: ServiceAction::Start })
            } else {
                a is ClearLive
            }
        },
        (Phase::ClearingLiveForRollback, Event::LiveCleared) => a is RestoreBackup,
        (Phase::RestoringBackup, Event::BackupRestored { ok }) => {
            if ok {
                a == (Action::ControlService { action: ServiceAction::Start })
            } else {
                a is Report
            }
        },
        (Phase::StartingRestored, Event::ServiceControlled { .. }) => a is Report,
        _ => true,
    }
}

impl Coordinator {
    /// Begins an update run. The architecture identifier is mapped through
    /// the allow-list first: an unsupported architecture terminates the run
    /// at once, before any network request. `backup_exists` reports whether
    /// a backup from an earlier run occupies the backup slot.
    pub fn new(arch: &str, backup_exists: bool) -> (r: (Coordinator, Action))
        ensures
            r.0 == spec_new(arch@, backup_exists),
            r.0.wf(),
            arch_target(arch@) is Some ==> r.1 is FetchManifest,
            arch_target(arch@) is None ==> r.1 is Report,
    {
        let slots = Slots {
            live: Some(Binary::Prior),
            backup: if backup_exists {
                Some(Binary::Stale)
            } else {
                None
            },
            staged: None,
        };
        match map_arch(arch) {
            Ok(t) => (
                Coordinator { phase: Phase::FetchingManifest, slots, arch: Some(t) },
                Action::FetchManifest,
            ),
            Err(e) => (
                Coordinator {
                    phase: Phase::Terminated {
                        outcome: Outcome::Failed { error: e, critical: false },
                    },
                    slots,
                    arch: None,
                },
                Action::Report,
            ),
        }
    }

    /// Consumes the result of the previous action and decides the next one.
    /// The new state follows the transition table exactly, stays
    /// well-formed, and the returned action is the one the table owes.
    pub fn step(self, event: Event) -> (r: (Coordinator, Action))
        requires
            self.wf(),
            self.expects(event),
        ensures
            r.0 == spec_step(self, event),
            r.0.wf(),
            spec_action(self, event, r.1),
    {
        let Coordinator { phase, slots, arch } = self;
        match (phase, event) {
            (Phase::FetchingManifest, Event::ManifestFetched { manifest }) => match manifest {
                None => (
                    Coordinator {
                        phase: Phase::Terminated {
                            outcome: Outcome::Failed {
                                error: UpdateError::ManifestFetch,
                                critical: false,
                            },
                        },
                        slots,
                        arch,
                    },
                    Action::Report,
                ),
                Some(m) => match resolve_remote_version(&m) {
                    Ok(remote) => (
                        Coordinator {
                            phase: Phase::ResolvingLocal { remote, raw: m.version },
                            slots,
                            arch,
                        },
                        Action::QueryLiveVersion,
                    ),
                    Err(e) => (
                        Coordinator {
                            phase: Phase::Terminated {
                                outcome: Outcome::Failed { error: e, critical: false },
                            },
                            slots,
                            arch,
                        },
                        Action::Report,
                    ),
                },
            },
            (Phase::ResolvingLocal { remote, raw }, Event::VersionReported { output }) => {
                let local = resolve_local_version(&output);
                if update_warranted(&remote, &local) {
                    let t = match arch {
                        Some(t) => t,
                        None => unreached(),
                    };
                    let url = build_download_url(raw.as_str(), t);
                    (
                        Coordinator { phase: Phase::Downloading { remote }, slots, arch },
                        Action::Download { url },
                    )
                } else {
                    (
                        Coordinator {
                            phase: Phase::Terminated { outcome: Outcome::UpToDate },
                            slots,
                            arch,
                        },
                        Action::Report,
                    )
                }
            },
            (Phase::Downloading { remote }, Event::Transferred { ok }) => {
                if ok {
                    (
                        Coordinator {
                            phase: Phase::SettingPermissions { remote },
                            slots: Slots { staged: Some(Binary::Fresh), ..slots },
                            arch,
                        },
                        Action::MarkExecutable,
                    )
                } else {
                    (
                        Coordinator {
                            phase: Phase::Terminated {
                                outcome: Outcome::Failed {
                                    error: UpdateError::Fetch,
                                    critical: false,
                                },
                            },
                            slots,
                            arch,
                        },
                        Action::Report,
                    )
                }
            },
            (Phase::SettingPermissions { remote }, Event::PermissionsSet { ok }) => {
                if ok {
                    (
                        Coordinator { phase: Phase::VerifyingArtifact { remote }, slots, arch },
                        Action::QueryStagedVersion,
                    )
                } else {
                    (
                        Coordinator {
                            phase: Phase::Terminated {
                                outcome: Outcome::Failed {
                                    error: UpdateError::Permission,
                                    critical: false,
                                },
                            },
                            slots,
                            arch,
                        },
                        Action::Report,
                    )
                }
            },
            (Phase::VerifyingArtifact { remote }, Event::VersionReported { output }) => {
                let verified = match &output {
                    Some(text) => match crate::version::parse_semver(text.as_str()) {
                        Some(v) => v == remote,
                        None => false,
                    },
                    None => false,
                };
                if verified {
                    (
                        Coordinator { phase: Phase::StoppingService, slots, arch },
                        Action::ControlService { action: ServiceAction::Stop },
                    )
                } else {
                    (
                        Coordinator {
                            phase: Phase::Terminated {
                                outcome: Outcome::Failed {
                                    error: UpdateError::ArtifactVerificationFailed,
                                    critical: false,
                                },
                            },
                            slots,
                            arch,
                        },
                        Action::Report,
                    )
                }
            },
            (Phase::StoppingService, Event::ServiceControlled { ok }) => {
                if ok {
                    match slots.backup {
                        Some(_) => (
                            Coordinator { phase: Phase::DiscardingStaleBackup, slots, arch },
                            Action::DiscardBackup,
                        ),
                        None => (
                            Coordinator { phase: Phase::BackingUpLive, slots, arch },
                            Action::BackUpLive,
                        ),
                    }
                } else {
                    (
                        Coordinator {
                            phase: Phase::Terminated {
                                outcome: Outcome::Failed {
                                    error: UpdateError::ServiceControl(ServiceAction::Stop),
                                    critical: false,
                                },
                            },
                            slots,
                            arch,
                        },
                        Action::Report,
                    )
                }
            },
            (Phase::DiscardingStaleBackup, Event::BackupDiscarded) => (
                Coordinator {
                    phase: Phase::BackingUpLive,
                    slots: Slots { backup: None, ..slots },
                    arch,
                },
                Action::BackUpLive,
            ),
            (Phase::BackingUpLive, Event::LiveBackedUp { ok }) => {
                if ok {
                    (
                        Coordinator {
                            phase: Phase::PromotingStaged,
                            slots: Slots { live: None, backup: slots.live, ..slots },
                            arch,
                        },
                        Action::PromoteStaged,
                    )
                } else {
                    (
                        Coordinator {
                            phase: Phase::Terminated {
                                outcome: Outcome::Failed {
                                    error: UpdateError::Swap,
                                    critical: true,
                                },
                            },
                            slots,
                            arch,
                        },
                        Action::Report,
                    )
                }
            },
            (Phase::PromotingStaged, Event::StagedPromoted { ok }) => {
                if ok {
                    (
                        Coordinator {
                            phase: Phase::StartingService { attempt: 1 },
                            slots: Slots { live: slots.staged, ..slots },
                            arch,
                        },
                        Action::ControlService { action: ServiceAction::Start },
                    )
                } else {
                    (
                        Coordinator {
                            phase: Phase::Terminated {
                                outcome: Outcome::Failed {
                                    error: UpdateError::Swap,
                                    critical: true,
                                },
                            },
                            slots,
                            arch,
                        },
                        Action::Report,
                    )
                }
            },
            (Phase::StartingService { attempt }, Event::ServiceControlled { ok }) => {
                if ok {
                    (
                        Coordinator {
                            phase: Phase::Terminated { outcome: Outcome::Updated },
                            slots,
                            arch,
                        },
                        Action::Report,
                    )
                } else {
                    (
                        Coordinator { phase: Phase::WaitingToRetry { attempt }, slots, arch },
                        Action::Delay { seconds: RETRY_DELAY_SECONDS },
                    )
                }
            },
            (Phase::WaitingToRetry { attempt }, Event::DelayElapsed) => {
                if attempt < MAX_START_ATTEMPTS {
                    (
                        Coordinator {
                            phase: Phase::StartingService { attempt: attempt + 1 },
                            slots,
                            arch,
                        },
                        Action::ControlService { action: ServiceAction::Start },
                    )
                } else {
                    (
                        Coordinator { phase: Phase::ClearingLiveForRollback, slots, arch },
                        Action::ClearLive,
                    )
                }
            },
            (Phase::ClearingLiveForRollback, Event::LiveCleared) => (
                Coordinator {
                    phase: Phase::RestoringBackup,
                    slots: Slots { live: None, ..slots },
                    arch,
                },
                Action::RestoreBackup,
            ),
            (Phase::RestoringBackup, Event::BackupRestored { ok }) => {
                if ok {
                    (
                        Coordinator {
                            phase: Phase::StartingRestored,
                            slots: Slots { live: slots.backup, backup: None, ..slots },
                            arch,
                        },
                        Action::ControlService { action: ServiceAction::Start },
                    )
                } else {
                    (
                        Coordinator {
                            phase: Phase::Terminated {
                                outcome: Outcome::Failed {
                                    error: UpdateError::Rollback,
                                    critical: true,
                                },
                            },
                            slots,
                            arch,
                        },
                        Action::Report,
                    )
                }
            },
            (Phase::StartingRestored, Event::ServiceControlled { ok }) => {
                if ok {
                    (
                        Coordinator {
                            phase: Phase::Terminated { outcome: Outcome::RolledBack },
                            slots,
                            arch,
                        },
                        Action::Report,
                    )
                } else {
                    (
                        Coordinator {
                            phase: Phase::Terminated {
                                outcome: Outcome::Failed {
                                    error: UpdateError::ServiceControl(ServiceAction::Start),
                                    critical: true,
                                },
                            },
                            slots,
                            arch,
                        },
                        Action::Report,
                    )
                }
            },
            _ => unreached(),
        }
    }

    /// Law: every transition from a well-formed state on an awaited event
    /// yields a well-formed state — in particular, the slot model keeps
    /// matching the phase across the whole run.
    pub proof fn lemma_step_preserves_wf(self, event: Event)
        requires
            self.wf(),
            self.expects(event),
        ensures
            spec_step(self, event).wf(),
    {
    }

    /// Law: after any terminated run that is not flagged critical, the live
    /// slot holds a binary. A run never ends with the live slot empty and a
    /// non-critical outcome.
    pub proof fn lemma_terminated_live_or_critical(self)
        requires
            self.wf(),
            self.phase is Terminated,
            !(self.phase matches Phase::Terminated {
                outcome: Outcome::Failed { critical: true, .. },
            }),
        ensures
            self.slots.live is Some,
    {
    }

    /// The outcome of a terminated run, or nothing while the run is live.
    pub fn outcome(&self) -> (r: Option<Outcome>)
        ensures
            r == (match self.phase {
                Phase::Terminated { outcome } => Some(outcome),
                _ => None,
            }),
    {
        match &self.phase {
            Phase::Terminated { outcome } => Some(*outcome),
            _ => None,
        }
    }
}

/// Law: an unsupported architecture is rejected at construction, before
/// any network request — the run terminates at once with
/// `UnsupportedPlatform`, and not critically: nothing was touched.
pub proof fn lemma_unsupported_arch_rejected_first(arch: Seq<char>, backup_exists: bool)
    requires
        arch_target(arch) is None,
    ensures
        spec_new(arch, backup_exists).phase == failed_phase(UpdateError::UnsupportedPlatform, false),
{
}

/// Law: the update gate — from the version-resolution phase the run
/// proceeds to download exactly when the remote version is strictly newer
/// than the resolved local one, and otherwise terminates as up to date.
pub proof fn lemma_update_gate(
    pre: Coordinator,
    remote: SemanticVersion,
    raw: String,
    output: Option<String>,
)
    requires
        pre.wf(),
        pre.phase == (Phase::ResolvingLocal { remote, raw }),
    ensures
        version_lt(spec_local_version(output), remote) ==> spec_step(
            pre,
            Event::VersionReported { output },
        ).phase == (Phase::Downloading { remote }),
        !version_lt(spec_local_version(output), remote) ==> spec_step(
            pre,
            Event::VersionReported { output },
        ).phase == (Phase::Terminated { outcome: Outcome::UpToDate }),
{
}

/// Law: post-download verification guards the swap — when the staged
/// binary's reported version is unreadable or differs from the manifest's
/// remote version, the run fails with `ArtifactVerificationFailed` and the
/// slot model is exactly as before, the prior binary still live.
pub proof fn lemma_verification_failure_leaves_live_untouched(
    pre: Coordinator,
    remote: SemanticVersion,
    output: Option<String>,
)
    requires
        pre.wf(),
        pre.phase == (Phase::VerifyingArtifact { remote }),
        match output {
            Some(text) => spec_parse_semver(text@) != Some(remote),
            None => true,
        },
    ensures
        spec_step(pre, Event::VersionReported { output }).phase == failed_phase(
            UpdateError::ArtifactVerificationFailed,
            false,
        ),
        spec_step(pre, Event::VersionReported { output }).slots == pre.slots,
        pre.slots.live == Some(Binary::Prior),
{
}

/// Law: a pre-existing backup is silently discarded and replaced — from a
/// successful service stop, a swap with an occupied backup slot first asks
/// for the discard; the discard is acknowledged unconditionally, empties
/// the backup slot, never terminates the run, and the swap proceeds to the
/// rename of the live binary.
pub proof fn lemma_stale_backup_discarded(pre: Coordinator, stopped: Coordinator)
    requires
        stopped.wf(),
        stopped.phase is StoppingService,
        stopped.slots.backup is Some,
        pre.wf(),
        pre.phase is DiscardingStaleBackup,
    ensures
        spec_step(stopped, Event::ServiceControlled { ok: true }).phase is DiscardingStaleBackup,
        spec_step(pre, Event::BackupDiscarded).phase is BackingUpLive,
        !(spec_step(pre, Event::BackupDiscarded).phase is Terminated),
        spec_step(pre, Event::BackupDiscarded).slots.backup is None,
        spec_step(pre, Event::BackupDiscarded).slots.live == pre.slots.live,
{
}

/// Law: the swap renames the live binary out before introducing the new
/// one — after a successful rename the live slot is empty and the backup
/// holds the prior binary; only then is the staged binary promoted, which
/// fills the live slot with the fresh one. A failed rename leaves every
/// slot, the live binary included, exactly as it was.
pub proof fn lemma_rename_before_copy(pre: Coordinator)
    requires
        pre.wf(),
        pre.phase is BackingUpLive,
    ensures
        spec_step(pre, Event::LiveBackedUp { ok: true }).phase is PromotingStaged,
        spec_step(pre, Event::LiveBackedUp { ok: true }).slots.live is None,
        spec_step(pre, Event::LiveBackedUp { ok: true }).slots.backup == Some(Binary::Prior),
        spec_step(
            spec_step(pre, Event::LiveBackedUp { ok: true }),
            Event::StagedPromoted { ok: true },
        ).slots.live == Some(Binary::Fresh),
        spec_step(pre, Event::LiveBackedUp { ok: false }).slots == pre.slots,
        spec_step(pre, Event::LiveBackedUp { ok: false }).phase == failed_phase(
            UpdateError::Swap,
            true,
        ),
{
}

/// Law: a start attempt that succeeds terminates the run as updated — a
/// success on an earlier attempt never triggers a further attempt or a
/// rollback.
pub proof fn lemma_start_success_terminates(pre: Coordinator, attempt: u8)
    requires
        pre.wf(),
        pre.phase == (Phase::StartingService { attempt }),
    ensures
        spec_step(pre, Event::ServiceControlled { ok: true }).phase == (Phase::Terminated {
            outcome: Outcome::Updated,
        }),
{
}

/// Law: a failed start attempt is followed by the fixed two-second wait —
/// never by an immediate retry or rollback.
pub proof fn lemma_start_failure_waits(pre: Coordinator, attempt: u8, a: Action)
    requires
        pre.wf(),
        pre.phase == (Phase::StartingService { attempt }),
        spec_action(pre, Event::ServiceControlled { ok: false }, a),
    ensures
        spec_step(pre, Event::ServiceControlled { ok: false }).phase == (Phase::WaitingToRetry {
            attempt,
        }),
        a == (Action::Delay { seconds: RETRY_DELAY_SECONDS }),
{
}

/// Law: the retry bound is exactly three start attempts — the attempt
/// counter never exceeds the bound; after the wait, a run with attempts
/// left starts the next attempt, numbered one higher, and only after the
/// third failed attempt does the rollback begin.
pub proof fn lemma_retry_bound(pre: Coordinator, attempt: u8)
    requires
        pre.wf(),
        pre.phase == (Phase::WaitingToRetry { attempt }),
    ensures
        1 <= attempt <= MAX_START_ATTEMPTS,
        attempt < MAX_START_ATTEMPTS ==> spec_step(pre, Event::DelayElapsed).phase
            == (Phase::StartingService { attempt: (attempt + 1) as u8 }),
        attempt == MAX_START_ATTEMPTS ==> spec_step(pre, Event::DelayElapsed).phase
            is ClearingLiveForRollback,
{
}

/// Law: a successful rollback restores the prior binary — the backup moves
/// back into the live slot, the backup slot empties, and a following
/// successful start terminates the run as rolled back: the service is
/// running on the previous version.
pub proof fn lemma_rollback_restores_prior(pre: Coordinator)
    requires
        pre.wf(),
        pre.phase is RestoringBackup,
    ensures
        spec_step(pre, Event::BackupRestored { ok: true }).phase is StartingRestored,
        spec_step(pre, Event::BackupRestored { ok: true }).slots.live == Some(Binary::Prior),
        spec_step(pre, Event::BackupRestored { ok: true }).slots.backup is None,
        spec_step(
            spec_step(pre, Event::BackupRestored { ok: true }),
            Event::ServiceControlled { ok: true },
        ).phase == (Phase::Terminated { outcome: Outcome::RolledBack }),
{
}

/// Law: a rollback whose rename fails terminates the run at once with the
/// critical `Rollback` failure — no further recovery is attempted.
pub proof fn lemma_rollback_failure_is_critical(pre: Coordinator)
    requires
        pre.wf(),
        pre.phase is RestoringBackup,
    ensures
        spec_step(pre, Event::BackupRestored { ok: false }).phase == failed_phase(
            UpdateError::Rollback,
            true,
        ),
{
}

} // verus!
