//! The restore protocol: atomic replacement of a store's whole dataset
//! with the dataset found at another path, with rollback on failure.
//!
//! The protocol is a state machine. An embedding that owns the engine
//! handle and the filesystem runs it: it performs the directory action that
//! the current state calls for, reports the outcome as an event, and steps
//! the machine until it is done. Every decision — what to do next, when to
//! roll back, what to report — is taken here; the proofs below show that no
//! reachable step ever leaves the canonical path without either the old or
//! the new dataset while the backup does not hold the old one.
//!
//! The steps, in order: close the handle first (the engine's path lock must
//! be released before the directory can be renamed); refuse to run when a
//! backup directory is already present, since it marks an unresolved
//! earlier failure; rename the canonical directory to the backup path;
//! rename the new dataset into the canonical path; on success discard the
//! backup, on failure rename the backup back; finally reopen the handle so
//! that a failed attempt is transparent to the caller.

use vstd::prelude::*;

use crate::error::DatabaseError;

verus! {

/// The well-known path of the transient backup directory. At most one
/// backup may exist at a time; one left over from an interrupted restore
/// blocks the next attempt until resolved.
pub fn backup_path() -> (r: &'static str)
    ensures
        r@ == "backup_old_db"@,
{
    "backup_old_db"
}

/// The state of a restore in flight. Every non-terminal state names the
/// directory action the embedding must perform next.
pub enum RestoreState {
    /// Report whether the backup path exists.
    CheckBackup,
    /// Rename the canonical directory to the backup path.
    BackupCurrent,
    /// Rename the new dataset's directory into the canonical path.
    InstallNew,
    /// Remove the backup directory tree; the replacement is in place.
    DiscardBackup,
    /// Rename the backup back into the canonical path; the installation
    /// failed with the remembered detail.
    RollBack { detail: String },
    /// Reopen the engine handle at the canonical path with the store's
    /// original configuration, then report the pending outcome.
    Reopen { outcome: Result<(), DatabaseError> },
    /// The restore is finished with this outcome.
    Done { outcome: Result<(), DatabaseError> },
}

/// What the embedding reports back after performing the pending action.
pub enum RestoreEvent {
    /// Whether the backup path exists (answers `CheckBackup`).
    Exists(bool),
    /// The pending action succeeded.
    Completed,
    /// The pending action failed with this detail.
    Failed(String),
}

/// Whether `outcome` is an internal error whose detail reads `msg`.
pub open spec fn is_internal(outcome: Result<(), DatabaseError>, msg: Seq<char>) -> bool {
    &&& outcome matches Err(e)
    &&& e matches DatabaseError::Internal(d)
    &&& d@ == msg
}

/// The transition relation of the protocol: what the state after `event`
/// must be. An event that does not answer the pending action leaves the
/// machine where it was.
pub open spec fn restore_step_rel(
    state: RestoreState,
    event: RestoreEvent,
    next: RestoreState,
) -> bool {
    match (state, event) {
        // a present backup marks an unresolved earlier failure: refuse,
        // reopen, and report the conflict without touching anything
        (RestoreState::CheckBackup, RestoreEvent::Exists(true)) => next matches RestoreState::Reopen {
            outcome,
        } && is_internal(outcome, "conflicting backup"@),
        (RestoreState::CheckBackup, RestoreEvent::Exists(false)) => next
            == RestoreState::BackupCurrent,
        (RestoreState::CheckBackup, _) => next == state,
        (RestoreState::BackupCurrent, RestoreEvent::Completed) => next == RestoreState::InstallNew,
        // the backup rename failed before anything changed
        (RestoreState::BackupCurrent, RestoreEvent::Failed(d)) => next == (RestoreState::Reopen {
            outcome: Err(DatabaseError::Internal(d)),
        }),
        (RestoreState::BackupCurrent, _) => next == state,
        (RestoreState::InstallNew, RestoreEvent::Completed) => next == RestoreState::DiscardBackup,
        (RestoreState::InstallNew, RestoreEvent::Failed(d)) => next == (RestoreState::RollBack {
            detail: d,
        }),
        (RestoreState::InstallNew, _) => next == state,
        (RestoreState::DiscardBackup, RestoreEvent::Completed) => next == (RestoreState::Reopen {
            outcome: Ok(()),
        }),
        (RestoreState::DiscardBackup, RestoreEvent::Failed(d)) => next == (RestoreState::Reopen {
            outcome: Err(DatabaseError::Internal(d)),
        }),
        (RestoreState::DiscardBackup, _) => next == state,
        // the rollback is best-effort: either way the installation failure
        // is what gets reported
        (RestoreState::RollBack { detail }, RestoreEvent::Completed) => next
            == (RestoreState::Reopen { outcome: Err(DatabaseError::Internal(detail)) }),
        (RestoreState::RollBack { detail }, RestoreEvent::Failed(_)) => next
            == (RestoreState::Reopen { outcome: Err(DatabaseError::Internal(detail)) }),
        (RestoreState::RollBack { .. }, _) => next == state,
        (RestoreState::Reopen { outcome }, RestoreEvent::Completed) => next == (RestoreState::Done {
            outcome,
        }),
        // a failed reopen is fatal to the call; an earlier failure keeps
        // its own detail
        (RestoreState::Reopen { outcome }, RestoreEvent::Failed(d)) => next == (RestoreState::Done {
            outcome: if outcome is Ok {
                Err(DatabaseError::Internal(d))
            } else {
                outcome
            },
        }),
        (RestoreState::Reopen { .. }, _) => next == state,
        (RestoreState::Done { .. }, _) => next == state,
    }
}

/// The first state of a restore: find out whether a backup is in the way.
pub fn restore_start() -> (r: RestoreState)
    ensures
        r == RestoreState::CheckBackup,
{
    RestoreState::CheckBackup
}

/// Steps the protocol: consumes the current state and the reported event
/// and produces the next state.
pub fn restore_step(state: RestoreState, event: RestoreEvent) -> (next: RestoreState)
    ensures
        restore_step_rel(state, event, next),
{
    match (state, event) {
        (RestoreState::CheckBackup, RestoreEvent::Exists(true)) => RestoreState::Reopen {
            outcome: Err(DatabaseError::Internal("conflicting backup".to_owned())),
        },
        (RestoreState::CheckBackup, RestoreEvent::Exists(false)) => RestoreState::BackupCurrent,
        (RestoreState::CheckBackup, _) => RestoreState::CheckBackup,
        (RestoreState::BackupCurrent, RestoreEvent::Completed) => RestoreState::InstallNew,
        (RestoreState::BackupCurrent, RestoreEvent::Failed(d)) => RestoreState::Reopen {
            outcome: Err(DatabaseError::Internal(d)),
        },
        (RestoreState::BackupCurrent, _) => RestoreState::BackupCurrent,
        (RestoreState::InstallNew, RestoreEvent::Completed) => RestoreState::DiscardBackup,
        (RestoreState::InstallNew, RestoreEvent::Failed(d)) => RestoreState::RollBack { detail: d },
        (RestoreState::InstallNew, _) => RestoreState::InstallNew,
        (RestoreState::DiscardBackup, RestoreEvent::Completed) => RestoreState::Reopen {
            outcome: Ok(()),
        },
        (RestoreState::DiscardBackup, RestoreEvent::Failed(d)) => RestoreState::Reopen {
            outcome: Err(DatabaseError::Internal(d)),
        },
        (RestoreState::DiscardBackup, _) => RestoreState::DiscardBackup,
        (RestoreState::RollBack { detail }, RestoreEvent::Completed) => RestoreState::Reopen {
            outcome: Err(DatabaseError::Internal(detail)),
        },
        (RestoreState::RollBack { detail }, RestoreEvent::Failed(_)) => RestoreState::Reopen {
            outcome: Err(DatabaseError::Internal(detail)),
        },
        (RestoreState::RollBack { detail }, _) => RestoreState::RollBack { detail },
        (RestoreState::Reopen { outcome }, RestoreEvent::Completed) => RestoreState::Done {
            outcome,
        },
        (RestoreState::Reopen { outcome }, RestoreEvent::Failed(d)) => {
            if outcome.is_ok() {
                RestoreState::Done { outcome: Err(DatabaseError::Internal(d)) }
            } else {
                RestoreState::Done { outcome }
            }
        },
        (RestoreState::Reopen { outcome }, _) => RestoreState::Reopen { outcome },
        (RestoreState::Done { outcome }, _) => RestoreState::Done { outcome },
    }
}

/// What a directory involved in a restore can hold, as the protocol models
/// it.
pub enum DirContents {
    /// The dataset the store held before the restore began.
    OldData,
    /// The dataset being installed.
    NewData,
    /// Nothing: the path does not exist.
    Missing,
    /// Something else: a stale backup, or the partial remains of an
    /// interrupted removal.
    Junk,
}

/// The three directories a restore touches: the store's canonical path,
/// the well-known backup path, and the path holding the new dataset.
pub struct RestoreDisk {
    /// What the canonical path holds.
    pub canonical: DirContents,
    /// What the backup path holds.
    pub backup: DirContents,
    /// What the new dataset's path holds.
    pub source: DirContents,
}

/// How the directories change when `event` answers the action pending in
/// `state`: a completed rename moves a directory whole, a failed rename
/// moves nothing, and a failed removal may leave partial remains.
pub open spec fn disk_step(
    state: RestoreState,
    event: RestoreEvent,
    d: RestoreDisk,
) -> RestoreDisk {
    match (state, event) {
        (RestoreState::BackupCurrent, RestoreEvent::Completed) => RestoreDisk {
            canonical: DirContents::Missing,
            backup: d.canonical,
            source: d.source,
        },
        (RestoreState::InstallNew, RestoreEvent::Completed) => RestoreDisk {
            canonical: d.source,
            backup: d.backup,
            source: DirContents::Missing,
        },
        (RestoreState::DiscardBackup, RestoreEvent::Completed) => RestoreDisk {
            canonical: d.canonical,
            backup: DirContents::Missing,
            source: d.source,
        },
        (RestoreState::DiscardBackup, RestoreEvent::Failed(_)) => RestoreDisk {
            canonical: d.canonical,
            backup: DirContents::Junk,
            source: d.source,
        },
        (RestoreState::RollBack { .. }, RestoreEvent::Completed) => RestoreDisk {
            canonical: d.backup,
            backup: DirContents::Missing,
            source: d.source,
        },
        _ => d,
    }
}

/// A dataset survives: the canonical path holds the old or the new data,
/// or the backup path still holds the old data.
pub open spec fn data_reachable(d: RestoreDisk) -> bool {
    d.canonical is OldData || d.canonical is NewData || d.backup is OldData
}

/// The invariant tying a protocol state to the directories. A restore
/// starts in `CheckBackup` with the old dataset at the canonical path and
/// the new dataset at its source path.
pub open spec fn protocol_inv(state: RestoreState, d: RestoreDisk) -> bool {
    match state {
        RestoreState::CheckBackup => d.canonical is OldData && d.source is NewData,
        RestoreState::BackupCurrent => d.canonical is OldData && d.backup is Missing
            && d.source is NewData,
        RestoreState::InstallNew => d.canonical is Missing && d.backup is OldData
            && d.source is NewData,
        RestoreState::DiscardBackup => d.canonical is NewData && d.backup is OldData,
        RestoreState::RollBack { .. } => d.canonical is Missing && d.backup is OldData,
        RestoreState::Reopen { outcome } => (outcome is Ok ==> d.canonical is NewData)
            && data_reachable(d),
        RestoreState::Done { outcome } => (outcome is Ok ==> d.canonical is NewData)
            && data_reachable(d),
    }
}

/// Whether the answer to `CheckBackup` tells the truth about the backup
/// path. The other events carry their meaning in `disk_step` itself.
pub open spec fn event_reports_backup(
    state: RestoreState,
    event: RestoreEvent,
    d: RestoreDisk,
) -> bool {
    state is CheckBackup ==> (event matches RestoreEvent::Exists(b) ==> b == !(
    d.backup is Missing))
}

/// Every step of the protocol preserves the invariant: from any reachable
/// state, whatever outcome the embedding reports, either the old or the
/// new dataset is still present, and a restore that will report success
/// has the new dataset at the canonical path.
pub proof fn lemma_restore_step_preserves_inv(
    state: RestoreState,
    event: RestoreEvent,
    next: RestoreState,
    d: RestoreDisk,
)
    requires
        restore_step_rel(state, event, next),
        protocol_inv(state, d),
        event_reports_backup(state, event, d),
    ensures
        protocol_inv(next, disk_step(state, event, d)),
{
}

/// A finished restore that reported success has installed the new dataset
/// at the canonical path.
pub proof fn lemma_restore_success_installs(state: RestoreState, d: RestoreDisk)
    requires
        protocol_inv(state, d),
        state matches RestoreState::Done { outcome } && outcome is Ok,
    ensures
        d.canonical is NewData,
{
}

/// In every reachable protocol state a dataset survives: the canonical
/// path holds the old or the new data, or the backup still holds the old
/// data. The store is never left with neither.
pub proof fn lemma_restore_never_loses_data(state: RestoreState, d: RestoreDisk)
    requires
        protocol_inv(state, d),
    ensures
        data_reachable(d),
{
}

/// A backup already present when a restore begins makes the protocol
/// refuse: it reports the conflict as an internal error and the
/// directories are left exactly as they were, the old dataset still at the
/// canonical path.
pub proof fn lemma_stale_backup_rejected(d: RestoreDisk, next: RestoreState)
    requires
        protocol_inv(RestoreState::CheckBackup, d),
        !(d.backup is Missing),
        restore_step_rel(RestoreState::CheckBackup, RestoreEvent::Exists(true), next),
    ensures
        next matches RestoreState::Reopen { outcome } && is_internal(
            outcome,
            "conflicting backup"@,
        ),
        disk_step(RestoreState::CheckBackup, RestoreEvent::Exists(true), d) == d,
        d.canonical is OldData,
{
}

} // verus!
