//! Self-upgrade of the running executable.
//!
//! The upgrade runs as a fixed sequence — fetch metadata, resolve the
//! asset for the host architecture, download, verify the candidate,
//! stop the engine, back the original up, replace it, set permissions,
//! re-exec — and every destructive step is ordered so that a failure
//! at any point leaves either the original binary or a verified-good
//! backup in place, never neither.  Downloads, file operations and the
//! exec call are outside work; the application performs them and
//! reports each outcome to the step machine here, which tracks what is
//! on disk and decides the next action or the rollback.

use vstd::prelude::*;

use crate::text::{contains_str, str_contains};
use crate::version::{is_newer, spec_newer, SemVersion};

verus! {

/// One downloadable asset of a release.
pub struct ReleaseAsset {
    pub name: String,
    pub url: String,
}

/// Where an upgrade attempt stands.
#[derive(Clone, Copy, Debug, PartialEq, Eq, Structural)]
pub enum UpgradePhase {
    /// No destructive work begun (and none ever done, or all undone).
    Idle,
    /// The candidate executable sits at its private temporary path.
    Downloaded,
    /// The candidate proved it can run.
    Verified,
    /// The supervised engine has been stopped for the swap.
    EngineDown,
    /// The original executable is backed up at the sibling path.
    BackedUp,
    /// The original was replaced by the candidate.
    Replaced,
    /// The new binary is executable; only the re-exec remains.
    PermissionsSet,
    /// The replacement failed; the backup is being restored.
    RestoringAfterReplace,
    /// Setting permissions failed; the backup is being restored.
    RestoringAfterPermissions,
    /// The re-exec returned; the backup is being restored to relaunch.
    RestoringAfterExec,
    /// Neither the original nor the backup could be put in place:
    /// operator intervention is required.
    Unrecoverable,
}

/// Errors an upgrade surfaces, each naming the step that failed so an
/// operator can assess the recovery state.
#[derive(Clone, Copy, Debug, PartialEq, Eq, Structural)]
pub enum UpgradeError {
    /// No release asset matches the host architecture.
    NoMatchingAsset,
    /// The download itself failed; nothing was touched.
    DownloadFailed,
    /// The candidate would not run; it was discarded and nothing
    /// destructive had happened.
    VerificationFailed,
    /// The original could not be backed up; the swap never began.
    BackupFailed,
    /// The swap failed; whether the backup was restored over it.
    ReplaceFailed { restored: bool },
    /// Marking the new binary executable failed; whether the backup
    /// was restored.
    PermissionFailed { restored: bool },
}

/// What the application must do next.
#[derive(Clone, Copy, Debug, PartialEq, Eq, Structural)]
pub enum UpgradeAction {
    /// Run the candidate with a harmless flag to verify it.
    VerifyCandidate,
    /// Stop the supervised engine and wait for it to finish.
    StopEngine,
    /// Copy the running executable to the sibling backup path.
    BackupOriginal,
    /// Delete the running executable and copy the candidate over it.
    ReplaceBinary,
    /// Mark the replaced binary executable.
    SetPermissions,
    /// Clean stale extracted artifacts, then re-exec the new binary
    /// with the original arguments.
    CleanupAndExec,
    /// Copy the backup back over the executable path.
    RestoreBackup,
    /// Re-exec the restored original binary.
    RelaunchOriginal,
    /// Nothing can be restored: terminate distinguishably.
    Terminate,
}

/// The upgrade step machine.  `original_intact` says the bytes at the
/// current-executable path are still the original's; `backup_exists`
/// says a verified-good backup sits at the sibling path;
/// `candidate_present` says the downloaded candidate still sits at
/// its temporary path.
pub struct UpgradeMachine {
    pub phase: UpgradePhase,
    pub original_intact: bool,
    pub backup_exists: bool,
    pub candidate_present: bool,
}

impl UpgradeMachine {
    /// The protocol discipline: before the swap the original is
    /// untouched, and from the backup step on a backup exists.
    pub open spec fn wf(self) -> bool {
        &&& (self.phase is Idle || self.phase is Downloaded || self.phase is Verified
            || self.phase is EngineDown || self.phase is BackedUp) ==> self.original_intact
        &&& (self.phase is BackedUp || self.phase is Replaced || self.phase is PermissionsSet
            || self.phase is RestoringAfterReplace || self.phase is RestoringAfterPermissions
            || self.phase is RestoringAfterExec) ==> self.backup_exists
        &&& (self.phase is Downloaded || self.phase is Verified || self.phase is EngineDown
            || self.phase is BackedUp || self.phase is Replaced || self.phase is PermissionsSet)
            ==> self.candidate_present
    }

    /// The safety the ordering buys: outside the unrecoverable state
    /// there is always an original or a backup to fall back on.
    pub open spec fn recoverable(self) -> bool {
        !(self.phase is Unrecoverable) ==> (self.original_intact || self.backup_exists)
    }
}

/// Well-formedness alone guarantees recoverability: every phase but
/// the unrecoverable one keeps the original or a backup in place.
pub proof fn lemma_wf_implies_recoverable(m: UpgradeMachine)
    requires
        m.wf(),
    ensures
        m.recoverable(),
{
}

/// Transition for the download outcome.
pub open spec fn spec_on_download_result(m: UpgradeMachine, ok: bool) -> (UpgradeMachine, Result<
    UpgradeAction,
    UpgradeError,
>) {
    if ok {
        (
            UpgradeMachine { phase: UpgradePhase::Downloaded, candidate_present: true, ..m },
            Result::Ok(UpgradeAction::VerifyCandidate),
        )
    } else {
        (m, Result::Err(UpgradeError::DownloadFailed))
    }
}

/// Transition for the verification outcome: a candidate that will not
/// run is discarded before anything destructive has happened.
pub open spec fn spec_on_verify_result(m: UpgradeMachine, ok: bool) -> (UpgradeMachine, Result<
    UpgradeAction,
    UpgradeError,
>) {
    if ok {
        (UpgradeMachine { phase: UpgradePhase::Verified, ..m }, Result::Ok(
            UpgradeAction::StopEngine,
        ))
    } else {
        (
            UpgradeMachine { phase: UpgradePhase::Idle, candidate_present: false, ..m },
            Result::Err(UpgradeError::VerificationFailed),
        )
    }
}

/// Transition for the engine stop: best-effort, so it always
/// proceeds once the stop has finished.
pub open spec fn spec_on_engine_stopped(m: UpgradeMachine) -> (UpgradeMachine, UpgradeAction) {
    (UpgradeMachine { phase: UpgradePhase::EngineDown, ..m }, UpgradeAction::BackupOriginal)
}

/// Transition for the backup outcome: without a good backup the
/// upgrade aborts before the original is touched.
pub open spec fn spec_on_backup_result(m: UpgradeMachine, ok: bool) -> (UpgradeMachine, Result<
    UpgradeAction,
    UpgradeError,
>) {
    if ok {
        (
            UpgradeMachine { phase: UpgradePhase::BackedUp, backup_exists: true, ..m },
            Result::Ok(UpgradeAction::ReplaceBinary),
        )
    } else {
        (
            UpgradeMachine { phase: UpgradePhase::Idle, backup_exists: false, ..m },
            Result::Err(UpgradeError::BackupFailed),
        )
    }
}

/// Transition for the swap outcome.  Either way the original bytes
/// are gone from the executable path; on failure the backup is
/// restored next.
pub open spec fn spec_on_replace_result(m: UpgradeMachine, ok: bool) -> (UpgradeMachine, Result<
    UpgradeAction,
    UpgradeError,
>) {
    if ok {
        (
            UpgradeMachine { phase: UpgradePhase::Replaced, original_intact: false, ..m },
            Result::Ok(UpgradeAction::SetPermissions),
        )
    } else {
        (
            UpgradeMachine {
                phase: UpgradePhase::RestoringAfterReplace,
                original_intact: false,
                ..m
            },
            Result::Ok(UpgradeAction::RestoreBackup),
        )
    }
}

/// Transition for the permission outcome.
pub open spec fn spec_on_permission_result(m: UpgradeMachine, ok: bool) -> (UpgradeMachine, Result<
    UpgradeAction,
    UpgradeError,
>) {
    if ok {
        (UpgradeMachine { phase: UpgradePhase::PermissionsSet, ..m }, Result::Ok(
            UpgradeAction::CleanupAndExec,
        ))
    } else {
        (UpgradeMachine { phase: UpgradePhase::RestoringAfterPermissions, ..m }, Result::Ok(
            UpgradeAction::RestoreBackup,
        ))
    }
}

/// Transition for a returned re-exec call: the only exec path that
/// hands control back.
pub open spec fn spec_on_exec_returned(m: UpgradeMachine) -> (UpgradeMachine, UpgradeAction) {
    (UpgradeMachine { phase: UpgradePhase::RestoringAfterExec, ..m }, UpgradeAction::RestoreBackup)
}

/// Transition for a restore outcome.  A successful restore puts the
/// original bytes back and reports the step that made it necessary; a
/// failed one leaves the machine unrecoverable.
pub open spec fn spec_on_restore_result(m: UpgradeMachine, ok: bool) -> (UpgradeMachine, Result<
    UpgradeAction,
    UpgradeError,
>) {
    if ok {
        let healed = UpgradeMachine { phase: UpgradePhase::Idle, original_intact: true, ..m };
        if m.phase is RestoringAfterReplace {
            (healed, Result::Err(UpgradeError::ReplaceFailed { restored: true }))
        } else if m.phase is RestoringAfterPermissions {
            (healed, Result::Err(UpgradeError::PermissionFailed { restored: true }))
        } else {
            (
                UpgradeMachine { phase: UpgradePhase::Idle, original_intact: true, ..m },
                Result::Ok(UpgradeAction::RelaunchOriginal),
            )
        }
    } else {
        (UpgradeMachine { phase: UpgradePhase::Unrecoverable, ..m }, Result::Ok(
            UpgradeAction::Terminate,
        ))
    }
}

impl UpgradeMachine {
    /// A fresh attempt: nothing downloaded, nothing touched.
    pub fn new() -> (m: UpgradeMachine)
        ensures
            m.wf(),
            m.phase is Idle,
            m.original_intact,
            !m.backup_exists,
            !m.candidate_present,
    {
        UpgradeMachine {
            phase: UpgradePhase::Idle,
            original_intact: true,
            backup_exists: false,
            candidate_present: false,
        }
    }

    /// Report the download outcome.
    pub fn on_download_result(&mut self, ok: bool) -> (r: Result<UpgradeAction, UpgradeError>)
        requires
            old(self).wf(),
            old(self).phase is Idle,
        ensures
            final(self).wf(),
            (*final(self), r) == spec_on_download_result(*old(self), ok),
    {
        if ok {
            self.phase = UpgradePhase::Downloaded;
            self.candidate_present = true;
            Result::Ok(UpgradeAction::VerifyCandidate)
        } else {
            Result::Err(UpgradeError::DownloadFailed)
        }
    }

    /// Report the verification outcome.  On failure the candidate is
    /// discarded and the attempt is over: the original executable is
    /// untouched and no backup was ever made.
    pub fn on_verify_result(&mut self, ok: bool) -> (r: Result<UpgradeAction, UpgradeError>)
        requires
            old(self).wf(),
            old(self).phase is Downloaded,
        ensures
            final(self).wf(),
            (*final(self), r) == spec_on_verify_result(*old(self), ok),
            !ok ==> final(self).original_intact == old(self).original_intact,
            !ok ==> final(self).backup_exists == old(self).backup_exists,
            !ok ==> !final(self).candidate_present,
    {
        if ok {
            self.phase = UpgradePhase::Verified;
            Result::Ok(UpgradeAction::StopEngine)
        } else {
            self.phase = UpgradePhase::Idle;
            self.candidate_present = false;
            Result::Err(UpgradeError::VerificationFailed)
        }
    }

    /// Report that the engine stop has finished (best-effort: stop
    /// errors do not abort the upgrade, but the swap waits for it).
    pub fn on_engine_stopped(&mut self) -> (r: UpgradeAction)
        requires
            old(self).wf(),
            old(self).phase is Verified,
        ensures
            final(self).wf(),
            (*final(self), r) == spec_on_engine_stopped(*old(self)),
    {
        self.phase = UpgradePhase::EngineDown;
        UpgradeAction::BackupOriginal
    }

    /// Report the backup outcome.
    pub fn on_backup_result(&mut self, ok: bool) -> (r: Result<UpgradeAction, UpgradeError>)
        requires
            old(self).wf(),
            old(self).phase is EngineDown,
        ensures
            final(self).wf(),
            (*final(self), r) == spec_on_backup_result(*old(self), ok),
    {
        if ok {
            self.phase = UpgradePhase::BackedUp;
            self.backup_exists = true;
            Result::Ok(UpgradeAction::ReplaceBinary)
        } else {
            self.phase = UpgradePhase::Idle;
            self.backup_exists = false;
            Result::Err(UpgradeError::BackupFailed)
        }
    }

    /// Report the swap outcome.
    pub fn on_replace_result(&mut self, ok: bool) -> (r: Result<UpgradeAction, UpgradeError>)
        requires
            old(self).wf(),
            old(self).phase is BackedUp,
        ensures
            final(self).wf(),
            final(self).recoverable(),
            (*final(self), r) == spec_on_replace_result(*old(self), ok),
    {
        if ok {
            self.phase = UpgradePhase::Replaced;
            self.original_intact = false;
            Result::Ok(UpgradeAction::SetPermissions)
        } else {
            self.phase = UpgradePhase::RestoringAfterReplace;
            self.original_intact = false;
            Result::Ok(UpgradeAction::RestoreBackup)
        }
    }

    /// Report the permission outcome.
    pub fn on_permission_result(&mut self, ok: bool) -> (r: Result<UpgradeAction, UpgradeError>)
        requires
            old(self).wf(),
            old(self).phase is Replaced,
        ensures
            final(self).wf(),
            (*final(self), r) == spec_on_permission_result(*old(self), ok),
    {
        if ok {
            self.phase = UpgradePhase::PermissionsSet;
            Result::Ok(UpgradeAction::CleanupAndExec)
        } else {
            self.phase = UpgradePhase::RestoringAfterPermissions;
            Result::Ok(UpgradeAction::RestoreBackup)
        }
    }

    /// Report that the re-exec call returned instead of replacing the
    /// process image.
    pub fn on_exec_returned(&mut self) -> (r: UpgradeAction)
        requires
            old(self).wf(),
            old(self).phase is PermissionsSet,
        ensures
            final(self).wf(),
            (*final(self), r) == spec_on_exec_returned(*old(self)),
    {
        self.phase = UpgradePhase::RestoringAfterExec;
        UpgradeAction::RestoreBackup
    }

    /// Report a restore outcome.
    pub fn on_restore_result(&mut self, ok: bool) -> (r: Result<UpgradeAction, UpgradeError>)
        requires
            old(self).wf(),
            old(self).phase is RestoringAfterReplace || old(self).phase is RestoringAfterPermissions
                || old(self).phase is RestoringAfterExec,
        ensures
            final(self).wf(),
            (*final(self), r) == spec_on_restore_result(*old(self), ok),
    {
        if ok {
            let was_replace = matches!(self.phase, UpgradePhase::RestoringAfterReplace);
            let was_perms = matches!(self.phase, UpgradePhase::RestoringAfterPermissions);
            self.phase = UpgradePhase::Idle;
            self.original_intact = true;
            if was_replace {
                Result::Err(UpgradeError::ReplaceFailed { restored: true })
            } else if was_perms {
                Result::Err(UpgradeError::PermissionFailed { restored: true })
            } else {
                Result::Ok(UpgradeAction::RelaunchOriginal)
            }
        } else {
            self.phase = UpgradePhase::Unrecoverable;
            Result::Ok(UpgradeAction::Terminate)
        }
    }
}

/// A failed post-download verification is harmless: starting from a
/// fresh attempt, after a successful download and a failed
/// verification the error is `VerificationFailed`, the original
/// executable is untouched, no backup file is left behind, and the
/// candidate is discarded.
pub proof fn lemma_failed_verification_harmless(m0: UpgradeMachine)
    requires
        m0.wf(),
        m0.phase is Idle,
        m0.original_intact,
        !m0.backup_exists,
    ensures
        ({
            let (m1, r1) = spec_on_download_result(m0, true);
            let (m2, r2) = spec_on_verify_result(m1, false);
            &&& r1 == Result::<UpgradeAction, UpgradeError>::Ok(UpgradeAction::VerifyCandidate)
            &&& r2 == Result::<UpgradeAction, UpgradeError>::Err(UpgradeError::VerificationFailed)
            &&& m2.original_intact
            &&& !m2.backup_exists
            &&& !m2.candidate_present
            &&& m2.phase is Idle
        }),
{
}

/// Whether an upgrade is due: only a strictly newer release than the
/// running build proceeds; anything else is a no-op success.
pub fn upgrade_due(latest: &SemVersion, current: &SemVersion) -> (r: bool)
    ensures
        r == spec_newer(*latest, *current),
{
    is_newer(latest, current)
}

/// Resolve the release asset for the host architecture: the first
/// asset whose name contains the architecture marker.
pub fn resolve_asset(assets: &Vec<ReleaseAsset>, arch_marker: &str) -> (r: Result<
    usize,
    UpgradeError,
>)
    ensures
        r matches Ok(i) ==> 0 <= i < assets@.len() && str_contains(
            assets@[i as int].name@,
            arch_marker@,
        ) && forall|j: int|
            0 <= j < i ==> !str_contains(#[trigger] assets@[j].name@, arch_marker@),
        r is Err ==> r == Result::<usize, UpgradeError>::Err(UpgradeError::NoMatchingAsset)
            && forall|j: int|
            0 <= j < assets@.len() ==> !str_contains(#[trigger] assets@[j].name@, arch_marker@),
{
    let n = assets.len();
    let mut i: usize = 0;
    while i < n
        invariant
            n == assets@.len(),
            0 <= i <= n,
            forall|j: int| 0 <= j < i ==> !str_contains(#[trigger] assets@[j].name@, arch_marker@),
        decreases n - i,
    {
        if contains_str(assets[i].name.as_str(), arch_marker) {
            return Result::Ok(i);
        }
        i += 1;
    }
    Result::Err(UpgradeError::NoMatchingAsset)
}

} // verus!
