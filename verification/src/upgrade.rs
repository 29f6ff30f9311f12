//! Remote self-upgrade of the agent from uploaded bytes: the binary is
//! staged, asked for its `--version`, the running binary is backed up, and
//! the new one promoted. The steps are decided here; the file system and the
//! process they touch are the caller's.

use vstd::prelude::*;
use crate::setup::{join_path, join_path_str};
use crate::text::{str_chars, trim, trim_chars, string_from_chars};

verus! {

/// The three binaries of an upgrade, under `{berth_dir}/bin`.
pub struct UpgradePaths {
    /// The binary that runs: `berth-agent`.
    pub active: String,
    /// Where the upload is written: `berth-agent.new`.
    pub staging: String,
    /// Where the running binary is kept: `berth-agent.old`.
    pub backup: String,
}

/// `{berth_dir}/bin`.
pub open spec fn bin_dir(berth_dir: Seq<char>) -> Seq<char> {
    join_path(berth_dir, "bin"@)
}

/// The paths of an upgrade under the agent's directory.
pub fn upgrade_paths(berth_dir: &str) -> (p: UpgradePaths)
    ensures
        p.active@ == join_path(bin_dir(berth_dir@), "berth-agent"@),
        p.staging@ == join_path(bin_dir(berth_dir@), "berth-agent.new"@),
        p.backup@ == join_path(bin_dir(berth_dir@), "berth-agent.old"@),
{
    let bin = join_path_str(berth_dir, "bin");
    UpgradePaths {
        active: join_path_str(bin.as_str(), "berth-agent"),
        staging: join_path_str(bin.as_str(), "berth-agent.new"),
        backup: join_path_str(bin.as_str(), "berth-agent.old"),
    }
}

/// Where an upgrade stands.
pub enum UpgradeState {
    /// Nothing received yet.
    Idle,
    /// The upload is being written to the staging path and made executable.
    Staging,
    /// The staged binary is being run with `--version`.
    Verifying,
    /// The running binary is being moved to the backup path.
    BackingUp { new_version: String },
    /// The staged binary is being moved to the active path.
    Promoting { new_version: String },
    /// The new binary is in place.
    Done,
    /// The upgrade was refused or broke off.
    Failed,
}

/// The step of staging that failed.
#[derive(PartialEq, Eq, Structural, Clone, Copy, Debug)]
pub enum StagingStep {
    CreateBinDir,
    WriteBinary,
    MakeExecutable,
}

/// What the caller reports back.
pub enum UpgradeEvent {
    /// The upload arrived, `len` bytes long.
    Received { len: usize },
    /// The staged binary is written and executable.
    Staged,
    /// A staging step failed with the system's message.
    StagingFailed { step: StagingStep, error: String },
    /// `--version` ran: whether it exited successfully, and its output.
    VersionRan { success: bool, stdout: String, stderr: String },
    /// `--version` could not be run.
    VersionFailed { error: String },
    /// The running binary is in the backup path (or there was none).
    BackedUp,
    /// Moving the running binary to the backup path failed.
    BackupFailed { error: String },
    /// The staged binary is now the active one.
    Promoted,
    /// Moving the staged binary into place failed.
    PromoteFailed { error: String },
}

/// What the caller does next.
pub enum UpgradeAction {
    /// Create the bin directory, write the upload to the staging path and
    /// make it executable.
    WriteStaging,
    /// Run the staged binary with `--version`.
    RunVersionCheck,
    /// Remove a stale backup, then move the running binary, if there is one,
    /// to the backup path.
    BackupActive,
    /// Move the staged binary to the active path.
    Promote,
    /// Emit `agent_upgraded`, write the probation markers, exit with code 42
    /// for the service manager to restart the agent, and answer
    /// `(true, new_version, message)`.
    Finish { new_version: String, message: String },
    /// Answer with the error, removing the staged binary first when
    /// `remove_staging` holds.
    Fail { error: String, remove_staging: bool },
    /// The event does not belong to this stage: nothing to do.
    Ignore,
}

/// The message of a failed staging step.
pub open spec fn staging_error(step: StagingStep, error: Seq<char>) -> Seq<char> {
    match step {
        StagingStep::CreateBinDir => "Failed to create bin dir: "@ + error,
        StagingStep::WriteBinary => "Failed to write staging binary: "@ + error,
        StagingStep::MakeExecutable => "Failed to chmod: "@ + error,
    }
}

fn prefixed(prefix: &str, rest: &str) -> (s: String)
    ensures
        s@ == prefix@ + rest@,
{
    let mut s = prefix.to_owned();
    s.append(rest);
    s
}

/// One step of an upgrade: from where it stands and what the caller
/// reports, where it goes and what the caller does. `backup_path` is named
/// in the error of a failed promotion.
pub fn upgrade_step(state: UpgradeState, event: UpgradeEvent, backup_path: &str) -> (r: (UpgradeState, UpgradeAction))
    ensures
        match (state, event) {
            (UpgradeState::Idle, UpgradeEvent::Received { len }) => if len == 0 {
                &&& r.0 is Failed
                &&& r.1 matches UpgradeAction::Fail { error, remove_staging }
                &&& error@ == "No upgrade data received"@ && !remove_staging
            } else {
                r.0 is Staging && r.1 is WriteStaging
            },
            (UpgradeState::Staging, UpgradeEvent::Staged) => r.0 is Verifying && r.1 is RunVersionCheck,
            (UpgradeState::Staging, UpgradeEvent::StagingFailed { step, error }) => {
                &&& r.0 is Failed
                &&& r.1 matches UpgradeAction::Fail { error: e, remove_staging }
                &&& e@ == staging_error(step, error@) && !remove_staging
            },
            (UpgradeState::Verifying, UpgradeEvent::VersionRan { success, stdout, stderr }) => if success {
                &&& r.0 matches UpgradeState::BackingUp { new_version } && new_version@ == trim(stdout@)
                &&& r.1 is BackupActive
            } else {
                &&& r.0 is Failed
                &&& r.1 matches UpgradeAction::Fail { error, remove_staging }
                &&& error@ == "New binary verification failed: "@ + stderr@ && remove_staging
            },
            (UpgradeState::Verifying, UpgradeEvent::VersionFailed { error }) => {
                &&& r.0 is Failed
                &&& r.1 matches UpgradeAction::Fail { error: e, remove_staging }
                &&& e@ == "Failed to verify new binary: "@ + error@ && remove_staging
            },
            (UpgradeState::BackingUp { new_version }, UpgradeEvent::BackedUp) => {
                &&& r.0 matches UpgradeState::Promoting { new_version: v } && v@ == new_version@
                &&& r.1 is Promote
            },
            (UpgradeState::BackingUp { new_version }, UpgradeEvent::BackupFailed { error }) => {
                &&& r.0 is Failed
                &&& r.1 matches UpgradeAction::Fail { error: e, remove_staging }
                &&& e@ == "Failed to backup current binary: "@ + error@ && !remove_staging
            },
            (UpgradeState::Promoting { new_version }, UpgradeEvent::Promoted) => {
                &&& r.0 is Done
                &&& r.1 matches UpgradeAction::Finish { new_version: v, message }
                &&& v@ == new_version@ && message@ == "Upgrade successful, restarting..."@
            },
            (UpgradeState::Promoting { new_version }, UpgradeEvent::PromoteFailed { error }) => {
                &&& r.0 is Failed
                &&& r.1 matches UpgradeAction::Fail { error: e, remove_staging }
                &&& e@ == "Failed to promote new binary: "@ + error@ + ". Backup at "@ + backup_path@
                &&& !remove_staging
            },
            (s, _) => r.0 == s && r.1 is Ignore,
        },
{
    match (state, event) {
        (UpgradeState::Idle, UpgradeEvent::Received { len }) => {
            if len == 0 {
                (UpgradeState::Failed, UpgradeAction::Fail { error: "No upgrade data received".to_owned(), remove_staging: false })
            } else {
                (UpgradeState::Staging, UpgradeAction::WriteStaging)
            }
        },
        (UpgradeState::Staging, UpgradeEvent::Staged) => (UpgradeState::Verifying, UpgradeAction::RunVersionCheck),
        (UpgradeState::Staging, UpgradeEvent::StagingFailed { step, error }) => {
            let prefix = match step {
                StagingStep::CreateBinDir => "Failed to create bin dir: ",
                StagingStep::WriteBinary => "Failed to write staging binary: ",
                StagingStep::MakeExecutable => "Failed to chmod: ",
            };
            (UpgradeState::Failed, UpgradeAction::Fail { error: prefixed(prefix, error.as_str()), remove_staging: false })
        },
        (UpgradeState::Verifying, UpgradeEvent::VersionRan { success, stdout, stderr }) => {
            if success {
                let v = string_from_chars(&trim_chars(&str_chars(stdout.as_str())));
                (UpgradeState::BackingUp { new_version: v }, UpgradeAction::BackupActive)
            } else {
                (
                    UpgradeState::Failed,
                    UpgradeAction::Fail {
                        error: prefixed("New binary verification failed: ", stderr.as_str()),
                        remove_staging: true,
                    },
                )
            }
        },
        (UpgradeState::Verifying, UpgradeEvent::VersionFailed { error }) => (
            UpgradeState::Failed,
            UpgradeAction::Fail { error: prefixed("Failed to verify new binary: ", error.as_str()), remove_staging: true },
        ),
        (UpgradeState::BackingUp { new_version }, UpgradeEvent::BackedUp) => (
            UpgradeState::Promoting { new_version },
            UpgradeAction::Promote,
        ),
        (UpgradeState::BackingUp { new_version }, UpgradeEvent::BackupFailed { error }) => (
            UpgradeState::Failed,
            UpgradeAction::Fail { error: prefixed("Failed to backup current binary: ", error.as_str()), remove_staging: false },
        ),
        (UpgradeState::Promoting { new_version }, UpgradeEvent::Promoted) => (
            UpgradeState::Done,
            UpgradeAction::Finish { new_version, message: "Upgrade successful, restarting...".to_owned() },
        ),
        (UpgradeState::Promoting { new_version }, UpgradeEvent::PromoteFailed { error }) => {
            let mut e = prefixed("Failed to promote new binary: ", error.as_str());
            e.append(". Backup at ");
            e.append(backup_path);
            (UpgradeState::Failed, UpgradeAction::Fail { error: e, remove_staging: false })
        },
        (s, _) => (s, UpgradeAction::Ignore),
    }
}

} // verus!
