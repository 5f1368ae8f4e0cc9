//! Optimizers of the copy-on-write filesystems.

use vstd::prelude::*;
use super::FilesystemOptimizer;
use super::HookAction;

verus! {

/// How an external command ended.
#[derive(Debug, Clone, Copy, PartialEq, Eq, Structural)]
pub enum CommandOutcome {
    /// It ran and reported success.
    Succeeded,
    /// It ran and reported failure.
    Failed,
    /// It could not be started.
    NotRun,
}

/// What the attempt to switch off copy-on-write came to.
#[derive(Debug, Clone, Copy, PartialEq, Eq, Structural)]
pub enum CowReport {
    Disabled,
    /// The file is still copied on write: the wipe may be less effective.
    StillEnabled,
    /// The tool that changes file attributes is not installed.
    ToolMissing,
}

#[derive(Debug, Clone, Copy, PartialEq, Eq, Structural)]
pub struct BtrfsOptimizer;

impl BtrfsOptimizer {
    /// What to tell the user after the attempt to switch off copy-on-write.
    /// Whatever it came to, the wipe goes on.
    pub fn cow_report(&self, outcome: CommandOutcome) -> (report: CowReport)
        ensures
            report == match outcome {
                CommandOutcome::Succeeded => CowReport::Disabled,
                CommandOutcome::Failed => CowReport::StillEnabled,
                CommandOutcome::NotRun => CowReport::ToolMissing,
            },
    {
        match outcome {
            CommandOutcome::Succeeded => CowReport::Disabled,
            CommandOutcome::Failed => CowReport::StillEnabled,
            CommandOutcome::NotRun => CowReport::ToolMissing,
        }
    }
}

impl FilesystemOptimizer for BtrfsOptimizer {
    open spec fn pre_wipe_action(&self) -> HookAction {
        HookAction::DisableCow
    }

    open spec fn post_wipe_action(&self) -> HookAction {
        HookAction::Sync
    }

    open spec fn recommended_passes(&self) -> usize {
        5
    }

    open spec fn disables_cow(&self) -> bool {
        true
    }

    fn pre_wipe_setup(&self) -> (action: HookAction) {
        HookAction::DisableCow
    }

    fn post_wipe_cleanup(&self) -> (action: HookAction) {
        HookAction::Sync
    }

    fn get_recommended_passes(&self) -> (passes: usize) {
        5
    }

    fn should_disable_cow(&self) -> (disable: bool) {
        true
    }
}

#[derive(Debug, Clone, Copy, PartialEq, Eq, Structural)]
pub struct ZfsOptimizer;

impl FilesystemOptimizer for ZfsOptimizer {
    open spec fn pre_wipe_action(&self) -> HookAction {
        HookAction::WarnSnapshots
    }

    open spec fn post_wipe_action(&self) -> HookAction {
        HookAction::Sync
    }

    open spec fn recommended_passes(&self) -> usize {
        2
    }

    /// Copy-on-write cannot be switched off on ZFS.
    open spec fn disables_cow(&self) -> bool {
        false
    }

    fn pre_wipe_setup(&self) -> (action: HookAction) {
        HookAction::WarnSnapshots
    }

    fn post_wipe_cleanup(&self) -> (action: HookAction) {
        HookAction::Sync
    }

    fn get_recommended_passes(&self) -> (passes: usize) {
        2
    }

    fn should_disable_cow(&self) -> (disable: bool) {
        false
    }
}

} // verus!
