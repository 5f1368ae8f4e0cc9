//! Filesystem classes and the hooks that run around a wipe.

use vstd::prelude::*;

pub mod cow;
pub mod detector;

use cow::BtrfsOptimizer;
use cow::ZfsOptimizer;
use detector::Ext4Optimizer;
use detector::F2fsOptimizer;
use detector::XfsOptimizer;

verus! {

/// The class of filesystem that holds a file.
#[derive(Debug, Clone, Copy, PartialEq, Eq, Structural)]
pub enum FilesystemType {
    Ext4 { has_journal: bool },
    Btrfs { subvolume: bool },
    Xfs,
    Zfs,
    F2fs,
    Unknown,
}

/// What a hook asks its caller to do for the file. Every action is
/// best-effort: the caller reports a failure as a warning and goes on.
#[derive(Debug, Clone, Copy, PartialEq, Eq, Structural)]
pub enum HookAction {
    Nothing,
    /// Tell the user which filesystem was found.
    Inform,
    /// Warn that snapshots may keep the old content.
    WarnSnapshots,
    /// Ask the filesystem to stop copying the file on write.
    DisableCow,
    /// Force all pending data of the filesystem to the device.
    Sync,
}

/// Hooks and advice of one filesystem class. Other classes can be added by
/// implementing it.
pub trait FilesystemOptimizer {
    spec fn pre_wipe_action(&self) -> HookAction;

    spec fn post_wipe_action(&self) -> HookAction;

    spec fn recommended_passes(&self) -> usize;

    spec fn disables_cow(&self) -> bool;

    /// The action to take before the first pass.
    fn pre_wipe_setup(&self) -> (action: HookAction)
        ensures
            action == self.pre_wipe_action(),
    ;

    /// The action to take after the last pass.
    fn post_wipe_cleanup(&self) -> (action: HookAction)
        ensures
            action == self.post_wipe_action(),
    ;

    fn get_recommended_passes(&self) -> (passes: usize)
        ensures
            passes == self.recommended_passes(),
    ;

    fn should_disable_cow(&self) -> (disable: bool)
        ensures
            disable == self.disables_cow(),
    ;
}

/// The optimizer of a filesystem that was not recognised: no hooks.
#[derive(Debug, Clone, Copy, PartialEq, Eq, Structural)]
pub struct DefaultOptimizer;

impl FilesystemOptimizer for DefaultOptimizer {
    open spec fn pre_wipe_action(&self) -> HookAction {
        HookAction::Nothing
    }

    open spec fn post_wipe_action(&self) -> HookAction {
        HookAction::Nothing
    }

    open spec fn recommended_passes(&self) -> usize {
        3
    }

    open spec fn disables_cow(&self) -> bool {
        false
    }

    fn pre_wipe_setup(&self) -> (action: HookAction) {
        HookAction::Nothing
    }

    fn post_wipe_cleanup(&self) -> (action: HookAction) {
        HookAction::Nothing
    }

    fn get_recommended_passes(&self) -> (passes: usize) {
        3
    }

    fn should_disable_cow(&self) -> (disable: bool) {
        false
    }
}

/// The optimizer that belongs to one of the known filesystem classes.
#[derive(Debug, Clone, Copy, PartialEq, Eq, Structural)]
pub enum Optimizer {
    Btrfs(BtrfsOptimizer),
    Zfs(ZfsOptimizer),
    Ext4(Ext4Optimizer),
    Xfs(XfsOptimizer),
    F2fs(F2fsOptimizer),
    Default(DefaultOptimizer),
}

impl FilesystemOptimizer for Optimizer {
    open spec fn pre_wipe_action(&self) -> HookAction {
        match *self {
            Optimizer::Btrfs(o) => o.pre_wipe_action(),
            Optimizer::Zfs(o) => o.pre_wipe_action(),
            Optimizer::Ext4(o) => o.pre_wipe_action(),
            Optimizer::Xfs(o) => o.pre_wipe_action(),
            Optimizer::F2fs(o) => o.pre_wipe_action(),
            Optimizer::Default(o) => o.pre_wipe_action(),
        }
    }

    open spec fn post_wipe_action(&self) -> HookAction {
        match *self {
            Optimizer::Btrfs(o) => o.post_wipe_action(),
            Optimizer::Zfs(o) => o.post_wipe_action(),
            Optimizer::Ext4(o) => o.post_wipe_action(),
            Optimizer::Xfs(o) => o.post_wipe_action(),
            Optimizer::F2fs(o) => o.post_wipe_action(),
            Optimizer::Default(o) => o.post_wipe_action(),
        }
    }

    open spec fn recommended_passes(&self) -> usize {
        match *self {
            Optimizer::Btrfs(o) => o.recommended_passes(),
            Optimizer::Zfs(o) => o.recommended_passes(),
            Optimizer::Ext4(o) => o.recommended_passes(),
            Optimizer::Xfs(o) => o.recommended_passes(),
            Optimizer::F2fs(o) => o.recommended_passes(),
            Optimizer::Default(o) => o.recommended_passes(),
        }
    }

    open spec fn disables_cow(&self) -> bool {
        match *self {
            Optimizer::Btrfs(o) => o.disables_cow(),
            Optimizer::Zfs(o) => o.disables_cow(),
            Optimizer::Ext4(o) => o.disables_cow(),
            Optimizer::Xfs(o) => o.disables_cow(),
            Optimizer::F2fs(o) => o.disables_cow(),
            Optimizer::Default(o) => o.disables_cow(),
        }
    }

    fn pre_wipe_setup(&self) -> (action: HookAction) {
        match self {
            Optimizer::Btrfs(o) => o.pre_wipe_setup(),
            Optimizer::Zfs(o) => o.pre_wipe_setup(),
            Optimizer::Ext4(o) => o.pre_wipe_setup(),
            Optimizer::Xfs(o) => o.pre_wipe_setup(),
            Optimizer::F2fs(o) => o.pre_wipe_setup(),
            Optimizer::Default(o) => o.pre_wipe_setup(),
        }
    }

    fn post_wipe_cleanup(&self) -> (action: HookAction) {
        match self {
            Optimizer::Btrfs(o) => o.post_wipe_cleanup(),
            Optimizer::Zfs(o) => o.post_wipe_cleanup(),
            Optimizer::Ext4(o) => o.post_wipe_cleanup(),
            Optimizer::Xfs(o) => o.post_wipe_cleanup(),
            Optimizer::F2fs(o) => o.post_wipe_cleanup(),
            Optimizer::Default(o) => o.post_wipe_cleanup(),
        }
    }

    fn get_recommended_passes(&self) -> (passes: usize) {
        match self {
            Optimizer::Btrfs(o) => o.get_recommended_passes(),
            Optimizer::Zfs(o) => o.get_recommended_passes(),
            Optimizer::Ext4(o) => o.get_recommended_passes(),
            Optimizer::Xfs(o) => o.get_recommended_passes(),
            Optimizer::F2fs(o) => o.get_recommended_passes(),
            Optimizer::Default(o) => o.get_recommended_passes(),
        }
    }

    fn should_disable_cow(&self) -> (disable: bool) {
        match self {
            Optimizer::Btrfs(o) => o.should_disable_cow(),
            Optimizer::Zfs(o) => o.should_disable_cow(),
            Optimizer::Ext4(o) => o.should_disable_cow(),
            Optimizer::Xfs(o) => o.should_disable_cow(),
            Optimizer::F2fs(o) => o.should_disable_cow(),
            Optimizer::Default(o) => o.should_disable_cow(),
        }
    }
}

impl FilesystemType {
    /// The optimizer of this class.
    pub open spec fn optimizer(self) -> Optimizer {
        match self {
            FilesystemType::Btrfs { .. } => Optimizer::Btrfs(BtrfsOptimizer),
            FilesystemType::Zfs => Optimizer::Zfs(ZfsOptimizer),
            FilesystemType::Ext4 { .. } => Optimizer::Ext4(Ext4Optimizer),
            FilesystemType::Xfs => Optimizer::Xfs(XfsOptimizer),
            FilesystemType::F2fs => Optimizer::F2fs(F2fsOptimizer),
            FilesystemType::Unknown => Optimizer::Default(DefaultOptimizer),
        }
    }

    pub fn get_optimizer(&self) -> (optimizer: Optimizer)
        ensures
            optimizer == self.optimizer(),
    {
        match self {
            FilesystemType::Btrfs { .. } => Optimizer::Btrfs(BtrfsOptimizer),
            FilesystemType::Zfs => Optimizer::Zfs(ZfsOptimizer),
            FilesystemType::Ext4 { .. } => Optimizer::Ext4(Ext4Optimizer),
            FilesystemType::Xfs => Optimizer::Xfs(XfsOptimizer),
            FilesystemType::F2fs => Optimizer::F2fs(F2fsOptimizer),
            FilesystemType::Unknown => Optimizer::Default(DefaultOptimizer),
        }
    }

    /// Whether a write to the file lands in a new block instead of the old one.
    pub fn supports_cow(&self) -> (cow: bool)
        ensures
            cow == (self is Btrfs || self is Zfs),
    {
        match self {
            FilesystemType::Btrfs { .. } => true,
            FilesystemType::Zfs => true,
            _ => false,
        }
    }

    /// Whether the filesystem keeps a journal.
    pub fn is_journaled(&self) -> (journaled: bool)
        ensures
            journaled == match *self {
                FilesystemType::Ext4 { has_journal } => has_journal,
                FilesystemType::Xfs => true,
                FilesystemType::F2fs => true,
                _ => false,
            },
    {
        match self {
            FilesystemType::Ext4 { has_journal } => *has_journal,
            FilesystemType::Xfs => true,
            FilesystemType::F2fs => true,
            _ => false,
        }
    }
}

} // verus!
