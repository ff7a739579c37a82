//! Plans for filesystem work: what is to be moved or deleted, and why a plan
//! cannot be applied.

use vstd::prelude::*;

verus! {

/// A path of a plan. Only a path that is valid UTF-8 can be named in a command.
#[derive(Debug)]
pub enum PlanPath {
    Utf8(String),
    NotUtf8,
}

/// Why a plan cannot be applied.
#[derive(Debug)]
pub enum PlanIssue {
    SourceMissing(PlanPath),
    DestinationExists(PlanPath),
    InsufficientCapacity { required: u64, available: u64 },
    AtomicNoReplaceRenameUnavailable,
    DeleteRequiresDryRunApproval,
}

/// What one step does.
#[derive(Clone, Copy, Debug, PartialEq, Eq, Structural)]
pub enum PlannedStorageAction {
    /// Brings the source to the destination.
    Move,
    /// Deletes the source if it is there.
    SafeDeleteIfPresent,
    /// Removes empty directories from the source up to the destination.
    PruneEmptyDirs,
}

/// One step of a plan.
#[derive(Debug)]
pub struct StoragePlanStep {
    pub action: PlannedStorageAction,
    pub source: Option<PlanPath>,
    pub destination: Option<PlanPath>,
    pub bytes: u64,
}

/// An ordered list of steps, with the steps that undo them.
#[derive(Debug)]
pub struct StoragePlan {
    pub dry_run: bool,
    pub can_apply: bool,
    pub issues: Vec<PlanIssue>,
    pub steps: Vec<StoragePlanStep>,
    pub rollback_steps: Vec<StoragePlanStep>,
}

} // verus!
