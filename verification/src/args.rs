//! The payload shapes of the workspace operations, as the caller hands them
//! in. The unverified shell decodes its requests into these and passes their
//! fields to the operations' machines.

use vstd::prelude::*;

verus! {

pub struct WorktreeCreateArgs {
    pub project_path: String,
    pub task_name: String,
    pub project_id: String,
    pub auto_approve: Option<bool>,
}

pub struct WorktreeListArgs {
    pub project_path: String,
}

pub struct WorktreeRemoveArgs {
    pub project_path: String,
    pub worktree_id: String,
    pub worktree_path: Option<String>,
    pub branch: Option<String>,
}

pub struct WorktreeStatusArgs {
    pub worktree_path: String,
}

pub struct WorktreeMergeArgs {
    pub project_path: String,
    pub worktree_id: String,
}

pub struct WorktreeGetArgs {
    pub worktree_id: String,
}

pub struct WorktreeCreateFromBranchArgs {
    pub project_path: String,
    pub task_name: String,
    pub branch_name: String,
    pub project_id: String,
    pub worktree_path: Option<String>,
}

pub struct FetchBaseRefArgs {
    pub project_id: String,
    pub project_path: String,
}

} // verus!
