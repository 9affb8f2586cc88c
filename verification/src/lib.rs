//! Verified core of a workspace-per-task manager: it provisions, tracks and
//! tears down isolated working directories ("worktrees") that are forked from
//! a resolved base ref of a shared repository.
//!
//! All decisions live here as verified code; external effects (running the
//! version-control tool, touching the filesystem, the settings database) are
//! driven by a thin unverified shell that performs the [`Action`]s these
//! modules emit and feeds the outcomes back as events.

use vstd::prelude::*;

pub mod args;
pub mod baseref;
pub mod browser;
pub mod chars;
pub mod clock;
pub mod container;
pub mod create;
pub mod dbnorm;
pub mod effects;
pub mod hygiene;
pub mod identity;
pub mod listing;
pub mod mergeop;
pub mod naming;
pub mod numbers;
pub mod output;
pub mod parse;
pub mod registry;
pub mod remove;
pub mod statusop;
pub mod update;
