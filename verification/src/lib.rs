//! Workspace-state rules for a manager of many Git repositories inside one
//! outer repository: naming, identities, manifests, path safety and the
//! decisions behind planting, moving and synchronising containers.

pub mod commands;
pub mod decimal;
pub mod failure;
pub mod flow;
pub mod git;
pub mod id;
pub mod naming;
pub mod order;
pub mod output;
pub mod paths;
pub mod report;
pub mod split;
pub mod string_set;
pub mod text;
pub mod types;
pub mod workspace;
