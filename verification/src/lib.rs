//! Verified core of the repository automation tool: parsing of issue and
//! pull-request references, directive handling, PR body rendering and the
//! decisions taken by each automation command.

pub mod text;
pub mod patterns;
pub mod reference;
pub mod args;
pub mod directives;
pub mod pr_body;
pub mod breaking;
pub mod body_block;
pub mod neutralizer;
pub mod conflict_guard;
pub mod json;
pub mod github;
pub mod workflow;
pub mod status;
pub mod autolink;
pub mod auto_closes;
pub mod scripts;
pub mod parent_guard;
pub mod git;
pub mod validation;
pub mod pr_sync;
pub mod dev_status;
pub mod sync;
pub mod lint;
pub mod gates;
pub mod cli;
