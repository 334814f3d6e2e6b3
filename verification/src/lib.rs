//! Sandbox policy core for an automated coding agent, together with the
//! status-display logic that reports on sandboxed runs.
//!
//! The sandbox half turns a declarative [`policy::SandboxPolicy`] into a
//! concrete, deterministic rule set ([`resolver`]), models the syscall filter
//! that denies network access ([`netfilter`]), and classifies the outcome of a
//! sandboxed command ([`outcome`]). The display half holds the rate-limit
//! status bar, the status-line composition helpers, and the file-search popup
//! of the agent's terminal front end.

pub mod executor;
pub mod file_search;
pub mod fsrules;
pub mod netfilter;
pub mod outcome;
pub mod pathshow;
pub mod policy;
pub mod resolver;
pub mod status;
pub mod strutil;
pub mod usage_bar;
