//! Scoring of repositories against best-practice checks, and the decision
//! logic that keeps those scores fresh.
//!
//! - [`report`]: what the check engine hands over, and the weight of each check.
//! - [`score`]: weighted category and global scores, and their merge per project.
//! - [`pipeline`]: the per-repository tracking state machine.
//! - [`scheduler`]: the bounded sliding pool that drives many pipelines.

pub mod report;
pub mod score;
pub mod pipeline;
pub mod scheduler;
