//! Finds and retires stale remote branches and push requests (GitHub pull
//! requests, GitLab merge requests): provider detection from a repository
//! URL, the per-provider request and pagination rules, and the eligibility
//! rules that decide what may be deleted or closed.

pub mod text;
pub mod services;
pub mod eligibility;
pub mod detect;
pub mod github;
pub mod gitlab;
pub mod provider;
pub mod messages;
pub mod report;
