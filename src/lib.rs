//! Picks a random open issue from a user's repositories.
//!
//! The library holds every decision of the run: how the token and the
//! endpoint are resolved, which repositories are viable, how one repository
//! and one issue are drawn, when a response counts as a failure, and how the
//! chosen issue is printed. The surrounding program performs the requests and
//! hands each outcome to [`pipeline`], which says what to do next.

pub mod config;
pub mod laws;
pub mod model;
pub mod pipeline;
pub mod select;
pub mod text;

pub use config::resolve_token;
pub use model::{ErrorKind, Issue, PipelineError, Repo, RunConfig};
pub use pipeline::{
    after_issues, after_repos, draw_index, is_success_status, issues_step, repos_step, start,
    Reply, Step,
};
pub use select::filter_repos;
pub use text::{authorization_value, decimal_text, issues_address, own_repos_address,
    public_repos_address};
