use vstd::prelude::*;

verus! {

/// A repository summary as the listing endpoint reports it.
#[derive(Debug)]
pub struct Repo {
    /// `owner/name`.
    pub full_name: String,
    pub fork: bool,
    pub has_issues: bool,
    pub open_issues: u32,
}

/// An issue as the issue listing reports it.
#[derive(Debug)]
pub struct Issue {
    pub title: String,
    pub number: u32,
    /// The address of the issue's page.
    pub url: String,
}

/// What a run was asked to do.
pub struct RunConfig {
    /// The account whose public repositories are listed without a token.
    pub username: String,
    pub include_forked_repos: bool,
    /// The bearer token; with one, the authenticated listing is used.
    pub token: Option<String>,
}

/// The three ways a run can fail.
#[derive(Clone, Copy, Debug, PartialEq, Eq, Structural)]
pub enum ErrorKind {
    /// A required input is missing.
    Config,
    /// A request failed or was answered with a non-success status.
    Transport,
    /// There was nothing to choose from.
    EmptySelection,
}

/// A fatal error: its kind, the HTTP status where one was received, and a
/// message (for a status error, the response body).
#[derive(Debug)]
pub struct PipelineError {
    pub kind: ErrorKind,
    pub status: Option<u16>,
    pub message: String,
}

/// The mathematical value of a [`PipelineError`].
pub struct ErrorView {
    pub kind: ErrorKind,
    pub status: Option<u16>,
    pub message: Seq<char>,
}

impl View for PipelineError {
    type V = ErrorView;

    open spec fn view(&self) -> ErrorView {
        ErrorView { kind: self.kind, status: self.status, message: self.message@ }
    }
}

impl Repo {
    /// A copy of this summary.
    pub fn duplicate(&self) -> (r: Repo)
        ensures
            r == *self,
    {
        Repo {
            full_name: self.full_name.clone(),
            fork: self.fork,
            has_issues: self.has_issues,
            open_issues: self.open_issues,
        }
    }
}

impl Issue {
    /// A copy of this issue.
    pub fn duplicate(&self) -> (r: Issue)
        ensures
            r == *self,
    {
        Issue { title: self.title.clone(), number: self.number, url: self.url.clone() }
    }
}

} // verus!
