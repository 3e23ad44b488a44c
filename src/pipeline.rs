use vstd::prelude::*;
use vstd::string::*;
use rand::seq::IteratorRandom;
use crate::model::{ErrorKind, ErrorView, Issue, PipelineError, Repo, RunConfig};
use crate::select::{filter_repos, viable_repos};
use crate::text::{issues_address, issues_url, decorated_line, own_repos_address, own_repos_url,
    public_repos_address, public_repos_url};

verus! {

/// How a request ended, as the program hands it to the library.
#[derive(Debug)]
pub enum Reply<T> {
    /// A success status, with the listing read from the body.
    Listing(T),
    /// A non-success status, with the body's text.
    Status { code: u16, body: String },
    /// No usable answer: the request failed or the body could not be read.
    Failed { reason: String },
}

/// What the program does next.
#[derive(Debug)]
pub enum Step {
    /// Request the repository listing at `url`.
    FetchRepos { url: String },
    /// Request the issue listing of `repo` at `url`.
    FetchIssues { repo: Repo, url: String },
    /// Print `line`; the run is then done.
    Print { line: String },
    /// Stop the run on `error`.
    Fail { error: PipelineError },
}

/// The mathematical value of a [`Step`].
pub enum StepView {
    FetchRepos { url: Seq<char> },
    FetchIssues { repo: Repo, url: Seq<char> },
    Print { line: Seq<char> },
    Fail { error: ErrorView },
}

impl View for Step {
    type V = StepView;

    open spec fn view(&self) -> StepView {
        match self {
            Step::FetchRepos { url } => StepView::FetchRepos { url: url@ },
            Step::FetchIssues { repo, url } => StepView::FetchIssues { repo: *repo, url: url@ },
            Step::Print { line } => StepView::Print { line: line@ },
            Step::Fail { error } => StepView::Fail { error: error@ },
        }
    }
}

pub open spec fn missing_username_message() -> Seq<char> {
    "A username is needed when no token is given."@
}

pub open spec fn no_viable_repo_message() -> Seq<char> {
    "No viable repos to choose issues from."@
}

pub open spec fn no_viable_issue_message() -> Seq<char> {
    "No viable issue found."@
}

/// A status error: the status and the body.
pub open spec fn status_failure(code: u16, body: Seq<char>) -> ErrorView {
    ErrorView { kind: ErrorKind::Transport, status: Some(code), message: body }
}

/// How a reply that carries no listing ends the run.
pub open spec fn reply_failure<T>(reply: Reply<T>) -> ErrorView {
    match reply {
        Reply::Status { code, body } => status_failure(code, body@),
        Reply::Failed { reason } => ErrorView {
            kind: ErrorKind::Transport,
            status: None,
            message: reason@,
        },
        Reply::Listing(_) => ErrorView {
            kind: ErrorKind::Transport,
            status: None,
            message: Seq::empty(),
        },
    }
}

/// Whether an HTTP status counts as success.
pub open spec fn success_status(code: u16) -> bool {
    200 <= code < 300
}

/// Whether the program reads a listing from a response with this status.
pub fn is_success_status(code: u16) -> (r: bool)
    ensures
        r == success_status(code),
{
    200 <= code && code < 300
}

impl PipelineError {
    /// The error for a response with a non-success status.
    pub fn status_error(code: u16, body: String) -> (r: PipelineError)
        ensures
            r@ == status_failure(code, body@),
    {
        PipelineError { kind: ErrorKind::Transport, status: Some(code), message: body }
    }

    /// The error for a request that got no usable answer.
    pub fn transport(reason: String) -> (r: PipelineError)
        ensures
            r@ == (ErrorView { kind: ErrorKind::Transport, status: None, message: reason@ }),
    {
        PipelineError { kind: ErrorKind::Transport, status: None, message: reason }
    }

    /// The error for a run without a token nor a username.
    pub fn missing_username() -> (r: PipelineError)
        ensures
            r@ == (ErrorView {
                kind: ErrorKind::Config,
                status: None,
                message: missing_username_message(),
            }),
    {
        PipelineError {
            kind: ErrorKind::Config,
            status: None,
            message: String::from_str("A username is needed when no token is given."),
        }
    }

    /// The error for a listing with no viable repository.
    pub fn no_viable_repo() -> (r: PipelineError)
        ensures
            r@ == (ErrorView {
                kind: ErrorKind::EmptySelection,
                status: None,
                message: no_viable_repo_message(),
            }),
    {
        PipelineError {
            kind: ErrorKind::EmptySelection,
            status: None,
            message: String::from_str("No viable repos to choose issues from."),
        }
    }

    /// The error for an empty issue listing.
    pub fn no_viable_issue() -> (r: PipelineError)
        ensures
            r@ == (ErrorView {
                kind: ErrorKind::EmptySelection,
                status: None,
                message: no_viable_issue_message(),
            }),
    {
        PipelineError {
            kind: ErrorKind::EmptySelection,
            status: None,
            message: String::from_str("No viable issue found."),
        }
    }
}

/// The error that a reply without a listing stands for.
fn failure_of<T>(reply: Reply<T>) -> (r: PipelineError)
    requires
        !(reply is Listing),
    ensures
        r@ == reply_failure(reply),
{
    match reply {
        Reply::Status { code, body } => PipelineError::status_error(code, body),
        Reply::Failed { reason } => PipelineError::transport(reason),
        Reply::Listing(_) => PipelineError::transport(String::new()),
    }
}

/// The first step of a run: the authenticated listing with a token, the
/// user's public listing without one, or a configuration error where there
/// is neither a token nor a username.
pub open spec fn first_step(config: RunConfig) -> StepView {
    if config.authenticated() {
        StepView::FetchRepos { url: own_repos_url() }
    } else if config.username@.len() == 0 {
        StepView::Fail {
            error: ErrorView {
                kind: ErrorKind::Config,
                status: None,
                message: missing_username_message(),
            },
        }
    } else {
        StepView::FetchRepos { url: public_repos_url(config.username@) }
    }
}

/// Where a run begins.
pub fn start(config: &RunConfig) -> (r: Step)
    ensures
        r@ == first_step(*config),
{
    if config.is_authenticated() {
        Step::FetchRepos { url: own_repos_address() }
    } else if config.username.as_str().is_empty() {
        Step::Fail { error: PipelineError::missing_username() }
    } else {
        Step::FetchRepos { url: public_repos_address(config.username.as_str()) }
    }
}

/// Whether `draw` can pick among `n` candidates: any draw does when there
/// are none, else it is a position among them.
pub open spec fn fits(n: nat, draw: nat) -> bool {
    n == 0 || draw < n
}

/// Whether `draw` can pick among the viable repositories of `reply`.
pub open spec fn repo_draw_fits(include_forked_repos: bool, reply: Reply<Vec<Repo>>, draw: nat) -> bool {
    match reply {
        Reply::Listing(repos) => fits(viable_repos(repos@, include_forked_repos).len(), draw),
        _ => true,
    }
}

/// The step after the repository listing, with `draw` as the position of
/// the chosen repository among the viable ones.
pub open spec fn step_after_repos(
    include_forked_repos: bool,
    reply: Reply<Vec<Repo>>,
    draw: nat,
) -> StepView {
    match reply {
        Reply::Listing(repos) => {
            let viable = viable_repos(repos@, include_forked_repos);
            if viable.len() == 0 {
                StepView::Fail {
                    error: ErrorView {
                        kind: ErrorKind::EmptySelection,
                        status: None,
                        message: no_viable_repo_message(),
                    },
                }
            } else {
                StepView::FetchIssues {
                    repo: viable[draw as int],
                    url: issues_url(viable[draw as int].full_name@),
                }
            }
        },
        _ => StepView::Fail { error: reply_failure(reply) },
    }
}

/// Whether `draw` can pick among the issues of `reply`.
pub open spec fn issue_draw_fits(reply: Reply<Vec<Issue>>, draw: nat) -> bool {
    match reply {
        Reply::Listing(issues) => fits(issues@.len(), draw),
        _ => true,
    }
}

/// The step after the issue listing, with `draw` as the position of the
/// chosen issue.
pub open spec fn step_after_issues(reply: Reply<Vec<Issue>>, draw: nat) -> StepView {
    match reply {
        Reply::Listing(issues) => {
            if issues@.len() == 0 {
                StepView::Fail {
                    error: ErrorView {
                        kind: ErrorKind::EmptySelection,
                        status: None,
                        message: no_viable_issue_message(),
                    },
                }
            } else {
                StepView::Print { line: decorated_line(issues@[draw as int]) }
            }
        },
        _ => StepView::Fail { error: reply_failure(reply) },
    }
}

/// Relies on rand's `IteratorRandom::choose` over the range `0..len`, drawn
/// with `thread_rng`: it gives nothing for an empty range, and one of the
/// range's members otherwise.
#[verifier::external_body]
fn random_index(len: usize) -> (r: Option<usize>)
    ensures
        r is None <==> len == 0,
        r matches Some(i) ==> i < len,
{
    (0..len).choose(&mut rand::thread_rng())
}

/// A uniformly drawn position among `len` candidates (zero when there are
/// none).
pub fn draw_index(len: usize) -> (r: usize)
    ensures
        fits(len as nat, r as nat),
{
    match random_index(len) {
        Some(i) => i,
        None => 0,
    }
}

/// The step after the repository listing, the choice among the viable
/// repositories being the one at `draw`.
pub fn repos_step(include_forked_repos: bool, reply: Reply<Vec<Repo>>, draw: usize) -> (r: Step)
    requires
        repo_draw_fits(include_forked_repos, reply, draw as nat),
    ensures
        r@ == step_after_repos(include_forked_repos, reply, draw as nat),
{
    match reply {
        Reply::Listing(repos) => {
            let viable = filter_repos(&repos, include_forked_repos);
            if viable.len() == 0 {
                Step::Fail { error: PipelineError::no_viable_repo() }
            } else {
                let repo = viable[draw].duplicate();
                let url = issues_address(repo.full_name.as_str());
                Step::FetchIssues { repo, url }
            }
        },
        _ => Step::Fail { error: failure_of(reply) },
    }
}

/// The step after the repository listing, the repository being drawn
/// uniformly among the viable ones.
pub fn after_repos(include_forked_repos: bool, reply: Reply<Vec<Repo>>) -> (r: Step)
    ensures
        exists|draw: nat|
            repo_draw_fits(include_forked_repos, reply, draw)
                && r@ == #[trigger] step_after_repos(include_forked_repos, reply, draw),
{
    let draw: usize = match &reply {
        Reply::Listing(repos) => draw_index(filter_repos(repos, include_forked_repos).len()),
        _ => 0,
    };
    let r = repos_step(include_forked_repos, reply, draw);
    assert(r@ == step_after_repos(include_forked_repos, reply, draw as nat));
    r
}

/// The step after the issue listing, the chosen issue being the one at
/// `draw`.
pub fn issues_step(reply: Reply<Vec<Issue>>, draw: usize) -> (r: Step)
    requires
        issue_draw_fits(reply, draw as nat),
    ensures
        r@ == step_after_issues(reply, draw as nat),
{
    match reply {
        Reply::Listing(issues) => {
            if issues.len() == 0 {
                Step::Fail { error: PipelineError::no_viable_issue() }
            } else {
                Step::Print { line: issues[draw].decorated() }
            }
        },
        _ => Step::Fail { error: failure_of(reply) },
    }
}

/// The step after the issue listing, the issue being drawn uniformly.
pub fn after_issues(reply: Reply<Vec<Issue>>) -> (r: Step)
    ensures
        exists|draw: nat|
            issue_draw_fits(reply, draw) && r@ == #[trigger] step_after_issues(reply, draw),
{
    let draw: usize = match &reply {
        Reply::Listing(issues) => draw_index(issues.len()),
        _ => 0,
    };
    let r = issues_step(reply, draw);
    assert(r@ == step_after_issues(reply, draw as nat));
    r
}

} // verus!
