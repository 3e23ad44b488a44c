use vstd::prelude::*;
use crate::config::resolved_token;
use crate::model::{ErrorKind, Repo, RunConfig};
use crate::pipeline::{first_step, status_failure, step_after_repos, Reply, StepView};
use crate::select::{viable, viable_repos};
use crate::text::{decimal, error_text, own_repos_url, public_repos_url};

verus! {

/// Every viable repository that the filter keeps comes from the listing.
proof fn lemma_kept_from_listing(repos: Seq<Repo>, include_forked_repos: bool, r: Repo)
    requires
        viable_repos(repos, include_forked_repos).contains(r),
    ensures
        repos.contains(r),
    decreases repos.len(),
{
    reveal(Seq::filter);
    let pred = |x: Repo| viable(x, include_forked_repos);
    if repos.len() > 0 {
        let rest = repos.drop_last();
        if r != repos.last() {
            assert(viable_repos(rest, include_forked_repos).contains(r)) by {
                let kept = viable_repos(repos, include_forked_repos);
                let i = choose|i: int| 0 <= i < kept.len() && kept[i] == r;
                assert(rest.filter(pred) =~= viable_repos(rest, include_forked_repos));
                if pred(repos.last()) {
                    assert(kept == rest.filter(pred).push(repos.last()));
                    assert(i < kept.len() - 1);
                    assert(rest.filter(pred)[i] == r);
                } else {
                    assert(kept == rest.filter(pred));
                }
            }
            lemma_kept_from_listing(rest, include_forked_repos, r);
            let j = choose|j: int| 0 <= j < rest.len() && rest[j] == r;
            assert(repos[j] == r);
        } else {
            assert(repos[repos.len() - 1] == r);
        }
    }
}

/// The repository filter keeps a repository of the listing if and only if it
/// tracks issues, has an open one, and is not a fork unless forks are
/// included; it keeps nothing else.
pub proof fn lemma_filter_keeps_exactly_viable(repos: Seq<Repo>, include_forked_repos: bool)
    ensures
        forall|r: Repo|
            #[trigger] viable_repos(repos, include_forked_repos).contains(r) <==> (repos.contains(r)
                && r.has_issues && r.open_issues > 0 && (include_forked_repos || !r.fork)),
{
    broadcast use vstd::seq_lib::group_filter_ensures;
    let pred = |x: Repo| viable(x, include_forked_repos);
    assert forall|r: Repo|
        #[trigger] viable_repos(repos, include_forked_repos).contains(r) <==> (repos.contains(r)
            && r.has_issues && r.open_issues > 0 && (include_forked_repos || !r.fork)) by {
        let kept = viable_repos(repos, include_forked_repos);
        if kept.contains(r) {
            lemma_kept_from_listing(repos, include_forked_repos, r);
            let i = choose|i: int| 0 <= i < kept.len() && kept[i] == r;
            assert(pred(repos.filter(pred)[i]));
        }
        if repos.contains(r) && viable(r, include_forked_repos) {
            let i = choose|i: int| 0 <= i < repos.len() && repos[i] == r;
            assert(repos.filter(pred).contains(repos[i]));
        }
    }
}

/// A listing with no viable repository ends the run with an empty-selection
/// error; no issue listing is requested.
pub proof fn lemma_no_issue_fetch_without_viable_repo(
    include_forked_repos: bool,
    reply: Reply<Vec<Repo>>,
    draw: nat,
)
    requires
        reply matches Reply::Listing(repos) && viable_repos(repos@, include_forked_repos).len() == 0,
    ensures
        !(step_after_repos(include_forked_repos, reply, draw) is FetchIssues),
        step_after_repos(include_forked_repos, reply, draw) matches StepView::Fail { error }
            && error.kind == ErrorKind::EmptySelection,
{
}

/// A token given on the command line wins over the environment's; with
/// neither, the run is unauthenticated.
pub proof fn lemma_token_precedence(
    cli: Option<String>,
    env: Option<String>,
    username: String,
    include_forked_repos: bool,
)
    ensures
        cli is Some ==> resolved_token(cli, env) == cli,
        cli is None ==> resolved_token(cli, env) == env,
        cli is None && env is None ==> !(RunConfig {
            username,
            include_forked_repos,
            token: resolved_token(cli, env),
        }).authenticated(),
{
}

/// With a token the run lists the repositories visible to its owner;
/// without one, the named user's public repositories.
pub proof fn lemma_listing_endpoint(config: RunConfig)
    ensures
        config.authenticated() ==> first_step(config) == (StepView::FetchRepos {
            url: own_repos_url(),
        }),
        !config.authenticated() && config.username@.len() > 0 ==> first_step(config) == (
        StepView::FetchRepos { url: public_repos_url(config.username@) }),
{
}

/// A non-success status on the repository listing ends the run with a
/// transport error that carries the status and the body, and whose text
/// shows both.
pub proof fn lemma_status_failure_reported(
    include_forked_repos: bool,
    code: u16,
    body: String,
    draw: nat,
)
    ensures
        step_after_repos(include_forked_repos, Reply::Status { code, body }, draw) == (
        StepView::Fail { error: status_failure(code, body@) }),
        status_failure(code, body@).kind == ErrorKind::Transport,
        error_text(status_failure(code, body@)) == "["@ + decimal(code as nat) + "]: "@ + body@,
{
}

} // verus!
