use vstd::prelude::*;
use crate::model::Repo;

verus! {

/// A repository can be chosen when it tracks issues, has at least one open,
/// and is not a fork unless forks were asked for.
pub open spec fn viable(repo: Repo, include_forked_repos: bool) -> bool {
    repo.has_issues && repo.open_issues > 0 && (include_forked_repos || !repo.fork)
}

/// The viable repositories of a listing, in listing order.
pub open spec fn viable_repos(repos: Seq<Repo>, include_forked_repos: bool) -> Seq<Repo> {
    repos.filter(|r: Repo| viable(r, include_forked_repos))
}

/// Keeps exactly the viable repositories, in the order given.
pub fn filter_repos(repos: &Vec<Repo>, include_forked_repos: bool) -> (r: Vec<Repo>)
    ensures
        r@ == viable_repos(repos@, include_forked_repos),
{
    let mut kept: Vec<Repo> = Vec::new();
    let mut i: usize = 0;
    while i < repos.len()
        invariant
            i <= repos@.len(),
            kept@ == viable_repos(repos@.subrange(0, i as int), include_forked_repos),
        decreases repos@.len() - i,
    {
        let repo = &repos[i];
        proof {
            let pred = |r: Repo| viable(r, include_forked_repos);
            assert(repos@.subrange(0, i + 1) == repos@.subrange(0, i as int).push(repos@[i as int]));
            repos@.subrange(0, i as int).lemma_filter_push(repos@[i as int], pred);
        }
        if repo.has_issues && repo.open_issues > 0 && (include_forked_repos || !repo.fork) {
            kept.push(repo.duplicate());
        }
        i = i + 1;
    }
    assert(repos@.subrange(0, repos@.len() as int) == repos@);
    kept
}

} // verus!
