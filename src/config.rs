use vstd::prelude::*;
use crate::model::RunConfig;

verus! {

/// The token in force: the one given on the command line, else the one from
/// the environment, else none.
pub open spec fn resolved_token(cli: Option<String>, env: Option<String>) -> Option<String> {
    match cli {
        Some(t) => Some(t),
        None => env,
    }
}

/// Picks the token in force: an explicit one wins over the environment's.
pub fn resolve_token(cli: Option<String>, env: Option<String>) -> (r: Option<String>)
    ensures
        r == resolved_token(cli, env),
{
    match cli {
        Some(t) => Some(t),
        None => env,
    }
}

impl RunConfig {
    /// A configuration from the command line's values and the environment's
    /// token.
    pub fn new(
        username: String,
        include_forked_repos: bool,
        cli_token: Option<String>,
        env_token: Option<String>,
    ) -> (r: RunConfig)
        ensures
            r.username == username,
            r.include_forked_repos == include_forked_repos,
            r.token == resolved_token(cli_token, env_token),
    {
        RunConfig { username, include_forked_repos, token: resolve_token(cli_token, env_token) }
    }

    /// Whether the run lists the repositories visible to a token's owner.
    pub open spec fn authenticated(&self) -> bool {
        self.token is Some
    }

    /// Whether the run uses a token.
    pub fn is_authenticated(&self) -> (r: bool)
        ensures
            r == self.authenticated(),
    {
        self.token.is_some()
    }
}

} // verus!
