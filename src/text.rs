use vstd::prelude::*;
use vstd::string::*;
use crate::model::{ErrorView, Issue, PipelineError};

verus! {

/// The digit `d` (below ten) as text.
pub open spec fn digit(d: nat) -> Seq<char> {
    "0123456789"@.subrange(d as int, d as int + 1)
}

/// The decimal digits of `n`, most significant first, without leading zeros.
pub open spec fn decimal(n: nat) -> Seq<char>
    decreases n,
{
    if n < 10 {
        digit(n)
    } else {
        decimal(n / 10) + digit(n % 10)
    }
}

/// `out` followed by the decimal digits of `n`.
fn append_decimal(out: &mut String, n: u32)
    ensures
        final(out)@ == old(out)@ + decimal(n as nat),
    decreases n,
{
    if n >= 10 {
        append_decimal(out, n / 10);
    }
    let digits = "0123456789";
    proof {
        reveal_strlit("0123456789");
    }
    let d = (n % 10) as usize;
    out.append(digits.substring_char(d, d + 1));
}

/// The decimal text of `n`.
pub fn decimal_text(n: u32) -> (r: String)
    ensures
        r@ == decimal(n as nat),
{
    let mut out = String::new();
    append_decimal(&mut out, n);
    assert(out@ =~= decimal(n as nat));
    out
}

/// An issue as one line: `[<number>] <title> -> <url>`.
pub open spec fn issue_line(issue: Issue) -> Seq<char> {
    "["@ + decimal(issue.number as nat) + "] "@ + issue.title@ + " -> "@ + issue.url@
}

/// The program's output for a chosen issue: its line between the markers.
pub open spec fn decorated_line(issue: Issue) -> Seq<char> {
    "🌟🦄 "@ + issue_line(issue) + " 🦄🌟"@
}

impl Issue {
    /// This issue as `[<number>] <title> -> <url>`.
    pub fn line(&self) -> (r: String)
        ensures
            r@ == issue_line(*self),
    {
        let mut out = String::from_str("[");
        out.append(decimal_text(self.number).as_str());
        out.append("] ");
        out.append(self.title.as_str());
        out.append(" -> ");
        out.append(self.url.as_str());
        out
    }

    /// This issue's line between the decorative markers, as it is printed.
    pub fn decorated(&self) -> (r: String)
        ensures
            r@ == decorated_line(*self),
    {
        let mut out = String::from_str("🌟🦄 ");
        out.append(self.line().as_str());
        out.append(" 🦄🌟");
        out
    }
}

/// The root of every endpoint.
pub open spec fn api_root() -> Seq<char> {
    "https://api.github.com"@
}

/// The listing of the repositories visible to the token's owner, first page.
pub open spec fn own_repos_url() -> Seq<char> {
    api_root() + "/user/repos?per_page=100"@
}

/// The listing of a user's public repositories, first page.
pub open spec fn public_repos_url(username: Seq<char>) -> Seq<char> {
    api_root() + "/users/"@ + username + "/repos?per_page=100"@
}

/// The issue listing of a repository named `owner/name`.
pub open spec fn issues_url(full_name: Seq<char>) -> Seq<char> {
    api_root() + "/repos/"@ + full_name + "/issues"@
}

/// The address of the authenticated repository listing.
pub fn own_repos_address() -> (r: String)
    ensures
        r@ == own_repos_url(),
{
    let mut out = String::from_str("https://api.github.com");
    out.append("/user/repos?per_page=100");
    out
}

/// The address of `username`'s public repository listing.
pub fn public_repos_address(username: &str) -> (r: String)
    ensures
        r@ == public_repos_url(username@),
{
    let mut out = String::from_str("https://api.github.com");
    out.append("/users/");
    out.append(username);
    out.append("/repos?per_page=100");
    out
}

/// The address of the issue listing of the repository `full_name`.
pub fn issues_address(full_name: &str) -> (r: String)
    ensures
        r@ == issues_url(full_name@),
{
    let mut out = String::from_str("https://api.github.com");
    out.append("/repos/");
    out.append(full_name);
    out.append("/issues");
    out
}

/// The value of the `Authorization` header for a token.
pub open spec fn bearer(token: Seq<char>) -> Seq<char> {
    "Bearer "@ + token
}

/// The `Authorization` header value that carries `token`.
pub fn authorization_value(token: &str) -> (r: String)
    ensures
        r@ == bearer(token@),
{
    let mut out = String::from_str("Bearer ");
    out.append(token);
    out
}

/// The human-readable text of an error. A status error reads
/// `[<status>]: <body>`; any other error is its message.
pub open spec fn error_text(e: ErrorView) -> Seq<char> {
    match e.status {
        Some(s) => "["@ + decimal(s as nat) + "]: "@ + e.message,
        None => e.message,
    }
}

impl PipelineError {
    /// The text shown when the run stops on this error.
    pub fn describe(&self) -> (r: String)
        ensures
            r@ == error_text(self@),
    {
        match self.status {
            Some(s) => {
                let mut out = String::from_str("[");
                out.append(decimal_text(s as u32).as_str());
                out.append("]: ");
                out.append(self.message.as_str());
                out
            },
            None => self.message.clone(),
        }
    }
}

} // verus!
