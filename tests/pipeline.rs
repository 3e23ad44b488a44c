use issue_roulette::{
    after_issues, after_repos, authorization_value, decimal_text, draw_index, filter_repos,
    is_success_status, issues_address, issues_step, repos_step, resolve_token, start, ErrorKind,
    Issue, PipelineError, Repo, Reply, RunConfig, Step,
};

fn repo(name: &str, fork: bool, has_issues: bool, open_issues: u32) -> Repo {
    Repo { full_name: name.to_string(), fork, has_issues, open_issues }
}

fn issue(title: &str, number: u32, url: &str) -> Issue {
    Issue { title: title.to_string(), number, url: url.to_string() }
}

fn config(username: &str, token: Option<&str>) -> RunConfig {
    RunConfig {
        username: username.to_string(),
        include_forked_repos: false,
        token: token.map(|t| t.to_string()),
    }
}

/// A transport that answers from fixed data and counts the requests per kind.
struct MockTransport {
    repos: Vec<(bool, bool, bool, u32, &'static str)>,
    repo_status: Option<(u16, &'static str)>,
    issues: Vec<(&'static str, u32, &'static str)>,
    repo_url_seen: Vec<String>,
    issue_calls: usize,
}

impl MockTransport {
    fn new(repos: Vec<(bool, bool, bool, u32, &'static str)>, issues: Vec<(&'static str, u32, &'static str)>) -> Self {
        MockTransport { repos, repo_status: None, issues, repo_url_seen: Vec::new(), issue_calls: 0 }
    }

    fn list_repos(&mut self, url: &str) -> Reply<Vec<Repo>> {
        self.repo_url_seen.push(url.to_string());
        if let Some((code, body)) = self.repo_status {
            return Reply::Status { code, body: body.to_string() };
        }
        Reply::Listing(
            self.repos.iter().map(|&(fork, has, _, open, name)| repo(name, fork, has, open)).collect(),
        )
    }

    fn list_issues(&mut self, _url: &str) -> Reply<Vec<Issue>> {
        self.issue_calls += 1;
        Reply::Listing(self.issues.iter().map(|&(t, n, u)| issue(t, n, u)).collect())
    }
}

/// Runs the steps against the mock until the run ends; the printed line or
/// the error comes back.
fn run(config: &RunConfig, transport: &mut MockTransport) -> Result<String, PipelineError> {
    let mut step = start(config);
    loop {
        step = match step {
            Step::FetchRepos { url } => {
                let reply = transport.list_repos(&url);
                after_repos(config.include_forked_repos, reply)
            }
            Step::FetchIssues { url, .. } => after_issues(transport.list_issues(&url)),
            Step::Print { line } => return Ok(line),
            Step::Fail { error } => return Err(error),
        };
    }
}

#[test]
fn filter_covers_every_combination() {
    let mut names = Vec::new();
    let mut repos = Vec::new();
    for fork in [false, true] {
        for has_issues in [false, true] {
            for open in [0u32, 3] {
                let name = format!("o/{}-{}-{}", fork, has_issues, open);
                names.push((name.clone(), fork, has_issues, open));
                repos.push(repo(&name, fork, has_issues, open));
            }
        }
    }
    for with_forks in [false, true] {
        let kept = filter_repos(&repos, with_forks);
        let expected: Vec<&String> = names
            .iter()
            .filter(|(_, fork, has, open)| *has && *open > 0 && (with_forks || !*fork))
            .map(|(n, _, _, _)| n)
            .collect();
        let got: Vec<&String> = kept.iter().map(|r| &r.full_name).collect();
        assert_eq!(got, expected);
    }
    assert_eq!(filter_repos(&repos, false).len(), 1);
    assert_eq!(filter_repos(&repos, true).len(), 2);
}

#[test]
fn filter_keeps_order_and_fields() {
    let repos = vec![repo("a/x", false, true, 2), repo("a/y", true, true, 1), repo("a/z", false, true, 9)];
    let kept = filter_repos(&repos, false);
    assert_eq!(kept.len(), 2);
    assert_eq!(kept[0].full_name, "a/x");
    assert_eq!(kept[0].open_issues, 2);
    assert_eq!(kept[1].full_name, "a/z");
    assert!(filter_repos(&Vec::new(), true).is_empty());
}

#[test]
fn draw_index_is_roughly_uniform() {
    let n = 4usize;
    let trials = 20000;
    let mut counts = vec![0usize; n];
    for _ in 0..trials {
        let i = draw_index(n);
        assert!(i < n);
        counts[i] += 1;
    }
    let expected = trials as f64 / n as f64;
    for c in counts {
        assert!((c as f64 - expected).abs() < expected * 0.1, "count {} far from {}", c, expected);
    }
}

#[test]
fn repository_choice_is_roughly_uniform() {
    let repos = vec![repo("a/0", false, true, 1), repo("a/1", false, true, 1), repo("a/2", false, true, 1)];
    let trials = 9000;
    let mut counts = [0usize; 3];
    for _ in 0..trials {
        let listing = repos.iter().map(|r| repo(&r.full_name, r.fork, r.has_issues, r.open_issues)).collect();
        match after_repos(false, Reply::Listing(listing)) {
            Step::FetchIssues { repo, .. } => {
                let k: usize = repo.full_name[2..].parse().unwrap();
                counts[k] += 1;
            }
            other => panic!("unexpected step {:?}", other),
        }
    }
    for c in counts {
        assert!((c as f64 - 3000.0).abs() < 300.0, "count {}", c);
    }
}

#[test]
fn draw_index_of_nothing_is_zero() {
    assert_eq!(draw_index(0), 0);
    assert_eq!(draw_index(1), 0);
}

#[test]
fn empty_selection_stops_before_issue_fetch() {
    let mut transport = MockTransport::new(
        vec![(false, false, false, 4, "a/no-issues"), (true, true, true, 2, "a/fork"), (false, true, true, 0, "a/closed")],
        vec![("Fix bug", 7, "http://x/7")],
    );
    let err = run(&config("a", None), &mut transport).unwrap_err();
    assert_eq!(err.kind, ErrorKind::EmptySelection);
    assert_eq!(err.message, "No viable repos to choose issues from.");
    assert_eq!(transport.issue_calls, 0);
    assert_eq!(transport.repo_url_seen.len(), 1);
}

#[test]
fn empty_listing_stops_before_issue_fetch() {
    let mut transport = MockTransport::new(vec![], vec![("Fix bug", 7, "http://x/7")]);
    let err = run(&config("a", Some("tok")), &mut transport).unwrap_err();
    assert_eq!(err.kind, ErrorKind::EmptySelection);
    assert_eq!(transport.issue_calls, 0);
}

#[test]
fn explicit_token_overrides_environment() {
    assert_eq!(resolve_token(Some("cli".to_string()), Some("env".to_string())), Some("cli".to_string()));
    assert_eq!(resolve_token(None, Some("env".to_string())), Some("env".to_string()));
    assert_eq!(resolve_token(Some("cli".to_string()), None), Some("cli".to_string()));
    assert_eq!(resolve_token(None, None), None);
}

#[test]
fn no_token_means_unauthenticated() {
    let c = RunConfig::new("bob".to_string(), true, None, None);
    assert!(!c.is_authenticated());
    assert_eq!(c.username, "bob");
    assert!(c.include_forked_repos);
    let c = RunConfig::new("bob".to_string(), false, None, Some("env".to_string()));
    assert!(c.is_authenticated());
    assert_eq!(c.token.as_deref(), Some("env"));
}

#[test]
fn authenticated_mode_lists_own_repos() {
    let mut transport = MockTransport::new(vec![(false, true, true, 3, "a/b")], vec![("Fix bug", 7, "http://x/7")]);
    run(&config("bob", Some("tok")), &mut transport).unwrap();
    assert_eq!(transport.repo_url_seen, vec!["https://api.github.com/user/repos?per_page=100".to_string()]);
}

#[test]
fn unauthenticated_mode_lists_public_repos() {
    let mut transport = MockTransport::new(vec![(false, true, true, 3, "a/b")], vec![("Fix bug", 7, "http://x/7")]);
    run(&config("bob", None), &mut transport).unwrap();
    assert_eq!(transport.repo_url_seen, vec!["https://api.github.com/users/bob/repos?per_page=100".to_string()]);
}

#[test]
fn missing_username_without_token_is_config_error() {
    match start(&config("", None)) {
        Step::Fail { error } => {
            assert_eq!(error.kind, ErrorKind::Config);
            assert_eq!(error.status, None);
        }
        other => panic!("unexpected step {:?}", other),
    }
    match start(&config("", Some("tok"))) {
        Step::FetchRepos { url } => assert_eq!(url, "https://api.github.com/user/repos?per_page=100"),
        other => panic!("unexpected step {:?}", other),
    }
}

#[test]
fn end_to_end_prints_decorated_issue() {
    let mut transport = MockTransport::new(vec![(false, true, true, 3, "a/b")], vec![("Fix bug", 7, "http://x/7")]);
    let line = run(&config("a", None), &mut transport).unwrap();
    assert_eq!(line, "🌟🦄 [7] Fix bug -> http://x/7 🦄🌟");
    assert_eq!(transport.issue_calls, 1);
}

#[test]
fn chosen_repo_leads_to_its_issue_listing() {
    let listing = vec![repo("a/skip", true, true, 1), repo("a/b", false, true, 3)];
    match repos_step(false, Reply::Listing(listing), 0) {
        Step::FetchIssues { repo, url } => {
            assert_eq!(repo.full_name, "a/b");
            assert_eq!(repo.open_issues, 3);
            assert_eq!(url, "https://api.github.com/repos/a/b/issues");
        }
        other => panic!("unexpected step {:?}", other),
    }
    let listing = vec![repo("a/f", true, true, 1), repo("a/b", false, true, 3)];
    match repos_step(true, Reply::Listing(listing), 0) {
        Step::FetchIssues { repo, .. } => assert_eq!(repo.full_name, "a/f"),
        other => panic!("unexpected step {:?}", other),
    }
}

#[test]
fn chosen_issue_is_printed() {
    let issues = vec![issue("First", 1, "http://x/1"), issue("Second", 22, "http://x/22")];
    match issues_step(Reply::Listing(issues), 1) {
        Step::Print { line } => assert_eq!(line, "🌟🦄 [22] Second -> http://x/22 🦄🌟"),
        other => panic!("unexpected step {:?}", other),
    }
}

#[test]
fn empty_issue_listing_is_empty_selection() {
    match after_issues(Reply::Listing(Vec::new())) {
        Step::Fail { error } => {
            assert_eq!(error.kind, ErrorKind::EmptySelection);
            assert_eq!(error.message, "No viable issue found.");
        }
        other => panic!("unexpected step {:?}", other),
    }
}

#[test]
fn not_found_status_is_transport_error() {
    let mut transport = MockTransport::new(vec![(false, true, true, 3, "a/b")], vec![]);
    transport.repo_status = Some((404, "Not Found"));
    let err = run(&config("ghost", None), &mut transport).unwrap_err();
    assert_eq!(err.kind, ErrorKind::Transport);
    assert_eq!(err.status, Some(404));
    assert_eq!(err.message, "Not Found");
    assert_eq!(err.describe(), "[404]: Not Found");
    assert_eq!(transport.issue_calls, 0);
}

#[test]
fn failed_request_is_transport_error_without_status() {
    match after_issues(Reply::Failed { reason: "connection reset".to_string() }) {
        Step::Fail { error } => {
            assert_eq!(error.kind, ErrorKind::Transport);
            assert_eq!(error.status, None);
            assert_eq!(error.describe(), "connection reset");
        }
        other => panic!("unexpected step {:?}", other),
    }
}

#[test]
fn success_status_range() {
    assert!(!is_success_status(199));
    assert!(is_success_status(200));
    assert!(is_success_status(204));
    assert!(is_success_status(299));
    assert!(!is_success_status(300));
    assert!(!is_success_status(404));
    assert!(!is_success_status(500));
}

#[test]
fn decimal_text_values() {
    assert_eq!(decimal_text(0), "0");
    assert_eq!(decimal_text(7), "7");
    assert_eq!(decimal_text(10), "10");
    assert_eq!(decimal_text(407), "407");
    assert_eq!(decimal_text(u32::MAX), "4294967295");
}

#[test]
fn addresses_and_header_value() {
    assert_eq!(authorization_value("abc"), "Bearer abc");
    assert_eq!(issues_address("o/r"), "https://api.github.com/repos/o/r/issues");
    assert_eq!(PipelineError::status_error(500, "boom".to_string()).describe(), "[500]: boom");
    assert_eq!(issue("T", 3, "u").line(), "[3] T -> u");
}
