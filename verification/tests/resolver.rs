use mirror_sync::command::CommandOutput;
use mirror_sync::resolver::{
    find_matching, find_upstream, mirror_path, resolve, survey, within_limit, Resolution,
    ResolveError, Survey, MAX_URL_BYTES, MIRROR_HOST, MIRROR_NAMESPACE, MIRROR_PORT,
    MIRROR_SCHEME, UPSTREAM_PATTERN,
};

fn listing(success: bool, stdout: &str, stderr: &str) -> CommandOutput {
    CommandOutput { success, stdout: stdout.to_string(), stderr: stderr.to_string() }
}

#[test]
fn upstream_is_first_hosted_url_in_listing() {
    let listing = "origin\thttps://github.com/acme/foo (fetch)\norigin\thttps://github.com/acme/foo (push)\n";
    assert_eq!(
        find_upstream(listing),
        Ok(Some("https://github.com/acme/foo".to_string()))
    );
}

#[test]
fn upstream_skips_remotes_on_other_hosts() {
    let listing = "backup\thttps://gitlab.com/acme/foo (fetch)\norigin\thttps://github.com/acme/bar.git (fetch)\n";
    assert_eq!(
        find_upstream(listing),
        Ok(Some("https://github.com/acme/bar.git".to_string()))
    );
}

#[test]
fn upstream_absent_when_no_hosted_url() {
    assert_eq!(find_upstream("origin\tgit@example.org:acme/baz.git (fetch)\n"), Ok(None));
    assert_eq!(find_upstream(""), Ok(None));
    assert_eq!(find_upstream("https://github.com/"), Ok(None));
}

#[test]
fn upstream_match_is_not_the_whole_listing() {
    let listing = "x https://github.com/a/b y";
    let found = find_upstream(listing).unwrap().unwrap();
    assert_eq!(found, "https://github.com/a/b");
    assert_ne!(found, listing);
    assert_ne!(found, UPSTREAM_PATTERN);
}

#[test]
fn invalid_pattern_is_rejected() {
    assert_eq!(find_matching("(", "anything"), Err(ResolveError::PatternRejected));
}

#[test]
fn caller_chosen_pattern_is_searched() {
    assert_eq!(
        find_matching("https://example\\.org/[^\\s]+", "o https://example.org/r (fetch)"),
        Ok(Some("https://example.org/r".to_string()))
    );
}

#[test]
fn mirror_path_prefixes_namespace() {
    assert_eq!(mirror_path("/acme/foo"), "/third-part/acme/foo");
    assert_eq!(mirror_path(""), "/third-part");
    assert_eq!(mirror_path("/a%20b/c"), "/third-part/a%20b/c");
}

#[test]
fn resolve_derives_gateway_address() {
    let resolution = resolve("https://github.com/acme/foo").unwrap();
    assert_eq!(resolution.upstream_url, "https://github.com/acme/foo");
    assert_eq!(resolution.mirror_path, "/third-part/acme/foo");
    assert_eq!(resolution.mirror_url, "http://localhost:8000/third-part/acme/foo");
}

#[test]
fn resolve_normalises_upstream() {
    let resolution = resolve("HTTPS://GitHub.com/acme/../acme/foo").unwrap();
    assert_eq!(resolution.upstream_url, "https://github.com/acme/foo");
    assert_eq!(resolution.mirror_url, "http://localhost:8000/third-part/acme/foo");
}

#[test]
fn resolve_keeps_path_segments_query_and_fragment() {
    let resolution = resolve("https://github.com/acme/a%20b/c.git?ref=main#readme").unwrap();
    assert_eq!(resolution.upstream_url, "https://github.com/acme/a%20b/c.git?ref=main#readme");
    assert_eq!(resolution.mirror_path, "/third-part/acme/a%20b/c.git");
    assert_eq!(
        resolution.mirror_url,
        "http://localhost:8000/third-part/acme/a%20b/c.git?ref=main#readme"
    );
}

#[test]
fn resolve_replaces_existing_port() {
    let resolution = resolve("https://github.com:8443/acme/foo").unwrap();
    assert_eq!(resolution.mirror_url, "http://localhost:8000/third-part/acme/foo");
}

#[test]
fn resolve_is_deterministic() {
    let first = resolve("https://github.com/acme/foo");
    let second = resolve("https://github.com/acme/foo");
    assert_eq!(first, second);
}

#[test]
fn resolve_rejects_relative_text() {
    assert_eq!(resolve("not a url"), Err(ResolveError::Unparsable));
    assert_eq!(resolve(""), Err(ResolveError::Unparsable));
}

#[test]
fn resolve_rejects_address_without_authority() {
    assert_eq!(resolve("mailto:rms@example.net"), Err(ResolveError::Rejected));
}

#[test]
fn resolve_rejects_unknown_scheme() {
    assert_eq!(resolve("foo://example.net/acme"), Err(ResolveError::Rejected));
}

#[test]
fn resolve_rejects_overlong_text() {
    let mut text = String::from("https://github.com/");
    text.push_str(&"a".repeat(MAX_URL_BYTES));
    assert_eq!(resolve(&text), Err(ResolveError::TooLong));
}

#[test]
fn limit_counts_bytes() {
    let at_limit = "a".repeat(MAX_URL_BYTES);
    assert!(within_limit(&at_limit));
    let over = "a".repeat(MAX_URL_BYTES + 1);
    assert!(!within_limit(&over));
    let wide = "é".repeat(MAX_URL_BYTES / 2 + 1);
    assert!(!within_limit(&wide));
}

#[test]
fn error_messages_are_distinct() {
    let all = [
        ResolveError::PatternRejected,
        ResolveError::TooLong,
        ResolveError::Unparsable,
        ResolveError::Rejected,
    ];
    for (i, a) in all.iter().enumerate() {
        assert!(!a.message().is_empty());
        for b in all.iter().skip(i + 1) {
            assert_ne!(a.message(), b.message());
        }
    }
}

#[test]
fn gateway_constants() {
    assert_eq!(MIRROR_SCHEME, "http");
    assert_eq!(MIRROR_HOST, "localhost");
    assert_eq!(MIRROR_PORT, 8000);
    assert_eq!(MIRROR_NAMESPACE, "/third-part");
    assert_eq!(UPSTREAM_PATTERN, r"https://github\.com/[^\s]+");
}

#[test]
fn upstream_is_the_first_of_several() {
    let text = "a\thttps://github.com/acme/one (fetch)\nb\thttps://github.com/acme/two (fetch)\n";
    assert_eq!(find_upstream(text), Ok(Some("https://github.com/acme/one".to_string())));
}

#[test]
fn upstream_ends_at_whitespace() {
    assert_eq!(
        find_upstream("https://github.com/acme/foo\tnext"),
        Ok(Some("https://github.com/acme/foo".to_string()))
    );
    assert_eq!(
        find_upstream("https://github.com/acme/foo\u{a0}next"),
        Ok(Some("https://github.com/acme/foo".to_string()))
    );
}

#[test]
fn upstream_must_be_https_on_the_host() {
    assert_eq!(find_upstream("http://github.com/acme/foo"), Ok(None));
    assert_eq!(find_upstream("https://githubXcom/acme/foo"), Ok(None));
    assert_eq!(find_upstream("https://github.com"), Ok(None));
}

#[test]
fn survey_of_failed_listing_keeps_stderr() {
    assert_eq!(
        survey(listing(false, "https://github.com/acme/foo", "fatal: not a git repository\n")),
        Survey::ListingFailed { message: "fatal: not a git repository\n".to_string() }
    );
}

#[test]
fn survey_without_upstream() {
    assert_eq!(survey(listing(true, "origin\tgit@example.org:a/b.git (fetch)\n", "")), Survey::NoUpstream);
    assert_eq!(survey(listing(true, "", "warning")), Survey::NoUpstream);
}

#[test]
fn survey_resolves_the_upstream() {
    assert_eq!(
        survey(listing(true, "origin\thttps://github.com/acme/foo (fetch)\n", "")),
        Survey::Resolved {
            resolution: Resolution {
                upstream_url: "https://github.com/acme/foo".to_string(),
                mirror_path: "/third-part/acme/foo".to_string(),
                mirror_url: "http://localhost:8000/third-part/acme/foo".to_string(),
            }
        }
    );
}

#[test]
fn resolve_encodes_what_the_url_syntax_requires() {
    let resolution = resolve("https://github.com/acme/wörld").unwrap();
    assert_eq!(resolution.upstream_url, "https://github.com/acme/w%C3%B6rld");
    assert_eq!(resolution.mirror_path, "/third-part/acme/w%C3%B6rld");
    assert_eq!(resolution.mirror_url, "http://localhost:8000/third-part/acme/w%C3%B6rld");
}

#[test]
fn resolve_of_bare_host_mirrors_the_root() {
    let resolution = resolve("https://github.com").unwrap();
    assert_eq!(resolution.upstream_url, "https://github.com/");
    assert_eq!(resolution.mirror_path, "/third-part/");
    assert_eq!(resolution.mirror_url, "http://localhost:8000/third-part/");
}

#[test]
fn refused_pattern_is_told_apart_from_no_match() {
    assert_eq!(find_matching("[", "["), Err(ResolveError::PatternRejected));
    assert_eq!(find_matching("a{2,1}", "aa"), Err(ResolveError::PatternRejected));
    assert_eq!(find_matching("\\[", "]"), Ok(None));
    assert_eq!(find_matching("\\[", "x[y"), Ok(Some("[".to_string())));
}

#[test]
fn upstream_pattern_is_accepted() {
    assert!(find_upstream("").is_ok());
    assert!(find_upstream("no address here").is_ok());
}

#[test]
fn long_addresses_within_the_limit_resolve() {
    let mut upstream = String::from("https://github.com/acme/");
    upstream.push_str(&"a".repeat(100_000));
    let resolution = resolve(&upstream).unwrap();
    assert_eq!(resolution.upstream_url, upstream);
    assert_eq!(resolution.mirror_path.len(), "/third-part/acme/".len() + 100_000);
    assert_eq!(resolution.mirror_url.len(), "http://localhost:8000/third-part/acme/".len() + 100_000);
}
