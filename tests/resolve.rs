use cargo_thanks::metadata::{resolve, Crate, RepoUrl, ResolvedTarget};
use cargo_thanks::path::{find_first_slash, repo_uri, split_repo_path, strip_git_suffix, trim_slashes};

fn entry(name: &str, repository: Option<&str>) -> Crate {
    Crate::new(name.to_string(), name.to_string(), repository).expect("repository parses")
}

fn owner_repo(t: &ResolvedTarget) -> (String, String) {
    (t.owner.clone(), t.repo.clone())
}

#[test]
fn repo_uri_handles_expected_case() {
    assert_eq!(repo_uri("foo/bar"), ("foo".into(), "bar".into()))
}

#[test]
fn repo_uri_handles_git_ext() {
    assert_eq!(repo_uri("foo/bar.git"), ("foo".into(), "bar".into()))
}

#[test]
fn repo_uri_keeps_later_separators_in_repo() {
    assert_eq!(repo_uri("foo/bar/tree/main"), ("foo".into(), "bar/tree/main".into()));
}

#[test]
fn repo_uri_strips_one_suffix_only() {
    assert_eq!(repo_uri("foo/bar.git.git"), ("foo".into(), "bar.git".into()));
}

#[test]
fn trim_slashes_removes_both_ends() {
    assert_eq!(trim_slashes("//foo/bar///"), "foo/bar");
    assert_eq!(trim_slashes("///"), "");
    assert_eq!(trim_slashes("foo"), "foo");
}

#[test]
fn strip_git_suffix_cases() {
    assert_eq!(strip_git_suffix("bar.git"), "bar");
    assert_eq!(strip_git_suffix("bar"), "bar");
    assert_eq!(strip_git_suffix(".git"), "");
    assert_eq!(strip_git_suffix("git"), "git");
}

#[test]
fn find_first_slash_positions() {
    assert_eq!(find_first_slash("ab/c/d"), Some(2));
    assert_eq!(find_first_slash("abc"), None);
}

#[test]
fn split_repo_path_cases() {
    assert_eq!(split_repo_path("/foo/bar/"), Some(("foo".to_string(), "bar".to_string())));
    assert_eq!(split_repo_path("/justowner"), None);
    assert_eq!(split_repo_path("/foo/.git"), None);
    assert_eq!(split_repo_path("/"), None);
}

#[test]
fn parse_reads_host_and_path() {
    let u = RepoUrl::parse("https://github.com/foo/bar").expect("a URL");
    assert_eq!(u.host, Some("github.com".to_string()));
    assert_eq!(u.path, "/foo/bar");
    assert!(RepoUrl::parse("not a url").is_none());
}

#[test]
fn crate_with_malformed_repository_is_rejected() {
    assert!(Crate::new("x".to_string(), "x".to_string(), Some("::nope")).is_none());
}

#[test]
fn resolve_splits_path() {
    let t = resolve(&entry("bar", Some("https://github.com/foo/bar"))).expect("resolves");
    assert_eq!(t.name, "bar");
    assert_eq!(owner_repo(&t), ("foo".to_string(), "bar".to_string()));
    assert_eq!(t.forge_path(), "github.com/foo/bar");
}

#[test]
fn resolve_strips_git_suffix() {
    let t = resolve(&entry("bar", Some("https://github.com/foo/bar.git"))).expect("resolves");
    assert_eq!(owner_repo(&t), ("foo".to_string(), "bar".to_string()));
}

#[test]
fn resolve_rejects_other_host() {
    assert!(resolve(&entry("bar", Some("https://gitlab.com/foo/bar"))).is_none());
}

#[test]
fn resolve_without_repository() {
    assert!(resolve(&entry("bar", None)).is_none());
}

#[test]
fn resolve_rejects_owner_only_path() {
    assert!(resolve(&entry("bar", Some("https://github.com/justowner"))).is_none());
}

#[test]
fn resolve_is_repeatable() {
    let c = entry("bar", Some("https://github.com/foo/bar.git"));
    let a = resolve(&c).map(|t| owner_repo(&t));
    let b = resolve(&c).map(|t| owner_repo(&t));
    assert_eq!(a, b);
}
