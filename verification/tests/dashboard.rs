use ghdash::dashboard::{Dashboard, RepoEntry};
use ghdash::error::Error;

fn entry(name: &str, fork: bool) -> RepoEntry {
    RepoEntry { name: name.to_string(), fork }
}

fn listing() -> Vec<RepoEntry> {
    vec![
        entry("alpha", false),
        entry("forked", true),
        entry("beta", false),
        entry("mirror", true),
        entry("gamma", false),
    ]
}

#[test]
fn empty_user_is_refused_with_any_token() {
    let r = Dashboard::new("", "some-token", Vec::new());
    assert!(matches!(r, Err(Error::MustHaveUser)));
    let r = Dashboard::new("", "", listing());
    assert!(matches!(r, Err(Error::MustHaveUser)));
}

#[test]
fn empty_token_is_refused_for_nonempty_user() {
    let r = Dashboard::new("gorta", "", Vec::new());
    assert!(matches!(r, Err(Error::MustHaveToken)));
    let r = Dashboard::new("gorta", "", listing());
    assert!(matches!(r, Err(Error::MustHaveToken)));
}

#[test]
fn forks_are_filtered_in_order() {
    let d = Dashboard::new("gorta", "token", listing()).unwrap();
    // five entries, two forks: exactly three survive, in listing order
    let text = d.build_dashboard();
    assert_eq!(text, "\u{1b}[1mRepository\u{1b}[0m\nalpha\nbeta\ngamma\n");
}

#[test]
fn all_forks_leave_an_empty_dashboard() {
    let all_forks = vec![entry("a", true), entry("b", true)];
    let d = Dashboard::new("gorta", "token", all_forks).unwrap();
    assert_eq!(d.build_dashboard(), "\u{1b}[1mRepository\u{1b}[0m\n");
}

#[test]
fn empty_listing_renders_heading_alone() {
    let d = Dashboard::new("gorta", "token", Vec::new()).unwrap();
    assert_eq!(d.build_dashboard(), "\u{1b}[1mRepository\u{1b}[0m\n");
}

#[test]
fn render_lists_each_name_on_its_own_line() {
    let two = vec![entry("alpha", false), entry("beta", false)];
    let d = Dashboard::new("gorta", "token", two).unwrap();
    let text = d.build_dashboard();
    assert_eq!(text, "\u{1b}[1mRepository\u{1b}[0m\nalpha\nbeta\n");
    let mut lines = text.lines();
    assert_eq!(lines.next(), Some("\u{1b}[1mRepository\u{1b}[0m"));
    assert_eq!(lines.next(), Some("alpha"));
    assert_eq!(lines.next(), Some("beta"));
    assert_eq!(lines.next(), None);
}

#[test]
fn add_repo_appends_in_insertion_order() {
    let two = vec![entry("alpha", false), entry("beta", false)];
    let mut d = Dashboard::new("gorta", "token", two).unwrap();
    d.add_repo("gamma");
    assert_eq!(
        d.build_dashboard(),
        "\u{1b}[1mRepository\u{1b}[0m\nalpha\nbeta\ngamma\n"
    );
}

#[test]
fn add_repo_keeps_duplicates() {
    let one = vec![entry("alpha", false)];
    let mut d = Dashboard::new("gorta", "token", one).unwrap();
    d.add_repo("alpha");
    assert_eq!(d.build_dashboard(), "\u{1b}[1mRepository\u{1b}[0m\nalpha\nalpha\n");
}

#[test]
fn setters_touch_only_their_field() {
    let mut d = Dashboard::new("gorta", "token", listing()).unwrap();
    let before = d.build_dashboard();
    d.set_token("other-token");
    assert_eq!(d.user(), "gorta");
    assert_eq!(d.build_dashboard(), before);
    d.set_user("somebody");
    assert_eq!(d.user(), "somebody");
    assert_eq!(d.build_dashboard(), before);
}

#[test]
fn setters_chain() {
    let mut d = Dashboard::new("gorta", "token", Vec::new()).unwrap();
    d.set_user("somebody").set_token("other").add_repo("delta");
    assert_eq!(d.user(), "somebody");
    assert_eq!(d.build_dashboard(), "\u{1b}[1mRepository\u{1b}[0m\ndelta\n");
}

#[test]
fn rendering_twice_is_byte_identical() {
    let d = Dashboard::new("gorta", "token", listing()).unwrap();
    let first = d.build_dashboard();
    let second = d.build_dashboard();
    assert_eq!(first.into_bytes(), second.into_bytes());
}

#[test]
fn error_messages_name_the_failure() {
    assert_eq!(Error::MustHaveUser.message(), "a user name must be provided");
    assert_eq!(Error::MustHaveToken.message(), "an access token must be provided");
    assert_eq!(Error::ApiError.message(), "the repository listing failed");
    assert_eq!(Error::ConfigError.message(), "the configuration could not be loaded");
}
