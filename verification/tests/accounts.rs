use feed_relay::account::{
    account_to_twitter_profile, is_retweet, nitter_url_to_nitter, nitter_url_to_twi,
    url_to_account, validate_display_name,
};
use feed_relay::web::{Url, UrlError};

#[test]
fn parse_normalises_the_address() {
    let url = Url::parse("HTTPS://Nitter.NET").unwrap();
    assert_eq!(url.as_str(), "https://nitter.net/");
    assert_eq!(url.path(), "/");
    assert_eq!(url.domain(), Some("nitter.net"));
    assert_eq!(url.to_string(), "https://nitter.net/");
}

#[test]
fn parse_keeps_query_and_fragment_out_of_the_path() {
    let url = Url::parse("https://nitter.net/bob/status/12?x=1#m").unwrap();
    assert_eq!(url.path(), "/bob/status/12");
    assert_eq!(url.as_str(), "https://nitter.net/bob/status/12?x=1#m");
}

#[test]
fn parse_rejects_what_is_no_address() {
    assert_eq!(Url::parse("bob"), Err(UrlError::Parse));
    assert_eq!(Url::parse(""), Err(UrlError::Parse));
    assert_eq!(Url::parse("https://"), Err(UrlError::Parse));
}

#[test]
fn join_and_resolve_read_relative_references() {
    let base = Url::parse("https://nitter.net/a/b").unwrap();
    assert_eq!(base.join("c").unwrap().as_str(), "https://nitter.net/a/c");
    assert_eq!(base.join("/c").unwrap().as_str(), "https://nitter.net/c");
    assert_eq!(base.join("//other.org/c").unwrap().as_str(), "https://other.org/c");
    assert_eq!(
        Url::resolve("https://nitter.net/", "bob/rss").unwrap().as_str(),
        "https://nitter.net/bob/rss"
    );
    assert_eq!(Url::resolve("nitter.net", "bob/rss"), Err(UrlError::Parse));
    assert_eq!(Url::resolve("https://nitter.net/", "https://"), Err(UrlError::Parse));
}

#[test]
fn clone_keeps_every_part() {
    let url = Url::parse("https://nitter.net/bob/rss").unwrap();
    let copy = url.clone();
    assert_eq!(copy, url);
    assert_eq!(copy.path(), "/bob/rss");
    assert_eq!(copy.domain(), Some("nitter.net"));
}

#[test]
fn nitter_url_to_twi_keeps_the_path() {
    let nitter = Url::parse("https://nitter.net/bob/status/123#m").unwrap();
    let twi = nitter_url_to_twi(&nitter).unwrap();
    assert_eq!(twi.as_str(), "https://twitter.com/bob/status/123");
    assert_eq!(twi.path(), "/bob/status/123");
    assert_eq!(twi.domain(), Some("twitter.com"));
}

#[test]
fn nitter_url_to_twi_keeps_a_path_that_opens_with_two_slashes() {
    let nitter = Url::parse("https://nitter.net//evil.example/bob/status/1").unwrap();
    assert_eq!(nitter.path(), "//evil.example/bob/status/1");
    let twi = nitter_url_to_twi(&nitter).unwrap();
    assert_eq!(twi.as_str(), "https://twitter.com//evil.example/bob/status/1");
    assert_eq!(twi.domain(), Some("twitter.com"));
    assert_eq!(twi.path(), "//evil.example/bob/status/1");
}

#[test]
fn nitter_url_to_twi_takes_any_mirror_and_scheme() {
    let plain = Url::parse("http://n.example.org:8080/bob/status/1?x=1#m").unwrap();
    assert_eq!(
        nitter_url_to_twi(&plain).unwrap().as_str(),
        "https://twitter.com/bob/status/1"
    );
    let bare = Url::parse("https://nitter.net").unwrap();
    assert_eq!(nitter_url_to_twi(&bare).unwrap().as_str(), "https://twitter.com/");
}

#[test]
fn nitter_url_to_twi_refuses_a_path_without_segments() {
    let mail = Url::parse("mailto:bob@example.org").unwrap();
    assert_eq!(nitter_url_to_twi(&mail), Err(UrlError::OffHost));
}

#[test]
fn nitter_url_to_twi_keeps_an_encoded_path() {
    let nitter = Url::parse("https://nitter.net/bob/status/1 2/%C3%A9?q=1").unwrap();
    let twi = nitter_url_to_twi(&nitter).unwrap();
    assert_eq!(twi.path(), nitter.path());
    assert_eq!(twi.as_str(), "https://twitter.com/bob/status/1%202/%C3%A9");
}

#[test]
fn nitter_url_to_nitter_gives_the_domain() {
    let url = Url::parse("https://nitter.example.org/bob/rss").unwrap();
    assert_eq!(nitter_url_to_nitter(&url), Ok("nitter.example.org"));
}

#[test]
fn nitter_url_to_nitter_fails_without_a_domain() {
    let ip = Url::parse("https://127.0.0.1/bob/rss").unwrap();
    assert_eq!(nitter_url_to_nitter(&ip), Err(UrlError::NoDomain));
    let mail = Url::parse("mailto:bob@example.org").unwrap();
    assert_eq!(nitter_url_to_nitter(&mail), Err(UrlError::NoDomain));
}

#[test]
fn url_to_account_gives_the_first_segment() {
    let url = Url::parse("https://nitter.net/bob/rss").unwrap();
    assert_eq!(url_to_account(&url), Ok("bob"));
    let bare = Url::parse("https://nitter.net").unwrap();
    assert_eq!(url_to_account(&bare), Ok(""));
}

#[test]
fn url_to_account_fails_without_segments() {
    let mail = Url::parse("mailto:bob@example.org").unwrap();
    assert_eq!(url_to_account(&mail), Err(UrlError::NoAccount));
}

#[test]
fn is_retweet_of_another_account() {
    let post = Url::parse("https://twitter.com/bob/status/1").unwrap();
    assert!(is_retweet(&post, "alice"));
}

#[test]
fn is_retweet_not_of_the_own_account() {
    let post = Url::parse("https://twitter.com/alice/status/1").unwrap();
    assert!(!is_retweet(&post, "alice"));
}

#[test]
fn is_retweet_not_without_an_account_in_the_address() {
    let mail = Url::parse("mailto:bob@example.org").unwrap();
    assert!(!is_retweet(&mail, "alice"));
}

#[test]
fn is_retweet_tells_cases_apart() {
    let post = Url::parse("https://twitter.com/Alice/status/1").unwrap();
    assert!(is_retweet(&post, "alice"));
}

#[test]
fn account_to_twitter_profile_joins_the_account() {
    let profile = account_to_twitter_profile("bob").unwrap();
    assert_eq!(profile.as_str(), "https://fxtwitter.com/bob");
}

#[test]
fn account_to_twitter_profile_fails_on_a_broken_reference() {
    assert_eq!(account_to_twitter_profile("https://"), Err(UrlError::Parse));
}

#[test]
fn validate_display_name_strips_the_account() {
    assert_eq!(validate_display_name("Bob / @bob", "bob"), "Bob");
    assert_eq!(validate_display_name("Bob / @bob / @bob", "bob"), "Bob");
}

#[test]
fn validate_display_name_keeps_other_titles() {
    assert_eq!(validate_display_name("Bob / @alice", "bob"), "Bob / @alice");
    assert_eq!(validate_display_name("Bob", "bob"), "Bob");
    assert_eq!(validate_display_name("", "bob"), "");
    assert_eq!(validate_display_name("Bob / @bob!", "bob"), "Bob / @bob!");
}

#[test]
fn validate_display_name_with_an_empty_account() {
    assert_eq!(validate_display_name("Bob / @", ""), "Bob");
}
