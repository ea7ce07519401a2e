use feed_relay::registry::{
    channel_ids, distinct_mirrors, feed_urls, new_subscription, FeedChannel, Nitter, RSSUrl,
    Subscription,
};
use feed_relay::web::{Url, UrlError};

fn mirrors(names: &[&str]) -> Vec<Nitter> {
    names.iter().map(|n| Nitter { nitter: n.to_string() }).collect()
}

fn feeds(addresses: &[&str]) -> Vec<RSSUrl> {
    addresses.iter().map(|a| RSSUrl { rss_url: a.to_string() }).collect()
}

#[test]
fn distinct_mirrors_keeps_each_mirror_once() {
    let rows = mirrors(&["nitter.net", "n.example.org", "nitter.net", "n.example.org", "x.io"]);
    assert_eq!(distinct_mirrors(&rows), vec!["nitter.net", "n.example.org", "x.io"]);
    assert!(distinct_mirrors(&Vec::new()).is_empty());
}

#[test]
fn channel_ids_keeps_each_channel_once() {
    let rows = vec![
        FeedChannel { channel: "C1".to_string() },
        FeedChannel { channel: "C2".to_string() },
        FeedChannel { channel: "C1".to_string() },
    ];
    assert_eq!(channel_ids(&rows), vec!["C1", "C2"]);
}

#[test]
fn feed_urls_keeps_each_feed_once() {
    let rows = feeds(&[
        "https://nitter.net/bob/rss",
        "https://nitter.net/alice/rss",
        "https://nitter.net/bob/rss",
        "HTTPS://NITTER.net/alice/rss",
    ]);
    let urls = feed_urls(&rows).unwrap();
    let texts: Vec<&str> = urls.iter().map(|u| u.as_str()).collect();
    assert_eq!(texts, vec!["https://nitter.net/bob/rss", "https://nitter.net/alice/rss"]);
}

#[test]
fn feed_urls_fails_on_a_row_without_an_address() {
    let rows = feeds(&["https://nitter.net/bob/rss", "bob", "https://nitter.net/alice/rss"]);
    assert_eq!(feed_urls(&rows), Err(UrlError::Parse));
}

#[test]
fn feed_urls_of_no_rows() {
    assert_eq!(feed_urls(&Vec::new()), Ok(Vec::new()));
}

#[test]
fn new_subscription_takes_account_and_mirror_from_the_address() {
    let url = Url::parse("https://nitter.net/bob/rss").unwrap();
    assert_eq!(
        new_subscription(&url),
        Ok(Subscription {
            rss_url: "https://nitter.net/bob/rss".to_string(),
            account: "bob".to_string(),
            nitter: "nitter.net".to_string(),
        })
    );
}

#[test]
fn new_subscription_needs_a_domain() {
    let url = Url::parse("https://10.0.0.1/bob/rss").unwrap();
    assert_eq!(new_subscription(&url), Err(UrlError::NoDomain));
}

#[test]
fn new_subscription_needs_an_account() {
    let url = Url::parse("mailto:bob@example.org").unwrap();
    assert_eq!(new_subscription(&url), Err(UrlError::NoAccount));
}
