//! Accounts and the addresses that belong to them.
//!
//! A feed address on a mirror has the account as the first segment of its path, and
//! so has the address of a post. The post's address on the upstream host has the
//! same path as its address on the mirror.

use vstd::prelude::*;
use crate::text::{appended, first_segment, leading_segment, same_text, trim_end, trim_end_matches};
use crate::web::{url_join, url_parse, Url, UrlError, UrlView};

verus! {

/// The start of every address on the host on which posts live.
pub const TWITTER_ORIGIN: &'static str = "https://twitter.com";

/// The domain of the host on which posts live.
pub const TWITTER_DOMAIN: &'static str = "twitter.com";

/// The host on which profiles are shown.
pub const PROFILE_HOST: &'static str = "https://fxtwitter.com/";

/// What separates a display name from the account in a feed's title.
pub const TITLE_SEPARATOR: &'static str = " / @";

/// The account that the path of an address names: its first segment.
pub open spec fn account_of(url: UrlView) -> Option<Seq<char>> {
    leading_segment(url.path)
}

/// Whether a post at `tweet_url`, seen in the feed of `nitter_account`, was written by
/// another account.
pub open spec fn retweeted(tweet_url: UrlView, nitter_account: Seq<char>) -> bool {
    match account_of(tweet_url) {
        Some(author) => author != nitter_account,
        None => false,
    }
}

/// Whether `url` is the address on the upstream host that has the path `path`.
pub open spec fn is_upstream(url: UrlView, path: Seq<char>) -> bool {
    &&& url.text == TWITTER_ORIGIN@ + path
    &&& url.path == path
    &&& url.domain == Some(TWITTER_DOMAIN@)
}

/// The address on the upstream host of the post that a mirror shows under the path
/// `path`: what the text of the upstream host followed by the path reads as, where
/// that is the address on the upstream host with the same path.
pub open spec fn upstream_of(path: Seq<char>) -> Result<UrlView, UrlError> {
    match url_parse(TWITTER_ORIGIN@ + path) {
        None => Err(UrlError::Parse),
        Some(url) => if is_upstream(url, path) {
            Ok(url)
        } else {
            Err(UrlError::OffHost)
        },
    }
}

/// The address on the upstream host of the post that a mirror shows at `nitter_url`:
/// the upstream host in the place of the mirror, and the mirror's path after it.
pub fn nitter_url_to_twi(nitter_url: &Url) -> (r: Result<Url, UrlError>)
    ensures
        match r {
            Ok(u) => upstream_of(nitter_url@.path) == Ok::<UrlView, UrlError>(u@),
            Err(e) => upstream_of(nitter_url@.path) == Err::<UrlView, UrlError>(e),
        },
        r is Ok ==> is_upstream(r->Ok_0@, nitter_url@.path),
{
    let path = nitter_url.path();
    let expected = appended(TWITTER_ORIGIN, path);
    let url = match Url::parse(expected.as_str()) {
        Ok(u) => u,
        Err(e) => { return Err(e); },
    };
    let on_host = match url.domain() {
        Some(d) => same_text(d, TWITTER_DOMAIN),
        None => false,
    };
    if on_host && same_text(url.path(), path) && same_text(url.as_str(), expected.as_str()) {
        Ok(url)
    } else {
        Err(UrlError::OffHost)
    }
}

/// The mirror that serves `nitter_url`: its domain.
pub fn nitter_url_to_nitter(nitter_url: &Url) -> (r: Result<&str, UrlError>)
    ensures
        match r {
            Ok(d) => nitter_url@.domain == Some(d@),
            Err(e) => e == UrlError::NoDomain && nitter_url@.domain is None,
        },
{
    match nitter_url.domain() {
        Some(d) => Ok(d),
        None => Err(UrlError::NoDomain),
    }
}

/// The account that `nitter_url` belongs to: the first segment of its path.
pub fn url_to_account(nitter_url: &Url) -> (r: Result<&str, UrlError>)
    ensures
        match r {
            Ok(a) => account_of(nitter_url@) == Some(a@),
            Err(e) => e == UrlError::NoAccount && account_of(nitter_url@) is None,
        },
{
    match first_segment(nitter_url.path()) {
        Some(a) => Ok(a),
        None => Err(UrlError::NoAccount),
    }
}

/// Whether the post at `tweet_url` was written by another account than
/// `nitter_account`, in whose feed it was found.
pub fn is_retweet(tweet_url: &Url, nitter_account: &str) -> (r: bool)
    ensures
        r == retweeted(tweet_url@, nitter_account@),
{
    match url_to_account(tweet_url) {
        Ok(author) => !same_text(author, nitter_account),
        Err(_) => false,
    }
}

/// The address of the profile of `account`.
pub fn account_to_twitter_profile(account: &str) -> (r: Result<Url, UrlError>)
    ensures
        match r {
            Ok(u) => url_join(PROFILE_HOST@, account@) == Some(u@),
            Err(e) => e == UrlError::Parse && url_join(PROFILE_HOST@, account@) is None,
        },
{
    Url::resolve(PROFILE_HOST, account)
}

/// The display name in a feed's title: the title without the account that a mirror
/// writes after it.
pub fn validate_display_name(display_name: &str, account: &str) -> (r: String)
    ensures
        r@ == trim_end(display_name@, TITLE_SEPARATOR@ + account@),
{
    let end_pattern = appended(TITLE_SEPARATOR, account);
    trim_end_matches(display_name, end_pattern.as_str())
}

} // verus!
