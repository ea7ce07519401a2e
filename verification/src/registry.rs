//! What the relay reads from its store, and what it makes of the rows.
//!
//! The store keeps one row for each feed with its watermark, one for each pair of
//! a feed and a channel that has subscribed to it, and one for each feed with the
//! mirror that serves it. A feed is polled as long as a channel is bound to it.
//! The rows come as the store returns them; here they become the mirrors that have
//! a loop, the feeds of one mirror's pass, and the channels of one feed's fan-out,
//! each without repetition.

use vstd::prelude::*;
use crate::account::{account_of, nitter_url_to_nitter, url_to_account};
use crate::text::same_text;
use crate::web::{url_parse, Url, UrlError, UrlView};

verus! {

/// A row with the watermark of a feed.
#[derive(Debug, PartialEq, Eq)]
pub struct LastDate {
    pub date: String,
}

/// A row with a channel that is bound to a feed.
#[derive(Debug, PartialEq, Eq)]
pub struct FeedChannel {
    pub channel: String,
}

/// A row with the address of a feed.
#[derive(Debug, PartialEq, Eq)]
pub struct RSSUrl {
    pub rss_url: String,
}

/// A row with the mirror that serves a feed.
#[derive(Debug, PartialEq, Eq)]
pub struct Nitter {
    pub nitter: String,
}

impl View for LastDate {
    type V = Seq<char>;

    open spec fn view(&self) -> Seq<char> {
        self.date@
    }
}

impl DeepView for LastDate {
    type V = Seq<char>;

    open spec fn deep_view(&self) -> Seq<char> {
        self@
    }
}

impl View for FeedChannel {
    type V = Seq<char>;

    open spec fn view(&self) -> Seq<char> {
        self.channel@
    }
}

impl DeepView for FeedChannel {
    type V = Seq<char>;

    open spec fn deep_view(&self) -> Seq<char> {
        self@
    }
}

impl View for RSSUrl {
    type V = Seq<char>;

    open spec fn view(&self) -> Seq<char> {
        self.rss_url@
    }
}

impl DeepView for RSSUrl {
    type V = Seq<char>;

    open spec fn deep_view(&self) -> Seq<char> {
        self@
    }
}

impl View for Nitter {
    type V = Seq<char>;

    open spec fn view(&self) -> Seq<char> {
        self.nitter@
    }
}

impl DeepView for Nitter {
    type V = Seq<char>;

    open spec fn deep_view(&self) -> Seq<char> {
        self@
    }
}

/// The rows of a new subscription: the feed's address, its account, and the mirror
/// that serves it. Its watermark is empty.
#[derive(Debug, PartialEq, Eq)]
pub struct Subscription {
    pub rss_url: String,
    pub account: String,
    pub nitter: String,
}

/// What a [`Subscription`] holds.
pub struct SubscriptionView {
    pub rss_url: Seq<char>,
    pub account: Seq<char>,
    pub nitter: Seq<char>,
}

impl View for Subscription {
    type V = SubscriptionView;

    open spec fn view(&self) -> SubscriptionView {
        SubscriptionView { rss_url: self.rss_url@, account: self.account@, nitter: self.nitter@ }
    }
}

/// `names` without every name that has occurred before in it.
pub open spec fn distinct(names: Seq<Seq<char>>) -> Seq<Seq<char>>
    decreases names.len(),
{
    if names.len() == 0 {
        Seq::empty()
    } else {
        let before = distinct(names.drop_last());
        if before.contains(names.last()) {
            before
        } else {
            before.push(names.last())
        }
    }
}

/// The addresses that `texts` hold, where each of them holds one.
pub open spec fn parsed_all(texts: Seq<Seq<char>>) -> Option<Seq<UrlView>>
    decreases texts.len(),
{
    if texts.len() == 0 {
        Some(Seq::empty())
    } else {
        match (parsed_all(texts.drop_last()), url_parse(texts.last())) {
            (Some(before), Some(last)) => Some(before.push(last)),
            _ => None,
        }
    }
}

/// Whether an address with the text `text` is among `urls`.
pub open spec fn has_text(urls: Seq<UrlView>, text: Seq<char>) -> bool {
    exists|i: int| 0 <= i < urls.len() && #[trigger] urls[i].text == text
}

/// `urls` without every address whose text has occurred before in it.
pub open spec fn distinct_urls(urls: Seq<UrlView>) -> Seq<UrlView>
    decreases urls.len(),
{
    if urls.len() == 0 {
        Seq::empty()
    } else {
        let before = distinct_urls(urls.drop_last());
        if has_text(before, urls.last().text) {
            before
        } else {
            before.push(urls.last())
        }
    }
}

/// The feeds of a pass: the addresses in `rows`, each once; `None` where a row holds
/// no address.
pub open spec fn feeds_of(rows: Seq<Seq<char>>) -> Option<Seq<UrlView>> {
    match parsed_all(rows) {
        Some(urls) => Some(distinct_urls(urls)),
        None => None,
    }
}

/// The rows of a subscription to the feed at `url`.
pub open spec fn subscription_of(url: UrlView) -> Result<SubscriptionView, UrlError> {
    match (account_of(url), url.domain) {
        (None, _) => Err(UrlError::NoAccount),
        (Some(_), None) => Err(UrlError::NoDomain),
        (Some(account), Some(nitter)) => Ok(SubscriptionView { rss_url: url.text, account, nitter }),
    }
}

/// `distinct` keeps every name, and each of them once.
pub proof fn lemma_distinct(names: Seq<Seq<char>>)
    ensures
        distinct(names).no_duplicates(),
        forall|name: Seq<char>| distinct(names).contains(name) <==> names.contains(name),
        distinct(names).len() <= names.len(),
    decreases names.len(),
{
    if names.len() > 0 {
        let before = names.drop_last();
        lemma_distinct(before);
        assert forall|name: Seq<char>| distinct(names).contains(name) <==> names.contains(
            name,
        ) by {
            if names.contains(name) {
                let i = choose|i: int| 0 <= i < names.len() && names[i] == name;
                if i < before.len() {
                    assert(before[i] == name);
                    assert(before.contains(name));
                    let j = choose|j: int|
                        0 <= j < distinct(before).len() && distinct(before)[j] == name;
                    assert(distinct(names)[j] == name);
                } else {
                    if !distinct(before).contains(name) {
                        assert(distinct(names)[distinct(before).len() as int] == name);
                    }
                }
            }
            if distinct(names).contains(name) {
                let j = choose|j: int| 0 <= j < distinct(names).len() && distinct(names)[j] == name;
                if j < distinct(before).len() {
                    assert(distinct(before)[j] == name);
                    assert(distinct(before).contains(name));
                    assert(before.contains(name));
                    let i = choose|i: int| 0 <= i < before.len() && before[i] == name;
                    assert(names[i] == name);
                } else {
                    assert(names[names.len() - 1] == name);
                }
            }
        }
    }
}

/// `distinct_urls` keeps an address of every text, and of each text one.
pub proof fn lemma_distinct_urls(urls: Seq<UrlView>)
    ensures
        forall|i: int, j: int|
            0 <= i < j < distinct_urls(urls).len() ==> (#[trigger] distinct_urls(urls)[i]).text != (
            #[trigger] distinct_urls(urls)[j]).text,
        forall|text: Seq<char>| has_text(distinct_urls(urls), text) <==> has_text(urls, text),
        forall|i: int|
            0 <= i < distinct_urls(urls).len() ==> urls.contains(#[trigger] distinct_urls(urls)[i]),
        distinct_urls(urls).len() <= urls.len(),
    decreases urls.len(),
{
    if urls.len() > 0 {
        let before = urls.drop_last();
        let kept = distinct_urls(before);
        let all = distinct_urls(urls);
        lemma_distinct_urls(before);
        assert forall|text: Seq<char>| has_text(all, text) <==> has_text(urls, text) by {
            if has_text(urls, text) {
                let i = choose|i: int| 0 <= i < urls.len() && urls[i].text == text;
                if i < before.len() {
                    assert(before[i].text == text);
                    assert(has_text(before, text));
                    let j = choose|j: int| 0 <= j < kept.len() && kept[j].text == text;
                    assert(all[j].text == text);
                } else {
                    if has_text(kept, text) {
                        let j = choose|j: int| 0 <= j < kept.len() && kept[j].text == text;
                        assert(all[j].text == text);
                    } else {
                        assert(all[kept.len() as int].text == text);
                    }
                }
            }
            if has_text(all, text) {
                let j = choose|j: int| 0 <= j < all.len() && all[j].text == text;
                if j < kept.len() {
                    assert(kept[j].text == text);
                    assert(has_text(kept, text));
                    let i = choose|i: int| 0 <= i < before.len() && before[i].text == text;
                    assert(urls[i].text == text);
                } else {
                    assert(urls[urls.len() - 1].text == text);
                }
            }
        }
        assert forall|i: int| 0 <= i < all.len() implies urls.contains(#[trigger] all[i]) by {
            if i < kept.len() {
                assert(before.contains(kept[i]));
                let k = choose|k: int| 0 <= k < before.len() && before[k] == kept[i];
                assert(urls[k] == all[i]);
            } else {
                assert(urls[urls.len() - 1] == all[i]);
            }
        }
        assert forall|i: int, j: int| 0 <= i < j < all.len() implies (#[trigger] all[i]).text != (
        #[trigger] all[j]).text by {
            if j < kept.len() {
                assert(kept[i].text != kept[j].text);
            } else {
                assert(kept[i].text == all[i].text);
            }
        }
    }
}

/// Whether `name` is among `names`.
fn holds_name(names: &Vec<String>, name: &str) -> (r: bool)
    ensures
        r == names.deep_view().contains(name@),
{
    let mut i: usize = 0;
    while i < names.len()
        invariant
            i <= names.len(),
            forall|j: int| 0 <= j < i ==> names.deep_view()[j] != name@,
        decreases names.len() - i,
    {
        if same_text(names[i].as_str(), name) {
            assert(names.deep_view()[i as int] == name@);
            return true;
        }
        i += 1;
    }
    false
}

/// Whether an address with the text `text` is among `urls`.
fn holds_url(urls: &Vec<Url>, text: &str) -> (r: bool)
    ensures
        r == has_text(urls.deep_view(), text@),
{
    let mut i: usize = 0;
    while i < urls.len()
        invariant
            i <= urls.len(),
            forall|j: int| 0 <= j < i ==> (#[trigger] urls.deep_view()[j]).text != text@,
        decreases urls.len() - i,
    {
        if same_text(urls[i].as_str(), text) {
            assert(urls.deep_view()[i as int].text == text@);
            return true;
        }
        i += 1;
    }
    false
}

/// A row that holds one name.
trait Named: DeepView<V = Seq<char>> {
    /// The name that the row holds.
    fn name(&self) -> (r: &str)
        ensures
            r@ == self.deep_view(),
    ;
}

impl Named for Nitter {
    fn name(&self) -> (r: &str) {
        self.nitter.as_str()
    }
}

impl Named for FeedChannel {
    fn name(&self) -> (r: &str) {
        self.channel.as_str()
    }
}

/// The names in `rows`, each once, in the order in which they first occur.
fn names_once<R: Named>(rows: &Vec<R>) -> (r: Vec<String>)
    ensures
        r.deep_view() == distinct(rows.deep_view()),
{
    let mut out: Vec<String> = Vec::new();
    let mut i: usize = 0;
    assert(rows.deep_view().take(0) =~= Seq::empty());
    assert(out.deep_view() =~= Seq::empty());
    while i < rows.len()
        invariant
            i <= rows.len(),
            out.deep_view() == distinct(rows.deep_view().take(i as int)),
        decreases rows.len() - i,
    {
        let ghost before = out.deep_view();
        let name = rows[i].name();
        proof {
            let next = rows.deep_view().take(i + 1);
            assert(next.drop_last() =~= rows.deep_view().take(i as int));
            assert(next.last() == name@);
        }
        if !holds_name(&out, name) {
            out.push(name.to_owned());
            assert(out.deep_view() =~= before.push(name@));
        }
        i += 1;
    }
    assert(rows.deep_view().take(i as int) =~= rows.deep_view());
    out
}

/// The mirrors that need a loop: the mirror of each row, each mirror once, in the
/// order in which they first occur.
pub fn distinct_mirrors(rows: &Vec<Nitter>) -> (r: Vec<String>)
    ensures
        r.deep_view() == distinct(rows.deep_view()),
{
    names_once(rows)
}

/// The channels of a fan-out: the channel of each row, each channel once, in the
/// order in which they first occur.
pub fn channel_ids(rows: &Vec<FeedChannel>) -> (r: Vec<String>)
    ensures
        r.deep_view() == distinct(rows.deep_view()),
{
    names_once(rows)
}

/// The feeds of one mirror's pass: the address in each row, each address once, in
/// the order in which they first occur. Fails where a row holds no address.
pub fn feed_urls(rows: &Vec<RSSUrl>) -> (r: Result<Vec<Url>, UrlError>)
    ensures
        match r {
            Ok(urls) => feeds_of(rows.deep_view()) == Some(urls.deep_view()),
            Err(e) => e == UrlError::Parse && feeds_of(rows.deep_view()) is None,
        },
{
    let mut out: Vec<Url> = Vec::new();
    let mut i: usize = 0;
    assert(rows.deep_view().take(0) =~= Seq::empty());
    assert(out.deep_view() =~= Seq::empty());
    while i < rows.len()
        invariant
            i <= rows.len(),
            parsed_all(rows.deep_view().take(i as int)) is Some,
            out.deep_view() == distinct_urls(parsed_all(rows.deep_view().take(i as int))->0),
        decreases rows.len() - i,
    {
        let ghost before = out.deep_view();
        let ghost seen = rows.deep_view().take(i as int);
        proof {
            let next = rows.deep_view().take(i + 1);
            assert(next.drop_last() =~= seen);
            assert(next.last() == rows@[i as int]@);
        }
        match Url::parse(rows[i].rss_url.as_str()) {
            Err(e) => {
                proof {
                    lemma_parsed_all_prefix(rows.deep_view(), i + 1);
                }
                return Err(e);
            },
            Ok(url) => {
                proof {
                    let parsed = parsed_all(seen)->0;
                    assert(parsed.push(url@).drop_last() =~= parsed);
                }
                if !holds_url(&out, url.as_str()) {
                    out.push(url);
                    assert(out.deep_view() =~= before.push(url@));
                }
            },
        }
        i += 1;
    }
    assert(rows.deep_view().take(i as int) =~= rows.deep_view());
    Ok(out)
}

/// Where the first `n` texts do not all hold an address, the whole of them do not.
proof fn lemma_parsed_all_prefix(texts: Seq<Seq<char>>, n: int)
    requires
        0 <= n <= texts.len(),
        parsed_all(texts.take(n)) is None,
    ensures
        parsed_all(texts) is None,
    decreases texts.len() - n,
{
    if n < texts.len() {
        assert(texts.take(n + 1).drop_last() =~= texts.take(n));
        lemma_parsed_all_prefix(texts, n + 1);
    } else {
        assert(texts.take(n) =~= texts);
    }
}

/// The rows of a subscription to the feed at `url`: its address, the account that
/// its path names, and the mirror that serves it.
pub fn new_subscription(url: &Url) -> (r: Result<Subscription, UrlError>)
    ensures
        match r {
            Ok(s) => subscription_of(url@) == Ok::<SubscriptionView, UrlError>(s@),
            Err(e) => subscription_of(url@) == Err::<SubscriptionView, UrlError>(e),
        },
{
    let account = match url_to_account(url) {
        Ok(a) => a,
        Err(e) => { return Err(e); },
    };
    let nitter = match nitter_url_to_nitter(url) {
        Ok(n) => n,
        Err(e) => { return Err(e); },
    };
    Ok(
        Subscription {
            rss_url: url.to_string(),
            account: account.to_owned(),
            nitter: nitter.to_owned(),
        },
    )
}

} // verus!
