//! A fetched feed: its title, its image and its items, newest first.

use vstd::prelude::*;
use crate::account::{validate_display_name, TITLE_SEPARATOR};
use crate::text::trim_end;
use crate::web::{url_parse, Url, UrlView};

verus! {

/// One item of a feed, as the feed gives it. Each field may be missing.
#[derive(Debug, PartialEq, Eq)]
pub struct RawItem {
    /// The address of the post on the mirror.
    pub link: Option<String>,
    /// When the post was published: the token by which items are told apart.
    pub pub_date: Option<String>,
    /// The post's content, as hypertext.
    pub description: Option<String>,
}

/// What a [`RawItem`] holds, as sequences of characters.
pub struct RawItemView {
    pub link: Option<Seq<char>>,
    pub pub_date: Option<Seq<char>>,
    pub description: Option<Seq<char>>,
}

impl View for RawItem {
    type V = RawItemView;

    open spec fn view(&self) -> RawItemView {
        RawItemView {
            link: self.link.deep_view(),
            pub_date: self.pub_date.deep_view(),
            description: self.description.deep_view(),
        }
    }
}

impl DeepView for RawItem {
    type V = RawItemView;

    open spec fn deep_view(&self) -> RawItemView {
        self@
    }
}

/// A copy of an optional text.
pub fn copy_text(text: &Option<String>) -> (r: Option<String>)
    ensures
        r.deep_view() == text.deep_view(),
{
    match text {
        Some(t) => Some(t.clone()),
        None => None,
    }
}

impl Clone for RawItem {
    fn clone(&self) -> (r: Self)
        ensures
            r@ == self@,
    {
        RawItem {
            link: copy_text(&self.link),
            pub_date: copy_text(&self.pub_date),
            description: copy_text(&self.description),
        }
    }
}

/// A feed, as one fetch returned it.
#[derive(Debug, PartialEq, Eq)]
pub struct Feed {
    /// The title of the feed: the display name of the account, and mostly the account
    /// after it.
    pub title: String,
    /// The address of the feed's image, where it has one.
    pub image: Option<String>,
    /// The items, newest first.
    pub items: Vec<RawItem>,
}

/// What a [`Feed`] holds.
pub struct FeedView {
    pub title: Seq<char>,
    pub image: Option<Seq<char>>,
    pub items: Seq<RawItemView>,
}

impl View for Feed {
    type V = FeedView;

    open spec fn view(&self) -> FeedView {
        FeedView {
            title: self.title@,
            image: self.image.deep_view(),
            items: self.items.deep_view(),
        }
    }
}

/// How many opening tags a document may hold to be read as a feed. The reader
/// descends once for each element that is open, so this bounds how deep it goes.
pub const MAX_OPENING_TAGS: usize = 1024;

/// Whether an opening tag may start at index `at` of `document`: a `<` stands there,
/// and what follows it is none of `/`, `!` and `?`.
pub open spec fn opens_tag(document: Seq<u8>, at: int) -> bool {
    &&& 0 <= at
    &&& at + 1 < document.len()
    &&& document[at] == 0x3c
    &&& document[at + 1] != 0x2f
    &&& document[at + 1] != 0x21
    &&& document[at + 1] != 0x3f
}

/// How many opening tags may start before index `upto` of `document`. No document
/// has more elements open at once than this.
pub open spec fn opening_tags(document: Seq<u8>, upto: int) -> nat
    decreases upto,
{
    if upto <= 0 {
        0
    } else if opens_tag(document, upto - 1) {
        opening_tags(document, upto - 1) + 1
    } else {
        opening_tags(document, upto - 1)
    }
}

/// Whether `document` is small enough to be handed to the reader.
pub open spec fn readable(document: Seq<u8>) -> bool {
    opening_tags(document, document.len() as int) <= MAX_OPENING_TAGS
}

/// The feed that the `rss` crate reads from `document`: the channel's title, the
/// address of its image and, of each item in order, the link, the publication date
/// and the description; or `None` where it reports an error.
pub uninterp spec fn rss_channel(document: Seq<u8>) -> Option<FeedView>;

/// Calls `rss::Channel::read_from` on `document` and copies out of the channel what
/// `title`, `image` with `url`, and `items` with `link`, `pub_date` and `description`
/// return. The contract claims that the outcome is [`rss_channel`] of the bytes. The
/// reader calls itself for each element nested in an element with a prefixed name,
/// without a bound of its own, so only a document with a bounded number of opening
/// tags is admitted.
#[verifier::external_body]
fn read_channel(document: &[u8]) -> (r: Option<Feed>)
    requires
        readable(document@),
    ensures
        r matches Some(f) ==> rss_channel(document@) == Some(f@),
        r is None ==> rss_channel(document@) is None,
{
    let channel = rss::Channel::read_from(document).ok()?;
    let owned = |text: Option<&str>| text.map(String::from);
    let items = channel.items().iter().map(
        |i| RawItem { link: owned(i.link()), pub_date: owned(i.pub_date()), description: owned(i.description()) },
    ).collect();
    let image = owned(channel.image().map(|i| i.url()));
    Some(Feed { title: channel.title().to_string(), image, items })
}

/// Why a feed could not be read or used.
#[derive(Debug, PartialEq, Eq, Structural, Clone, Copy)]
pub enum FeedError {
    /// The document holds more opening tags than a feed may.
    TooManyTags,
    /// The document is no feed.
    Malformed,
    /// The feed has no image.
    NoImage,
    /// The address of the feed's image is not an address.
    InvalidIcon,
}

/// The feed that `document` holds.
pub open spec fn feed_of(document: Seq<u8>) -> Result<FeedView, FeedError> {
    if !readable(document) {
        Err(FeedError::TooManyTags)
    } else {
        match rss_channel(document) {
            Some(feed) => Ok(feed),
            None => Err(FeedError::Malformed),
        }
    }
}

/// How many opening tags may start in `document`, counted up to one more than
/// `limit`.
fn count_opening_tags(document: &[u8], limit: usize) -> (r: usize)
    ensures
        r <= limit ==> r == opening_tags(document@, document@.len() as int),
        r > limit ==> opening_tags(document@, document@.len() as int) > limit,
{
    let mut count: usize = 0;
    let mut i: usize = 0;
    while i < document.len()
        invariant
            i <= document.len(),
            count == opening_tags(document@, i as int),
            count <= limit,
            count <= i,
        decreases document.len() - i,
    {
        let opens = document[i] == 0x3c && i + 1 < document.len() && document[i + 1] != 0x2f
            && document[i + 1] != 0x21 && document[i + 1] != 0x3f;
        assert(opens == opens_tag(document@, i as int));
        if opens {
            if count == limit {
                proof {
                    lemma_opening_tags_grow(document@, i + 1, document@.len() as int);
                }
                return count + 1;
            }
            count += 1;
        }
        i += 1;
    }
    count
}

/// The count of opening tags never falls as more of the document is taken in.
pub proof fn lemma_opening_tags_grow(document: Seq<u8>, from: int, upto: int)
    requires
        from <= upto,
    ensures
        opening_tags(document, from) <= opening_tags(document, upto),
    decreases upto - from,
{
    if from < upto {
        lemma_opening_tags_grow(document, from, upto - 1);
    }
}

/// Reads a feed from the bytes of a syndication document. A document with more
/// than [`MAX_OPENING_TAGS`] opening tags is not read.
pub fn parse_feed(document: &[u8]) -> (r: Result<Feed, FeedError>)
    ensures
        match r {
            Ok(f) => feed_of(document@) == Ok::<FeedView, FeedError>(f@),
            Err(e) => feed_of(document@) == Err::<FeedView, FeedError>(e),
        },
{
    if count_opening_tags(document, MAX_OPENING_TAGS) > MAX_OPENING_TAGS {
        return Err(FeedError::TooManyTags);
    }
    match read_channel(document) {
        Some(f) => Ok(f),
        None => Err(FeedError::Malformed),
    }
}

/// Under what name and picture the posts of a feed are shown.
#[derive(Debug, PartialEq, Eq)]
pub struct TwiInfo {
    /// The address of the picture.
    pub icon_url: Url,
    /// The name, without the account after it.
    pub display_name: String,
    /// The account that the feed belongs to.
    pub account: String,
}

/// What a [`TwiInfo`] holds.
pub struct TwiInfoView {
    pub icon_url: UrlView,
    pub display_name: Seq<char>,
    pub account: Seq<char>,
}

impl View for TwiInfo {
    type V = TwiInfoView;

    open spec fn view(&self) -> TwiInfoView {
        TwiInfoView {
            icon_url: self.icon_url@,
            display_name: self.display_name@,
            account: self.account@,
        }
    }
}

/// The display name that a feed titled `title` gives to `account`.
pub open spec fn display_name_of(title: Seq<char>, account: Seq<char>) -> Seq<char> {
    trim_end(title, TITLE_SEPARATOR@ + account)
}

/// Under what name and picture the posts of `feed`, the feed of `account`, are shown.
pub open spec fn twi_info_of(feed: FeedView, account: Seq<char>) -> Result<TwiInfoView, FeedError> {
    match feed.image {
        None => Err(FeedError::NoImage),
        Some(image) => match url_parse(image) {
            None => Err(FeedError::InvalidIcon),
            Some(icon) => Ok(
                TwiInfoView {
                    icon_url: icon,
                    display_name: display_name_of(feed.title, account),
                    account,
                },
            ),
        },
    }
}

/// Under what name and picture the posts of `rss_channel`, the feed of `account`, are
/// shown: the title without the account, and the feed's image.
pub fn get_twi_info(rss_channel: &Feed, account: String) -> (r: Result<TwiInfo, FeedError>)
    ensures
        match r {
            Ok(info) => twi_info_of(rss_channel@, account@) == Ok::<TwiInfoView, FeedError>(info@),
            Err(e) => twi_info_of(rss_channel@, account@) == Err::<TwiInfoView, FeedError>(e),
        },
{
    let display_name = validate_display_name(rss_channel.title.as_str(), account.as_str());
    match &rss_channel.image {
        None => Err(FeedError::NoImage),
        Some(image) => match Url::parse(image.as_str()) {
            Err(_) => Err(FeedError::InvalidIcon),
            Ok(icon_url) => Ok(TwiInfo { icon_url, display_name, account }),
        },
    }
}

} // verus!
