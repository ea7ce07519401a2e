//! What is new in a feed since it was last looked at, and what posts the new items
//! stand for.
//!
//! A feed lists its items newest first. The watermark of a feed is the publication
//! token of the newest item at the last look; the items before the first one that
//! bears the watermark are new. A feed that was never looked at has the empty
//! watermark, and nothing in it counts as new: only the watermark moves.

use vstd::prelude::*;
use crate::account::{nitter_url_to_twi, upstream_of};
use crate::feed::{RawItem, RawItemView};
use crate::media::{fetch_twi_images, twi_images};
use crate::text::same_text;
use crate::web::{url_parse, Url, UrlView};

verus! {

/// Why a look at a feed yields nothing to dispatch.
#[derive(Debug, PartialEq, Eq, Structural, Clone, Copy)]
pub enum DetectError {
    /// The feed has no item.
    NoItem,
    /// The newest item has no publication token.
    MissingPublishDate,
    /// The newest item bears the empty token, and the feed has a watermark: the
    /// empty text may not take its place.
    EmptyPublishDate,
    /// The newest item bears the watermark: nothing was published since.
    NoUpdate,
}

/// The new items of a feed, oldest first, and the feed's next watermark.
#[derive(Debug, PartialEq, Eq)]
pub struct Detection {
    pub new_items: Vec<RawItem>,
    pub watermark: String,
}

/// What a [`Detection`] holds.
pub struct DetectionView {
    pub new_items: Seq<RawItemView>,
    pub watermark: Seq<char>,
}

impl View for Detection {
    type V = DetectionView;

    open spec fn view(&self) -> DetectionView {
        DetectionView { new_items: self.new_items.deep_view(), watermark: self.watermark@ }
    }
}

/// A post: its address on the upstream host and the upstream addresses of its media.
#[derive(Debug, PartialEq, Eq)]
pub struct Tweet {
    pub twi_url: Url,
    pub pics: Vec<Url>,
}

/// What a [`Tweet`] holds.
pub struct TweetView {
    pub twi_url: UrlView,
    pub pics: Seq<UrlView>,
}

impl View for Tweet {
    type V = TweetView;

    open spec fn view(&self) -> TweetView {
        TweetView { twi_url: self.twi_url@, pics: self.pics.deep_view() }
    }
}

impl DeepView for Tweet {
    type V = TweetView;

    open spec fn deep_view(&self) -> TweetView {
        self@
    }
}

/// The new posts of a feed, oldest first, and the feed's next watermark.
#[derive(Debug, PartialEq, Eq)]
pub struct Update {
    pub tweets: Vec<Tweet>,
    pub watermark: String,
}

/// What an [`Update`] holds.
pub struct UpdateView {
    pub tweets: Seq<TweetView>,
    pub watermark: Seq<char>,
}

impl View for Update {
    type V = UpdateView;

    open spec fn view(&self) -> UpdateView {
        UpdateView { tweets: self.tweets.deep_view(), watermark: self.watermark@ }
    }
}

/// The publication token of the newest item.
pub open spec fn newest_token(items: Seq<RawItemView>) -> Result<Seq<char>, DetectError> {
    if items.len() == 0 {
        Err(DetectError::NoItem)
    } else {
        match items[0].pub_date {
            Some(token) => Ok(token),
            None => Err(DetectError::MissingPublishDate),
        }
    }
}

/// Whether `item` bears the token `watermark`.
pub open spec fn bears(item: RawItemView, watermark: Seq<char>) -> bool {
    item.pub_date == Some(watermark)
}

/// How many items stand before the first one that bears `watermark`: all of them
/// where none does.
pub open spec fn fresh_count(items: Seq<RawItemView>, watermark: Seq<char>) -> nat
    decreases items.len(),
{
    if items.len() == 0 || bears(items[0], watermark) {
        0
    } else {
        1 + fresh_count(items.skip(1), watermark)
    }
}

/// The items before the first one that bears `watermark`, oldest first.
pub open spec fn fresh_items(items: Seq<RawItemView>, watermark: Seq<char>) -> Seq<RawItemView> {
    items.take(fresh_count(items, watermark) as int).reverse()
}

/// What a look at a feed with the items `items`, newest first, yields when the
/// feed's watermark is `watermark`. The empty text is the watermark of a feed that
/// was never looked at, so no look yields it: a newest token that is empty, where
/// the watermark is not, ends the look.
pub open spec fn detection(items: Seq<RawItemView>, watermark: Seq<char>) -> Result<
    DetectionView,
    DetectError,
> {
    match newest_token(items) {
        Err(e) => Err(e),
        Ok(token) => if token == watermark {
            Err(DetectError::NoUpdate)
        } else if token.len() == 0 {
            Err(DetectError::EmptyPublishDate)
        } else {
            Ok(
                DetectionView {
                    new_items: if watermark.len() == 0 {
                        Seq::empty()
                    } else {
                        fresh_items(items, watermark)
                    },
                    watermark: token,
                },
            )
        },
    }
}

/// The media of an item: the upstream addresses of the images in its description.
pub open spec fn pics_of(description: Option<Seq<char>>) -> Seq<UrlView> {
    match description {
        Some(d) => twi_images(d),
        None => Seq::empty(),
    }
}

/// The address on the upstream host of the post that `link` shows on a mirror.
pub open spec fn twi_url_of(link: Option<Seq<char>>) -> Option<UrlView> {
    match link {
        Some(l) => match url_parse(l) {
            Some(nitter_url) => match upstream_of(nitter_url.path) {
                Ok(twi_url) => Some(twi_url),
                Err(_) => None,
            },
            None => None,
        },
        None => None,
    }
}

/// The post that `item` stands for, where its link gives an upstream address.
pub open spec fn post_of(item: RawItemView) -> Option<TweetView> {
    match twi_url_of(item.link) {
        Some(twi_url) => Some(TweetView { twi_url, pics: pics_of(item.description) }),
        None => None,
    }
}

/// The posts that `items` stand for, in order, without the items that stand for none.
pub open spec fn posts_of(items: Seq<RawItemView>) -> Seq<TweetView> {
    items.filter_map(|i: RawItemView| post_of(i))
}

/// What a look at a feed yields, in posts.
pub open spec fn update(items: Seq<RawItemView>, watermark: Seq<char>) -> Result<
    UpdateView,
    DetectError,
> {
    match detection(items, watermark) {
        Ok(d) => Ok(UpdateView { tweets: posts_of(d.new_items), watermark: d.watermark }),
        Err(e) => Err(e),
    }
}

/// `fresh_count` is the index of the first item that bears the watermark, or the
/// number of items where none does.
pub proof fn lemma_fresh_count(items: Seq<RawItemView>, watermark: Seq<char>)
    ensures
        fresh_count(items, watermark) <= items.len(),
        forall|j: int| 0 <= j < fresh_count(items, watermark) ==> !bears(#[trigger] items[j], watermark),
        fresh_count(items, watermark) < items.len() ==> bears(
            items[fresh_count(items, watermark) as int],
            watermark,
        ),
    decreases items.len(),
{
    if items.len() == 0 || bears(items[0], watermark) {
    } else {
        let rest = items.skip(1);
        lemma_fresh_count(rest, watermark);
        assert forall|j: int| 0 <= j < fresh_count(items, watermark) implies !bears(
            #[trigger] items[j],
            watermark,
        ) by {
            if j > 0 {
                assert(items[j] == rest[j - 1]);
            }
        }
    }
}

/// The publication token of the newest item.
pub fn last_update(items: &Vec<RawItem>) -> (r: Result<String, DetectError>)
    ensures
        match r {
            Ok(token) => newest_token(items.deep_view()) == Ok::<Seq<char>, DetectError>(token@),
            Err(e) => newest_token(items.deep_view()) == Err::<Seq<char>, DetectError>(e),
        },
{
    if items.len() == 0 {
        return Err(DetectError::NoItem);
    }
    match &items[0].pub_date {
        Some(token) => Ok(token.clone()),
        None => Err(DetectError::MissingPublishDate),
    }
}

/// Whether `item` bears the token `watermark`.
pub fn bears_token(item: &RawItem, watermark: &str) -> (r: bool)
    ensures
        r == bears(item@, watermark@),
{
    match &item.pub_date {
        Some(token) => same_text(token.as_str(), watermark),
        None => false,
    }
}

/// How many items stand before the first one that bears `watermark`.
pub fn count_fresh(items: &Vec<RawItem>, watermark: &str) -> (r: usize)
    ensures
        r == fresh_count(items.deep_view(), watermark@),
        r <= items.len(),
{
    let mut i: usize = 0;
    assert(items.deep_view().skip(0) =~= items.deep_view());
    while i < items.len() && !bears_token(&items[i], watermark)
        invariant
            i <= items.len(),
            fresh_count(items.deep_view(), watermark@) == i + fresh_count(
                items.deep_view().skip(i as int),
                watermark@,
            ),
        decreases items.len() - i,
    {
        assert(items.deep_view().skip(i as int).skip(1) =~= items.deep_view().skip(i + 1));
        i += 1;
    }
    i
}

/// The first `count` items, in reverse order.
fn reversed_prefix(items: &Vec<RawItem>, count: usize) -> (r: Vec<RawItem>)
    requires
        count <= items.len(),
    ensures
        r.deep_view() == items.deep_view().take(count as int).reverse(),
{
    let mut out: Vec<RawItem> = Vec::new();
    let mut k: usize = 0;
    let ghost taken = items.deep_view().take(count as int);
    while k < count
        invariant
            k <= count <= items.len(),
            taken == items.deep_view().take(count as int),
            out.deep_view() =~= taken.reverse().take(k as int),
        decreases count - k,
    {
        let ghost before = out.deep_view();
        let item = items[count - 1 - k].clone();
        out.push(item);
        proof {
            assert(out.deep_view() =~= before.push(item@));
            assert(taken[count - 1 - k] == items@[count - 1 - k]@);
            assert(taken.reverse()[k as int] == taken[count - 1 - k]);
            assert(taken.reverse().take(k + 1) =~= taken.reverse().take(k as int).push(item@));
        }
        k += 1;
    }
    out
}

/// Looks at a feed: `items` are its items, newest first, and `watermark` is the
/// token that the last look left. Gives the new items, oldest first, and the next
/// watermark, which is the token of the newest item.
pub fn detect_changes(items: &Vec<RawItem>, watermark: &str) -> (r: Result<Detection, DetectError>)
    ensures
        match r {
            Ok(d) => detection(items.deep_view(), watermark@) == Ok::<DetectionView, DetectError>(d@),
            Err(e) => detection(items.deep_view(), watermark@) == Err::<DetectionView, DetectError>(
                e,
            ),
        },
{
    match last_update(items) {
        Err(e) => Err(e),
        Ok(token) => {
            if same_text(token.as_str(), watermark) {
                Err(DetectError::NoUpdate)
            } else if token.as_str().is_empty() {
                Err(DetectError::EmptyPublishDate)
            } else {
                let new_items = if watermark.is_empty() {
                    let none: Vec<RawItem> = Vec::new();
                    assert(none.deep_view() =~= Seq::empty());
                    none
                } else {
                    let count = count_fresh(items, watermark);
                    reversed_prefix(items, count)
                };
                Ok(Detection { new_items, watermark: token })
            }
        },
    }
}

/// The post that `item` stands for: `None` where the item has no link, the link is no
/// address, or its path gives no address on the upstream host.
pub fn extract_post(item: &RawItem) -> (r: Option<Tweet>)
    ensures
        r.deep_view() == post_of(item@),
{
    let link = match &item.link {
        Some(l) => l,
        None => { return None; },
    };
    let nitter_url = match Url::parse(link.as_str()) {
        Ok(u) => u,
        Err(_) => { return None; },
    };
    let twi_url = match nitter_url_to_twi(&nitter_url) {
        Ok(u) => u,
        Err(_) => { return None; },
    };
    let pics = match &item.description {
        Some(d) => fetch_twi_images(d.as_str()),
        None => {
            let none: Vec<Url> = Vec::new();
            assert(none.deep_view() =~= Seq::empty());
            none
        },
    };
    Some(Tweet { twi_url, pics })
}

/// The posts that `items` stand for, in order.
pub fn extract_posts(items: &Vec<RawItem>) -> (r: Vec<Tweet>)
    ensures
        r.deep_view() == posts_of(items.deep_view()),
{
    let mut out: Vec<Tweet> = Vec::new();
    let mut i: usize = 0;
    assert(items.deep_view().take(0) =~= Seq::empty());
    while i < items.len()
        invariant
            i <= items.len(),
            out.deep_view() == posts_of(items.deep_view().take(i as int)),
        decreases items.len() - i,
    {
        let ghost before = out.deep_view();
        proof {
            let next = items.deep_view().take(i + 1);
            assert(next.drop_last() =~= items.deep_view().take(i as int));
            assert(next.last() == items@[i as int]@);
        }
        match extract_post(&items[i]) {
            Some(t) => {
                out.push(t);
                assert(out.deep_view() =~= before + seq![t@]);
            },
            None => {},
        }
        i += 1;
    }
    assert(items.deep_view().take(i as int) =~= items.deep_view());
    out
}

/// The posts of the items that stand before the first one bearing `last_date`, oldest
/// first.
pub fn updated_tweets(items: Vec<RawItem>, last_date: &str) -> (r: Vec<Tweet>)
    ensures
        r.deep_view() == posts_of(fresh_items(items.deep_view(), last_date@)),
{
    let count = count_fresh(&items, last_date);
    let fresh = reversed_prefix(&items, count);
    extract_posts(&fresh)
}

/// Looks at a feed and gives the posts of its new items, oldest first, with the next
/// watermark.
pub fn detect_posts(items: &Vec<RawItem>, watermark: &str) -> (r: Result<Update, DetectError>)
    ensures
        match r {
            Ok(u) => update(items.deep_view(), watermark@) == Ok::<UpdateView, DetectError>(u@),
            Err(e) => update(items.deep_view(), watermark@) == Err::<UpdateView, DetectError>(e),
        },
{
    match detect_changes(items, watermark) {
        Ok(d) => {
            let tweets = extract_posts(&d.new_items);
            Ok(Update { tweets, watermark: d.watermark })
        },
        Err(e) => Err(e),
    }
}

/// The watermark that the store holds after a look: the one that the look yielded,
/// or the one that it held before where the look yielded none.
pub open spec fn watermark_after(items: Seq<RawItemView>, watermark: Seq<char>) -> Seq<char> {
    match detection(items, watermark) {
        Ok(found) => found.watermark,
        Err(_) => watermark,
    }
}

/// Looking twice: on a feed whose newest item bears a token, a second look at the
/// same items, with the watermark that the first look left, finds nothing new. The
/// one token left out is the empty one where the feed has a watermark: it ends
/// every look.
pub proof fn lemma_second_look_no_update(items: Seq<RawItemView>, watermark: Seq<char>)
    requires
        newest_token(items) is Ok,
        newest_token(items)->Ok_0.len() > 0 || watermark.len() == 0,
    ensures
        detection(items, watermark_after(items, watermark)) == Err::<DetectionView, DetectError>(
            DetectError::NoUpdate,
        ),
{
    let token = newest_token(items)->Ok_0;
    if token.len() == 0 {
        assert(token =~= watermark);
    }
}

/// The first look at a feed: with the empty watermark, a feed whose newest item bears
/// a token that is not empty yields no new item, and that token as the watermark.
pub proof fn lemma_first_look_suppressed(items: Seq<RawItemView>, token: Seq<char>)
    requires
        items.len() > 0,
        items[0].pub_date == Some(token),
        token.len() > 0,
    ensures
        detection(items, Seq::empty()) == Ok::<DetectionView, DetectError>(
            DetectionView { new_items: Seq::empty(), watermark: token },
        ),
{
}

/// The watermark only ever moves to the token of the newest item, and only when
/// that token differs from it.
pub proof fn lemma_watermark_moves_to_newest(items: Seq<RawItemView>, watermark: Seq<char>)
    requires
        detection(items, watermark) is Ok,
    ensures
        newest_token(items) == Ok::<Seq<char>, DetectError>(
            detection(items, watermark)->Ok_0.watermark,
        ),
        detection(items, watermark)->Ok_0.watermark != watermark,
{
}

/// The new items are the items before the first one that bears the watermark, the
/// newest of them last; none of them bears the watermark.
pub proof fn lemma_new_items_are_the_prefix(items: Seq<RawItemView>, watermark: Seq<char>)
    requires
        detection(items, watermark) is Ok,
        watermark.len() > 0,
    ensures
        ({
            let fresh = detection(items, watermark)->Ok_0.new_items;
            let n = fresh_count(items, watermark) as int;
            &&& 0 < n <= items.len()
            &&& fresh.len() == n
            &&& forall|j: int| 0 <= j < n ==> #[trigger] fresh[j] == items[n - 1 - j]
            &&& forall|j: int| 0 <= j < n ==> !bears(#[trigger] fresh[j], watermark)
            &&& n < items.len() ==> bears(items[n], watermark)
        }),
{
    lemma_fresh_count(items, watermark);
}

/// Items that stand before an item bearing the watermark, and do not bear it
/// themselves, are exactly the ones that count as new.
pub proof fn lemma_fresh_count_of_added(
    added: Seq<RawItemView>,
    seen: Seq<RawItemView>,
    watermark: Seq<char>,
)
    requires
        seen.len() > 0,
        bears(seen[0], watermark),
        forall|j: int| 0 <= j < added.len() ==> !bears(#[trigger] added[j], watermark),
    ensures
        fresh_count(added + seen, watermark) == added.len(),
    decreases added.len(),
{
    let all = added + seen;
    if added.len() == 0 {
        assert(all[0] == seen[0]);
    } else {
        assert(all[0] == added[0]);
        assert(all.skip(1) =~= added.skip(1) + seen);
        assert forall|j: int| 0 <= j < added.skip(1).len() implies !bears(
            #[trigger] added.skip(1)[j],
            watermark,
        ) by {
            assert(added.skip(1)[j] == added[j + 1]);
        }
        lemma_fresh_count_of_added(added.skip(1), seen, watermark);
    }
}

/// No post twice, and none left out: when a feed has grown by some items since the
/// look that left the watermark, the next look yields exactly the items that were
/// added, oldest first, and leaves the token of the newest of them.
pub proof fn lemma_next_look_yields_what_was_added(
    added: Seq<RawItemView>,
    seen: Seq<RawItemView>,
    watermark: Seq<char>,
)
    requires
        watermark.len() > 0,
        seen.len() > 0,
        bears(seen[0], watermark),
        added.len() > 0,
        added[0].pub_date is Some,
        added[0].pub_date->0.len() > 0,
        forall|j: int| 0 <= j < added.len() ==> !bears(#[trigger] added[j], watermark),
    ensures
        detection(added + seen, watermark) == Ok::<DetectionView, DetectError>(
            DetectionView { new_items: added.reverse(), watermark: added[0].pub_date->0 },
        ),
{
    let all = added + seen;
    lemma_fresh_count_of_added(added, seen, watermark);
    assert(all[0] == added[0]);
    assert(all.take(added.len() as int) =~= added);
}

/// A watermark that is set is never cleared: the watermark that a look yields is
/// not empty, so the store holds a watermark that is not empty after every look
/// that found one there, whatever the look yielded.
pub proof fn lemma_watermark_never_cleared(items: Seq<RawItemView>, watermark: Seq<char>)
    ensures
        detection(items, watermark) is Ok ==> detection(items, watermark)->Ok_0.watermark.len() > 0,
        update(items, watermark) is Ok ==> update(items, watermark)->Ok_0.watermark.len() > 0,
        watermark.len() > 0 ==> watermark_after(items, watermark).len() > 0,
{
}

/// A newest item that bears the watermark, the empty one included, means that
/// nothing is new, whatever the older items hold.
pub proof fn lemma_same_token_no_update(items: Seq<RawItemView>, watermark: Seq<char>)
    requires
        items.len() > 0,
        items[0].pub_date == Some(watermark),
    ensures
        detection(items, watermark) == Err::<DetectionView, DetectError>(DetectError::NoUpdate),
        update(items, watermark) == Err::<UpdateView, DetectError>(DetectError::NoUpdate),
{
}

} // verus!
