//! One look at one feed, from the fetch to the last delivery.
//!
//! A cycle fetches the feed, reads from the store the watermark that the last cycle
//! left, finds what is new, writes the new watermark to the store, reads the
//! channels that are bound to the feed, and only then sends. So a post is never sent
//! twice, though one may be lost when the relay stops between the write and the
//! sending. The first thing that goes wrong ends the cycle; a delivery that fails
//! ends the pass of its channel only.
//!
//! Fetching, the store and the sending are the caller's: it asks the [`Cycle`] what
//! is due, does it, and reports back.

use vstd::prelude::*;
use crate::account::{account_of, url_to_account};
use crate::detect::{detect_posts, last_update, newest_token, update, DetectError, Tweet, TweetView};
use crate::dispatch::{
    all_texts, fan_out, lemma_delivered_moves_on_by_one, lemma_failure_ends_one_pass,
    lemma_fan_out_starts_with_all, DispatchView, Dispatcher, Message, MessageView,
};
use crate::feed::{
    feed_of, get_twi_info, parse_feed, twi_info_of, FeedError, RawItem, RawItemView, TwiInfo,
    TwiInfoView,
};
use crate::registry::{channel_ids, distinct, FeedChannel, LastDate};
use crate::web::{Url, UrlError, UrlView};

verus! {

/// How a cycle ended.
#[derive(Debug, PartialEq, Eq, Structural, Clone, Copy)]
pub enum Outcome {
    /// Every message that was due has been delivered.
    Delivered,
    /// A delivery failed: so many channels did not get all their messages.
    DeliveryFailure(usize),
    /// The feed could not be fetched.
    TransportFailure,
    /// The store could not be read or written.
    StoreFailure,
    /// The feed's address names no account.
    Address(UrlError),
    /// What was fetched cannot be used as a feed.
    Feed(FeedError),
    /// Nothing is to be dispatched.
    Detect(DetectError),
}

/// What a cycle asks for.
#[derive(Debug, PartialEq, Eq)]
pub enum Request {
    /// Fetch the document at this address.
    Fetch(Url),
    /// Read the watermark of this feed from the store.
    LookupWatermark(Url),
    /// Write this watermark of this feed to the store.
    CommitWatermark(Url, String),
    /// Read the channels that are bound to this feed from the store.
    LookupChannels(Url),
    /// Deliver this message.
    Deliver(Message),
    /// Nothing more: the cycle has ended so.
    Stop(Outcome),
}

/// What a [`Request`] holds.
pub enum RequestView {
    Fetch(UrlView),
    LookupWatermark(UrlView),
    CommitWatermark(UrlView, Seq<char>),
    LookupChannels(UrlView),
    Deliver(MessageView),
    Stop(Outcome),
}

impl View for Request {
    type V = RequestView;

    open spec fn view(&self) -> RequestView {
        match self {
            Request::Fetch(url) => RequestView::Fetch(url@),
            Request::LookupWatermark(url) => RequestView::LookupWatermark(url@),
            Request::CommitWatermark(url, watermark) => RequestView::CommitWatermark(
                url@,
                watermark@,
            ),
            Request::LookupChannels(url) => RequestView::LookupChannels(url@),
            Request::Deliver(message) => RequestView::Deliver(message@),
            Request::Stop(outcome) => RequestView::Stop(*outcome),
        }
    }
}

/// What came of a request.
#[derive(Debug, PartialEq, Eq)]
pub enum Reply {
    /// The document was fetched: these are its bytes.
    Fetched(Vec<u8>),
    /// The document could not be fetched.
    FetchFailed,
    /// The store holds this watermark for the feed.
    Watermark(LastDate),
    /// The watermark was written.
    Committed,
    /// The store holds these channels for the feed.
    Channels(Vec<FeedChannel>),
    /// The store could not be read or written.
    StoreFailed,
    /// The message was tried; whether it was delivered.
    Tried(bool),
}

/// What a [`Reply`] holds.
pub enum ReplyView {
    Fetched(Seq<u8>),
    FetchFailed,
    Watermark(Seq<char>),
    Committed,
    Channels(Seq<Seq<char>>),
    StoreFailed,
    Tried(bool),
}

impl View for Reply {
    type V = ReplyView;

    open spec fn view(&self) -> ReplyView {
        match self {
            Reply::Fetched(document) => ReplyView::Fetched(document@),
            Reply::FetchFailed => ReplyView::FetchFailed,
            Reply::Watermark(row) => ReplyView::Watermark(row@),
            Reply::Committed => ReplyView::Committed,
            Reply::Channels(rows) => ReplyView::Channels(rows.deep_view()),
            Reply::StoreFailed => ReplyView::StoreFailed,
            Reply::Tried(delivered) => ReplyView::Tried(*delivered),
        }
    }
}

/// Where a cycle stands, with what it has gathered so far.
#[derive(Debug)]
enum Stage {
    /// The feed is to be fetched.
    Fetching { url: Url, account: String },
    /// The feed was read; the watermark is to be looked up.
    Reading { url: Url, info: TwiInfo, items: Vec<RawItem> },
    /// The new posts are known; the new watermark is to be written.
    Committing { url: Url, info: TwiInfo, tweets: Vec<Tweet>, watermark: String },
    /// The watermark is written; the channels are to be looked up.
    Binding { url: Url, info: TwiInfo, tweets: Vec<Tweet> },
    /// The messages are being sent.
    Dispatching { dispatcher: Dispatcher },
    /// The cycle has ended.
    Finished { outcome: Outcome },
}

/// A cycle, as it proceeds.
#[derive(Debug)]
pub struct Cycle {
    stage: Stage,
}

/// The state of a cycle.
pub enum CycleView {
    Fetching { url: UrlView, account: Seq<char> },
    Reading { url: UrlView, info: TwiInfoView, items: Seq<RawItemView> },
    Committing { url: UrlView, info: TwiInfoView, tweets: Seq<TweetView>, watermark: Seq<char> },
    Binding { url: UrlView, info: TwiInfoView, tweets: Seq<TweetView> },
    Dispatching { dispatcher: DispatchView },
    Finished { outcome: Outcome },
}

impl Stage {
    spec fn view(&self) -> CycleView {
        match self {
            Stage::Fetching { url, account } => CycleView::Fetching {
                url: url@,
                account: account@,
            },
            Stage::Reading { url, info, items } => CycleView::Reading {
                url: url@,
                info: info@,
                items: items.deep_view(),
            },
            Stage::Committing { url, info, tweets, watermark } => CycleView::Committing {
                url: url@,
                info: info@,
                tweets: tweets.deep_view(),
                watermark: watermark@,
            },
            Stage::Binding { url, info, tweets } => CycleView::Binding {
                url: url@,
                info: info@,
                tweets: tweets.deep_view(),
            },
            Stage::Dispatching { dispatcher } => CycleView::Dispatching { dispatcher: dispatcher@ },
            Stage::Finished { outcome } => CycleView::Finished { outcome: *outcome },
        }
    }
}

impl View for Cycle {
    type V = CycleView;

    closed spec fn view(&self) -> CycleView {
        self.stage.view()
    }
}

/// The state in which a cycle for the feed at `url` starts.
pub open spec fn starting(url: UrlView) -> CycleView {
    match account_of(url) {
        Some(account) => CycleView::Fetching { url, account },
        None => CycleView::Finished { outcome: Outcome::Address(UrlError::NoAccount) },
    }
}

/// The state after the document of the feed at `url`, the feed of `account`, was
/// fetched. The cycle ends here where the document is no feed, the feed has no
/// usable image, or it has no item with a publication token at its head.
pub open spec fn read(url: UrlView, account: Seq<char>, document: Seq<u8>) -> CycleView {
    match feed_of(document) {
        Err(e) => CycleView::Finished { outcome: Outcome::Feed(e) },
        Ok(feed) => match twi_info_of(feed, account) {
            Err(e) => CycleView::Finished { outcome: Outcome::Feed(e) },
            Ok(info) => match newest_token(feed.items) {
                Err(e) => CycleView::Finished { outcome: Outcome::Detect(e) },
                Ok(_) => CycleView::Reading { url, info, items: feed.items },
            },
        },
    }
}

/// The state after the watermark of the feed was looked up. The cycle ends here
/// where nothing was published since that watermark was written.
pub open spec fn detected(
    url: UrlView,
    info: TwiInfoView,
    items: Seq<RawItemView>,
    watermark: Seq<char>,
) -> CycleView {
    match update(items, watermark) {
        Err(e) => CycleView::Finished { outcome: Outcome::Detect(e) },
        Ok(found) => CycleView::Committing {
            url,
            info,
            tweets: found.tweets,
            watermark: found.watermark,
        },
    }
}

/// How a fan-out that is through has ended.
pub open spec fn outcome_of(dispatcher: DispatchView) -> Outcome {
    if dispatcher.failed > 0 {
        Outcome::DeliveryFailure(dispatcher.failed as usize)
    } else {
        Outcome::Delivered
    }
}

/// The state of a cycle whose fan-out stands at `dispatcher`.
pub open spec fn sending(dispatcher: DispatchView) -> CycleView {
    if dispatcher.done() {
        CycleView::Finished { outcome: outcome_of(dispatcher) }
    } else {
        CycleView::Dispatching { dispatcher }
    }
}

impl CycleView {
    /// What holds of every state that a cycle reaches: the feed that was read has a
    /// token at its head, the watermark that is to be written is not empty, and a
    /// fan-out that is under way has a message due.
    pub open spec fn wf(self) -> bool {
        match self {
            CycleView::Reading { items, .. } => newest_token(items) is Ok,
            CycleView::Committing { watermark, .. } => watermark.len() > 0,
            CycleView::Dispatching { dispatcher } => dispatcher.wf() && !dispatcher.done(),
            _ => true,
        }
    }

    /// What the cycle asks for.
    pub open spec fn request(self) -> RequestView {
        match self {
            CycleView::Fetching { url, .. } => RequestView::Fetch(url),
            CycleView::Reading { url, .. } => RequestView::LookupWatermark(url),
            CycleView::Committing { url, watermark, .. } => RequestView::CommitWatermark(
                url,
                watermark,
            ),
            CycleView::Binding { url, .. } => RequestView::LookupChannels(url),
            CycleView::Dispatching { dispatcher } => match dispatcher.pending() {
                Some(message) => RequestView::Deliver(message),
                None => RequestView::Stop(outcome_of(dispatcher)),
            },
            CycleView::Finished { outcome } => RequestView::Stop(outcome),
        }
    }

    /// The state after `reply`. A reply that does not answer the request changes
    /// nothing.
    pub open spec fn advance(self, reply: ReplyView) -> CycleView {
        match (self, reply) {
            (CycleView::Fetching { url, account }, ReplyView::Fetched(document)) => read(
                url,
                account,
                document,
            ),
            (CycleView::Fetching { .. }, ReplyView::FetchFailed) => CycleView::Finished {
                outcome: Outcome::TransportFailure,
            },
            (CycleView::Reading { url, info, items }, ReplyView::Watermark(watermark)) => detected(
                url,
                info,
                items,
                watermark,
            ),
            (CycleView::Reading { .. }, ReplyView::StoreFailed) => CycleView::Finished {
                outcome: Outcome::StoreFailure,
            },
            (CycleView::Committing { url, info, tweets, .. }, ReplyView::Committed) => {
                CycleView::Binding { url, info, tweets }
            },
            (CycleView::Committing { .. }, ReplyView::StoreFailed) => CycleView::Finished {
                outcome: Outcome::StoreFailure,
            },
            (CycleView::Binding { info, tweets, .. }, ReplyView::Channels(rows)) => sending(
                fan_out(
                    distinct(rows),
                    all_texts(tweets, info),
                    info.display_name,
                    info.icon_url.text,
                ),
            ),
            (CycleView::Binding { .. }, ReplyView::StoreFailed) => CycleView::Finished {
                outcome: Outcome::StoreFailure,
            },
            (CycleView::Dispatching { dispatcher }, ReplyView::Tried(delivered)) => sending(
                dispatcher.record(delivered),
            ),
            _ => self,
        }
    }

    /// Whether the cycle has come to the point where messages go out.
    pub open spec fn is_sending(self) -> bool {
        self is Dispatching
    }

    /// Whether the new watermark is in the store.
    pub open spec fn has_committed(self) -> bool {
        self is Binding || self is Dispatching
    }
}

impl Cycle {
    #[verifier::type_invariant]
    spec fn inv(&self) -> bool {
        self@.wf()
    }

    /// Starts a cycle for the feed at `url`.
    pub fn start(url: Url) -> (r: Cycle)
        ensures
            r@ == starting(url@),
            r@.wf(),
    {
        let account = match url_to_account(&url) {
            Ok(a) => a.to_owned(),
            Err(e) => { return Cycle { stage: Stage::Finished { outcome: Outcome::Address(e) } }; },
        };
        Cycle { stage: Stage::Fetching { url, account } }
    }

    /// Whether the cycle has ended, and how.
    pub fn outcome(&self) -> (r: Option<Outcome>)
        ensures
            r == match self@ {
                CycleView::Finished { outcome } => Some(outcome),
                _ => None,
            },
    {
        match &self.stage {
            Stage::Finished { outcome } => Some(*outcome),
            _ => None,
        }
    }

    /// What the cycle asks for. A watermark that it asks to be written is never
    /// empty.
    pub fn request(&self) -> (r: Request)
        ensures
            r@ == self@.request(),
            self@.wf(),
            r matches Request::CommitWatermark(_, watermark) ==> watermark@.len() > 0,
    {
        proof {
            use_type_invariant(self);
        }
        match &self.stage {
            Stage::Fetching { url, .. } => Request::Fetch(url.clone()),
            Stage::Reading { url, .. } => Request::LookupWatermark(url.clone()),
            Stage::Committing { url, watermark, .. } => Request::CommitWatermark(
                url.clone(),
                watermark.clone(),
            ),
            Stage::Binding { url, .. } => Request::LookupChannels(url.clone()),
            Stage::Dispatching { dispatcher } => match dispatcher.next() {
                Some(message) => Request::Deliver(message),
                None => Request::Stop(Outcome::Delivered),
            },
            Stage::Finished { outcome } => Request::Stop(*outcome),
        }
    }

    /// Takes note of what came of the request, and moves on.
    pub fn advance(self, reply: Reply) -> (r: Cycle)
        ensures
            r@ == self@.advance(reply@),
            r@.wf(),
    {
        proof {
            use_type_invariant(&self);
            lemma_advance_keeps_wf(self@, reply@);
        }
        match self.stage {
            Stage::Fetching { url, account } => match reply {
                Reply::Fetched(document) => Cycle::read(url, account, document),
                Reply::FetchFailed => Cycle::finished(Outcome::TransportFailure),
                _ => Cycle { stage: Stage::Fetching { url, account } },
            },
            Stage::Reading { url, info, items } => match reply {
                Reply::Watermark(row) => match detect_posts(&items, row.date.as_str()) {
                    Err(e) => Cycle::finished(Outcome::Detect(e)),
                    Ok(found) => Cycle {
                        stage: Stage::Committing {
                            url,
                            info,
                            tweets: found.tweets,
                            watermark: found.watermark,
                        },
                    },
                },
                Reply::StoreFailed => Cycle::finished(Outcome::StoreFailure),
                _ => Cycle { stage: Stage::Reading { url, info, items } },
            },
            Stage::Committing { url, info, tweets, watermark } => match reply {
                Reply::Committed => Cycle { stage: Stage::Binding { url, info, tweets } },
                Reply::StoreFailed => Cycle::finished(Outcome::StoreFailure),
                _ => Cycle { stage: Stage::Committing { url, info, tweets, watermark } },
            },
            Stage::Binding { url, info, tweets } => match reply {
                Reply::Channels(rows) => {
                    let channels = channel_ids(&rows);
                    Cycle::send(Dispatcher::new(channels, &tweets, &info))
                },
                Reply::StoreFailed => Cycle::finished(Outcome::StoreFailure),
                _ => Cycle { stage: Stage::Binding { url, info, tweets } },
            },
            Stage::Dispatching { dispatcher } => match reply {
                Reply::Tried(delivered) => {
                    let mut dispatcher = dispatcher;
                    dispatcher.record(delivered);
                    Cycle::send(dispatcher)
                },
                _ => Cycle { stage: Stage::Dispatching { dispatcher } },
            },
            Stage::Finished { outcome } => Cycle::finished(outcome),
        }
    }

    /// A cycle that has ended with `outcome`.
    fn finished(outcome: Outcome) -> (r: Cycle)
        ensures
            r@ == (CycleView::Finished { outcome }),
    {
        Cycle { stage: Stage::Finished { outcome } }
    }

    /// The state of a cycle whose fan-out stands at `dispatcher`.
    fn send(dispatcher: Dispatcher) -> (r: Cycle)
        ensures
            r@ == sending(dispatcher@),
    {
        if dispatcher.is_done() {
            let failed = dispatcher.failed();
            if failed > 0 {
                Cycle::finished(Outcome::DeliveryFailure(failed))
            } else {
                Cycle::finished(Outcome::Delivered)
            }
        } else {
            Cycle { stage: Stage::Dispatching { dispatcher } }
        }
    }

    /// The state after the document of the feed was fetched.
    fn read(url: Url, account: String, document: Vec<u8>) -> (r: Cycle)
        ensures
            r@ == read(url@, account@, document@),
    {
        let feed = match parse_feed(document.as_slice()) {
            Ok(f) => f,
            Err(e) => { return Cycle::finished(Outcome::Feed(e)); },
        };
        let info = match get_twi_info(&feed, account) {
            Ok(i) => i,
            Err(e) => { return Cycle::finished(Outcome::Feed(e)); },
        };
        match last_update(&feed.items) {
            Ok(_) => Cycle { stage: Stage::Reading { url, info, items: feed.items } },
            Err(e) => Cycle::finished(Outcome::Detect(e)),
        }
    }
}

/// Every state that a cycle reaches is well formed: it starts so, and every reply
/// keeps it so.
pub proof fn lemma_advance_keeps_wf(state: CycleView, reply: ReplyView)
    requires
        state.wf(),
    ensures
        state.advance(reply).wf(),
{
    match (state, reply) {
        (CycleView::Binding { info, tweets, .. }, ReplyView::Channels(rows)) => {
            lemma_fan_out_starts_with_all(
                distinct(rows),
                all_texts(tweets, info),
                info.display_name,
                info.icon_url.text,
            );
        },
        (CycleView::Dispatching { dispatcher }, ReplyView::Tried(delivered)) => {
            if delivered {
                lemma_delivered_moves_on_by_one(dispatcher);
            } else {
                lemma_failure_ends_one_pass(dispatcher);
            }
        },
        _ => {},
    }
}

/// A cycle starts well formed.
pub proof fn lemma_starting_is_wf(url: UrlView)
    ensures
        starting(url).wf(),
{
}

/// A set watermark is never cleared: no cycle asks for an empty watermark to be
/// written, in whatever state it is and whatever was reported to it.
pub proof fn lemma_commit_is_never_empty(state: CycleView, reply: ReplyView)
    requires
        state.wf(),
    ensures
        state.request() matches RequestView::CommitWatermark(_, watermark) ==> watermark.len() > 0,
        state.advance(reply).request() matches RequestView::CommitWatermark(_, watermark)
            ==> watermark.len() > 0,
{
    lemma_advance_keeps_wf(state, reply);
}

/// Nothing is sent before the new watermark is in the store: a cycle comes to
/// sending only from the lookup of the channels, and to that lookup only when the
/// store has taken the watermark.
pub proof fn lemma_commit_comes_before_sending(state: CycleView, reply: ReplyView)
    ensures
        state.advance(reply).is_sending() ==> state.has_committed(),
        state.advance(reply).has_committed() && !state.has_committed() ==> state is Committing
            && reply is Committed,
        state.advance(reply).request() is Deliver ==> state.has_committed(),
{
}

/// The watermark that a cycle writes is the token of the newest item of the feed
/// that it fetched, and differs from the one that the store held.
pub proof fn lemma_committed_watermark_is_newest(
    url: UrlView,
    info: TwiInfoView,
    items: Seq<RawItemView>,
    watermark: Seq<char>,
)
    requires
        detected(url, info, items, watermark) is Committing,
    ensures
        newest_token(items) == Ok::<Seq<char>, DetectError>(
            detected(url, info, items, watermark)->Committing_watermark,
        ),
        detected(url, info, items, watermark)->Committing_watermark != watermark,
        detected(url, info, items, watermark).request() == RequestView::CommitWatermark(
            url,
            detected(url, info, items, watermark)->Committing_watermark,
        ),
{
}

/// A cycle that has ended stays as it is, whatever is reported to it.
pub proof fn lemma_finished_stays(state: CycleView, reply: ReplyView)
    requires
        state is Finished,
    ensures
        state.advance(reply) == state,
        state.request() is Stop,
{
}

/// A failure of the store or of the fetch ends the cycle at once, and no message
/// goes out after it.
pub proof fn lemma_failure_ends_the_cycle(state: CycleView)
    requires
        !(state is Finished),
        !(state is Dispatching),
    ensures
        state is Fetching ==> state.advance(ReplyView::FetchFailed) == (CycleView::Finished {
            outcome: Outcome::TransportFailure,
        }),
        !(state is Fetching) ==> state.advance(ReplyView::StoreFailed) == (CycleView::Finished {
            outcome: Outcome::StoreFailure,
        }),
{
}

} // verus!
