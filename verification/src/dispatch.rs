//! What is sent for the new posts of a feed, to whom, and in what order.
//!
//! A post gives one message with its address, framed where the post is a retweet,
//! and one message more for each of its media but the first, which the address
//! already previews. Every channel gets the messages of all the posts, oldest post
//! first, under the feed's name and picture. The channels are served one after the
//! other. A delivery that fails ends the pass of its channel, and of that channel
//! only.

use vstd::prelude::*;
use crate::account::{is_retweet, retweeted};
use crate::detect::{Tweet, TweetView};
use crate::feed::{TwiInfo, TwiInfoView};
use crate::text::appended;
use crate::web::{UrlError, UrlView};

verus! {

/// What stands between a retweet's address and its framing.
pub const RETWEET_BREAK: &'static str = "\n";

/// What follows the display name in the framing of a retweet.
pub const RETWEET_SUFFIX: &'static str = " retweeted:";

/// One message for one channel.
#[derive(Debug, PartialEq, Eq)]
pub struct Message {
    /// The channel that the message goes to.
    pub channel: String,
    /// What the message says.
    pub text: String,
    /// The name under which it is shown.
    pub username: String,
    /// The address of the picture under which it is shown.
    pub icon_url: String,
}

/// What a [`Message`] holds.
pub struct MessageView {
    pub channel: Seq<char>,
    pub text: Seq<char>,
    pub username: Seq<char>,
    pub icon_url: Seq<char>,
}

impl View for Message {
    type V = MessageView;

    open spec fn view(&self) -> MessageView {
        MessageView {
            channel: self.channel@,
            text: self.text@,
            username: self.username@,
            icon_url: self.icon_url@,
        }
    }
}

impl DeepView for Message {
    type V = MessageView;

    open spec fn deep_view(&self) -> MessageView {
        self@
    }
}

/// The text of a retweet: the post's address, and on a line of its own who
/// retweeted it.
pub open spec fn retweet_framing(address: Seq<char>, display_name: Seq<char>) -> Seq<char> {
    address + RETWEET_BREAK@ + display_name + RETWEET_SUFFIX@
}

/// The text of the message that shows `tweet` in the feed that `info` describes: the
/// post's address, framed where the post was written by another account.
pub open spec fn primary_text(tweet: TweetView, info: TwiInfoView) -> Seq<char> {
    if retweeted(tweet.twi_url, info.account) {
        retweet_framing(tweet.twi_url.text, info.display_name)
    } else {
        tweet.twi_url.text
    }
}

/// The texts of the messages that show the media of a post: the address of each but
/// the first.
pub open spec fn media_texts(pics: Seq<UrlView>) -> Seq<Seq<char>> {
    if pics.len() <= 1 {
        Seq::empty()
    } else {
        Seq::new((pics.len() - 1) as nat, |i: int| pics[i + 1].text)
    }
}

/// The texts of the messages that show `tweet`: its primary text, then its media.
pub open spec fn tweet_texts(tweet: TweetView, info: TwiInfoView) -> Seq<Seq<char>> {
    seq![primary_text(tweet, info)] + media_texts(tweet.pics)
}

/// The texts of the messages that show `tweets`, post after post.
pub open spec fn all_texts(tweets: Seq<TweetView>, info: TwiInfoView) -> Seq<Seq<char>>
    decreases tweets.len(),
{
    if tweets.len() == 0 {
        Seq::empty()
    } else {
        all_texts(tweets.drop_last(), info) + tweet_texts(tweets.last(), info)
    }
}

/// The message that says `text` to `channel` under the given name and picture.
pub open spec fn message_to(
    channel: Seq<char>,
    text: Seq<char>,
    username: Seq<char>,
    icon_url: Seq<char>,
) -> MessageView {
    MessageView { channel, text, username, icon_url }
}

/// The messages of one channel's pass: one for each text, in order.
pub open spec fn channel_messages(
    channel: Seq<char>,
    texts: Seq<Seq<char>>,
    username: Seq<char>,
    icon_url: Seq<char>,
) -> Seq<MessageView> {
    Seq::new(texts.len(), |i: int| message_to(channel, texts[i], username, icon_url))
}

/// The messages of a whole fan-out: the pass of the first channel, then that of the
/// second, and so on.
pub open spec fn deliveries(
    channels: Seq<Seq<char>>,
    texts: Seq<Seq<char>>,
    username: Seq<char>,
    icon_url: Seq<char>,
) -> Seq<MessageView>
    decreases channels.len(),
{
    if channels.len() == 0 {
        Seq::empty()
    } else {
        channel_messages(channels.first(), texts, username, icon_url) + deliveries(
            channels.drop_first(),
            texts,
            username,
            icon_url,
        )
    }
}

/// The text of a retweet of `tweet` in the feed of `account`, shown as
/// `display_name`. The account does not show in the text, and the text can always be
/// made.
pub fn retweet_text(tweet: &Tweet, account: &str, display_name: &str) -> (r: Result<
    String,
    UrlError,
>)
    ensures
        r is Ok,
        r->Ok_0@ == retweet_framing(tweet@.twi_url.text, display_name@),
{
    let first = appended(tweet.twi_url.as_str(), RETWEET_BREAK);
    let named = appended(first.as_str(), display_name);
    Ok(appended(named.as_str(), RETWEET_SUFFIX))
}

/// The text of the message that shows `tweet` in the feed that `info` describes.
pub fn tweet_text(tweet: &Tweet, info: &TwiInfo) -> (r: String)
    ensures
        r@ == primary_text(tweet@, info@),
{
    if is_retweet(&tweet.twi_url, info.account.as_str()) {
        match retweet_text(tweet, info.account.as_str(), info.display_name.as_str()) {
            Ok(text) => text,
            Err(_) => tweet.twi_url.to_string(),
        }
    } else {
        tweet.twi_url.to_string()
    }
}

/// The texts of the messages that show the media of `tweet`: the address of each but
/// the first.
pub fn tweet_imgs_contents(tweet: &Tweet) -> (r: Vec<String>)
    ensures
        r.deep_view() == media_texts(tweet@.pics),
{
    let mut out: Vec<String> = Vec::new();
    let mut i: usize = 1;
    while i < tweet.pics.len()
        invariant
            1 <= i,
            i <= tweet.pics.len() || (tweet.pics.len() == 0 && i == 1),
            out.len() == i - 1,
            forall|j: int| 0 <= j < i - 1 ==> (#[trigger] out@[j])@ == tweet.pics@[j + 1]@.text,
        decreases tweet.pics.len() - i,
    {
        out.push(tweet.pics[i].to_string());
        i += 1;
    }
    proof {
        let want = media_texts(tweet@.pics);
        assert(out.deep_view().len() == want.len());
        assert forall|j: int| 0 <= j < want.len() implies out.deep_view()[j] == want[j] by {
            assert(out.deep_view()[j] == out@[j]@);
            assert(tweet@.pics[j + 1] == tweet.pics@[j + 1]@);
        }
        assert(out.deep_view() =~= want);
    }
    out
}

/// The texts of the messages that show `tweets` in the feed that `info` describes:
/// for each post its primary text, then its media.
pub fn tweets_contents(tweets: &Vec<Tweet>, info: &TwiInfo) -> (r: Vec<String>)
    ensures
        r.deep_view() == all_texts(tweets.deep_view(), info@),
{
    let mut out: Vec<String> = Vec::new();
    let mut i: usize = 0;
    assert(tweets.deep_view().take(0) =~= Seq::empty());
    assert(out.deep_view() =~= Seq::empty());
    while i < tweets.len()
        invariant
            i <= tweets.len(),
            out.deep_view() == all_texts(tweets.deep_view().take(i as int), info@),
        decreases tweets.len() - i,
    {
        let ghost before = out.deep_view();
        proof {
            let next = tweets.deep_view().take(i + 1);
            assert(next.drop_last() =~= tweets.deep_view().take(i as int));
            assert(next.last() == tweets@[i as int]@);
        }
        let text = tweet_text(&tweets[i], info);
        let mut media = tweet_imgs_contents(&tweets[i]);
        let ghost extra = media.deep_view();
        out.push(text);
        out.append(&mut media);
        assert(out.deep_view() =~= before + (seq![text@] + extra));
        i += 1;
    }
    assert(tweets.deep_view().take(i as int) =~= tweets.deep_view());
    out
}

/// The fan-out of one feed's new posts, as it proceeds: which message is due, and
/// where to go on once it is known whether that message was delivered.
#[derive(Debug)]
pub struct Dispatcher {
    channels: Vec<String>,
    texts: Vec<String>,
    username: String,
    icon_url: String,
    channel: usize,
    text: usize,
    failed: usize,
}

/// The state of a fan-out.
pub struct DispatchView {
    /// The channels, in the order in which they are served.
    pub channels: Seq<Seq<char>>,
    /// The texts that every channel gets, in order.
    pub texts: Seq<Seq<char>>,
    /// The name under which the messages are shown.
    pub username: Seq<char>,
    /// The address of the picture under which they are shown.
    pub icon_url: Seq<char>,
    /// The index of the channel that is being served; the number of channels once
    /// all are through.
    pub channel: nat,
    /// The index of the text that is due in the pass of that channel.
    pub text: nat,
    /// How many passes a failed delivery has ended.
    pub failed: nat,
}

impl DispatchView {
    /// What holds of every state that a fan-out reaches.
    pub open spec fn wf(self) -> bool {
        &&& self.channel <= self.channels.len()
        &&& self.failed <= self.channel
        &&& self.channel < self.channels.len() ==> self.text < self.texts.len()
        &&& self.channel == self.channels.len() ==> self.text == 0
    }

    /// Whether every channel is through.
    pub open spec fn done(self) -> bool {
        self.channel >= self.channels.len()
    }

    /// The message that is due, if any.
    pub open spec fn pending(self) -> Option<MessageView> {
        if self.done() {
            None
        } else {
            Some(
                message_to(
                    self.channels[self.channel as int],
                    self.texts[self.text as int],
                    self.username,
                    self.icon_url,
                ),
            )
        }
    }

    /// The messages that are still to go out if every delivery from here on
    /// succeeds: the rest of the pass of the channel being served, then the whole
    /// passes of the channels after it.
    pub open spec fn remaining(self) -> Seq<MessageView> {
        if self.done() {
            Seq::empty()
        } else {
            channel_messages(
                self.channels[self.channel as int],
                self.texts,
                self.username,
                self.icon_url,
            ).skip(self.text as int) + deliveries(
                self.channels.skip(self.channel as int + 1),
                self.texts,
                self.username,
                self.icon_url,
            )
        }
    }

    /// The state at the start of the next channel's pass.
    pub open spec fn next_channel(self) -> DispatchView {
        DispatchView { channel: self.channel + 1, text: 0, ..self }
    }

    /// The state after the message that was due has been tried. Delivered, the
    /// next text of the pass is due, or the next channel's pass begins where that
    /// was the last one. Failed, the pass of the channel ends and the next
    /// channel's pass begins.
    pub open spec fn record(self, delivered: bool) -> DispatchView {
        if self.done() {
            self
        } else if !delivered {
            DispatchView { failed: self.failed + 1, ..self.next_channel() }
        } else if self.text + 1 < self.texts.len() {
            DispatchView { text: self.text + 1, ..self }
        } else {
            self.next_channel()
        }
    }
}

/// The state in which a fan-out starts. Without any text there is nothing to send,
/// and every channel is through at once.
pub open spec fn fan_out(
    channels: Seq<Seq<char>>,
    texts: Seq<Seq<char>>,
    username: Seq<char>,
    icon_url: Seq<char>,
) -> DispatchView {
    DispatchView {
        channels,
        texts,
        username,
        icon_url,
        channel: if texts.len() == 0 {
            channels.len()
        } else {
            0
        },
        text: 0,
        failed: 0,
    }
}

impl View for Dispatcher {
    type V = DispatchView;

    closed spec fn view(&self) -> DispatchView {
        DispatchView {
            channels: self.channels.deep_view(),
            texts: self.texts.deep_view(),
            username: self.username@,
            icon_url: self.icon_url@,
            channel: self.channel as nat,
            text: self.text as nat,
            failed: self.failed as nat,
        }
    }
}

impl Dispatcher {
    #[verifier::type_invariant]
    spec fn inv(&self) -> bool {
        self@.wf()
    }

    /// Starts the fan-out of `tweets`, the new posts of the feed that `info`
    /// describes, oldest first, to `channels`.
    pub fn new(channels: Vec<String>, tweets: &Vec<Tweet>, info: &TwiInfo) -> (r: Self)
        ensures
            r@ == fan_out(
                channels.deep_view(),
                all_texts(tweets.deep_view(), info@),
                info@.display_name,
                info@.icon_url.text,
            ),
            r@.wf(),
    {
        let texts = tweets_contents(tweets, info);
        let channel = if texts.len() == 0 {
            channels.len()
        } else {
            0
        };
        Dispatcher {
            channels,
            texts,
            username: info.display_name.clone(),
            icon_url: info.icon_url.to_string(),
            channel,
            text: 0,
            failed: 0,
        }
    }

    /// Whether every channel is through.
    pub fn is_done(&self) -> (r: bool)
        ensures
            r == self@.done(),
            self@.wf(),
    {
        proof {
            use_type_invariant(self);
        }
        self.channel >= self.channels.len()
    }

    /// How many passes a failed delivery has ended so far.
    pub fn failed(&self) -> (r: usize)
        ensures
            r == self@.failed,
            self@.wf(),
    {
        proof {
            use_type_invariant(self);
        }
        self.failed
    }

    /// The message that is due; `None` once every channel is through.
    pub fn next(&self) -> (r: Option<Message>)
        ensures
            r.deep_view() == self@.pending(),
            self@.wf(),
    {
        proof {
            use_type_invariant(self);
        }
        if self.channel >= self.channels.len() {
            None
        } else {
            Some(
                Message {
                    channel: self.channels[self.channel].clone(),
                    text: self.texts[self.text].clone(),
                    username: self.username.clone(),
                    icon_url: self.icon_url.clone(),
                },
            )
        }
    }

    /// Takes note of whether the message that was due has been delivered, and moves
    /// on. Once every channel is through, nothing changes any more.
    pub fn record(&mut self, delivered: bool)
        ensures
            final(self)@ == old(self)@.record(delivered),
            final(self)@.wf(),
    {
        proof {
            use_type_invariant(&*self);
            assert(self.texts.deep_view().len() == self.texts.len());
        }
        if self.channel >= self.channels.len() {
        } else if !delivered {
            self.text = 0;
            self.channel = self.channel + 1;
            self.failed = self.failed + 1;
        } else if self.text + 1 < self.texts.len() {
            self.text = self.text + 1;
        } else {
            self.text = 0;
            self.channel = self.channel + 1;
        }
    }
}

/// A fan-out starts with every message of every channel still to go out, the first
/// channel's pass first, and each pass in the order of the texts.
pub proof fn lemma_fan_out_starts_with_all(
    channels: Seq<Seq<char>>,
    texts: Seq<Seq<char>>,
    username: Seq<char>,
    icon_url: Seq<char>,
)
    ensures
        fan_out(channels, texts, username, icon_url).wf(),
        fan_out(channels, texts, username, icon_url).remaining() == deliveries(
            channels,
            texts,
            username,
            icon_url,
        ),
{
    let start = fan_out(channels, texts, username, icon_url);
    if texts.len() == 0 {
        lemma_nothing_to_deliver(channels, texts, username, icon_url);
    } else if channels.len() > 0 {
        assert(channels.skip(1) =~= channels.drop_first());
        assert(channel_messages(channels[0], texts, username, icon_url).skip(0)
            =~= channel_messages(channels.first(), texts, username, icon_url));
    }
}

/// Without any text no channel gets a message.
pub proof fn lemma_nothing_to_deliver(
    channels: Seq<Seq<char>>,
    texts: Seq<Seq<char>>,
    username: Seq<char>,
    icon_url: Seq<char>,
)
    requires
        texts.len() == 0,
    ensures
        deliveries(channels, texts, username, icon_url) == Seq::<MessageView>::empty(),
    decreases channels.len(),
{
    if channels.len() > 0 {
        lemma_nothing_to_deliver(channels.drop_first(), texts, username, icon_url);
        assert(channel_messages(channels.first(), texts, username, icon_url) =~= Seq::empty());
        assert(deliveries(channels, texts, username, icon_url) =~= Seq::empty());
    }
}

/// The message that is due is the first of those that are still to go out, and none
/// is due exactly when none is left.
pub proof fn lemma_pending_is_first_remaining(state: DispatchView)
    requires
        state.wf(),
    ensures
        state.pending() is None <==> state.remaining().len() == 0,
        state.pending() is Some ==> state.pending() == Some(state.remaining()[0]),
{
}

/// A delivery that succeeds takes the delivered message off those that are still to
/// go out, and nothing else.
pub proof fn lemma_delivered_moves_on_by_one(state: DispatchView)
    requires
        state.wf(),
        !state.done(),
    ensures
        state.record(true).wf(),
        state.record(true).remaining() == state.remaining().skip(1),
        state.record(true).failed == state.failed,
{
    let after = state.record(true);
    let pass = channel_messages(
        state.channels[state.channel as int],
        state.texts,
        state.username,
        state.icon_url,
    );
    let later = deliveries(
        state.channels.skip(state.channel as int + 1),
        state.texts,
        state.username,
        state.icon_url,
    );
    if state.text + 1 < state.texts.len() {
        assert(after.remaining() =~= state.remaining().skip(1));
    } else {
        assert((pass.skip(state.text as int) + later).skip(1) =~= later);
        lemma_pass_begins(after);
    }
}

/// A delivery that fails ends the pass of its channel: the rest of that pass is
/// given up, and what is still to go out is exactly the whole passes of the
/// channels after it.
pub proof fn lemma_failure_ends_one_pass(state: DispatchView)
    requires
        state.wf(),
        !state.done(),
    ensures
        state.record(false).wf(),
        state.record(false).remaining() == deliveries(
            state.channels.skip(state.channel as int + 1),
            state.texts,
            state.username,
            state.icon_url,
        ),
        state.record(false).failed == state.failed + 1,
{
    lemma_pass_begins(state.record(false));
}

/// At the start of a channel's pass, the whole passes of that channel and of those
/// after it are still to go out.
proof fn lemma_pass_begins(state: DispatchView)
    requires
        state.channel <= state.channels.len(),
        state.text == 0,
    ensures
        state.remaining() == deliveries(
            state.channels.skip(state.channel as int),
            state.texts,
            state.username,
            state.icon_url,
        ),
{
    let rest = state.channels.skip(state.channel as int);
    if state.done() {
        assert(rest =~= Seq::empty());
    } else {
        assert(rest.first() == state.channels[state.channel as int]);
        assert(rest.drop_first() =~= state.channels.skip(state.channel as int + 1));
        let pass = channel_messages(rest.first(), state.texts, state.username, state.icon_url);
        assert(pass.skip(0) =~= pass);
    }
}

/// Every message of a fan-out goes to one of its channels, and the passes follow
/// the order of the channels: the message at index `k` goes to the channel at
/// index `k / texts.len()` and says the text at index `k % texts.len()`.
pub proof fn lemma_deliveries_channel_by_channel(
    channels: Seq<Seq<char>>,
    texts: Seq<Seq<char>>,
    username: Seq<char>,
    icon_url: Seq<char>,
    k: int,
)
    requires
        0 <= k < channels.len() * texts.len(),
    ensures
        texts.len() > 0,
        deliveries(channels, texts, username, icon_url).len() == channels.len() * texts.len(),
        0 <= k / (texts.len() as int) < channels.len(),
        deliveries(channels, texts, username, icon_url)[k] == message_to(
            channels[k / (texts.len() as int)],
            texts[k % (texts.len() as int)],
            username,
            icon_url,
        ),
    decreases channels.len(),
{
    let m = texts.len() as int;
    let n = channels.len() as int;
    assert(m > 0 && n > 0) by (nonlinear_arith)
        requires
            0 <= k < n * m,
            m >= 0,
            n >= 0,
    ;
    lemma_deliveries_len(channels, texts, username, icon_url);
    let pass = channel_messages(channels.first(), texts, username, icon_url);
    let later = deliveries(channels.drop_first(), texts, username, icon_url);
    if k < m {
        assert(k / m == 0 && k % m == k) by (nonlinear_arith)
            requires
                0 <= k < m,
        ;
    } else {
        assert((n - 1) * m == n * m - m) by (nonlinear_arith);
        lemma_deliveries_channel_by_channel(
            channels.drop_first(),
            texts,
            username,
            icon_url,
            k - m,
        );
        assert((k - m) / m == k / m - 1 && (k - m) % m == k % m) by (nonlinear_arith)
            requires
                m > 0,
                k >= m,
        ;
        assert(channels.drop_first()[(k - m) / m] == channels[k / m]);
        assert((pass + later)[k] == later[k - m]);
    }
}

/// A fan-out has one message for each pair of a channel and a text.
pub proof fn lemma_deliveries_len(
    channels: Seq<Seq<char>>,
    texts: Seq<Seq<char>>,
    username: Seq<char>,
    icon_url: Seq<char>,
)
    ensures
        deliveries(channels, texts, username, icon_url).len() == channels.len() * texts.len(),
    decreases channels.len(),
{
    let m = texts.len() as int;
    let n = channels.len() as int;
    if n == 0 {
        assert(n * m == 0) by (nonlinear_arith)
            requires
                n == 0,
        ;
    } else {
        lemma_deliveries_len(channels.drop_first(), texts, username, icon_url);
        assert((n - 1) * m + m == n * m) by (nonlinear_arith);
    }
}

} // verus!
