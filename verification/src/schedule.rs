//! When the feeds of one mirror are polled.
//!
//! Each mirror has a loop of its own, which never ends. One pass of the loop loads
//! the feeds that the mirror serves at that moment, polls them one after the other
//! with a pause between two polls, and rests before the next pass. Whether a poll
//! succeeded makes no difference to what follows it.
//!
//! The loop itself, with its waiting, is the caller's: it asks the [`Scheduler`] what
//! is due, does it, and reports back.

use vstd::prelude::*;
use crate::registry::{feed_urls, feeds_of, RSSUrl};
use crate::web::{Url, UrlView};

verus! {

/// How many minutes pass between two polls of one mirror.
pub const SLEEP_EACH_FETCH_MINUTES: u64 = 5;

/// How many minutes a mirror's loop rests between two passes.
pub const SLEEP_EACH_PASS_MINUTES: u64 = 5;

/// Where in a pass a mirror's loop stands.
#[derive(Debug, PartialEq, Eq, Structural, Clone, Copy)]
pub enum Phase {
    /// The feeds of the mirror are to be loaded.
    Loading,
    /// A feed is to be polled.
    Polling,
    /// The pause before the next poll is to be kept.
    Pausing,
    /// The rest before the next pass is to be kept.
    Resting,
}

/// What a mirror's loop is to do next.
#[derive(Debug, PartialEq, Eq)]
pub enum Action {
    /// Load the feeds that the mirror serves.
    LoadFeeds,
    /// Fetch this feed and dispatch what is new in it.
    Poll(Url),
    /// Wait for so many seconds.
    Sleep(u64),
}

/// What an [`Action`] holds.
pub enum ActionView {
    LoadFeeds,
    Poll(UrlView),
    Sleep(u64),
}

impl View for Action {
    type V = ActionView;

    open spec fn view(&self) -> ActionView {
        match self {
            Action::LoadFeeds => ActionView::LoadFeeds,
            Action::Poll(feed) => ActionView::Poll(feed@),
            Action::Sleep(seconds) => ActionView::Sleep(*seconds),
        }
    }
}

/// What happened to the action that was due.
#[derive(Debug, PartialEq, Eq)]
pub enum Event {
    /// The feeds were loaded: these are the feeds of the mirror.
    Loaded(Vec<Url>),
    /// The feeds could not be loaded.
    LoadFailed,
    /// The feed was polled; whether with success.
    Polled(bool),
    /// The wait is over.
    Slept,
}

/// What an [`Event`] holds.
pub enum EventView {
    Loaded(Seq<UrlView>),
    LoadFailed,
    Polled(bool),
    Slept,
}

impl View for Event {
    type V = EventView;

    open spec fn view(&self) -> EventView {
        match self {
            Event::Loaded(feeds) => EventView::Loaded(feeds.deep_view()),
            Event::LoadFailed => EventView::LoadFailed,
            Event::Polled(ok) => EventView::Polled(*ok),
            Event::Slept => EventView::Slept,
        }
    }
}

/// What the rows of a mirror's feeds report to the loop: the feeds, each once, or
/// that they could not be loaded where a row holds no address.
pub open spec fn loaded(rows: Seq<Seq<char>>) -> EventView {
    match feeds_of(rows) {
        Some(feeds) => EventView::Loaded(feeds),
        None => EventView::LoadFailed,
    }
}

impl Event {
    /// What the rows of a mirror's feeds report to the loop.
    pub fn from_rows(rows: &Vec<RSSUrl>) -> (r: Event)
        ensures
            r@ == loaded(rows.deep_view()),
    {
        match feed_urls(rows) {
            Ok(feeds) => Event::Loaded(feeds),
            Err(_) => Event::LoadFailed,
        }
    }
}

/// The loop of one mirror, as it proceeds.
#[derive(Debug)]
pub struct Scheduler {
    feeds: Vec<Url>,
    position: usize,
    phase: Phase,
    pause: u64,
    rest: u64,
}

/// The state of a mirror's loop.
pub struct ScheduleView {
    /// The feeds of the pass, in the order in which they are polled.
    pub feeds: Seq<UrlView>,
    /// The index of the feed that is polled next.
    pub position: nat,
    /// Where in the pass the loop stands.
    pub phase: Phase,
    /// The seconds between two polls.
    pub pause: u64,
    /// The seconds between two passes.
    pub rest: u64,
}

impl ScheduleView {
    /// What holds of every state that a loop reaches.
    pub open spec fn wf(self) -> bool {
        match self.phase {
            Phase::Loading => true,
            Phase::Polling => self.position < self.feeds.len(),
            Phase::Pausing => self.position < self.feeds.len(),
            Phase::Resting => true,
        }
    }

    /// What is due.
    pub open spec fn action(self) -> ActionView {
        match self.phase {
            Phase::Loading => ActionView::LoadFeeds,
            Phase::Polling => ActionView::Poll(self.feeds[self.position as int]),
            Phase::Pausing => ActionView::Sleep(self.pause),
            Phase::Resting => ActionView::Sleep(self.rest),
        }
    }

    /// The state in which a pass over `feeds` begins: at its first poll, or at the
    /// rest where there is no feed.
    pub open spec fn begin_pass(self, feeds: Seq<UrlView>) -> ScheduleView {
        ScheduleView {
            feeds,
            position: 0,
            phase: if feeds.len() == 0 {
                Phase::Resting
            } else {
                Phase::Polling
            },
            ..self
        }
    }

    /// The state after `event`. An event that does not answer the action that was
    /// due changes nothing. Feeds that could not be loaded count as no feeds.
    pub open spec fn step(self, event: EventView) -> ScheduleView {
        match (self.phase, event) {
            (Phase::Loading, EventView::Loaded(feeds)) => self.begin_pass(feeds),
            (Phase::Loading, EventView::LoadFailed) => self.begin_pass(Seq::empty()),
            (Phase::Polling, EventView::Polled(_)) => if self.position + 1 < self.feeds.len() {
                ScheduleView { position: self.position + 1, phase: Phase::Pausing, ..self }
            } else {
                ScheduleView { phase: Phase::Resting, ..self }
            },
            (Phase::Pausing, EventView::Slept) => ScheduleView { phase: Phase::Polling, ..self },
            (Phase::Resting, EventView::Slept) => ScheduleView { phase: Phase::Loading, ..self },
            _ => self,
        }
    }

    /// The event that answers the action that is due, where nothing goes wrong and
    /// `feeds` are the feeds of the mirror.
    pub open spec fn answer(self, feeds: Seq<UrlView>) -> EventView {
        match self.phase {
            Phase::Loading => EventView::Loaded(feeds),
            Phase::Polling => EventView::Polled(true),
            Phase::Pausing => EventView::Slept,
            Phase::Resting => EventView::Slept,
        }
    }

    /// The actions that are due from here to the end of the pass, in order: the
    /// polls that are left with a pause between each two, then the rest.
    pub open spec fn rest_of_pass(self) -> Seq<ActionView> {
        match self.phase {
            Phase::Loading => Seq::empty(),
            Phase::Resting => seq![ActionView::Sleep(self.rest)],
            Phase::Pausing => seq![ActionView::Sleep(self.pause)] + polls_from(
                self.feeds,
                self.position as int,
                self.pause,
                self.rest,
            ),
            Phase::Polling => polls_from(self.feeds, self.position as int, self.pause, self.rest),
        }
    }
}

/// The actions of a pass from the poll of the feed at index `from` on: each feed's
/// poll, a pause after each but the last, and the rest at the end.
pub open spec fn polls_from(feeds: Seq<UrlView>, from: int, pause: u64, rest: u64) -> Seq<
    ActionView,
>
    decreases feeds.len() - from,
{
    if from < 0 || from >= feeds.len() {
        seq![ActionView::Sleep(rest)]
    } else if from + 1 == feeds.len() {
        seq![ActionView::Poll(feeds[from]), ActionView::Sleep(rest)]
    } else {
        seq![ActionView::Poll(feeds[from]), ActionView::Sleep(pause)] + polls_from(
            feeds,
            from + 1,
            pause,
            rest,
        )
    }
}

/// The actions of a whole pass over `feeds`.
pub open spec fn pass(feeds: Seq<UrlView>, pause: u64, rest: u64) -> Seq<ActionView> {
    polls_from(feeds, 0, pause, rest)
}

/// The state in which a mirror's loop starts.
pub open spec fn starting(pause: u64, rest: u64) -> ScheduleView {
    ScheduleView { feeds: Seq::empty(), position: 0, phase: Phase::Loading, pause, rest }
}

impl View for Scheduler {
    type V = ScheduleView;

    closed spec fn view(&self) -> ScheduleView {
        ScheduleView {
            feeds: self.feeds.deep_view(),
            position: self.position as nat,
            phase: self.phase,
            pause: self.pause,
            rest: self.rest,
        }
    }
}

impl Scheduler {
    #[verifier::type_invariant]
    spec fn inv(&self) -> bool {
        self@.wf()
    }

    /// A loop that pauses `pause` seconds between two polls and rests `rest` seconds
    /// between two passes. It starts by loading the feeds.
    pub fn new(pause: u64, rest: u64) -> (r: Self)
        ensures
            r@ == starting(pause, rest),
            r@.wf(),
    {
        let r = Scheduler { feeds: Vec::new(), position: 0, phase: Phase::Loading, pause, rest };
        assert(r.feeds.deep_view() =~= Seq::empty());
        r
    }

    /// A loop with the usual pause and rest.
    pub fn standard() -> (r: Self)
        ensures
            r@ == starting(
                (SLEEP_EACH_FETCH_MINUTES * 60) as u64,
                (SLEEP_EACH_PASS_MINUTES * 60) as u64,
            ),
            r@.wf(),
    {
        Scheduler::new(SLEEP_EACH_FETCH_MINUTES * 60, SLEEP_EACH_PASS_MINUTES * 60)
    }

    /// What is due.
    pub fn action(&self) -> (r: Action)
        ensures
            r@ == self@.action(),
            self@.wf(),
    {
        proof {
            use_type_invariant(self);
            assert(self.feeds.deep_view().len() == self.feeds.len());
        }
        match self.phase {
            Phase::Loading => Action::LoadFeeds,
            Phase::Polling => Action::Poll(self.feeds[self.position].clone()),
            Phase::Pausing => Action::Sleep(self.pause),
            Phase::Resting => Action::Sleep(self.rest),
        }
    }

    /// Takes note of what happened to the action that was due, and moves on.
    pub fn step(&mut self, event: Event)
        ensures
            final(self)@ == old(self)@.step(event@),
            final(self)@.wf(),
    {
        proof {
            use_type_invariant(&*self);
            assert(self.feeds.deep_view().len() == self.feeds.len());
        }
        match self.phase {
            Phase::Loading => {
                match event {
                    Event::Loaded(feeds) => {
                        self.begin(feeds);
                    },
                    Event::LoadFailed => {
                        let none: Vec<Url> = Vec::new();
                        assert(none.deep_view() =~= Seq::empty());
                        self.begin(none);
                    },
                    _ => {},
                }
            },
            Phase::Polling => {
                match event {
                    Event::Polled(_) => {
                        if self.position + 1 < self.feeds.len() {
                            self.position = self.position + 1;
                            self.phase = Phase::Pausing;
                        } else {
                            self.phase = Phase::Resting;
                        }
                    },
                    _ => {},
                }
            },
            Phase::Pausing => {
                match event {
                    Event::Slept => {
                        self.phase = Phase::Polling;
                    },
                    _ => {},
                }
            },
            Phase::Resting => {
                match event {
                    Event::Slept => {
                        self.phase = Phase::Loading;
                    },
                    _ => {},
                }
            },
        }
    }

    /// Begins a pass over `feeds`.
    fn begin(&mut self, feeds: Vec<Url>)
        requires
            old(self)@.phase == Phase::Loading,
        ensures
            final(self)@ == old(self)@.begin_pass(feeds.deep_view()),
            final(self)@.wf(),
    {
        assert(feeds.deep_view().len() == feeds.len());
        let none = feeds.len() == 0;
        self.feeds = feeds;
        self.position = 0;
        if none {
            self.phase = Phase::Resting;
        } else {
            self.phase = Phase::Polling;
        }
    }
}

/// Once the feeds are loaded, the whole pass over them is due: every feed is polled
/// once, in the order in which the feeds were given.
pub proof fn lemma_pass_begins_whole(state: ScheduleView, feeds: Seq<UrlView>)
    requires
        state.phase == Phase::Loading,
    ensures
        state.step(EventView::Loaded(feeds)).wf(),
        state.step(EventView::Loaded(feeds)).rest_of_pass() == pass(feeds, state.pause, state.rest),
        state.step(EventView::LoadFailed).rest_of_pass() == pass(
            Seq::empty(),
            state.pause,
            state.rest,
        ),
{
}

/// Within a pass, the action that is due is the first of those that are left, and
/// the event that answers it takes exactly that one off them. The pass ends with
/// the loop back at loading.
pub proof fn lemma_step_takes_first(state: ScheduleView, event: EventView)
    requires
        state.wf(),
        state.phase != Phase::Loading,
        event == state.answer(Seq::empty()) || (state.phase == Phase::Polling && event
            is Polled),
    ensures
        state.rest_of_pass().len() > 0,
        state.action() == state.rest_of_pass()[0],
        state.step(event).wf(),
        state.step(event).rest_of_pass() == state.rest_of_pass().skip(1),
        state.step(event).feeds == state.feeds,
        state.rest_of_pass().len() == 1 <==> state.step(event).phase == Phase::Loading,
{
    let after = state.step(event);
    match state.phase {
        Phase::Loading => {},
        Phase::Resting => {
            assert(after.rest_of_pass() =~= state.rest_of_pass().skip(1));
        },
        Phase::Pausing => {
            assert(after.rest_of_pass() =~= state.rest_of_pass().skip(1));
        },
        Phase::Polling => {
            assert(after.rest_of_pass() =~= state.rest_of_pass().skip(1));
        },
    }
}

/// A poll that fails is followed by what follows a poll that succeeds.
pub proof fn lemma_failed_poll_changes_nothing(state: ScheduleView)
    ensures
        state.step(EventView::Polled(false)) == state.step(EventView::Polled(true)),
{
}

/// A pass over `n` feeds has `2 * n` actions, or one where there is no feed: at each
/// even index `2 * i` the poll of the feed at index `i`, a pause after each poll but
/// the last, and the rest at the end.
pub proof fn lemma_pass_shape(feeds: Seq<UrlView>, from: int, pause: u64, rest: u64, i: int)
    requires
        0 <= from <= i < feeds.len(),
    ensures
        polls_from(feeds, from, pause, rest).len() == 2 * (feeds.len() - from),
        polls_from(feeds, from, pause, rest)[2 * (i - from)] == ActionView::Poll(feeds[i]),
        polls_from(feeds, from, pause, rest)[2 * (i - from) + 1] == if i + 1 == feeds.len() {
            ActionView::Sleep(rest)
        } else {
            ActionView::Sleep(pause)
        },
    decreases feeds.len() - from,
{
    if from + 1 == feeds.len() {
    } else {
        let head = seq![ActionView::Poll(feeds[from]), ActionView::Sleep(pause)];
        let tail = polls_from(feeds, from + 1, pause, rest);
        if i == from {
            lemma_pass_shape(feeds, from + 1, pause, rest, from + 1);
        } else {
            lemma_pass_shape(feeds, from + 1, pause, rest, i);
            assert((head + tail)[2 * (i - from)] == tail[2 * (i - from - 1)]);
            assert((head + tail)[2 * (i - from) + 1] == tail[2 * (i - from - 1) + 1]);
        }
    }
}

} // verus!
