//! What a channel asks of the relay.
//!
//! A command is a line of words. `remove` and an account ends the channel's
//! subscription to that account. Any other first word starts one: the word is the
//! address of a feed, or an account whose feed is looked for on the default mirror.

use vstd::prelude::*;
use crate::text::{appended, chars_of, same_text, string_of};
use crate::web::{url_join, url_parse, Url, UrlView};

verus! {

/// The word that ends a subscription.
pub const REMOVE: &'static str = "remove";

/// What follows an account in the address of its feed on a mirror.
pub const FEED_SUFFIX: &'static str = "/rss";

/// What stands before the account in an answer.
pub const MENTION: &'static str = "@";

/// What follows the account in the answer to a new subscription.
pub const STARTED: &'static str = " の収集を開始します。";

/// What follows the account in the answer to an ended subscription.
pub const STOPPED: &'static str = " の収集を停止します。";

/// Whether `c` has the Unicode property White_Space.
pub open spec fn is_white_space(c: char) -> bool {
    let code = c as u32;
    ||| 0x09 <= code <= 0x0d
    ||| code == 0x20
    ||| code == 0x85
    ||| code == 0xa0
    ||| code == 0x1680
    ||| 0x2000 <= code <= 0x200a
    ||| code == 0x2028
    ||| code == 0x2029
    ||| code == 0x202f
    ||| code == 0x205f
    ||| code == 0x3000
}

/// `char::is_whitespace` tells whether the character has the property White_Space.
pub assume_specification[ char::is_whitespace ](c: char) -> (r: bool)
    ensures
        r == is_white_space(c),
;

/// What a channel asks for.
#[derive(Debug, PartialEq, Eq)]
pub enum Command {
    /// End the subscription to this account.
    Remove(String),
    /// Start a subscription to this feed or account.
    Add(String),
}

/// What a [`Command`] holds.
pub enum CommandView {
    Remove(Seq<char>),
    Add(Seq<char>),
}

impl View for Command {
    type V = CommandView;

    open spec fn view(&self) -> CommandView {
        match self {
            Command::Remove(account) => CommandView::Remove(account@),
            Command::Add(target) => CommandView::Add(target@),
        }
    }
}

/// Why a command cannot be carried out.
#[derive(Debug, PartialEq, Eq, Structural, Clone, Copy)]
pub enum CommandError {
    /// The command has no word.
    NoText,
    /// `remove` stands without an account, or the feed's address cannot be made.
    InvalidInput,
    /// The word is no address, and no default mirror is set.
    NoDefaultMirror,
}

/// `s` without the white space at its start.
pub open spec fn skip_space(s: Seq<char>) -> Seq<char>
    decreases s.len(),
{
    if s.len() > 0 && is_white_space(s[0]) {
        skip_space(s.skip(1))
    } else {
        s
    }
}

/// The longest prefix of `s` that holds no white space.
pub open spec fn word(s: Seq<char>) -> Seq<char>
    decreases s.len(),
{
    if s.len() == 0 || is_white_space(s[0]) {
        Seq::empty()
    } else {
        seq![s[0]] + word(s.skip(1))
    }
}

/// The first word of `s`; empty where `s` holds white space only.
pub open spec fn first_word(s: Seq<char>) -> Seq<char> {
    word(skip_space(s))
}

/// What follows the first word of `s`.
pub open spec fn after_first_word(s: Seq<char>) -> Seq<char> {
    skip_space(s).skip(first_word(s).len() as int)
}

/// The command that `text` stands for.
pub open spec fn command_of(text: Option<Seq<char>>) -> Result<CommandView, CommandError> {
    match text {
        None => Err(CommandError::NoText),
        Some(t) => {
            let first = first_word(t);
            let second = first_word(after_first_word(t));
            if first.len() == 0 {
                Err(CommandError::NoText)
            } else if first != REMOVE@ {
                Ok(CommandView::Add(first))
            } else if second.len() == 0 {
                Err(CommandError::InvalidInput)
            } else {
                Ok(CommandView::Remove(second))
            }
        },
    }
}

/// The address of the feed that `target` names: `target` itself where it is an
/// address, else the feed of the account `target` on the mirror at `default_mirror`.
pub open spec fn feed_address(target: Seq<char>, default_mirror: Option<Seq<char>>) -> Result<
    UrlView,
    CommandError,
> {
    match url_parse(target) {
        Some(url) => Ok(url),
        None => match default_mirror {
            None => Err(CommandError::NoDefaultMirror),
            Some(mirror) => match url_join(mirror, target + FEED_SUFFIX@) {
                Some(url) => Ok(url),
                None => Err(CommandError::InvalidInput),
            },
        },
    }
}

/// The index of the first character at or after `from` that is no white space.
fn skip_space_from(v: &Vec<char>, from: usize) -> (r: usize)
    requires
        from <= v.len(),
    ensures
        from <= r <= v.len(),
        v@.skip(r as int) == skip_space(v@.skip(from as int)),
{
    let mut i: usize = from;
    while i < v.len() && v[i].is_whitespace()
        invariant
            from <= i <= v.len(),
            skip_space(v@.skip(i as int)) == skip_space(v@.skip(from as int)),
        decreases v.len() - i,
    {
        assert(v@.skip(i as int).skip(1) =~= v@.skip(i + 1));
        i += 1;
    }
    i
}

/// The index of the first white space at or after `from`.
fn word_end_from(v: &Vec<char>, from: usize) -> (r: usize)
    requires
        from <= v.len(),
    ensures
        from <= r <= v.len(),
        v@.subrange(from as int, r as int) == word(v@.skip(from as int)),
{
    let mut i: usize = from;
    assert(v@.subrange(from as int, from as int) =~= Seq::empty());
    assert(Seq::<char>::empty() + word(v@.skip(from as int)) =~= word(v@.skip(from as int)));
    while i < v.len() && !v[i].is_whitespace()
        invariant
            from <= i <= v.len(),
            v@.subrange(from as int, i as int) + word(v@.skip(i as int)) == word(
                v@.skip(from as int),
            ),
        decreases v.len() - i,
    {
        proof {
            let rest = v@.skip(i as int);
            assert(rest.skip(1) =~= v@.skip(i + 1));
            assert(v@.subrange(from as int, i + 1) + word(v@.skip(i + 1)) =~= v@.subrange(
                from as int,
                i as int,
            ) + word(rest));
        }
        i += 1;
    }
    proof {
        let found = v@.subrange(from as int, i as int);
        assert(found + Seq::<char>::empty() =~= found);
    }
    i
}

/// The part of `v` from index `from` to index `to`.
fn part(v: &Vec<char>, from: usize, to: usize) -> (r: Vec<char>)
    requires
        from <= to <= v.len(),
    ensures
        r@ == v@.subrange(from as int, to as int),
{
    let mut out: Vec<char> = Vec::new();
    let mut i: usize = from;
    while i < to
        invariant
            from <= i <= to <= v.len(),
            out@ == v@.subrange(from as int, i as int),
        decreases to - i,
    {
        out.push(v[i]);
        i += 1;
    }
    out
}

/// Reads a command from its text: the first word decides, and `remove` takes the
/// second word as its account.
pub fn parse_command(text: Option<&str>) -> (r: Result<Command, CommandError>)
    ensures
        match r {
            Ok(c) => command_of(text.deep_view()) == Ok::<CommandView, CommandError>(c@),
            Err(e) => command_of(text.deep_view()) == Err::<CommandView, CommandError>(e),
        },
{
    let text = match text {
        Some(t) => t,
        None => { return Err(CommandError::NoText); },
    };
    let v = chars_of(text);
    assert(v@.skip(0) =~= v@);
    let start = skip_space_from(&v, 0);
    let end = word_end_from(&v, start);
    let first = string_of(&part(&v, start, end));
    proof {
        assert(v@.skip(start as int).skip(first@.len() as int) =~= v@.skip(end as int));
    }
    if start == end {
        return Err(CommandError::NoText);
    }
    if !same_text(first.as_str(), REMOVE) {
        return Ok(Command::Add(first));
    }
    let next = skip_space_from(&v, end);
    let last = word_end_from(&v, next);
    if next == last {
        return Err(CommandError::InvalidInput);
    }
    Ok(Command::Remove(string_of(&part(&v, next, last))))
}

/// The feed that `target` names: `target` itself where it is an address, else the
/// feed of the account `target` on the default mirror.
pub fn feed_url_of(target: &str, default_mirror: Option<&str>) -> (r: Result<Url, CommandError>)
    ensures
        match r {
            Ok(url) => feed_address(target@, default_mirror.deep_view()) == Ok::<
                UrlView,
                CommandError,
            >(url@),
            Err(e) => feed_address(target@, default_mirror.deep_view()) == Err::<
                UrlView,
                CommandError,
            >(e),
        },
{
    match Url::parse(target) {
        Ok(url) => Ok(url),
        Err(_) => match default_mirror {
            None => Err(CommandError::NoDefaultMirror),
            Some(mirror) => account_to_default_nitter_rss_url(mirror, target),
        },
    }
}

/// The feed of `account` on the mirror at `default_mirror`.
pub fn account_to_default_nitter_rss_url(default_mirror: &str, account: &str) -> (r: Result<
    Url,
    CommandError,
>)
    ensures
        match r {
            Ok(url) => url_join(default_mirror@, account@ + FEED_SUFFIX@) == Some(url@),
            Err(e) => e == CommandError::InvalidInput && url_join(
                default_mirror@,
                account@ + FEED_SUFFIX@,
            ) is None,
        },
{
    let add_seg = appended(account, FEED_SUFFIX);
    match Url::resolve(default_mirror, add_seg.as_str()) {
        Ok(url) => Ok(url),
        Err(_) => Err(CommandError::InvalidInput),
    }
}

/// The answer to a new subscription to `account`.
pub fn started_text(account: &str) -> (r: String)
    ensures
        r@ == MENTION@ + account@ + STARTED@,
{
    let mention = appended(MENTION, account);
    appended(mention.as_str(), STARTED)
}

/// The answer to an ended subscription to `account`.
pub fn stopped_text(account: &str) -> (r: String)
    ensures
        r@ == MENTION@ + account@ + STOPPED@,
{
    let mention = appended(MENTION, account);
    appended(mention.as_str(), STOPPED)
}

} // verus!
