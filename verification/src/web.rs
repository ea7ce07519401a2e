//! Web addresses, as the `url` crate reads them.
//!
//! An [`Url`] keeps, as plain text, the parts of a parsed address that the relay
//! looks at: the whole address in its normal form, its path and its domain. Parsing
//! and joining are done by the `url` crate; what it returns is named by
//! [`url_parse`] and [`url_join`], and everything else is computed here from the
//! parts.

use vstd::prelude::*;


verus! {

/// A parsed web address.
#[derive(Debug, PartialEq, Eq)]
pub struct Url {
    text: String,
    path: String,
    domain: Option<String>,
}

/// What an [`Url`] holds, as sequences of characters.
pub struct UrlView {
    /// The whole address, in the form in which the parser writes it out.
    pub text: Seq<char>,
    /// The path: what stands after the host and before any `?` or `#`.
    pub path: Seq<char>,
    /// The host, where it is a domain name (and not an IP address, or missing).
    pub domain: Option<Seq<char>>,
}

impl View for Url {
    type V = UrlView;

    closed spec fn view(&self) -> UrlView {
        UrlView {
            text: self.text@,
            path: self.path@,
            domain: match self.domain {
                Some(d) => Some(d@),
                None => None,
            },
        }
    }
}

impl DeepView for Url {
    type V = UrlView;

    open spec fn deep_view(&self) -> UrlView {
        self@
    }
}

/// Why an address could not be produced or read.
#[derive(Debug, PartialEq, Eq, Structural, Clone, Copy)]
pub enum UrlError {
    /// The text is not an address, or the reference cannot be joined to the base.
    Parse,
    /// The address has no domain name as its host.
    NoDomain,
    /// The path of the address does not open with a `/`, so it has no segments.
    NoAccount,
    /// The address that came of a join is not on the host that it was made for, or
    /// has not the path that it was made from.
    OffHost,
}

/// The address that `url::Url::parse` reads from `input`, or `None` where it
/// reports an error.
pub uninterp spec fn url_parse(input: Seq<char>) -> Option<UrlView>;

/// The address that `url::Url::join` gives for the reference `reference` and the base
/// that `url::Url::parse` reads from `base`, or `None` where either reports an error.
pub uninterp spec fn url_join(base: Seq<char>, reference: Seq<char>) -> Option<UrlView>;

/// Calls `url::Url::parse` on `input` and copies out of the result what `as_str`,
/// `path` and `domain` return. The contract claims that this is [`url_parse`] of the
/// input: the parser reads nothing but its argument.
#[verifier::external_body]
fn parse_text(input: &str) -> (r: Option<Url>)
    ensures
        r matches Some(u) ==> url_parse(input@) == Some(u@),
        r is None ==> url_parse(input@) is None,
{
    let u = url::Url::parse(input).ok()?;
    Some(
        Url {
            text: u.as_str().to_string(),
            path: u.path().to_string(),
            domain: u.domain().map(String::from),
        },
    )
}

/// Calls `url::Url::parse` on `base` and `url::Url::join` on the result with
/// `reference`, and copies out of the joined address what `as_str`, `path` and
/// `domain` return. The contract claims that this is [`url_join`] of the two texts.
#[verifier::external_body]
fn join_text(base: &str, reference: &str) -> (r: Option<Url>)
    ensures
        r matches Some(u) ==> url_join(base@, reference@) == Some(u@),
        r is None ==> url_join(base@, reference@) is None,
{
    let u = url::Url::parse(base).ok()?.join(reference).ok()?;
    Some(
        Url {
            text: u.as_str().to_string(),
            path: u.path().to_string(),
            domain: u.domain().map(String::from),
        },
    )
}

impl Url {
    /// Reads an absolute address from `input`.
    pub fn parse(input: &str) -> (r: Result<Url, UrlError>)
        ensures
            match r {
                Ok(u) => url_parse(input@) == Some(u@),
                Err(e) => e == UrlError::Parse && url_parse(input@) is None,
            },
    {
        match parse_text(input) {
            Some(u) => Ok(u),
            None => Err(UrlError::Parse),
        }
    }

    /// Reads `base` as an absolute address, and `reference` as an address relative to
    /// it.
    pub fn resolve(base: &str, reference: &str) -> (r: Result<Url, UrlError>)
        ensures
            match r {
                Ok(u) => url_join(base@, reference@) == Some(u@),
                Err(e) => e == UrlError::Parse && url_join(base@, reference@) is None,
            },
    {
        match join_text(base, reference) {
            Some(u) => Ok(u),
            None => Err(UrlError::Parse),
        }
    }

    /// Reads `reference` as an address relative to this one.
    pub fn join(&self, reference: &str) -> (r: Result<Url, UrlError>)
        ensures
            match r {
                Ok(u) => url_join(self@.text, reference@) == Some(u@),
                Err(e) => e == UrlError::Parse && url_join(self@.text, reference@) is None,
            },
    {
        Url::resolve(self.text.as_str(), reference)
    }

    /// The whole address.
    pub fn as_str(&self) -> (r: &str)
        ensures
            r@ == self@.text,
    {
        self.text.as_str()
    }

    /// The path of the address.
    pub fn path(&self) -> (r: &str)
        ensures
            r@ == self@.path,
    {
        self.path.as_str()
    }

    /// The domain name of the address, where its host is one.
    pub fn domain(&self) -> (r: Option<&str>)
        ensures
            match r {
                Some(d) => self@.domain == Some(d@),
                None => self@.domain is None,
            },
    {
        match &self.domain {
            Some(d) => Some(d.as_str()),
            None => None,
        }
    }

    /// The whole address, as a string of its own.
    pub fn to_string(&self) -> (r: String)
        ensures
            r@ == self@.text,
    {
        self.text.clone()
    }
}

impl Clone for Url {
    fn clone(&self) -> (r: Self)
        ensures
            r@ == self@,
    {
        Url {
            text: self.text.clone(),
            path: self.path.clone(),
            domain: match &self.domain {
                Some(d) => Some(d.clone()),
                None => None,
            },
        }
    }
}

} // verus!
