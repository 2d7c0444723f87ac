//! Absolute URLs: resolving references against a page address and naming the
//! host for display.
//!
//! Parsing and joining are done by the `url` crate. What it answers is named
//! here by three uninterpreted functions over the text of an address, and the
//! functions of this module are proved against those names.

use url::Url;
use vstd::prelude::*;
use vstd::string::*;

verus! {

/// Whether `url::Url::parse` accepts `input` as an absolute URL.
pub uninterp spec fn url_parses(input: Seq<char>) -> bool;

/// What `url::Url::host_str` answers for the URL parsed from `address`: the
/// host as the parser wrote it, or `None` for a URL without a host.
pub uninterp spec fn url_host(address: Seq<char>) -> Option<Seq<char>>;

/// What `url::Url::join` answers for the URL parsed from `base` and the
/// reference `reference`: the text of the joined URL, or `None` where the
/// reference cannot be resolved against that base.
pub uninterp spec fn url_join(base: Seq<char>, reference: Seq<char>) -> Option<Seq<char>>;

/// Calls `url::Url::parse` on `input` and reports whether it returned a URL.
/// Nothing is claimed of the URL itself.
#[verifier::external_body]
fn parses_as_url(input: &str) -> (accepted: bool)
    ensures
        accepted == url_parses(input@),
{
    Url::parse(input).is_ok()
}

/// Parses `address` again with `url::Url::parse` and calls
/// `url::Url::host_str` on the result. The answer depends on the text of the
/// address alone; it is copied into an owned string.
#[verifier::external_body]
fn host_of(address: &str) -> (host: Option<String>)
    requires
        url_parses(address@),
    ensures
        host.deep_view() == url_host(address@),
{
    match Url::parse(address) {
        Ok(url) => url.host_str().map(String::from),
        Err(_) => None,
    }
}

/// Parses `base` again with `url::Url::parse` and calls `url::Url::join` on
/// the result with `reference`. A joined URL is handed back as its text, an
/// error of the join as `None`.
#[verifier::external_body]
fn join_reference(base: &str, reference: &str) -> (joined: Option<String>)
    requires
        url_parses(base@),
    ensures
        joined.deep_view() == url_join(base@, reference@),
{
    match Url::parse(base) {
        Ok(url) => match url.join(reference) {
            Ok(joined) => Some(String::from(joined)),
            Err(_) => None,
        },
        Err(_) => None,
    }
}

/// The label that [`strip_www`] removes from the front of a host.
pub open spec fn www_label() -> Seq<char> {
    seq!['w', 'w', 'w', '.']
}

/// Whether `host` starts with the four characters `www.`, compared exactly.
pub open spec fn has_www_label(host: Seq<char>) -> bool {
    www_label().is_prefix_of(host)
}

/// `host` without one leading `www.`; any other host is left as it is.
pub open spec fn strip_www(host: Seq<char>) -> Seq<char> {
    if has_www_label(host) {
        host.subrange(4, host.len() as int)
    } else {
        host
    }
}

/// The host of the URL written as `address`, without a leading `www.`.
pub open spec fn canonical_host_of(address: Seq<char>) -> Option<Seq<char>> {
    match url_host(address) {
        Some(host) => Some(strip_www(host)),
        None => None,
    }
}

/// The URL that `reference` names when it is read on the page at `base`: the
/// joined URL, kept only if its text is an absolute URL in its own right.
pub open spec fn resolved_against(base: Seq<char>, reference: Seq<char>) -> Option<Seq<char>> {
    match url_join(base, reference) {
        Some(joined) => if url_parses(joined) {
            Some(joined)
        } else {
            None
        },
        None => None,
    }
}

/// A host that does not start with `www.` is left as it is, so stripping it
/// again changes nothing. A host that does start with it loses exactly those
/// four characters. In general a second stripping changes nothing exactly
/// when the first left no `www.` at the front: `www.www.example.com` takes
/// two.
pub proof fn lemma_strip_www_again(host: Seq<char>)
    ensures
        !has_www_label(host) ==> strip_www(host) == host,
        !has_www_label(host) ==> strip_www(strip_www(host)) == strip_www(host),
        has_www_label(host) ==> www_label() + strip_www(host) == host,
        strip_www(strip_www(host)) == strip_www(host) <==> !has_www_label(strip_www(host)),
{
    if has_www_label(host) {
        assert(www_label() + strip_www(host) =~= host);
    }
    let once = strip_www(host);
    if has_www_label(once) {
        assert(strip_www(once).len() + 4 == once.len());
    }
}

/// A reference that resolves gives an absolute URL: what [`resolved_against`]
/// hands out is text that the URL parser accepts.
pub proof fn lemma_resolved_is_absolute(base: Seq<char>, reference: Seq<char>)
    ensures
        resolved_against(base, reference) matches Some(url) ==> url_parses(url),
{
}

/// Removes one leading `www.` from `host`. The match is exact and
/// case-sensitive; nothing else in the host is touched.
pub fn strip_www_label(host: &str) -> (stripped: String)
    ensures
        stripped@ == strip_www(host@),
{
    let len: usize = host.unicode_len();
    if len >= 4 && host.get_char(0) == 'w' && host.get_char(1) == 'w' && host.get_char(2) == 'w'
        && host.get_char(3) == '.' {
        assert(www_label() =~= host@.subrange(0, 4));
        host.substring_char(4, len).to_owned()
    } else {
        host.to_owned()
    }
}

/// An absolute URL, held as text that the URL parser accepts.
#[derive(Debug, PartialEq, Eq)]
pub struct AbsoluteUrl {
    text: String,
}

impl View for AbsoluteUrl {
    type V = Seq<char>;

    closed spec fn view(&self) -> Seq<char> {
        self.text@
    }
}

impl DeepView for AbsoluteUrl {
    type V = Seq<char>;

    open spec fn deep_view(&self) -> Seq<char> {
        self@
    }
}

impl Clone for AbsoluteUrl {
    fn clone(&self) -> (copy: AbsoluteUrl)
        ensures
            copy@ == self@,
    {
        proof {
            use_type_invariant(self);
        }
        AbsoluteUrl { text: self.text.clone() }
    }
}

impl AbsoluteUrl {
    #[verifier::type_invariant]
    spec fn accepted(&self) -> bool {
        url_parses(self.text@)
    }

    /// Takes `text` as an absolute URL if the parser accepts it, and hands
    /// out `None` if not. The text is kept as given.
    pub fn from_string(text: String) -> (url: Option<AbsoluteUrl>)
        ensures
            url is Some <==> url_parses(text@),
            url matches Some(u) ==> u@ == text@,
    {
        if parses_as_url(text.as_str()) {
            Some(AbsoluteUrl { text })
        } else {
            None
        }
    }

    /// Reads `input` as an absolute URL. The text is kept as given; `None`
    /// means that `input` is not an absolute URL.
    pub fn parse(input: &str) -> (url: Option<AbsoluteUrl>)
        ensures
            url is Some <==> url_parses(input@),
            url matches Some(u) ==> u@ == input@,
    {
        AbsoluteUrl::from_string(input.to_owned())
    }

    /// The text of the URL.
    pub fn as_str(&self) -> (text: &str)
        ensures
            text@ == self@,
            url_parses(self@),
    {
        proof {
            use_type_invariant(self);
        }
        self.text.as_str()
    }

    /// Gives up the URL for its text.
    pub fn into_string(self) -> (text: String)
        ensures
            text@ == self@,
            url_parses(text@),
    {
        proof {
            use_type_invariant(&self);
        }
        self.text
    }

    /// The host of the URL with a leading `www.` removed, for display. A URL
    /// without a host has no canonical host.
    pub fn canonical_host(&self) -> (host: Option<String>)
        ensures
            host.deep_view() == canonical_host_of(self@),
    {
        proof {
            use_type_invariant(self);
        }
        match host_of(self.text.as_str()) {
            Some(host) => Some(strip_www_label(host.as_str())),
            None => None,
        }
    }

    /// Resolves `reference`, which may be absolute, scheme-relative,
    /// path-absolute or path-relative, against this URL. Nothing is fetched:
    /// the answer depends on the two texts alone. `None` means that the
    /// reference cannot be resolved.
    pub fn resolve(&self, reference: &str) -> (resolved: Option<AbsoluteUrl>)
        ensures
            resolved.deep_view() == resolved_against(self@, reference@),
            resolved matches Some(url) ==> url_parses(url@),
    {
        proof {
            use_type_invariant(self);
        }
        match join_reference(self.text.as_str(), reference) {
            Some(joined) => AbsoluteUrl::from_string(joined),
            None => None,
        }
    }
}

} // verus!
