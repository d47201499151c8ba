//! The address that a request is sent to.
use vstd::prelude::*;
use vstd::string::{StrSliceExecFns, StringExecFns};

use crate::config::{country_text, endpoint_text, NewsApi};
use crate::error::NewsApiError;

verus! {

/// `url::Url`, a parsed address.
#[verifier::external_type_specification]
#[verifier::external_body]
pub struct ExUrl(url::Url);

/// The serialization of a parsed address.
pub uninterp spec fn url_text(u: url::Url) -> Seq<char>;

/// What `url::Url::parse` makes of a text, as the serialization of the
/// address; `None` where it refuses the text.
pub uninterp spec fn parsed_text(s: Seq<char>) -> Option<Seq<char>>;

/// The serialization after one empty trailing path segment, if any, is
/// dropped.
pub uninterp spec fn empty_segment_dropped(text: Seq<char>) -> Seq<char>;

/// The serialization after the given segment is appended to the path
/// (percent-encoded).
pub uninterp spec fn segment_pushed(text: Seq<char>, segment: Seq<char>) -> Seq<char>;

/// The serialization after the query string is set to the given text.
pub uninterp spec fn query_set(text: Seq<char>, query: Seq<char>) -> Seq<char>;

/// The largest length that the address keeps its positions in.
pub open spec fn position_limit() -> int {
    4294967295
}

/// Whether an address of `text`, grown by `added` characters (each at most
/// four bytes, percent-encoded to at most twelve characters), still has all
/// its positions within `position_limit`.
pub open spec fn growth_fits(text: Seq<char>, added: Seq<char>) -> bool {
    4 * text.len() + 1 + 12 * added.len() <= position_limit()
}

/// Relies on `url::Url::as_str`: it hands out the serialization.
#[verifier::external_body]
fn serialize(u: &url::Url) -> (r: String)
    ensures
        r@ == url_text(*u),
{
    u.as_str().to_string()
}

/// Whether an address takes no path segments ("cannot be a base"): the
/// `:` that ends its scheme is not followed by a `/`.
pub open spec fn takes_no_path(text: Seq<char>) -> bool {
    exists|i: int|
        0 <= i < text.len() && #[trigger] text[i] == ':' && (forall|j: int|
            0 <= j < i ==> #[trigger] text[j] != ':')
            && !(i + 1 < text.len() && text[i + 1] == '/')
}

/// Relies on `url::Url::parse`: the parsed address, or why the text is no
/// address.
#[verifier::external_body]
fn parse_url(s: &str) -> (r: Result<url::Url, url::ParseError>)
    ensures
        r is Ok <==> parsed_text(s@) is Some,
        r matches Ok(u) ==> url_text(u) == parsed_text(s@)->Some_0,
{
    url::Url::parse(s)
}

/// Relies on `url::Url::path_segments_mut` and `PathSegmentsMut::pop_if_empty`:
/// on an address that takes path segments, drops an empty trailing segment,
/// if any; on one that takes none, changes nothing
/// and answers `false`.
#[verifier::external_body]
fn pop_empty_segment(u: &mut url::Url) -> (r: bool)
    requires
        growth_fits(url_text(*old(u)), Seq::empty()),
    ensures
        r == !takes_no_path(url_text(*old(u))),
        !r ==> *final(u) == *old(u),
        r ==> url_text(*final(u)) == empty_segment_dropped(url_text(*old(u))),
{
    match u.path_segments_mut() {
        Ok(mut segments) => {
            segments.pop_if_empty();
            true
        },
        Err(()) => false,
    }
}

/// Relies on `url::Url::path_segments_mut` and `PathSegmentsMut::push`: on an
/// address that takes path segments, appends `segment`; on one that takes
/// none, changes nothing and answers `false`.
#[verifier::external_body]
fn push_segment(u: &mut url::Url, segment: &str) -> (r: bool)
    requires
        growth_fits(url_text(*old(u)), segment@),
    ensures
        r == !takes_no_path(url_text(*old(u))),
        !r ==> *final(u) == *old(u),
        r ==> url_text(*final(u)) == segment_pushed(url_text(*old(u)), segment@),
{
    match u.path_segments_mut() {
        Ok(mut segments) => {
            segments.push(segment);
            true
        },
        Err(()) => false,
    }
}

/// Relies on `url::Url::set_query`: the query string becomes `query`.
#[verifier::external_body]
fn set_query(u: &mut url::Url, query: &str)
    requires
        growth_fits(url_text(*old(u)), query@),
    ensures
        url_text(*final(u)) == query_set(url_text(*old(u)), query@),
{
    u.set_query(Some(query))
}

/// Whether an address of `text` and a text `added` to it keep the address
/// within `position_limit`, measured before the change.
fn fits(text: &String, added: &str) -> (r: bool)
    ensures
        r == growth_fits(text@, added@),
{
    let n: usize = text.as_str().unicode_len();
    let m: usize = added.unicode_len();
    if n > 1073741823 || m > 357913941 {
        return false;
    }
    let total: u64 = 4 * (n as u64) + 1 + 12 * (m as u64);
    total <= 4294967295
}

/// The base address of the API.
pub open spec fn base_text() -> Seq<char> {
    "https://newsapi.org/v2/"@
}

/// The query string that selects a country.
pub open spec fn country_query(api: NewsApi) -> Seq<char> {
    "country="@ + country_text(api.country_of())
}

/// Whether the parsed base address `p` takes path segments and stays
/// within `position_limit` through each step of building the address.
pub open spec fn address_buildable(p: Seq<char>, endpoint: Seq<char>, query: Seq<char>) -> bool {
    let q = empty_segment_dropped(p);
    &&& growth_fits(p, Seq::empty())
    &&& !takes_no_path(p)
    &&& growth_fits(q, endpoint)
    &&& !takes_no_path(q)
    &&& growth_fits(segment_pushed(q, endpoint), query)
}

/// The address built from the parsed base address `p`.
pub open spec fn address_text(p: Seq<char>, endpoint: Seq<char>, query: Seq<char>) -> Seq<char> {
    query_set(segment_pushed(empty_segment_dropped(p), endpoint), query)
}

impl NewsApi {
    /// The address of the request: the base address, with an empty trailing
    /// path segment dropped, the endpoint as a last path segment and
    /// `country=<code>` as the query string. A base address that does not
    /// parse is `UrlParseFailed`; one that takes no path segments, or would
    /// grow past the positions that an address can hold, is
    /// `UrlPreparingFailed`.
    pub fn prepare_url(&self) -> (r: Result<String, NewsApiError>)
        ensures
            parsed_text(base_text()) is None <==> r matches Err(NewsApiError::UrlParseFailed(_)),
            parsed_text(base_text()) matches Some(p) ==> (!address_buildable(
                p,
                endpoint_text(self.endpoint_of()),
                country_query(*self),
            ) <==> r matches Err(NewsApiError::UrlPreparingFailed)),
            parsed_text(base_text()) matches Some(p) ==> (address_buildable(
                p,
                endpoint_text(self.endpoint_of()),
                country_query(*self),
            ) ==> (r matches Ok(s) && s@ == address_text(
                p,
                endpoint_text(self.endpoint_of()),
                country_query(*self),
            ))),
    {
        let mut url = match parse_url("https://newsapi.org/v2/") {
            Ok(u) => u,
            Err(e) => {
                return Err(NewsApiError::UrlParseFailed(e));
            },
        };
        let endpoint = self.endpoint_text_of();
        let country = self.country_text_of();
        let query = String::from_str("country=").concat(country.as_str());
        proof {
            reveal_strlit("");
            assert(""@ =~= Seq::<char>::empty());
        }
        if !fits(&serialize(&url), "") {
            return Err(NewsApiError::UrlPreparingFailed);
        }
        if !pop_empty_segment(&mut url) {
            return Err(NewsApiError::UrlPreparingFailed);
        }
        if !fits(&serialize(&url), endpoint.as_str()) {
            return Err(NewsApiError::UrlPreparingFailed);
        }
        if !push_segment(&mut url, endpoint.as_str()) {
            return Err(NewsApiError::UrlPreparingFailed);
        }
        if !fits(&serialize(&url), query.as_str()) {
            return Err(NewsApiError::UrlPreparingFailed);
        }
        set_query(&mut url, query.as_str());
        Ok(serialize(&url))
    }
}

} // verus!
