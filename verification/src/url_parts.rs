//! What the source parser reads of a URL, and the one call into the `url`
//! crate that yields it.

use url::Url;
use vstd::prelude::*;
use vstd::string::*;

verus! {

/// The pieces of a parsed URL that a package source is made of.
#[derive(Debug, Clone, PartialEq, Eq)]
pub struct UrlParts {
    /// The URL as the `url` crate writes it, without its query and fragment.
    pub location: String,
    /// The path component of `location`.
    pub path: String,
    /// The decoded key/value pairs of the query string, in their order.
    pub query: Vec<(String, String)>,
}

/// The mathematical value of a [`UrlParts`].
pub struct UrlPartsView {
    pub location: Seq<char>,
    pub path: Seq<char>,
    pub query: Seq<(Seq<char>, Seq<char>)>,
}

/// What a list of key/value pairs holds: the characters of each key and
/// value, in order.
pub open spec fn pairs(v: Seq<(String, String)>) -> Seq<(Seq<char>, Seq<char>)> {
    Seq::new(v.len(), |i: int| (v[i].0@, v[i].1@))
}

impl View for UrlParts {
    type V = UrlPartsView;

    open spec fn view(&self) -> UrlPartsView {
        UrlPartsView { location: self.location@, path: self.path@, query: pairs(self.query@) }
    }
}

/// What the `url` crate makes of `text`: the parts of the URL it parses as,
/// or the parser's diagnostic where it rejects `text`.
pub uninterp spec fn url_parts(text: Seq<char>) -> Result<UrlPartsView, Seq<char>>;

/// Parses `text` with `url::Url::parse` and takes the URL apart.
///
/// Not proved, but taken from the `url` crate: on success the fragment is
/// dropped with `Url::set_fragment(None)`, the query pairs are read with
/// `Url::query_pairs`, the query is dropped with `Url::set_query(None)`, and
/// `Url::path` and the URL's serialization give the rest. On failure the
/// `Display` text of the crate's `ParseError` is returned. The contract
/// claims only that the outcome is a function of `text`, which it names
/// [`url_parts`].
#[verifier::external_body]
pub(crate) fn decode_url(text: &str) -> (r: Result<UrlParts, String>)
    ensures
        match r {
            Ok(parts) => url_parts(text@) == Ok::<UrlPartsView, Seq<char>>(parts@),
            Err(diagnostic) => url_parts(text@) == Err::<UrlPartsView, Seq<char>>(diagnostic@),
        },
{
    match Url::parse(text) {
        Ok(mut url) => {
            url.set_fragment(None);
            let query = url.query_pairs().into_owned().collect();
            url.set_query(None);
            let path = url.path().to_owned();
            Ok(UrlParts { location: url.into(), path, query })
        },
        Err(e) => Err(e.to_string()),
    }
}

} // verus!
