//! Where an installed package came from, read from the `kind+url` text of
//! its identifier.

use crate::args::PushStr;
use crate::error::{ParseError, ParseErrorView};
use crate::text::{chars_of, find_char, index_of, same_text, tokens};
use crate::url_parts::{decode_url, pairs, url_parts, UrlParts, UrlPartsView};
use vstd::prelude::*;
use vstd::string::*;

verus! {

/// The origin of an installed package.
#[derive(Debug, Clone, PartialEq, Eq)]
pub enum PackageSource {
    /// Installed from the registry at this URL.
    Registry(String),
    /// Installed from the git repository at this URL, at a branch or tag
    /// where one was asked for.
    Git { url: String, branch: Option<String>, tag: Option<String> },
    /// Installed from this directory of the file system.
    Path(String),
}

/// The mathematical value of a [`PackageSource`].
pub enum SourceView {
    Registry(Seq<char>),
    Git { url: Seq<char>, branch: Option<Seq<char>>, tag: Option<Seq<char>> },
    Path(Seq<char>),
}

/// The characters of an optional text.
pub open spec fn optional_text(o: Option<String>) -> Option<Seq<char>> {
    match o {
        Some(s) => Some(s@),
        None => None,
    }
}

impl View for PackageSource {
    type V = SourceView;

    open spec fn view(&self) -> SourceView {
        match self {
            PackageSource::Registry(url) => SourceView::Registry(url@),
            PackageSource::Git { url, branch, tag } => SourceView::Git {
                url: url@,
                branch: optional_text(*branch),
                tag: optional_text(*tag),
            },
            PackageSource::Path(path) => SourceView::Path(path@),
        }
    }
}

/// The value of what a source parser hands back.
pub open spec fn source_outcome(r: Result<PackageSource, ParseError>) -> Result<
    SourceView,
    ParseErrorView,
> {
    match r {
        Ok(source) => Ok(source@),
        Err(e) => Err(e@),
    }
}

/// The branch and the tag that a query selects, or the first key in it that
/// is neither `branch` nor `tag`. Where a key comes twice, its last value
/// stands.
pub open spec fn selectors(query: Seq<(Seq<char>, Seq<char>)>) -> Result<
    (Option<Seq<char>>, Option<Seq<char>>),
    Seq<char>,
>
    decreases query.len(),
{
    if query.len() == 0 {
        Ok((None, None))
    } else {
        match selectors(query.drop_last()) {
            Err(key) => Err(key),
            Ok((branch, tag)) => {
                let (key, value) = query.last();
                if key == "branch"@ {
                    Ok((Some(value), tag))
                } else if key == "tag"@ {
                    Ok((branch, Some(value)))
                } else {
                    Err(key)
                }
            },
        }
    }
}

/// The source that a kind and the parts of a URL describe.
pub open spec fn source_from_parts(kind: Seq<char>, parts: UrlPartsView) -> Result<
    SourceView,
    ParseErrorView,
> {
    match selectors(parts.query) {
        Err(key) => Err(ParseErrorView::UnknownQueryParameter(key)),
        Ok((branch, tag)) => {
            if kind == "registry"@ {
                Ok(SourceView::Registry(parts.location))
            } else if kind == "git"@ {
                Ok(SourceView::Git { url: parts.location, branch, tag })
            } else if kind == "path"@ {
                Ok(SourceView::Path(parts.path))
            } else {
                Err(ParseErrorView::UnknownSourceKind(kind))
            }
        },
    }
}

/// The source that the text `kind+url` describes: the kind ends at the
/// first `+`, and the rest is a URL.
pub open spec fn parse_source(s: Seq<char>) -> Result<SourceView, ParseErrorView> {
    let plus = find_char(s, '+', 0);
    if plus >= s.len() {
        Err(ParseErrorView::MissingSourceKind)
    } else if plus + 1 == s.len() {
        Err(ParseErrorView::EmptyUrl)
    } else {
        match url_parts(s.subrange(plus + 1, s.len() as int)) {
            Err(diagnostic) => Err(ParseErrorView::InvalidUrl(diagnostic)),
            Ok(parts) => source_from_parts(s.subrange(0, plus), parts),
        }
    }
}

/// The `cargo install` arguments that select a source.
pub open spec fn source_args(source: SourceView) -> Seq<Seq<char>> {
    match source {
        SourceView::Registry(url) => seq!["--index"@, url],
        SourceView::Git { url, branch, tag } => seq!["--git"@, url] + (match branch {
            Some(b) => seq!["--branch"@, b],
            None => seq![],
        }) + (match tag {
            Some(t) => seq!["--tag"@, t],
            None => seq![],
        }),
        SourceView::Path(path) => seq!["--path"@, path],
    }
}

/// A key that a prefix of a query is rejected for rejects the whole query.
pub proof fn lemma_selectors_rejects(query: Seq<(Seq<char>, Seq<char>)>, n: int)
    requires
        0 <= n <= query.len(),
        selectors(query.subrange(0, n)) is Err,
    ensures
        selectors(query) == selectors(query.subrange(0, n)),
    decreases query.len() - n,
{
    if n < query.len() {
        assert(query.subrange(0, n + 1).drop_last() =~= query.subrange(0, n));
        lemma_selectors_rejects(query, n + 1);
    } else {
        assert(query.subrange(0, n) =~= query);
    }
}

impl PackageSource {
    /// Parses the `kind+url` text of a package identifier, such as
    /// `registry+https://github.com/rust-lang/crates.io-index` or
    /// `git+https://github.com/aswild/bcut?branch=master#046894c`.
    pub fn from_str(s: &str) -> (r: Result<PackageSource, ParseError>)
        ensures
            source_outcome(r) == parse_source(s@),
    {
        let chars = chars_of(s);
        let n = chars.len();
        let plus = index_of(&chars, '+', 0);
        if plus >= n {
            return Err(ParseError::MissingSourceKind);
        }
        if plus + 1 == n {
            return Err(ParseError::EmptyUrl);
        }
        let kind = s.substring_char(0, plus);
        let rest = s.substring_char(plus + 1, n);
        match decode_url(rest) {
            Err(diagnostic) => Err(ParseError::InvalidUrl(diagnostic)),
            Ok(parts) => Self::from_parts(kind, parts),
        }
    }

    /// Makes a source of a kind and the parts of its URL: captures the
    /// `branch` and `tag` of the query, rejects any other key, then goes by
    /// the kind.
    pub fn from_parts(kind: &str, parts: UrlParts) -> (r: Result<PackageSource, ParseError>)
        ensures
            source_outcome(r) == source_from_parts(kind@, parts@),
    {
        let ghost query = pairs(parts.query@);
        let mut branch: Option<String> = None;
        let mut tag: Option<String> = None;
        let mut i: usize = 0;
        while i < parts.query.len()
            invariant
                i <= parts.query.len(),
                query == pairs(parts.query@),
                selectors(query.subrange(0, i as int)) == Ok::<
                    (Option<Seq<char>>, Option<Seq<char>>),
                    Seq<char>,
                >((optional_text(branch), optional_text(tag))),
            decreases parts.query.len() - i,
        {
            proof {
                assert(query.subrange(0, i + 1).drop_last() =~= query.subrange(0, i as int));
                assert(query.subrange(0, i + 1).last() == query[i as int]);
            }
            let key = parts.query[i].0.as_str();
            if same_text(key, "branch") {
                branch = Some(parts.query[i].1.clone());
            } else if same_text(key, "tag") {
                tag = Some(parts.query[i].1.clone());
            } else {
                proof {
                    lemma_selectors_rejects(query, i + 1);
                }
                return Err(ParseError::UnknownQueryParameter(parts.query[i].0.clone()));
            }
            i = i + 1;
        }
        proof {
            assert(query.subrange(0, i as int) =~= query);
        }
        if same_text(kind, "registry") {
            Ok(PackageSource::Registry(parts.location))
        } else if same_text(kind, "git") {
            Ok(PackageSource::Git { url: parts.location, branch, tag })
        } else if same_text(kind, "path") {
            Ok(PackageSource::Path(parts.path))
        } else {
            Err(ParseError::UnknownSourceKind(kind.to_owned()))
        }
    }

    /// Appends the `cargo install` arguments that select this source.
    pub fn add_cargo_args(&self, args: &mut Vec<String>)
        ensures
            tokens(final(args)@) == tokens(old(args)@) + source_args(self@),
    {
        match self {
            PackageSource::Registry(url) => {
                args.push_str("--index").push_str(url.as_str());
            },
            PackageSource::Git { url, branch, tag } => {
                args.push_str("--git").push_str(url.as_str());
                if let Some(b) = branch {
                    args.push_str("--branch").push_str(b.as_str());
                }
                if let Some(t) = tag {
                    args.push_str("--tag").push_str(t.as_str());
                }
            },
            PackageSource::Path(path) => {
                args.push_str("--path").push_str(path.as_str());
            },
        }
        proof {
            assert(tokens(args@) =~= tokens(old(args)@) + source_args(self@));
        }
    }
}

impl std::str::FromStr for PackageSource {
    type Err = ParseError;

    /// Parses the `kind+url` text of a package identifier.
    fn from_str(s: &str) -> (r: Result<PackageSource, ParseError>)
        ensures
            source_outcome(r) == parse_source(s@),
    {
        PackageSource::from_str(s)
    }
}

} // verus!
