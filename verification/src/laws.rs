//! What holds of the parsers and of the argument builder on every input.

use crate::error::{IdentifierErrorView, ParseErrorView};
use crate::package::{
    identifier_text, is_token, parse_package, split_identifier, well_formed, IdentifierParts,
    PackageView,
};
use crate::source::{parse_source, selectors, source_args, source_from_parts, SourceView};
use crate::text::{
    find_char, is_whitespace, lemma_find_char, lemma_find_char_unique, lemma_token_end,
    lemma_token_end_unique, token_end,
};
use crate::url_parts::{url_parts, UrlPartsView};
use vstd::prelude::*;

verus! {

/// The source text that is written from a kind and a URL.
pub open spec fn source_text(kind: Seq<char>, url: Seq<char>) -> Seq<char> {
    kind + seq!['+'] + url
}

/// Whether `key` is a query key that selects nothing: neither `branch` nor
/// `tag`.
pub open spec fn is_unknown_key(key: Seq<char>) -> bool {
    key != "branch"@ && key != "tag"@
}

/// The kind of a source text ends at its first `+`: a later `+` belongs to
/// the URL. So a text written from a kind without `+` and a URL is read as
/// that kind and that URL.
pub proof fn law_source_text_splits(kind: Seq<char>, url: Seq<char>)
    requires
        !kind.contains('+'),
    ensures
        parse_source(source_text(kind, url)) == (if url.len() == 0 {
            Err::<SourceView, ParseErrorView>(ParseErrorView::EmptyUrl)
        } else {
            match url_parts(url) {
                Err(diagnostic) => Err(ParseErrorView::InvalidUrl(diagnostic)),
                Ok(parts) => source_from_parts(kind, parts),
            }
        }),
{
    let s = source_text(kind, url);
    let k = kind.len() as int;
    assert forall|j: int| 0 <= j < k implies s[j] != '+' by {
        assert(s[j] == kind[j]);
        assert(kind.contains(kind[j]));
    }
    assert(s[k] == '+');
    lemma_find_char_unique(s, '+', 0, k);
    assert(s.subrange(0, k) =~= kind);
    assert(s.subrange(k + 1, s.len() as int) =~= url);
}

/// A source text without a `+` is rejected for its missing kind.
pub proof fn law_missing_source_kind(s: Seq<char>)
    requires
        !s.contains('+'),
    ensures
        parse_source(s) == Err::<SourceView, ParseErrorView>(ParseErrorView::MissingSourceKind),
{
    lemma_find_char(s, '+', 0);
    let i = find_char(s, '+', 0);
    if i < s.len() {
        assert(s.contains(s[i]));
    }
}

/// A source text whose URL the URL parser rejects is rejected with the
/// parser's diagnostic, whatever its kind.
pub proof fn law_invalid_url(kind: Seq<char>, url: Seq<char>, diagnostic: Seq<char>)
    requires
        !kind.contains('+'),
        url.len() > 0,
        url_parts(url) == Err::<UrlPartsView, Seq<char>>(diagnostic),
    ensures
        parse_source(source_text(kind, url)) == Err::<SourceView, ParseErrorView>(
            ParseErrorView::InvalidUrl(diagnostic),
        ),
{
    law_source_text_splits(kind, url);
}

/// A query is rejected exactly where it holds a key other than `branch` and
/// `tag`, and then for the first such key.
pub proof fn law_selectors_reject_first_unknown(query: Seq<(Seq<char>, Seq<char>)>)
    ensures
        selectors(query) is Err <==> exists|i: int|
            0 <= i < query.len() && is_unknown_key(#[trigger] query[i].0),
        selectors(query) is Err ==> exists|i: int|
            0 <= i < query.len() && selectors(query)->Err_0 == #[trigger] query[i].0
                && is_unknown_key(query[i].0) && forall|j: int|
                0 <= j < i ==> !is_unknown_key(#[trigger] query[j].0),
    decreases query.len(),
{
    if query.len() > 0 {
        let front = query.drop_last();
        let last = query.len() - 1;
        law_selectors_reject_first_unknown(front);
        assert forall|j: int| 0 <= j < last implies front[j] == query[j] by {}
        if selectors(front) is Err {
            let i = choose|i: int|
                0 <= i < front.len() && selectors(front)->Err_0 == #[trigger] front[i].0
                    && is_unknown_key(front[i].0) && forall|j: int|
                    0 <= j < i ==> !is_unknown_key(#[trigger] front[j].0);
            assert(is_unknown_key(query[i].0));
            assert(selectors(query)->Err_0 == query[i].0);
            assert forall|j: int| 0 <= j < i implies !is_unknown_key(#[trigger] query[j].0) by {
                assert(front[j] == query[j]);
            }
        } else {
            assert forall|j: int| 0 <= j < last implies !is_unknown_key(
                #[trigger] query[j].0,
            ) by {
                assert(front[j] == query[j]);
                if is_unknown_key(query[j].0) {
                    assert(is_unknown_key(front[j].0));
                }
            }
            if is_unknown_key(query[last].0) {
                assert(selectors(query)->Err_0 == query[last].0);
            } else {
                assert forall|i: int| 0 <= i < query.len() implies !is_unknown_key(
                    #[trigger] query[i].0,
                ) by {}
            }
        }
    }
}

/// A source text whose URL holds a query key other than `branch` and `tag`
/// is rejected for the first such key, whatever its kind.
pub proof fn law_unknown_query_parameter(
    kind: Seq<char>,
    url: Seq<char>,
    parts: UrlPartsView,
    i: int,
)
    requires
        !kind.contains('+'),
        url.len() > 0,
        url_parts(url) == Ok::<UrlPartsView, Seq<char>>(parts),
        0 <= i < parts.query.len(),
        is_unknown_key(parts.query[i].0),
        forall|j: int| 0 <= j < i ==> !is_unknown_key(#[trigger] parts.query[j].0),
    ensures
        parse_source(source_text(kind, url)) == Err::<SourceView, ParseErrorView>(
            ParseErrorView::UnknownQueryParameter(parts.query[i].0),
        ),
{
    law_source_text_splits(kind, url);
    law_selectors_reject_first_unknown(parts.query);
    let k = choose|k: int|
        0 <= k < parts.query.len() && selectors(parts.query)->Err_0 == #[trigger] parts.query[k].0
            && is_unknown_key(parts.query[k].0) && forall|j: int|
            0 <= j < k ==> !is_unknown_key(#[trigger] parts.query[j].0);
    assert(k == i) by {
        if k < i {
            assert(!is_unknown_key(parts.query[k].0));
        }
        if i < k {
            assert(!is_unknown_key(parts.query[i].0));
        }
    }
}

/// A source text whose kind is none of `registry`, `git` and `path` is
/// rejected for its kind, where its URL parses and its query holds no key
/// but `branch` and `tag`.
pub proof fn law_unknown_source_kind(kind: Seq<char>, url: Seq<char>, parts: UrlPartsView)
    requires
        !kind.contains('+'),
        kind != "registry"@,
        kind != "git"@,
        kind != "path"@,
        url.len() > 0,
        url_parts(url) == Ok::<UrlPartsView, Seq<char>>(parts),
        selectors(parts.query) is Ok,
    ensures
        parse_source(source_text(kind, url)) == Err::<SourceView, ParseErrorView>(
            ParseErrorView::UnknownSourceKind(kind),
        ),
{
    law_source_text_splits(kind, url);
}

/// A git source whose URL holds no query parameter selects neither a branch
/// nor a tag, and keeps the URL without its fragment.
pub proof fn law_git_without_query(url: Seq<char>, parts: UrlPartsView)
    requires
        url.len() > 0,
        url_parts(url) == Ok::<UrlPartsView, Seq<char>>(parts),
        parts.query.len() == 0,
    ensures
        parse_source(source_text("git"@, url)) == Ok::<SourceView, ParseErrorView>(
            SourceView::Git { url: parts.location, branch: None, tag: None },
        ),
{
    reveal_strlit("git");
    reveal_strlit("registry");
    law_source_text_splits("git"@, url);
}

/// A git source whose query is `branch=X` selects the branch `X`, and its
/// arguments name the branch after the repository.
pub proof fn law_git_branch(url: Seq<char>, parts: UrlPartsView, branch: Seq<char>)
    requires
        url.len() > 0,
        url_parts(url) == Ok::<UrlPartsView, Seq<char>>(parts),
        parts.query == seq![("branch"@, branch)],
    ensures
        parse_source(source_text("git"@, url)) == Ok::<SourceView, ParseErrorView>(
            SourceView::Git { url: parts.location, branch: Some(branch), tag: None },
        ),
        source_args(SourceView::Git { url: parts.location, branch: Some(branch), tag: None })
            == seq!["--git"@, parts.location, "--branch"@, branch],
{
    reveal_strlit("git");
    reveal_strlit("registry");
    law_source_text_splits("git"@, url);
    assert(parts.query.drop_last() =~= Seq::empty());
    assert(selectors(parts.query.drop_last()) == Ok::<
        (Option<Seq<char>>, Option<Seq<char>>),
        Seq<char>,
    >((None, None)));
    assert(parts.query.last() == ("branch"@, branch));
    assert(source_args(SourceView::Git { url: parts.location, branch: Some(branch), tag: None })
        =~= seq!["--git"@, parts.location, "--branch"@, branch]);
}

/// Whatever the identifier parser takes apart is well formed, and is
/// written back as the text that was parsed.
pub proof fn law_identifier_parts_write_back(s: Seq<char>)
    requires
        split_identifier(s) is Some,
    ensures
        well_formed(split_identifier(s)->Some_0),
        identifier_text(split_identifier(s)->Some_0) == s,
{
    let parts = split_identifier(s)->Some_0;
    let n = s.len() as int;
    let a = token_end(s, 0);
    lemma_token_end(s, 0);
    lemma_token_end(s, a + 1);
    let b = token_end(s, a + 1);
    assert forall|i: int| 0 <= i < parts.name.len() implies !is_whitespace(
        #[trigger] parts.name[i],
    ) by {
        assert(parts.name[i] == s[i]);
    }
    assert forall|i: int| 0 <= i < parts.version.len() implies !is_whitespace(
        #[trigger] parts.version[i],
    ) by {
        assert(parts.version[i] == s[a + 1 + i]);
    }
    assert(identifier_text(parts) =~= s);
}

/// The text written from well-formed parts is taken apart into those parts
/// again: the identifier parser inverts the canonical form.
pub proof fn law_identifier_text_splits(parts: IdentifierParts)
    requires
        well_formed(parts),
    ensures
        split_identifier(identifier_text(parts)) == Some(parts),
{
    let s = identifier_text(parts);
    let n = s.len() as int;
    let a = parts.name.len() as int;
    let b = a + 1 + parts.version.len();
    assert forall|j: int| 0 <= j < a implies !is_whitespace(s[j]) by {
        assert(s[j] == parts.name[j]);
    }
    assert(s[a] == ' ');
    lemma_token_end_unique(s, 0, a);
    assert forall|j: int| a + 1 <= j < b implies !is_whitespace(s[j]) by {
        assert(s[j] == parts.version[j - (a + 1)]);
    }
    assert(s[b] == ' ');
    lemma_token_end_unique(s, a + 1, b);
    assert(s[b + 1] == '(');
    assert(s[n - 1] == ')');
    assert(s.subrange(0, a) =~= parts.name);
    assert(s.subrange(a + 1, b) =~= parts.version);
    assert(s.subrange(b + 2, n - 1) =~= parts.source);
}

/// A text that is not written from well-formed parts is rejected as
/// malformed, and with it any text that the parser does not take apart.
pub proof fn law_malformed_identifier(s: Seq<char>)
    ensures
        split_identifier(s) is None <==> forall|parts: IdentifierParts|
            well_formed(parts) ==> #[trigger] identifier_text(parts) != s,
        split_identifier(s) is None ==> parse_package(s) == Err::<
            PackageView,
            IdentifierErrorView,
        >(IdentifierErrorView { input: s, error: ParseErrorView::MalformedIdentifier }),
{
    if split_identifier(s) is Some {
        law_identifier_parts_write_back(s);
    } else {
        assert forall|parts: IdentifierParts| well_formed(parts) implies #[trigger] identifier_text(
            parts,
        ) != s by {
            law_identifier_text_splits(parts);
        }
    }
}

/// The identifier of a registry package whose URL is written as the URL
/// parser writes it, without query, parses to that name, version and URL,
/// and its arguments hand the same URL to `--index`.
pub proof fn law_registry_url_kept(
    name: Seq<char>,
    version: Seq<char>,
    url: Seq<char>,
    parts: UrlPartsView,
)
    requires
        well_formed(IdentifierParts { name, version, source: source_text("registry"@, url) }),
        url.len() > 0,
        url_parts(url) == Ok::<UrlPartsView, Seq<char>>(parts),
        parts.query.len() == 0,
        parts.location == url,
    ensures
        parse_package(
            identifier_text(
                IdentifierParts { name, version, source: source_text("registry"@, url) },
            ),
        ) == Ok::<PackageView, IdentifierErrorView>(
            PackageView { name, version, source: SourceView::Registry(url) },
        ),
        source_args(SourceView::Registry(url)) == seq!["--index"@, url],
{
    reveal_strlit("registry");
    law_identifier_text_splits(
        IdentifierParts { name, version, source: source_text("registry"@, url) },
    );
    law_source_text_splits("registry"@, url);
}

/// The name and the version of a parsed package are tokens: neither is
/// empty, and neither holds white space.
pub proof fn law_parsed_names_are_tokens(s: Seq<char>)
    requires
        parse_package(s) is Ok,
    ensures
        is_token(parse_package(s)->Ok_0.name),
        is_token(parse_package(s)->Ok_0.version),
{
    law_identifier_parts_write_back(s);
}

} // verus!
