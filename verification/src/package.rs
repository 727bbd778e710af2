//! Package identifiers of the form `name version (kind+url)`.

use crate::error::{IdentifierError, IdentifierErrorView, ParseError, ParseErrorView};
use crate::source::{parse_source, PackageSource, SourceView};
use crate::text::{chars_of, end_of_token, index_of, is_whitespace, lemma_find_char, token_end};
use vstd::prelude::*;
use vstd::string::*;

verus! {

/// An installed package: its name, its version and where it came from.
#[derive(Debug, Clone, PartialEq, Eq)]
pub struct Package {
    pub name: String,
    pub version: String,
    pub source: PackageSource,
}

/// The mathematical value of a [`Package`].
pub struct PackageView {
    pub name: Seq<char>,
    pub version: Seq<char>,
    pub source: SourceView,
}

impl View for Package {
    type V = PackageView;

    open spec fn view(&self) -> PackageView {
        PackageView { name: self.name@, version: self.version@, source: self.source@ }
    }
}

/// The three texts that an identifier is written from.
pub struct IdentifierParts {
    pub name: Seq<char>,
    pub version: Seq<char>,
    pub source: Seq<char>,
}

/// Whether `text` is a token: not empty, and free of white space.
pub open spec fn is_token(text: Seq<char>) -> bool {
    text.len() > 0 && forall|i: int| 0 <= i < text.len() ==> !is_whitespace(#[trigger] text[i])
}

/// Whether `text` can stand between the brackets of an identifier: not
/// empty, and on one line.
pub open spec fn is_source_text(text: Seq<char>) -> bool {
    text.len() > 0 && forall|i: int| 0 <= i < text.len() ==> #[trigger] text[i] != '\n'
}

/// The canonical text of an identifier: `name version (source)`.
pub open spec fn identifier_text(parts: IdentifierParts) -> Seq<char> {
    parts.name + seq![' '] + parts.version + seq![' ', '('] + parts.source + seq![')']
}

/// Whether `parts` are texts that an identifier can be written from.
pub open spec fn well_formed(parts: IdentifierParts) -> bool {
    is_token(parts.name) && is_token(parts.version) && is_source_text(parts.source)
}

/// The parts of the identifier `s`, where it has the form
/// `name version (source)`: two tokens, one space after each, and a
/// bracketed source that ends the text.
pub open spec fn split_identifier(s: Seq<char>) -> Option<IdentifierParts> {
    let n = s.len() as int;
    let a = token_end(s, 0);
    let b = token_end(s, a + 1);
    if 0 < a && a + 1 < b && b + 3 < n && s[a] == ' ' && s[b] == ' ' && s[b + 1] == '(' && s[n
        - 1] == ')' && is_source_text(s.subrange(b + 2, n - 1)) {
        Some(
            IdentifierParts {
                name: s.subrange(0, a),
                version: s.subrange(a + 1, b),
                source: s.subrange(b + 2, n - 1),
            },
        )
    } else {
        None
    }
}

/// What the identifier `s` describes.
pub open spec fn parse_package(s: Seq<char>) -> Result<PackageView, IdentifierErrorView> {
    match split_identifier(s) {
        None => Err(IdentifierErrorView { input: s, error: ParseErrorView::MalformedIdentifier }),
        Some(parts) => match parse_source(parts.source) {
            Ok(source) => Ok(PackageView { name: parts.name, version: parts.version, source }),
            Err(error) => Err(IdentifierErrorView { input: s, error }),
        },
    }
}

/// The value of what the identifier parser hands back.
pub open spec fn package_outcome(r: Result<Package, IdentifierError>) -> Result<
    PackageView,
    IdentifierErrorView,
> {
    match r {
        Ok(package) => Ok(package@),
        Err(e) => Err(e@),
    }
}

impl Package {
    /// Parses a package identifier, such as
    /// `bat 0.18.0 (registry+https://github.com/rust-lang/crates.io-index)`.
    pub fn from_str(s: &str) -> (r: Result<Package, IdentifierError>)
        ensures
            package_outcome(r) == parse_package(s@),
    {
        let chars = chars_of(s);
        let n = chars.len();
        let a = end_of_token(&chars, 0);
        if a == 0 || a >= n || chars[a] != ' ' {
            return Err(IdentifierError { input: s.to_owned(), error: ParseError::MalformedIdentifier });
        }
        let b = end_of_token(&chars, a + 1);
        if b <= a + 1 || b >= n || chars[b] != ' ' {
            return Err(IdentifierError { input: s.to_owned(), error: ParseError::MalformedIdentifier });
        }
        if n - b <= 3 || chars[b + 1] != '(' || chars[n - 1] != ')' {
            return Err(IdentifierError { input: s.to_owned(), error: ParseError::MalformedIdentifier });
        }
        let newline = index_of(&chars, '\n', b + 2);
        proof {
            lemma_find_char(s@, '\n', b + 2);
            let text = s@.subrange(b + 2, n - 1);
            if newline < n - 1 {
                assert(text[newline - (b + 2)] == '\n');
            } else {
                assert forall|i: int| 0 <= i < text.len() implies #[trigger] text[i] != '\n' by {
                    assert(text[i] == s@[i + b + 2]);
                }
            }
        }
        if newline < n - 1 {
            return Err(IdentifierError { input: s.to_owned(), error: ParseError::MalformedIdentifier });
        }
        let name = s.substring_char(0, a);
        let version = s.substring_char(a + 1, b);
        let source = s.substring_char(b + 2, n - 1);
        match PackageSource::from_str(source) {
            Ok(source) => Ok(
                Package { name: name.to_owned(), version: version.to_owned(), source },
            ),
            Err(error) => Err(IdentifierError { input: s.to_owned(), error }),
        }
    }
}

impl std::str::FromStr for Package {
    type Err = IdentifierError;

    /// Parses a package identifier.
    fn from_str(s: &str) -> (r: Result<Package, IdentifierError>)
        ensures
            package_outcome(r) == parse_package(s@),
    {
        Package::from_str(s)
    }
}

} // verus!
