//! The ways in which a package identifier can fail to parse.

use vstd::prelude::*;
use vstd::string::*;

verus! {

/// Why a package identifier, or the source text inside it, was rejected.
#[derive(Debug, Clone, PartialEq, Eq)]
pub enum ParseError {
    /// The text is not of the form `name version (source)`.
    MalformedIdentifier,
    /// The source text holds no `+` to end its kind.
    MissingSourceKind,
    /// Nothing follows the `+` of the source text.
    EmptyUrl,
    /// The URL parser rejected what follows the `+`; holds its diagnostic.
    InvalidUrl(String),
    /// The URL's query holds a key other than `branch` and `tag`; holds the key.
    UnknownQueryParameter(String),
    /// The kind is none of `registry`, `git` and `path`; holds the kind.
    UnknownSourceKind(String),
}

/// The mathematical value of a [`ParseError`].
pub enum ParseErrorView {
    MalformedIdentifier,
    MissingSourceKind,
    EmptyUrl,
    InvalidUrl(Seq<char>),
    UnknownQueryParameter(Seq<char>),
    UnknownSourceKind(Seq<char>),
}

impl View for ParseError {
    type V = ParseErrorView;

    open spec fn view(&self) -> ParseErrorView {
        match self {
            ParseError::MalformedIdentifier => ParseErrorView::MalformedIdentifier,
            ParseError::MissingSourceKind => ParseErrorView::MissingSourceKind,
            ParseError::EmptyUrl => ParseErrorView::EmptyUrl,
            ParseError::InvalidUrl(diagnostic) => ParseErrorView::InvalidUrl(diagnostic@),
            ParseError::UnknownQueryParameter(key) => ParseErrorView::UnknownQueryParameter(key@),
            ParseError::UnknownSourceKind(kind) => ParseErrorView::UnknownSourceKind(kind@),
        }
    }
}

/// A [`ParseError`] together with the identifier that it was found in.
#[derive(Debug, Clone, PartialEq, Eq)]
pub struct IdentifierError {
    /// The identifier as it was given.
    pub input: String,
    /// What was wrong with it.
    pub error: ParseError,
}

/// The mathematical value of an [`IdentifierError`].
pub struct IdentifierErrorView {
    pub input: Seq<char>,
    pub error: ParseErrorView,
}

impl View for IdentifierError {
    type V = IdentifierErrorView;

    open spec fn view(&self) -> IdentifierErrorView {
        IdentifierErrorView { input: self.input@, error: self.error@ }
    }
}

/// The sentence that tells a user of `error`.
pub open spec fn message_of(error: ParseErrorView) -> Seq<char> {
    match error {
        ParseErrorView::MalformedIdentifier => "couldn't parse package name"@,
        ParseErrorView::MissingSourceKind => "No package source kind found"@,
        ParseErrorView::EmptyUrl => "Package source URL is empty"@,
        ParseErrorView::InvalidUrl(diagnostic) => "Failed to parse package source URL: "@
            + diagnostic,
        ParseErrorView::UnknownQueryParameter(key) => "Unknown URL query parameter '"@ + key
            + "'"@,
        ParseErrorView::UnknownSourceKind(kind) => "Unknown package source kind '"@ + kind + "'"@,
    }
}

/// The sentence that tells a user of `error` and of the identifier that it
/// was found in.
pub open spec fn identifier_message_of(error: IdentifierErrorView) -> Seq<char> {
    "Failed to parse package id '"@ + error.input + "': "@ + message_of(error.error)
}

impl ParseError {
    /// Writes the error as a sentence for the user.
    pub fn message(&self) -> (r: String)
        ensures
            r@ == message_of(self@),
    {
        match self {
            ParseError::MalformedIdentifier => "couldn't parse package name".to_owned(),
            ParseError::MissingSourceKind => "No package source kind found".to_owned(),
            ParseError::EmptyUrl => "Package source URL is empty".to_owned(),
            ParseError::InvalidUrl(diagnostic) => {
                "Failed to parse package source URL: ".to_owned().concat(diagnostic.as_str())
            },
            ParseError::UnknownQueryParameter(key) => {
                "Unknown URL query parameter '".to_owned().concat(key.as_str()).concat("'")
            },
            ParseError::UnknownSourceKind(kind) => {
                "Unknown package source kind '".to_owned().concat(kind.as_str()).concat("'")
            },
        }
    }
}

impl IdentifierError {
    /// Writes the error as a sentence for the user, the identifier first.
    pub fn message(&self) -> (r: String)
        ensures
            r@ == identifier_message_of(self@),
    {
        let cause = self.error.message();
        "Failed to parse package id '".to_owned().concat(self.input.as_str()).concat("': ").concat(
            cause.as_str(),
        )
    }
}

} // verus!
