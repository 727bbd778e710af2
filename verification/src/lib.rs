//! Decoding of Cargo's installation metadata, and the `cargo install`
//! command lines that install again what it records.
//!
//! A package identifier such as
//! `bat 0.18.0 (registry+https://github.com/rust-lang/crates.io-index)` is
//! parsed into a [`Package`]; the [`PackageSource`] in it and the recorded
//! [`PackageDetails`] are then written out as the arguments of the call that
//! installs the package again. Every function here is a pure function of its
//! arguments.

pub mod args;
pub mod crates2;
pub mod details;
pub mod error;
pub mod filter;
pub mod install;
pub mod laws;
pub mod package;
pub mod source;
pub mod text;
pub mod url_parts;

pub use args::PushStr;
pub use crates2::Crates2;
pub use details::PackageDetails;
pub use error::{IdentifierError, ParseError};
pub use package::Package;
pub use source::PackageSource;
