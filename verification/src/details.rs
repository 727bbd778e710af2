//! The options that a package was installed with.

use crate::args::PushStr;
use crate::text::{join, joined, tokens};
use vstd::prelude::*;
use vstd::string::*;

verus! {

/// What Cargo records of one installed package.
#[derive(Debug, Clone, PartialEq, Eq)]
pub struct PackageDetails {
    /// The version requirement that was asked for, if any.
    pub version_req: Option<String>,
    /// The binaries that the install produced.
    pub bins: Vec<String>,
    /// The features that were switched on, in the order they are recorded.
    pub features: Vec<String>,
    /// Whether every feature was switched on.
    pub all_features: bool,
    /// Whether the default features were switched off.
    pub no_default_features: bool,
    /// The build profile. Recorded, never handed on.
    pub profile: String,
    /// The target triple that the package was built for.
    pub target: String,
    /// The compiler's version. Recorded, never handed on.
    pub rustc: String,
}

/// The mathematical value of a [`PackageDetails`].
pub struct DetailsView {
    pub version_req: Option<Seq<char>>,
    pub bins: Seq<Seq<char>>,
    pub features: Seq<Seq<char>>,
    pub all_features: bool,
    pub no_default_features: bool,
    pub profile: Seq<char>,
    pub target: Seq<char>,
    pub rustc: Seq<char>,
}

impl View for PackageDetails {
    type V = DetailsView;

    open spec fn view(&self) -> DetailsView {
        DetailsView {
            version_req: match self.version_req {
                Some(v) => Some(v@),
                None => None,
            },
            bins: tokens(self.bins@),
            features: tokens(self.features@),
            all_features: self.all_features,
            no_default_features: self.no_default_features,
            profile: self.profile@,
            target: self.target@,
            rustc: self.rustc@,
        }
    }
}

/// The `cargo install` arguments that restore the recorded features and
/// target. The profile and the compiler's version give none.
pub open spec fn details_args(details: DetailsView) -> Seq<Seq<char>> {
    (if details.features.len() > 0 {
        seq!["--features"@, joined(details.features, ","@)]
    } else {
        seq![]
    }) + (if details.all_features {
        seq!["--all-features"@]
    } else {
        seq![]
    }) + (if details.no_default_features {
        seq!["--no-default-features"@]
    } else {
        seq![]
    }) + seq!["--target"@, details.target]
}

impl PackageDetails {
    /// Appends the `cargo install` arguments that restore these options.
    pub fn add_cargo_args(&self, args: &mut Vec<String>)
        ensures
            tokens(final(args)@) == tokens(old(args)@) + details_args(self@),
    {
        if !self.features.is_empty() {
            let features = join(&self.features, ",");
            args.push_str("--features").push_str(features.as_str());
        }
        if self.all_features {
            args.push_str("--all-features");
        }
        if self.no_default_features {
            args.push_str("--no-default-features");
        }
        args.push_str("--target").push_str(self.target.as_str());
        proof {
            assert(tokens(args@) =~= tokens(old(args)@) + details_args(self@));
        }
    }
}

} // verus!
