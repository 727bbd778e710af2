//! The record that Cargo keeps of what it installed.

use crate::details::PackageDetails;
use std::collections::BTreeMap;
use vstd::prelude::*;

verus! {

/// The content of Cargo's `.crates2.json`: the options of each installed
/// package, keyed by the package's identifier.
#[derive(Debug, Clone, PartialEq, Eq)]
pub struct Crates2 {
    pub installs: BTreeMap<String, PackageDetails>,
}

} // verus!
