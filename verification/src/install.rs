//! The `cargo install` command line that installs a recorded package again.

use crate::args::PushStr;
use crate::details::{details_args, DetailsView, PackageDetails};
use crate::error::{IdentifierError, IdentifierErrorView};
use crate::package::{parse_package, Package, PackageView};
use crate::source::source_args;
use crate::text::{join, joined, tokens};
use vstd::prelude::*;
use vstd::string::*;

verus! {

/// The arguments that install `package` again with the options `details`:
/// the subcommand, the caller's flags, the recorded options, the source,
/// and the package's name last.
pub open spec fn install_args(
    package: PackageView,
    details: DetailsView,
    force: bool,
    locked: bool,
) -> Seq<Seq<char>> {
    seq!["install"@] + (if force {
        seq!["--force"@]
    } else {
        seq![]
    }) + (if locked {
        seq!["--locked"@]
    } else {
        seq![]
    }) + details_args(details) + source_args(package.source) + seq![package.name]
}

/// What `install_command` owes for the identifier `id`.
pub open spec fn install_command_of(
    id: Seq<char>,
    details: DetailsView,
    force: bool,
    locked: bool,
) -> Result<Seq<Seq<char>>, IdentifierErrorView> {
    match parse_package(id) {
        Ok(package) => Ok(install_args(package, details, force, locked)),
        Err(e) => Err(e),
    }
}

/// What is to be said at the end of a run in which the installs of `failed`
/// failed: nothing where there is none, else a sentence that names them,
/// with `, ` between two names.
pub open spec fn failure_report_of(failed: Seq<Seq<char>>) -> Option<Seq<char>> {
    if failed.len() == 0 {
        None
    } else {
        Some("Failed to install some packages: "@ + joined(failed, ", "@))
    }
}

/// Builds the arguments of the `cargo install` call that installs `package`
/// again. `force` and `locked` ask for `--force` and `--locked`.
pub fn cargo_install_args(
    package: &Package,
    details: &PackageDetails,
    force: bool,
    locked: bool,
) -> (r: Vec<String>)
    ensures
        tokens(r@) == install_args(package@, details@, force, locked),
{
    let mut args: Vec<String> = Vec::new();
    args.push_str("install");
    if force {
        args.push_str("--force");
    }
    if locked {
        args.push_str("--locked");
    }
    details.add_cargo_args(&mut args);
    package.source.add_cargo_args(&mut args);
    args.push_str(package.name.as_str());
    proof {
        assert(tokens(args@) =~= install_args(package@, details@, force, locked));
    }
    args
}

/// Parses the identifier `id` and builds the arguments of the
/// `cargo install` call that installs the package again.
pub fn install_command(id: &str, details: &PackageDetails, force: bool, locked: bool) -> (r: Result<
    Vec<String>,
    IdentifierError,
>)
    ensures
        match r {
            Ok(args) => install_command_of(id@, details@, force, locked) == Ok::<
                Seq<Seq<char>>,
                IdentifierErrorView,
            >(tokens(args@)),
            Err(e) => install_command_of(id@, details@, force, locked) == Err::<
                Seq<Seq<char>>,
                IdentifierErrorView,
            >(e@),
        },
{
    match Package::from_str(id) {
        Ok(package) => Ok(cargo_install_args(&package, details, force, locked)),
        Err(e) => Err(e),
    }
}

/// Sums up a run: `None` where no install failed, else a report that names
/// the packages in `failed`.
pub fn failure_report(failed: &Vec<String>) -> (r: Option<String>)
    ensures
        match r {
            Some(report) => failure_report_of(tokens(failed@)) == Some(report@),
            None => failure_report_of(tokens(failed@)) is None,
        },
{
    if failed.is_empty() {
        None
    } else {
        let mut report = "Failed to install some packages: ".to_owned();
        let names = join(failed, ", ");
        report.append(names.as_str());
        Some(report)
    }
}

} // verus!
