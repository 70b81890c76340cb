//! The sources of runnables. Each scans one directory, described by a
//! `DirSnapshot`, and composes the shell command of the runnables it made.

use vstd::prelude::*;
use vstd::string::StringExecFns;
use crate::types::{ParamsView, RunnableParamsVariant, RunnableView};
use crate::text::opt_view;
use crate::sources::rust_bin::RustBinCommand;
use crate::sources::rust_lib::RustLibCommand;
use crate::sources::runfile::{runfile_scan, RunFileItem};
use crate::sources::rust_bin::rust_bin_scan;
use crate::sources::rust_lib::rust_lib_scan;
use crate::sources::shell::shell_scan;

pub mod runfile;
pub mod rust_bin;
pub mod rust_lib;
pub mod shell;

verus! {

/// The package section of a Cargo manifest.
#[derive(Clone, Debug)]
pub struct CargoPackage {
    pub name: String,
    pub description: Option<String>,
}

/// What the sources read from one directory.
#[derive(Clone, Debug)]
pub struct DirSnapshot {
    /// The directory itself.
    pub path: String,
    /// The names of the entries that are files, in listing order.
    pub files: Vec<String>,
    /// The tasks of `runfile.toml`, in file order, if it exists and parses.
    pub runfile: Option<Vec<(String, RunFileItem)>>,
    /// The package of `Cargo.toml`, if it exists and parses.
    pub package: Option<CargoPackage>,
    /// Whether `src/main.rs` is a file.
    pub has_main_rs: bool,
    /// Whether `src/lib.rs` is a file.
    pub has_lib_rs: bool,
}

/// The runnables that the source of kind `kind` finds in `d`.
pub open spec fn scan(kind: RunnableParamsVariant, d: DirSnapshot) -> Seq<RunnableView> {
    match kind {
        RunnableParamsVariant::RunFile => runfile_scan(d),
        RunnableParamsVariant::Shell => shell_scan(d),
        RunnableParamsVariant::RustBin => rust_bin_scan(d),
        RunnableParamsVariant::RustLib => rust_lib_scan(d),
        RunnableParamsVariant::Unset => Seq::<RunnableView>::empty(),
    }
}

/// The command that runs `cmd` in directory `dir`.
pub open spec fn cd_then(dir: Seq<char>, cmd: Seq<char>) -> Seq<char> {
    "cd "@ + dir + " && "@ + cmd
}

/// `cd <dir> && <cmd>`.
pub fn cd_command(dir: &str, cmd: &str) -> (r: String)
    ensures
        r@ == cd_then(dir@, cmd@),
{
    let mut r = String::from_str("cd ");
    r.append(dir);
    r.append(" && ");
    r.append(cmd);
    r
}

/// A package directory with both entry points yields two runnables, one of
/// each kind, both with the package's name and description.
pub proof fn lemma_bin_and_lib(d: DirSnapshot)
    requires
        d.package is Some,
        d.has_main_rs,
        d.has_lib_rs,
    ensures
        rust_bin_scan(d).len() == 1,
        rust_lib_scan(d).len() == 1,
        rust_bin_scan(d)[0].params == ParamsView::RustBin(RustBinCommand::Run),
        rust_lib_scan(d)[0].params == ParamsView::RustLib(RustLibCommand::Publish),
        rust_bin_scan(d)[0].name == d.package->0.name@,
        rust_lib_scan(d)[0].name == d.package->0.name@,
        rust_bin_scan(d)[0].description == opt_view(d.package->0.description),
        rust_lib_scan(d)[0].description == opt_view(d.package->0.description),
        rust_bin_scan(d)[0].path == d.path@,
        rust_lib_scan(d)[0].path == d.path@,
{
}

} // verus!
