//! Cargo packages with a binary entry point.

use vstd::prelude::*;
use vstd::string::StringExecFns;
use crate::sources::{cd_command, cd_then, DirSnapshot};
use crate::text::{clone_opt, opt_view};
use crate::types::{ParamsView, Runnable, RunnableParams, RunnableView, runnable_views};

verus! {

/// What to do with a binary package.
#[derive(Clone, Copy, Debug, PartialEq, Eq, Structural)]
pub enum RustBinCommand {
    Run,
    RunRelease,
    Publish,
    Install,
    Build,
    BuildRelease,
    Test,
    Fmt,
    Check,
    Clippy,
}

/// The shell text of a binary-package command.
pub open spec fn bin_command_text(c: RustBinCommand) -> Seq<char> {
    match c {
        RustBinCommand::Run => "cargo run"@,
        RustBinCommand::RunRelease => "cargo run --release"@,
        RustBinCommand::Publish => "cargo publish"@,
        RustBinCommand::Install => "cargo install --path ."@,
        RustBinCommand::Test => "cargo test"@,
        RustBinCommand::Fmt => "cargo fmt"@,
        RustBinCommand::Check => "cargo check"@,
        RustBinCommand::Clippy => "cargo clippy"@,
        RustBinCommand::Build => "cargo build"@,
        RustBinCommand::BuildRelease => "cargo build --release"@,
    }
}

impl Default for RustBinCommand {
    fn default() -> (r: Self)
        ensures
            r == RustBinCommand::Run,
    {
        RustBinCommand::Run
    }
}

impl RustBinCommand {
    /// The shell text of this command.
    pub fn to_string(&self) -> (r: String)
        ensures
            r@ == bin_command_text(*self),
    {
        match self {
            RustBinCommand::Run => String::from_str("cargo run"),
            RustBinCommand::RunRelease => String::from_str("cargo run --release"),
            RustBinCommand::Publish => String::from_str("cargo publish"),
            RustBinCommand::Install => String::from_str("cargo install --path ."),
            RustBinCommand::Test => String::from_str("cargo test"),
            RustBinCommand::Fmt => String::from_str("cargo fmt"),
            RustBinCommand::Check => String::from_str("cargo check"),
            RustBinCommand::Clippy => String::from_str("cargo clippy"),
            RustBinCommand::Build => String::from_str("cargo build"),
            RustBinCommand::BuildRelease => String::from_str("cargo build --release"),
        }
    }
}

/// The parameters of a binary package: the chosen command.
#[derive(Clone, Copy, Debug)]
pub struct RustBinParams {
    pub command: RustBinCommand,
}

impl Default for RustBinParams {
    fn default() -> (r: Self)
        ensures
            r.command == RustBinCommand::Run,
    {
        RustBinParams { command: RustBinCommand::Run }
    }
}

/// The runnables that the binary-package source finds in `d`: one, named after
/// the package, where the manifest parses and `src/main.rs` is a file.
pub open spec fn rust_bin_scan(d: DirSnapshot) -> Seq<RunnableView> {
    match d.package {
        Some(p) => if d.has_main_rs {
            seq![
                RunnableView {
                    name: p.name@,
                    aliases: Seq::<Seq<char>>::empty(),
                    display_name: None,
                    description: opt_view(p.description),
                    after: None,
                    path: d.path@,
                    index: 0,
                    params: ParamsView::RustBin(RustBinCommand::Run),
                },
            ]
        } else {
            Seq::<RunnableView>::empty()
        },
        None => Seq::<RunnableView>::empty(),
    }
}

/// The source of Cargo packages with a binary entry point.
pub struct RustBin;

impl RustBin {
    /// Appends the directory's binary package, if it has one.
    pub fn add_runnable(dir: &DirSnapshot, runnables: &mut Vec<Runnable>)
        ensures
            runnable_views(final(runnables)@) == runnable_views(old(runnables)@) + rust_bin_scan(
                *dir,
            ),
    {
        let ghost start = runnable_views(runnables@);
        if let Some(package) = &dir.package {
            if dir.has_main_rs {
                let r = Runnable {
                    name: package.name.clone(),
                    aliases: Vec::new(),
                    display_name: None,
                    description: clone_opt(&package.description),
                    after: None,
                    path: dir.path.clone(),
                    index: 0,
                    params: RunnableParams::RustBin(RustBinParams { command: RustBinCommand::Run }),
                };
                runnables.push(r);
                assert(r@.aliases =~= Seq::<Seq<char>>::empty());
                assert(runnable_views(runnables@) =~= start + rust_bin_scan(*dir));
                return;
            }
        }
        assert(runnable_views(runnables@) =~= start + rust_bin_scan(*dir));
    }

    /// `cd <path> && <cargo command>`.
    pub fn command(runnable: &Runnable, params: &RustBinParams) -> (r: String)
        ensures
            r@ == cd_then(runnable.path@, bin_command_text(params.command)),
    {
        let text = params.command.to_string();
        cd_command(runnable.path.as_str(), text.as_str())
    }
}

} // verus!
