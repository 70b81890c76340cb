//! Cargo packages with a library entry point.

use vstd::prelude::*;
use vstd::string::StringExecFns;
use crate::sources::{cd_command, cd_then, DirSnapshot};
use crate::text::{clone_opt, opt_view};
use crate::types::{ParamsView, Runnable, RunnableParams, RunnableView, runnable_views};

verus! {

/// What to do with a library package.
#[derive(Clone, Copy, Debug, PartialEq, Eq, Structural)]
pub enum RustLibCommand {
    Publish,
    Build,
    BuildRelease,
    Test,
    Fmt,
    Check,
    Clippy,
}

/// The shell text of a library-package command.
pub open spec fn lib_command_text(c: RustLibCommand) -> Seq<char> {
    match c {
        RustLibCommand::Publish => "cargo publish"@,
        RustLibCommand::Test => "cargo test"@,
        RustLibCommand::Fmt => "cargo fmt"@,
        RustLibCommand::Check => "cargo check"@,
        RustLibCommand::Clippy => "cargo clippy"@,
        RustLibCommand::Build => "cargo build"@,
        RustLibCommand::BuildRelease => "cargo build --release"@,
    }
}

impl Default for RustLibCommand {
    fn default() -> (r: Self)
        ensures
            r == RustLibCommand::Publish,
    {
        RustLibCommand::Publish
    }
}

impl RustLibCommand {
    /// The shell text of this command.
    pub fn to_string(&self) -> (r: String)
        ensures
            r@ == lib_command_text(*self),
    {
        match self {
            RustLibCommand::Publish => String::from_str("cargo publish"),
            RustLibCommand::Test => String::from_str("cargo test"),
            RustLibCommand::Fmt => String::from_str("cargo fmt"),
            RustLibCommand::Check => String::from_str("cargo check"),
            RustLibCommand::Clippy => String::from_str("cargo clippy"),
            RustLibCommand::Build => String::from_str("cargo build"),
            RustLibCommand::BuildRelease => String::from_str("cargo build --release"),
        }
    }
}

/// The parameters of a library package: the chosen command.
#[derive(Clone, Copy, Debug)]
pub struct RustLibParams {
    pub command: RustLibCommand,
}

impl Default for RustLibParams {
    fn default() -> (r: Self)
        ensures
            r.command == RustLibCommand::Publish,
    {
        RustLibParams { command: RustLibCommand::Publish }
    }
}

/// The runnables that the library-package source finds in `d`: one, named after
/// the package, where the manifest parses and `src/lib.rs` is a file.
pub open spec fn rust_lib_scan(d: DirSnapshot) -> Seq<RunnableView> {
    match d.package {
        Some(p) => if d.has_lib_rs {
            seq![
                RunnableView {
                    name: p.name@,
                    aliases: Seq::<Seq<char>>::empty(),
                    display_name: None,
                    description: opt_view(p.description),
                    after: None,
                    path: d.path@,
                    index: 0,
                    params: ParamsView::RustLib(RustLibCommand::Publish),
                },
            ]
        } else {
            Seq::<RunnableView>::empty()
        },
        None => Seq::<RunnableView>::empty(),
    }
}

/// The source of Cargo packages with a library entry point.
pub struct RustLib;

impl RustLib {
    /// Appends the directory's library package, if it has one.
    pub fn add_runnable(dir: &DirSnapshot, runnables: &mut Vec<Runnable>)
        ensures
            runnable_views(final(runnables)@) == runnable_views(old(runnables)@) + rust_lib_scan(
                *dir,
            ),
    {
        let ghost start = runnable_views(runnables@);
        if let Some(package) = &dir.package {
            if dir.has_lib_rs {
                let r = Runnable {
                    name: package.name.clone(),
                    aliases: Vec::new(),
                    display_name: None,
                    description: clone_opt(&package.description),
                    after: None,
                    path: dir.path.clone(),
                    index: 0,
                    params: RunnableParams::RustLib(RustLibParams { command: RustLibCommand::Publish }),
                };
                runnables.push(r);
                assert(r@.aliases =~= Seq::<Seq<char>>::empty());
                assert(runnable_views(runnables@) =~= start + rust_lib_scan(*dir));
                return;
            }
        }
        assert(runnable_views(runnables@) =~= start + rust_lib_scan(*dir));
    }

    /// `cd <path> && <cargo command>`.
    pub fn command(runnable: &Runnable, params: &RustLibParams) -> (r: String)
        ensures
            r@ == cd_then(runnable.path@, lib_command_text(params.command)),
    {
        let text = params.command.to_string();
        cd_command(runnable.path.as_str(), text.as_str())
    }
}

} // verus!
