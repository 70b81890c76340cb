//! The runnable record and its source-specific parameters.

use vstd::prelude::*;
use vstd::string::StringExecFns;
use crate::sources::runfile::RunFileParams;
use crate::sources::rust_bin::{RustBinCommand, RustBinParams};
use crate::sources::rust_lib::{RustLibCommand, RustLibParams};
use crate::sources::shell::ShellParams;
use crate::text::{
    clone_opt, clone_opt_list, clone_strings, opt_list_view, opt_view, string_views,
};

verus! {

/// The parameters of a runnable: which source produced it and how it runs.
/// `Unset` marks "nothing chosen yet" and is never produced by discovery.
#[derive(Clone, Debug)]
pub enum RunnableParams {
    Unset,
    RunFile(RunFileParams),
    Shell(ShellParams),
    RustBin(RustBinParams),
    RustLib(RustLibParams),
}

/// The kind of a runnable, without its parameters.
#[derive(Clone, Copy, Debug, PartialEq, Eq, Structural, Hash, PartialOrd, Ord)]
pub enum RunnableParamsVariant {
    Unset,
    RunFile,
    Shell,
    RustBin,
    RustLib,
}

/// The model of `RunnableParams`.
pub enum ParamsView {
    Unset,
    RunFile(Seq<char>),
    Shell,
    RustBin(RustBinCommand),
    RustLib(RustLibCommand),
}

impl View for RunnableParams {
    type V = ParamsView;

    open spec fn view(&self) -> ParamsView {
        match self {
            RunnableParams::Unset => ParamsView::Unset,
            RunnableParams::RunFile(p) => ParamsView::RunFile(p.command@),
            RunnableParams::Shell(_) => ParamsView::Shell,
            RunnableParams::RustBin(p) => ParamsView::RustBin(p.command),
            RunnableParams::RustLib(p) => ParamsView::RustLib(p.command),
        }
    }
}

/// The kind of a parameter model.
pub open spec fn kind_of(p: ParamsView) -> RunnableParamsVariant {
    match p {
        ParamsView::Unset => RunnableParamsVariant::Unset,
        ParamsView::RunFile(_) => RunnableParamsVariant::RunFile,
        ParamsView::Shell => RunnableParamsVariant::Shell,
        ParamsView::RustBin(_) => RunnableParamsVariant::RustBin,
        ParamsView::RustLib(_) => RunnableParamsVariant::RustLib,
    }
}

/// The label under which a kind of runnable is shown.
pub open spec fn params_label(p: ParamsView) -> Seq<char> {
    match p {
        ParamsView::Unset => "none"@,
        ParamsView::RunFile(_) => "runfile"@,
        ParamsView::Shell => "shell"@,
        ParamsView::RustBin(_) => "rust (bin)"@,
        ParamsView::RustLib(_) => "rust (lib)"@,
    }
}

impl Default for RunnableParams {
    fn default() -> (r: Self)
        ensures
            r@ == ParamsView::Unset,
    {
        RunnableParams::Unset
    }
}

impl RunnableParams {
    /// The kind of these parameters.
    pub fn extract_variant(&self) -> (r: RunnableParamsVariant)
        ensures
            r == kind_of(self@),
    {
        match self {
            RunnableParams::Unset => RunnableParamsVariant::Unset,
            RunnableParams::RunFile(_) => RunnableParamsVariant::RunFile,
            RunnableParams::Shell(_) => RunnableParamsVariant::Shell,
            RunnableParams::RustBin(_) => RunnableParamsVariant::RustBin,
            RunnableParams::RustLib(_) => RunnableParamsVariant::RustLib,
        }
    }

    /// The label under which this kind of runnable is shown.
    pub fn to_string(&self) -> (r: String)
        ensures
            r@ == params_label(self@),
    {
        match self {
            RunnableParams::Unset => String::from_str("none"),
            RunnableParams::RunFile(_) => String::from_str("runfile"),
            RunnableParams::Shell(_) => String::from_str("shell"),
            RunnableParams::RustBin(_) => String::from_str("rust (bin)"),
            RunnableParams::RustLib(_) => String::from_str("rust (lib)"),
        }
    }

    /// A copy of these parameters.
    pub fn duplicate(&self) -> (r: RunnableParams)
        ensures
            r@ == self@,
    {
        match self {
            RunnableParams::Unset => RunnableParams::Unset,
            RunnableParams::RunFile(p) => RunnableParams::RunFile(
                RunFileParams { command: p.command.clone() },
            ),
            RunnableParams::Shell(_) => RunnableParams::Shell(ShellParams {  }),
            RunnableParams::RustBin(p) => RunnableParams::RustBin(
                RustBinParams { command: p.command },
            ),
            RunnableParams::RustLib(p) => RunnableParams::RustLib(
                RustLibParams { command: p.command },
            ),
        }
    }
}

/// One discovered, executable task.
#[derive(Clone, Debug)]
pub struct Runnable {
    pub name: String,
    pub aliases: Vec<String>,
    pub display_name: Option<String>,
    pub description: Option<String>,
    /// The names of other runnables to run before this one, in order from first to last.
    pub after: Option<Vec<String>>,
    /// The directory the task runs in (for a shell script, the script itself).
    pub path: String,
    /// The position of the runnable in the output of one discovery pass.
    pub index: usize,
    pub params: RunnableParams,
}

/// The model of `Runnable`.
pub struct RunnableView {
    pub name: Seq<char>,
    pub aliases: Seq<Seq<char>>,
    pub display_name: Option<Seq<char>>,
    pub description: Option<Seq<char>>,
    pub after: Option<Seq<Seq<char>>>,
    pub path: Seq<char>,
    pub index: usize,
    pub params: ParamsView,
}

impl View for Runnable {
    type V = RunnableView;

    open spec fn view(&self) -> RunnableView {
        RunnableView {
            name: self.name@,
            aliases: string_views(self.aliases@),
            display_name: opt_view(self.display_name),
            description: opt_view(self.description),
            after: opt_list_view(self.after),
            path: self.path@,
            index: self.index,
            params: self.params@,
        }
    }
}

/// The models of a sequence of runnables.
pub open spec fn runnable_views(v: Seq<Runnable>) -> Seq<RunnableView> {
    v.map_values(|r: Runnable| r@)
}

impl Default for Runnable {
    fn default() -> (r: Self)
        ensures
            r@.name.len() == 0,
            r@.aliases.len() == 0,
            r@.display_name is None,
            r@.description is None,
            r@.after is None,
            r@.path.len() == 0,
            r@.index == 0,
            r@.params == ParamsView::Unset,
    {
        Runnable {
            name: String::new(),
            aliases: Vec::new(),
            display_name: None,
            description: None,
            after: None,
            path: String::new(),
            index: 0,
            params: RunnableParams::Unset,
        }
    }
}

impl Runnable {
    /// The aliases of this runnable, borrowed.
    pub fn aliases(&self) -> (r: Vec<&str>)
        ensures
            r@.len() == self.aliases@.len(),
            forall|i: int| 0 <= i < r@.len() ==> #[trigger] r@[i]@ == self.aliases@[i]@,
    {
        let mut r: Vec<&str> = Vec::new();
        let mut i: usize = 0;
        while i < self.aliases.len()
            invariant
                i <= self.aliases@.len(),
                r@.len() == i,
                forall|k: int| 0 <= k < i ==> #[trigger] r@[k]@ == self.aliases@[k]@,
            decreases self.aliases@.len() - i,
        {
            r.push(self.aliases[i].as_str());
            i += 1;
        }
        r
    }

    /// A copy of this runnable.
    pub fn duplicate(&self) -> (r: Runnable)
        ensures
            r@ == self@,
    {
        Runnable {
            name: self.name.clone(),
            aliases: clone_strings(&self.aliases),
            display_name: clone_opt(&self.display_name),
            description: clone_opt(&self.description),
            after: clone_opt_list(&self.after),
            path: self.path.clone(),
            index: self.index,
            params: self.params.duplicate(),
        }
    }
}

} // verus!
