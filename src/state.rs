//! The interactive selection state machine: list and search modes, the cursor
//! over the filtered runnables, and the choice of a command.

use vstd::prelude::*;
use vstd::string::StringExecFns;
use vstd::arithmetic::div_mod::{
    lemma_add_mod_noop, lemma_add_mod_noop_right, lemma_mod_add_multiples_vanish, lemma_small_mod,
};
use crate::input::{after_edit, EditRequest, SearchInput};
use crate::search::{
    active_indices, filter_runnables, index_views, lemma_active_indices_select,
    lemma_empty_search_keeps_all,
};
use crate::sources::rust_bin::{RustBinCommand, RustBinParams};
use crate::sources::rust_lib::{RustLibCommand, RustLibParams};
use crate::types::{ParamsView, Runnable, RunnableParams, RunnableView, runnable_views};

verus! {

/// Whether keys move through the list or edit the search text.
#[derive(Clone, Copy, Debug, PartialEq, Eq, Structural)]
pub enum Mode {
    List,
    Search,
}

/// A key press, as the state machine sees it.
#[derive(Clone, Copy, Debug, PartialEq, Eq, Structural)]
pub enum Key {
    Char(char),
    Enter,
    Tab,
    Esc,
    Up,
    Down,
    Left,
    Right,
    Home,
    End,
    Backspace,
    Delete,
    Other,
}

/// The command of a binary package that a key picks.
pub open spec fn bin_choice(key: char) -> Option<RustBinCommand> {
    if key == 'r' {
        Some(RustBinCommand::Run)
    } else if key == 'R' {
        Some(RustBinCommand::RunRelease)
    } else if key == 'p' {
        Some(RustBinCommand::Publish)
    } else if key == 'i' {
        Some(RustBinCommand::Install)
    } else if key == 't' {
        Some(RustBinCommand::Test)
    } else if key == 'f' {
        Some(RustBinCommand::Fmt)
    } else if key == 'c' {
        Some(RustBinCommand::Check)
    } else if key == 'C' {
        Some(RustBinCommand::Clippy)
    } else if key == 'b' {
        Some(RustBinCommand::Build)
    } else if key == 'B' {
        Some(RustBinCommand::BuildRelease)
    } else {
        None
    }
}

/// The command of a library package that a key picks.
pub open spec fn lib_choice(key: char) -> Option<RustLibCommand> {
    if key == 'p' {
        Some(RustLibCommand::Publish)
    } else if key == 't' {
        Some(RustLibCommand::Test)
    } else if key == 'f' {
        Some(RustLibCommand::Fmt)
    } else if key == 'c' {
        Some(RustLibCommand::Check)
    } else if key == 'C' {
        Some(RustLibCommand::Clippy)
    } else if key == 'b' {
        Some(RustLibCommand::Build)
    } else if key == 'B' {
        Some(RustLibCommand::BuildRelease)
    } else {
        None
    }
}

/// The parameters that a key picks for a runnable with parameters `p`, if the
/// key belongs to the keymap of its kind.
pub open spec fn chosen_params(p: ParamsView, key: char) -> Option<ParamsView> {
    match p {
        ParamsView::RunFile(c) => if key == 'r' {
            Some(ParamsView::RunFile(c))
        } else {
            None
        },
        ParamsView::Shell => if key == 'r' {
            Some(ParamsView::Shell)
        } else {
            None
        },
        ParamsView::RustBin(_) => match bin_choice(key) {
            Some(c) => Some(ParamsView::RustBin(c)),
            None => None,
        },
        ParamsView::RustLib(_) => match lib_choice(key) {
            Some(c) => Some(ParamsView::RustLib(c)),
            None => None,
        },
        ParamsView::Unset => None,
    }
}

/// The runnable that a key commits, from the current selection.
pub open spec fn committed(selection: Option<RunnableView>, key: char) -> Option<RunnableView> {
    match selection {
        Some(r) => match chosen_params(r.params, key) {
            Some(p) => Some(RunnableView { params: p, ..r }),
            None => None,
        },
        None => None,
    }
}

/// The keys that the keymap of a kind offers, each with what it does, in the
/// order they are shown.
pub open spec fn key_hints(p: ParamsView) -> Seq<(char, Seq<char>)> {
    match p {
        ParamsView::RunFile(_) => seq![('r', "run"@)],
        ParamsView::Shell => seq![('r', "run"@)],
        ParamsView::RustBin(_) => seq![
            ('r', "run"@),
            ('R', "run release"@),
            ('p', "publish"@),
            ('i', "install"@),
            ('b', "build"@),
            ('B', "build release"@),
            ('t', "test"@),
            ('c', "check"@),
            ('C', "clippy"@),
            ('f', "format"@),
        ],
        ParamsView::RustLib(_) => seq![
            ('p', "publish"@),
            ('b', "build"@),
            ('B', "build release"@),
            ('t', "test"@),
            ('c', "check"@),
            ('C', "clippy"@),
            ('f', "format"@),
        ],
        ParamsView::Unset => Seq::<(char, Seq<char>)>::empty(),
    }
}

/// The keys of the keymap of a runnable's kind, each with what it does.
pub fn keypress_helper(params: &RunnableParams) -> (r: Vec<(char, String)>)
    ensures
        r@.len() == key_hints(params@).len(),
        forall|i: int|
            0 <= i < r@.len() ==> (#[trigger] r@[i]).0 == key_hints(params@)[i].0 && r@[i].1@
                == key_hints(params@)[i].1,
{
    match params {
        RunnableParams::RunFile(_) | RunnableParams::Shell(_) => vec![('r', String::from_str("run"))],
        RunnableParams::RustBin(_) => vec![
            ('r', String::from_str("run")),
            ('R', String::from_str("run release")),
            ('p', String::from_str("publish")),
            ('i', String::from_str("install")),
            ('b', String::from_str("build")),
            ('B', String::from_str("build release")),
            ('t', String::from_str("test")),
            ('c', String::from_str("check")),
            ('C', String::from_str("clippy")),
            ('f', String::from_str("format")),
        ],
        RunnableParams::RustLib(_) => vec![
            ('p', String::from_str("publish")),
            ('b', String::from_str("build")),
            ('B', String::from_str("build release")),
            ('t', String::from_str("test")),
            ('c', String::from_str("check")),
            ('C', String::from_str("clippy")),
            ('f', String::from_str("format")),
        ],
        RunnableParams::Unset => Vec::new(),
    }
}

/// Every key that is shown as a hint for a kind commits a runnable of that kind.
pub proof fn lemma_hinted_keys_commit(p: ParamsView)
    ensures
        forall|i: int|
            0 <= i < key_hints(p).len() ==> chosen_params(p, (#[trigger] key_hints(p)[i]).0) is Some,
{
}

/// The cursor after moving down a list of `n` entries: wraps to the top.
pub open spec fn next_index(c: usize, n: nat) -> usize {
    if n == 0 {
        c
    } else {
        ((c + 1) % (n as int)) as usize
    }
}

/// The cursor after moving up a list of `n` entries: wraps to the bottom.
pub open spec fn prev_index(c: usize, n: nat) -> usize {
    if n == 0 {
        c
    } else if c == 0 {
        (n - 1) as usize
    } else {
        (c - 1) as usize
    }
}

/// The cursor after `k` moves down a list of `n` entries, starting at `c`.
pub open spec fn nexts(c: usize, n: nat, k: nat) -> usize
    decreases k,
{
    if k == 0 {
        c
    } else {
        next_index(nexts(c, n, (k - 1) as nat), n)
    }
}

proof fn lemma_nexts_mod(c: usize, n: nat, k: nat)
    requires
        c < n <= usize::MAX,
    ensures
        nexts(c, n, k) == (c + k) % (n as int),
    decreases k,
{
    if k == 0 {
        lemma_small_mod(c as nat, n);
    } else {
        lemma_nexts_mod(c, n, (k - 1) as nat);
        let x = c + k - 1;
        lemma_add_mod_noop(x, 1, n as int);
        lemma_add_mod_noop_right(x % (n as int), 1, n as int);
    }
}

/// Cursor wrap-around over a list of `n` entries: `n` moves down bring the
/// cursor back to where it started, and a move up from the first entry lands
/// on the last.
pub proof fn lemma_cursor_wraps(c: usize, n: nat)
    requires
        c < n <= usize::MAX,
    ensures
        nexts(c, n, n) == c,
        prev_index(0, n) == n - 1,
{
    lemma_nexts_mod(c, n, n);
    lemma_mod_add_multiples_vanish(c as int, n as int);
    lemma_small_mod(c as nat, n);
}

/// The editing step that a key stands for in search mode.
pub open spec fn edit_request(key: Key) -> Option<EditRequest> {
    match key {
        Key::Char(c) => Some(EditRequest::InsertChar(c)),
        Key::Backspace => Some(EditRequest::DeletePrevChar),
        Key::Delete => Some(EditRequest::DeleteNextChar),
        Key::Left => Some(EditRequest::GoToPrevChar),
        Key::Right => Some(EditRequest::GoToNextChar),
        Key::Home => Some(EditRequest::GoToStart),
        Key::End => Some(EditRequest::GoToEnd),
        _ => None,
    }
}

/// The selection state of the picker.
pub struct State {
    /// Every runnable of the discovery pass, in order.
    pub runnables: Vec<Runnable>,
    /// The positions in `runnables` of those the search text selects.
    pub active: Vec<usize>,
    /// The cursor: a position in `active`.
    pub selected: usize,
    /// The committed runnable, with the chosen command; `Unset` parameters
    /// until a choice is made.
    pub runnable: Runnable,
    pub mode: Mode,
    pub search: SearchInput,
}

/// `s1` is `s0` after a key press that changes at most the mode and the
/// cursor: the list, the search text and the commitment stay.
pub open spec fn moved(s0: State, s1: State, mode: Mode, selected: usize) -> bool {
    &&& s1.runnables == s0.runnables
    &&& s1.active == s0.active
    &&& s1.search == s0.search
    &&& s1.runnable == s0.runnable
    &&& s1.mode == mode
    &&& s1.selected == selected
}

/// What a character key does in list mode, and whether the loop stops: `s`
/// searches, `j` and `k` move down and up, `q` quits, and any other key
/// commits the selected runnable if the keymap of its kind holds the key.
pub open spec fn keypress_step(s0: State, s1: State, key: char, stop: bool) -> bool {
    if key == 's' {
        !stop && moved(s0, s1, Mode::Search, s0.selected)
    } else if key == 'j' {
        !stop && moved(s0, s1, s0.mode, next_index(s0.selected, s0.active@.len()))
    } else if key == 'k' {
        !stop && moved(s0, s1, s0.mode, prev_index(s0.selected, s0.active@.len()))
    } else if key == 'q' {
        stop && moved(s0, s1, s0.mode, s0.selected)
    } else {
        match committed(s0.selection(), key) {
            Some(v) => {
                &&& stop
                &&& s1.runnable@ == v
                &&& s1.runnables == s0.runnables
                &&& s1.active == s0.active
                &&& s1.search == s0.search
                &&& s1.mode == s0.mode
                &&& s1.selected == s0.selected
            },
            None => !stop && moved(s0, s1, s0.mode, s0.selected),
        }
    }
}

/// What a key does in list mode: Enter commits as `r`, Up and Down move as
/// `k` and `j`, Esc quits as `q`, and Tab enters search mode.
pub open spec fn list_step(s0: State, s1: State, key: Key, stop: bool) -> bool {
    match key {
        Key::Char(c) => keypress_step(s0, s1, c, stop),
        Key::Enter => keypress_step(s0, s1, 'r', stop),
        Key::Up => keypress_step(s0, s1, 'k', stop),
        Key::Down => keypress_step(s0, s1, 'j', stop),
        Key::Esc => keypress_step(s0, s1, 'q', stop),
        Key::Tab => !stop && moved(s0, s1, Mode::Search, s0.selected),
        _ => !stop && moved(s0, s1, s0.mode, s0.selected),
    }
}

/// What a key does in search mode: Enter commits as `r` does in list mode,
/// Tab returns to list mode, Esc clears the text and returns to list mode,
/// Up and Down move, and the editing keys edit the text, which filters anew;
/// typing a character puts the cursor back on the first entry.
pub open spec fn search_step(s0: State, s1: State, key: Key, stop: bool) -> bool {
    match key {
        Key::Enter => keypress_step(s0, s1, 'r', stop),
        Key::Tab => !stop && moved(s0, s1, Mode::List, s0.selected),
        Key::Down => !stop && moved(s0, s1, s0.mode, next_index(s0.selected, s0.active@.len())),
        Key::Up => !stop && moved(s0, s1, s0.mode, prev_index(s0.selected, s0.active@.len())),
        Key::Esc => {
            &&& !stop
            &&& s1.runnables == s0.runnables
            &&& s1.runnable == s0.runnable
            &&& s1.mode == Mode::List
            &&& s1.search.value@.len() == 0
            &&& s1.search.cursor == 0
            &&& s1.selected == s0.selected
        },
        _ => match edit_request(key) {
            Some(req) => {
                &&& !stop
                &&& s1.runnables == s0.runnables
                &&& s1.runnable == s0.runnable
                &&& s1.mode == s0.mode
                &&& (s1.search.value@, s1.search.cursor as nat) == after_edit(
                    s0.search.value@,
                    s0.search.cursor as nat,
                    req,
                )
                &&& s1.selected == if key is Char || s0.selected >= s1.active@.len() {
                    0
                } else {
                    s0.selected
                }
            },
            None => !stop && moved(s0, s1, s0.mode, s0.selected),
        },
    }
}

impl State {
    /// The active list is the filter of all runnables by the search text, and
    /// the cursor points into it unless it is empty.
    pub open spec fn wf(&self) -> bool {
        &&& self.search.wf()
        &&& index_views(self.active@) == active_indices(
            runnable_views(self.runnables@),
            self.search.value@,
        )
        &&& self.active@.len() == 0 ==> self.selected == 0
        &&& self.active@.len() > 0 ==> self.selected < self.active@.len()
    }

    /// The runnable under the cursor, if any.
    pub open spec fn selection(&self) -> Option<RunnableView> {
        if self.selected < self.active@.len() {
            Some(self.runnables@[self.active@[self.selected as int] as int]@)
        } else {
            None
        }
    }

    proof fn lemma_active_in_bounds(&self)
        requires
            self.wf(),
        ensures
            self.active@.len() <= self.runnables@.len(),
            forall|k: int| 0 <= k < self.active@.len() ==> #[trigger] self.active@[k] < self.runnables@.len(),
    {
        let rs = runnable_views(self.runnables@);
        lemma_active_indices_select(rs, self.search.value@);
        assert forall|k: int| 0 <= k < self.active@.len() implies #[trigger] self.active@[k] < self.runnables@.len() by {
            assert(index_views(self.active@)[k] == self.active@[k] as int);
        }
    }

    /// The picker over `runnables`, in search mode with the text `search` if
    /// one is given, else in list mode with an empty text.
    pub fn new(runnables: Vec<Runnable>, search: Option<String>) -> (r: State)
        requires
            search is Some ==> search->0@.len() < usize::MAX - 1,
        ensures
            r.wf(),
            r.runnables == runnables,
            r.mode == (if search is Some { Mode::Search } else { Mode::List }),
            r.search.value@ == (match search {
                Some(s) => s@,
                None => Seq::<char>::empty(),
            }),
            r.selected == 0,
            r.runnable@.params == ParamsView::Unset,
    {
        let mode = if search.is_some() {
            Mode::Search
        } else {
            Mode::List
        };
        let text = match search {
            Some(s) => s,
            None => String::new(),
        };
        let input = SearchInput::with_value(text);
        let mut state = State {
            runnables,
            active: Vec::new(),
            selected: 0,
            runnable: Runnable::default(),
            mode,
            search: input,
        };
        state.set_active_runnables();
        state
    }

    /// Filters all runnables by the search text anew; the cursor goes back to
    /// the first entry if it no longer points into the list.
    pub fn set_active_runnables(&mut self)
        requires
            old(self).search.wf(),
        ensures
            final(self).wf(),
            index_views(final(self).active@) == active_indices(
                runnable_views(old(self).runnables@),
                old(self).search.value@,
            ),
            final(self).selected == if old(self).selected < final(self).active@.len() {
                old(self).selected
            } else {
                0
            },
            final(self).runnables == old(self).runnables,
            final(self).runnable == old(self).runnable,
            final(self).mode == old(self).mode,
            final(self).search == old(self).search,
    {
        self.active = filter_runnables(&self.runnables, self.search.value());
        if self.selected >= self.active.len() {
            self.selected = 0;
        }
    }

    fn set_mode(&mut self, mode: Mode)
        ensures
            *final(self) == (State { mode, ..*old(self) }),
    {
        self.mode = mode;
    }

    /// Moves the cursor down, from the last entry to the first.
    fn select_next(&mut self)
        requires
            old(self).wf(),
        ensures
            *final(self) == (State {
                selected: next_index(old(self).selected, old(self).active@.len()),
                ..*old(self)
            }),
    {
        if self.active.len() == 0 {
            return;
        }
        self.selected = (self.selected + 1) % self.active.len();
    }

    /// Moves the cursor up, from the first entry to the last.
    fn select_prev(&mut self)
        requires
            old(self).wf(),
        ensures
            *final(self) == (State {
                selected: prev_index(old(self).selected, old(self).active@.len()),
                ..*old(self)
            }),
    {
        if self.active.len() == 0 {
            return;
        }
        if self.selected == 0 {
            self.selected = self.active.len() - 1;
        } else {
            self.selected -= 1;
        }
    }

    /// Commits the selected runnable with the parameters `params`.
    fn set_runnable(&mut self, params: RunnableParams)
        requires
            old(self).wf(),
            old(self).selected < old(self).active@.len(),
        ensures
            final(self).runnable@ == (RunnableView {
                params: params@,
                ..old(self).selection()->0
            }),
            final(self).runnables == old(self).runnables,
            final(self).active == old(self).active,
            final(self).search == old(self).search,
            final(self).mode == old(self).mode,
            final(self).selected == old(self).selected,
    {
        proof {
            self.lemma_active_in_bounds();
        }
        let mut r = self.runnables[self.active[self.selected]].duplicate();
        r.params = params;
        self.runnable = r;
    }

    /// Handles a character key in list mode; returns whether the loop stops.
    fn handle_list_keypress(&mut self, key: char) -> (stop: bool)
        requires
            old(self).wf(),
        ensures
            final(self).wf(),
            keypress_step(*old(self), *final(self), key, stop),
    {
        if key == 's' {
            self.mode = Mode::Search;
            return false;
        } else if key == 'j' {
            self.select_next();
            return false;
        } else if key == 'k' {
            self.select_prev();
            return false;
        } else if key == 'q' {
            return true;
        }
        if self.selected >= self.active.len() {
            return false;
        }
        proof {
            self.lemma_active_in_bounds();
        }
        let params = match &self.runnables[self.active[self.selected]].params {
            RunnableParams::RunFile(p) => if key == 'r' {
                Some(RunnableParams::RunFile(crate::sources::runfile::RunFileParams { command: p.command.clone() }))
            } else {
                None
            },
            RunnableParams::Shell(_) => if key == 'r' {
                Some(RunnableParams::Shell(crate::sources::shell::ShellParams {  }))
            } else {
                None
            },
            RunnableParams::RustBin(_) => {
                let command = if key == 'r' {
                    Some(RustBinCommand::Run)
                } else if key == 'R' {
                    Some(RustBinCommand::RunRelease)
                } else if key == 'p' {
                    Some(RustBinCommand::Publish)
                } else if key == 'i' {
                    Some(RustBinCommand::Install)
                } else if key == 't' {
                    Some(RustBinCommand::Test)
                } else if key == 'f' {
                    Some(RustBinCommand::Fmt)
                } else if key == 'c' {
                    Some(RustBinCommand::Check)
                } else if key == 'C' {
                    Some(RustBinCommand::Clippy)
                } else if key == 'b' {
                    Some(RustBinCommand::Build)
                } else if key == 'B' {
                    Some(RustBinCommand::BuildRelease)
                } else {
                    None
                };
                match command {
                    Some(command) => Some(RunnableParams::RustBin(RustBinParams { command })),
                    None => None,
                }
            },
            RunnableParams::RustLib(_) => {
                let command = if key == 'p' {
                    Some(RustLibCommand::Publish)
                } else if key == 't' {
                    Some(RustLibCommand::Test)
                } else if key == 'f' {
                    Some(RustLibCommand::Fmt)
                } else if key == 'c' {
                    Some(RustLibCommand::Check)
                } else if key == 'C' {
                    Some(RustLibCommand::Clippy)
                } else if key == 'b' {
                    Some(RustLibCommand::Build)
                } else if key == 'B' {
                    Some(RustLibCommand::BuildRelease)
                } else {
                    None
                };
                match command {
                    Some(command) => Some(RunnableParams::RustLib(RustLibParams { command })),
                    None => None,
                }
            },
            RunnableParams::Unset => None,
        };
        match params {
            Some(params) => {
                self.set_runnable(params);
                true
            },
            None => false,
        }
    }

    /// Handles a key in list mode; returns whether the loop stops.
    fn handle_list_event(&mut self, key: Key) -> (stop: bool)
        requires
            old(self).wf(),
        ensures
            final(self).wf(),
            list_step(*old(self), *final(self), key, stop),
    {
        match key {
            Key::Char(c) => self.handle_list_keypress(c),
            Key::Enter => self.handle_list_keypress('r'),
            Key::Up => self.handle_list_keypress('k'),
            Key::Down => self.handle_list_keypress('j'),
            Key::Esc => self.handle_list_keypress('q'),
            Key::Tab => {
                self.set_mode(Mode::Search);
                false
            },
            _ => false,
        }
    }

    /// Handles a key in search mode; returns whether the loop stops.
    fn handle_search_event(&mut self, key: Key) -> (stop: bool)
        requires
            old(self).wf(),
        ensures
            final(self).wf(),
            search_step(*old(self), *final(self), key, stop),
    {
        match key {
            Key::Enter => {
                return self.handle_list_keypress('r');
            },
            Key::Tab => {
                self.set_mode(Mode::List);
            },
            Key::Esc => {
                proof {
                    self.lemma_active_in_bounds();
                    lemma_empty_search_keeps_all(runnable_views(self.runnables@));
                }
                self.search.reset();
                assert(self.search.value@ =~= Seq::<char>::empty());
                self.set_mode(Mode::List);
                self.set_active_runnables();
                assert(index_views(self.active@).len() == self.active@.len());
            },
            Key::Down => {
                self.select_next();
            },
            Key::Up => {
                self.select_prev();
            },
            Key::Other => {},
            _ => {
                let request = match key {
                    Key::Char(c) => EditRequest::InsertChar(c),
                    Key::Backspace => EditRequest::DeletePrevChar,
                    Key::Delete => EditRequest::DeleteNextChar,
                    Key::Left => EditRequest::GoToPrevChar,
                    Key::Right => EditRequest::GoToNextChar,
                    Key::Home => EditRequest::GoToStart,
                    _ => EditRequest::GoToEnd,
                };
                if let Key::Char(_) = key {
                    self.selected = 0;
                }
                self.search.handle(request);
                self.set_active_runnables();
            },
        }
        false
    }

    /// Handles a key press in the current mode; returns whether the selection
    /// loop stops, with a runnable committed or not.
    pub fn handle_event(&mut self, key: Key) -> (stop: bool)
        requires
            old(self).wf(),
        ensures
            final(self).wf(),
            old(self).mode == Mode::List ==> list_step(*old(self), *final(self), key, stop),
            old(self).mode == Mode::Search ==> search_step(*old(self), *final(self), key, stop),
    {
        match self.mode {
            Mode::List => self.handle_list_event(key),
            Mode::Search => self.handle_search_event(key),
        }
    }
}

} // verus!
