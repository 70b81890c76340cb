//! The editable search buffer. Editing is done by `tui_input`.

use vstd::prelude::*;
use tui_input::{Input, InputRequest};

verus! {

/// One editing step of the search buffer.
#[derive(Clone, Copy, Debug, PartialEq, Eq, Structural)]
pub enum EditRequest {
    InsertChar(char),
    DeletePrevChar,
    DeleteNextChar,
    GoToPrevChar,
    GoToNextChar,
    GoToStart,
    GoToEnd,
}

/// The text and cursor that an editing step leaves, from the text and cursor
/// before it. Steps over characters move by whole graphemes.
pub uninterp spec fn edit_outcome(value: Seq<char>, cursor: nat, request: EditRequest) -> (
    Seq<char>,
    nat,
);

/// Relies on `tui_input::Input::handle`, applied to an input holding `value`
/// with its cursor after `cursor` characters: inserting puts the character at
/// the cursor and moves the cursor past it; moving keeps the text; the cursor
/// stays within the text; only inserting makes the text longer.
#[verifier::external_body]
pub(crate) fn apply_edit(value: &str, cursor: usize, request: EditRequest) -> (r: (String, usize))
    requires
        cursor <= value@.len() < usize::MAX,
    ensures
        (r.0@, r.1 as nat) == edit_outcome(value@, cursor as nat, request),
        r.1 <= r.0@.len(),
        request is InsertChar ==> r.0@ == value@.insert(cursor as int, request->InsertChar_0)
            && r.1 == cursor + 1,
        !(request is InsertChar) ==> r.0@.len() <= value@.len(),
        request is GoToPrevChar || request is GoToNextChar ==> r.0@ == value@,
        request is GoToStart ==> r.0@ == value@ && r.1 == 0,
        request is GoToEnd ==> r.0@ == value@ && r.1 == value@.len(),
{
    let mut input = Input::new(value.to_string()).with_cursor(cursor);
    input.handle(match request {
        EditRequest::InsertChar(c) => InputRequest::InsertChar(c),
        EditRequest::DeletePrevChar => InputRequest::DeletePrevChar,
        EditRequest::DeleteNextChar => InputRequest::DeleteNextChar,
        EditRequest::GoToPrevChar => InputRequest::GoToPrevChar,
        EditRequest::GoToNextChar => InputRequest::GoToNextChar,
        EditRequest::GoToStart => InputRequest::GoToStart,
        EditRequest::GoToEnd => InputRequest::GoToEnd,
    });
    (input.value().to_string(), input.cursor())
}

/// The text and cursor after an editing step of the search buffer, which
/// ignores an insertion once the text is as long as it may get.
pub open spec fn after_edit(value: Seq<char>, cursor: nat, request: EditRequest) -> (Seq<char>, nat) {
    if request is InsertChar && value.len() + 1 >= usize::MAX - 1 {
        (value, cursor)
    } else {
        edit_outcome(value, cursor, request)
    }
}

/// The search text and the position of the editing cursor in it, in characters.
#[derive(Clone, Debug)]
pub struct SearchInput {
    pub value: String,
    pub cursor: usize,
}

impl SearchInput {
    /// The cursor lies within the text, and the text can grow by one more character.
    pub open spec fn wf(&self) -> bool {
        self.cursor <= self.value@.len() < usize::MAX - 1
    }

    /// A buffer holding `value`, with the cursor at its end.
    pub fn with_value(value: String) -> (r: SearchInput)
        requires
            value@.len() < usize::MAX - 1,
        ensures
            r.wf(),
            r.value@ == value@,
            r.cursor == value@.len(),
    {
        let cursor = vstd::string::StrSliceExecFns::unicode_len(value.as_str());
        SearchInput { value, cursor }
    }

    /// The current text.
    pub fn value(&self) -> (r: &str)
        ensures
            r@ == self.value@,
    {
        self.value.as_str()
    }

    /// Empties the buffer.
    pub fn reset(&mut self)
        ensures
            final(self).wf(),
            final(self).value@.len() == 0,
            final(self).cursor == 0,
    {
        self.value = String::new();
        self.cursor = 0;
    }

    /// Applies one editing step; inserting into a buffer that cannot grow any
    /// more changes nothing.
    pub fn handle(&mut self, request: EditRequest)
        requires
            old(self).wf(),
        ensures
            final(self).wf(),
            (final(self).value@, final(self).cursor as nat) == after_edit(
                old(self).value@,
                old(self).cursor as nat,
                request,
            ),
    {
        if let EditRequest::InsertChar(_) = request {
            let len = vstd::string::StrSliceExecFns::unicode_len(self.value.as_str());
            if len + 1 >= usize::MAX - 1 {
                return;
            }
        }
        let (value, cursor) = apply_edit(self.value.as_str(), self.cursor, request);
        self.value = value;
        self.cursor = cursor;
    }
}

} // verus!
