//! Input-method events and the text edits they make.

use vstd::prelude::*;

verus! {

/// An event of an input method.
#[derive(Clone, Debug, PartialEq, Eq)]
pub enum ImeInput {
    /// Commit text at the cursor, replacing the marked text.
    InsertText(String),
    /// Replace the marked text with new, still marked, text.
    SetMarkedText(String),
    /// Keep the marked text but stop marking it.
    UnmarkText,
    /// Delete the marked text.
    DeleteText,
}

/// A text edit asked of the focused input handler.
#[derive(Clone, Debug, PartialEq, Eq)]
pub enum ImeEdit {
    /// Replace the given range, or the marked text or selection when `None`.
    ReplaceText { range: Option<(usize, usize)>, text: String },
    /// Replace the marked text or selection and mark the new text.
    ReplaceAndMarkText { text: String },
    /// Stop marking the marked text.
    UnmarkText,
}

/// The edit an input-method event makes, given the marked range of the
/// input handler; deleting with nothing marked edits nothing.
pub fn ime_edit(ime: ImeInput, marked_text_range: Option<(usize, usize)>) -> (r: Option<ImeEdit>)
    ensures
        match ime {
            ImeInput::InsertText(text) => r == Some(ImeEdit::ReplaceText { range: None, text }),
            ImeInput::SetMarkedText(text) => r == Some(ImeEdit::ReplaceAndMarkText { text }),
            ImeInput::UnmarkText => r == Some(ImeEdit::UnmarkText),
            ImeInput::DeleteText => match marked_text_range {
                Some(range) => (r matches Some(ImeEdit::ReplaceText { range: rr, text })
                    && rr == Some(range) && text@ == Seq::<char>::empty()),
                None => r is None,
            },
        },
{
    match ime {
        ImeInput::InsertText(text) => Some(ImeEdit::ReplaceText { range: None, text }),
        ImeInput::SetMarkedText(text) => Some(ImeEdit::ReplaceAndMarkText { text }),
        ImeInput::UnmarkText => Some(ImeEdit::UnmarkText),
        ImeInput::DeleteText => match marked_text_range {
            Some(range) => Some(ImeEdit::ReplaceText { range: Some(range), text: String::new() }),
            None => None,
        },
    }
}

} // verus!
