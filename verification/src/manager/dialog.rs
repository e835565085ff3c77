//! The dialog that settles a cycle count that would go down.  The
//! decisions are here; the terminal prompts are run by the caller, which
//! hands each answer back as an event.
use crate::manager::channel::DialogResult;
use crate::text::{parse_u32, parse_unsigned_spec, trim, trim_seq, IntErrorKind};
use vstd::prelude::*;

verus! {

/// Where the dialog stands; each state but `Done` tells the caller what
/// to ask next.
#[derive(Debug, Clone, Copy, PartialEq, Eq, Structural)]
pub enum DialogState {
    /// Choose: cancel the update, force it, or type the actual count.
    Menu,
    /// Confirm cancelling the update.
    ConfirmCancel,
    /// Confirm forcing the computed count.
    ConfirmIgnore,
    /// Type the actual cycle count.
    EnterCycles,
    /// Confirm that the actual count is 0.
    ConfirmZero,
    /// The dialog is over with this answer.
    Done(DialogResult),
}

/// An answer of the user.
#[derive(Debug)]
pub enum DialogEvent {
    /// The menu entry picked (a failed prompt counts as the first entry).
    Selected(usize),
    /// The answer to a yes/no question (a failed prompt counts as no).
    Answered(bool),
    /// The text typed for the cycle count.
    Entered(String),
    /// Reading the typed text failed.
    InputFailed,
}

/// A message to show the user on the way to the next state.
#[derive(Debug, Clone, Copy, PartialEq, Eq, Structural)]
pub enum DialogNotice {
    /// Reading the input failed; back to the menu.
    InputFailed,
    /// The count typed is 0, which is to be confirmed.
    ZeroCycles,
    /// The text typed is no count.
    InvalidNumber(IntErrorKind),
    /// The menu entry does not exist.
    InvalidChoice,
}

/// One step of the dialog.
#[derive(Debug, Clone, Copy, PartialEq, Eq, Structural)]
pub struct DialogStep {
    pub state: DialogState,
    pub notice: Option<DialogNotice>,
}

/// What the typed text `text` leads to: the trimmed text is read as a
/// `u32`; 0 has to be confirmed, any other count ends the dialog, and a
/// text that is no count is asked for again.
pub open spec fn entered_step(text: Seq<char>) -> DialogStep {
    match parse_unsigned_spec(trim_seq(text), u32::MAX as nat) {
        Ok(v) => if v == 0 {
            DialogStep { state: DialogState::ConfirmZero, notice: Some(DialogNotice::ZeroCycles) }
        } else {
            DialogStep {
                state: DialogState::Done(DialogResult::Confirm(v as usize)),
                notice: None,
            }
        },
        Err(e) => DialogStep {
            state: DialogState::EnterCycles,
            notice: Some(DialogNotice::InvalidNumber(e)),
        },
    }
}

/// The dialog's transitions.  An event that does not answer the state's
/// question leaves the state as it is.
pub open spec fn advance_spec(state: DialogState, event: DialogEvent) -> DialogStep {
    match (state, event) {
        (DialogState::Menu, DialogEvent::Selected(i)) => if i == 0 {
            DialogStep { state: DialogState::ConfirmCancel, notice: None }
        } else if i == 1 {
            DialogStep { state: DialogState::ConfirmIgnore, notice: None }
        } else if i == 2 {
            DialogStep { state: DialogState::EnterCycles, notice: None }
        } else {
            DialogStep { state: DialogState::Menu, notice: Some(DialogNotice::InvalidChoice) }
        },
        (DialogState::ConfirmCancel, DialogEvent::Answered(yes)) => if yes {
            DialogStep { state: DialogState::Done(DialogResult::Cancel), notice: None }
        } else {
            DialogStep { state: DialogState::Menu, notice: None }
        },
        (DialogState::ConfirmIgnore, DialogEvent::Answered(yes)) => if yes {
            DialogStep { state: DialogState::Done(DialogResult::Ignore), notice: None }
        } else {
            DialogStep { state: DialogState::Menu, notice: None }
        },
        (DialogState::EnterCycles, DialogEvent::InputFailed) => DialogStep {
            state: DialogState::Menu,
            notice: Some(DialogNotice::InputFailed),
        },
        (DialogState::EnterCycles, DialogEvent::Entered(text)) => entered_step(text@),
        (DialogState::ConfirmZero, DialogEvent::Answered(yes)) => if yes {
            DialogStep { state: DialogState::Done(DialogResult::Confirm(0)), notice: None }
        } else {
            DialogStep { state: DialogState::EnterCycles, notice: None }
        },
        (s, _) => DialogStep { state: s, notice: None },
    }
}

/// The state the dialog starts in.
pub fn start() -> (r: DialogState)
    ensures
        r == DialogState::Menu,
{
    DialogState::Menu
}

/// Moves the dialog on by one answer of the user.
pub fn advance(state: DialogState, event: DialogEvent) -> (r: DialogStep)
    ensures
        r == advance_spec(state, event),
{
    match (state, event) {
        (DialogState::Menu, DialogEvent::Selected(i)) => {
            if i == 0 {
                DialogStep { state: DialogState::ConfirmCancel, notice: None }
            } else if i == 1 {
                DialogStep { state: DialogState::ConfirmIgnore, notice: None }
            } else if i == 2 {
                DialogStep { state: DialogState::EnterCycles, notice: None }
            } else {
                DialogStep { state: DialogState::Menu, notice: Some(DialogNotice::InvalidChoice) }
            }
        },
        (DialogState::ConfirmCancel, DialogEvent::Answered(yes)) => {
            if yes {
                DialogStep { state: DialogState::Done(DialogResult::Cancel), notice: None }
            } else {
                DialogStep { state: DialogState::Menu, notice: None }
            }
        },
        (DialogState::ConfirmIgnore, DialogEvent::Answered(yes)) => {
            if yes {
                DialogStep { state: DialogState::Done(DialogResult::Ignore), notice: None }
            } else {
                DialogStep { state: DialogState::Menu, notice: None }
            }
        },
        (DialogState::EnterCycles, DialogEvent::InputFailed) => {
            DialogStep { state: DialogState::Menu, notice: Some(DialogNotice::InputFailed) }
        },
        (DialogState::EnterCycles, DialogEvent::Entered(text)) => {
            let t = trim(text.as_str());
            match parse_u32(t.as_str()) {
                Ok(v) => {
                    if v == 0 {
                        DialogStep {
                            state: DialogState::ConfirmZero,
                            notice: Some(DialogNotice::ZeroCycles),
                        }
                    } else {
                        DialogStep {
                            state: DialogState::Done(DialogResult::Confirm(v as usize)),
                            notice: None,
                        }
                    }
                },
                Err(e) => DialogStep {
                    state: DialogState::EnterCycles,
                    notice: Some(DialogNotice::InvalidNumber(e)),
                },
            }
        },
        (DialogState::ConfirmZero, DialogEvent::Answered(yes)) => {
            if yes {
                DialogStep { state: DialogState::Done(DialogResult::Confirm(0)), notice: None }
            } else {
                DialogStep { state: DialogState::EnterCycles, notice: None }
            }
        },
        (s, _) => DialogStep { state: s, notice: None },
    }
}

/// The dialog can only end by a confirmed answer: reaching `Done` takes a
/// yes to a confirmation question or a typed count other than 0.
pub proof fn law_dialog_ends_only_when_confirmed(state: DialogState, event: DialogEvent)
    requires
        !(state is Done),
        advance_spec(state, event).state is Done,
    ensures
        (event matches DialogEvent::Answered(yes) && yes) || (state == DialogState::EnterCycles
            && event is Entered),
{
}

} // verus!
