//! The confirm and input dialogs: what answering them hands to the core.

use vstd::prelude::*;
use crate::action::Action;

verus! {

/// What a confirm dialog asks to do.
#[derive(PartialEq, Eq, Structural, Clone, Copy, Debug)]
pub enum ConfirmAction {
    RefreshCache,
    ClearLibraryCache,
    ClearArtworkCache,
    ClearSubfolderCache,
    Quit,
}

/// A yes/no dialog.
#[derive(Clone, Debug)]
pub struct ConfirmDialog {
    pub title: String,
    pub message: String,
    pub on_confirm: ConfirmAction,
}

/// What an input dialog's text is for.
#[derive(PartialEq, Eq, Structural, Clone, Copy, Debug)]
pub enum InputDialogAction {
    SavePlaylist,
    AdventureLength,
}

/// A one-line text dialog.
#[derive(Clone, Debug)]
pub struct InputDialog {
    pub title: String,
    pub input: String,
    pub action_type: InputDialogAction,
}

/// The command a confirmed dialog runs.
pub open spec fn confirm_command(a: ConfirmAction) -> Action {
    match a {
        ConfirmAction::RefreshCache => Action::RefreshCurrentView,
        ConfirmAction::ClearLibraryCache => Action::ClearLibraryCache,
        ConfirmAction::ClearArtworkCache => Action::ClearArtworkCache,
        ConfirmAction::ClearSubfolderCache => Action::ClearSubfolderCache,
        ConfirmAction::Quit => Action::Quit,
    }
}

/// "Yes" on the confirm dialog: the dialog closes and, when one was open,
/// the command it asked about runs.
pub fn confirm_yes(dialog: &mut Option<ConfirmDialog>) -> (r: Vec<Action>)
    ensures
        *final(dialog) is None,
        r@ == match *old(dialog) {
            Some(d) => seq![confirm_command(d.on_confirm)],
            None => Seq::<Action>::empty(),
        },
{
    let mut out: Vec<Action> = Vec::new();
    match dialog.take() {
        Some(d) => {
            let a = match d.on_confirm {
                ConfirmAction::RefreshCache => Action::RefreshCurrentView,
                ConfirmAction::ClearLibraryCache => Action::ClearLibraryCache,
                ConfirmAction::ClearArtworkCache => Action::ClearArtworkCache,
                ConfirmAction::ClearSubfolderCache => Action::ClearSubfolderCache,
                ConfirmAction::Quit => Action::Quit,
            };
            out.push(a);
            proof {
                assert(out@ =~= seq![confirm_command(d.on_confirm)]);
            }
        },
        None => {},
    }
    out
}

/// Submitting the input dialog: the dialog closes; a playlist name saves
/// the queue under that name, while the adventure-length dialog runs
/// nothing (its value is taken in the Sonic Adventure launcher).
pub fn input_submit(dialog: &mut Option<InputDialog>) -> (r: Vec<Action>)
    ensures
        *final(dialog) is None,
        match *old(dialog) {
            Some(d) => if d.action_type == InputDialogAction::SavePlaylist {
                &&& r@.len() == 1
                &&& r@[0] matches Action::SaveQueueAsPlaylist(name)
                &&& name == d.input
            } else {
                r@.len() == 0
            },
            None => r@.len() == 0,
        },
{
    let mut out: Vec<Action> = Vec::new();
    match dialog.take() {
        Some(d) => match d.action_type {
            InputDialogAction::SavePlaylist => {
                out.push(Action::SaveQueueAsPlaylist(d.input));
            },
            InputDialogAction::AdventureLength => {},
        },
        None => {},
    }
    out
}

} // verus!
