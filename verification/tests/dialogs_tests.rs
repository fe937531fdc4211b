use textamp::action::Action;
use textamp::dialogs::{confirm_yes, input_submit, ConfirmAction, ConfirmDialog, InputDialog, InputDialogAction};

fn confirm(a: ConfirmAction) -> Option<ConfirmDialog> {
    Some(ConfirmDialog { title: "Sure?".to_string(), message: "Really?".to_string(), on_confirm: a })
}

#[test]
fn confirm_yes_runs_the_asked_command_and_closes() {
    let mut d = confirm(ConfirmAction::ClearArtworkCache);
    let r = confirm_yes(&mut d);
    assert!(d.is_none());
    assert_eq!(r.len(), 1);
    assert!(matches!(r[0], Action::ClearArtworkCache));
    let mut d = confirm(ConfirmAction::Quit);
    assert!(matches!(confirm_yes(&mut d)[0], Action::Quit));
    let mut d = confirm(ConfirmAction::RefreshCache);
    assert!(matches!(confirm_yes(&mut d)[0], Action::RefreshCurrentView));
    let mut none: Option<ConfirmDialog> = None;
    assert!(confirm_yes(&mut none).is_empty());
}

#[test]
fn input_submit_saves_playlist_under_typed_name() {
    let mut d = Some(InputDialog {
        title: "Save queue as playlist".to_string(),
        input: "Road trip".to_string(),
        action_type: InputDialogAction::SavePlaylist,
    });
    let r = input_submit(&mut d);
    assert!(d.is_none());
    assert_eq!(r.len(), 1);
    assert!(matches!(&r[0], Action::SaveQueueAsPlaylist(n) if n == "Road trip"));
    let mut d = Some(InputDialog {
        title: "Length".to_string(),
        input: "12".to_string(),
        action_type: InputDialogAction::AdventureLength,
    });
    assert!(input_submit(&mut d).is_empty());
    assert!(d.is_none());
}
