use native::dialog::desktop::{alert_result, file_picker_request, file_picker_result, DesktopFileRequest};
use native::dialog::file::{FileDialog, FileDialogResult};
use native::dialog::message::{MessageDialog, MessageDialogResult};

#[test]
fn pick_and_browse_open_one_file() {
    assert!(matches!(
        file_picker_request(&FileDialog::picker(vec!["txt"])),
        DesktopFileRequest::OpenSingleFile
    ));
    assert!(matches!(file_picker_request(&FileDialog::browser()), DesktopFileRequest::OpenSingleFile));
}

#[test]
fn export_saves_at_path() {
    match file_picker_request(&FileDialog::export("/home/me/art")) {
        DesktopFileRequest::SaveSingleFile { location, filename } => {
            assert_eq!(location, "/home/me/art");
            assert_eq!(filename, "Untitled.pixaki");
        }
        _ => panic!("expected a save dialogue"),
    }
}

#[test]
fn chosen_file_completes() {
    match file_picker_result(Ok(Some("/f.txt".to_string()))) {
        FileDialogResult::Complete { selected_paths } => assert_eq!(selected_paths, vec!["/f.txt".to_string()]),
        _ => panic!("expected completion"),
    }
}

#[test]
fn cancelled_or_failed_file_dialog_is_cancelled() {
    assert!(matches!(file_picker_result(Ok(None)), FileDialogResult::Cancelled));
    assert!(matches!(file_picker_result(Err(())), FileDialogResult::Cancelled));
}

#[test]
fn alert_confirmation_reports_confirm_action() {
    let mut d = MessageDialog::new();
    d.add_cancel().add_confirm("OK");
    match alert_result(&d.actions, Ok(true)) {
        MessageDialogResult::Confirmed(o) => {
            assert_eq!(o.selected_index, 1);
            assert!(o.entered_text.is_empty());
        }
        _ => panic!("expected confirmation"),
    }
}

#[test]
fn alert_dismissal_reports_dismiss_action() {
    let mut d = MessageDialog::new();
    d.add_confirm("Save").add_destructive_confirm("Delete").add_cancel();
    match alert_result(&d.actions, Ok(false)) {
        MessageDialogResult::Dismissed(o) => assert_eq!(o.selected_index, 2),
        _ => panic!("expected dismissal"),
    }
    match alert_result(&d.actions, Err(())) {
        MessageDialogResult::Dismissed(o) => assert_eq!(o.selected_index, 2),
        _ => panic!("expected dismissal"),
    }
    match alert_result(&d.actions, Ok(true)) {
        MessageDialogResult::Confirmed(o) => assert_eq!(o.selected_index, 0),
        _ => panic!("expected confirmation"),
    }
}

#[test]
fn alert_without_matching_action_reports_zero() {
    match alert_result(&vec![], Ok(true)) {
        MessageDialogResult::Confirmed(o) => assert_eq!(o.selected_index, 0),
        _ => panic!("expected confirmation"),
    }
    let mut d = MessageDialog::new();
    d.add_ok();
    assert!(matches!(alert_result(&d.actions, Ok(true)), MessageDialogResult::Confirmed(ref o) if o.selected_index == 0));
}
