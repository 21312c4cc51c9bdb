use native::dialog::file::{FileDialog, FileDialogAction, FileDialogFuture, FileDialogResult};

#[test]
fn export_holds_one_path() {
    let d = FileDialog::export("/tmp/picture.png");
    match d.action {
        FileDialogAction::Export { paths } => assert_eq!(paths, vec!["/tmp/picture.png".to_string()]),
        _ => panic!("not an export dialogue"),
    }
}

#[test]
fn browser_browses() {
    assert!(matches!(FileDialog::browser().action, FileDialogAction::Browse));
}

#[test]
fn picker_keeps_extensions() {
    let d = FileDialog::picker(vec!["png", "jpg"]);
    match d.action {
        FileDialogAction::Pick { extensions } => assert_eq!(extensions, vec!["png", "jpg"]),
        _ => panic!("not a picker"),
    }
}

#[test]
fn image_picker_does_not_use_camera() {
    assert!(matches!(
        FileDialog::image_picker().action,
        FileDialogAction::PickImage { use_camera: false }
    ));
}

#[test]
fn camera_uses_camera() {
    assert!(matches!(FileDialog::camera().action, FileDialogAction::PickImage { use_camera: true }));
}

#[test]
fn picked_result_is_polled_after_pending_poll() {
    let mut f: FileDialogFuture<u32> = FileDialogFuture::new();
    assert!(f.poll(1).is_none());
    let to_wake = f.did_pick_urls(&vec![Some("/a".to_string()), None, Some("/c".to_string())]);
    assert_eq!(to_wake, Some(1));
    match f.poll(2) {
        Some(FileDialogResult::Complete { selected_paths }) => {
            assert_eq!(selected_paths, vec!["/a".to_string(), "/c".to_string()])
        }
        _ => panic!("expected the picked paths"),
    }
    assert!(f.poll(3).is_none());
}

#[test]
fn cancel_resolves_cancelled() {
    let mut f: FileDialogFuture<u32> = FileDialogFuture::new();
    assert_eq!(f.cancel(), None);
    assert!(matches!(f.poll(9), Some(FileDialogResult::Cancelled)));
}

#[test]
fn pick_without_path_sends_nothing() {
    let mut f: FileDialogFuture<u32> = FileDialogFuture::new();
    assert!(f.poll(5).is_none());
    assert_eq!(f.did_pick_url(None), None);
    assert!(f.state.result.is_none());
    assert_eq!(f.state.waker, Some(5));
}

#[test]
fn pick_with_path_completes() {
    let mut f: FileDialogFuture<u32> = FileDialogFuture::new();
    assert!(f.poll(5).is_none());
    assert_eq!(f.did_pick_url(Some("/img.heic".to_string())), Some(5));
    match f.poll(6) {
        Some(FileDialogResult::Complete { selected_paths }) => {
            assert_eq!(selected_paths, vec!["/img.heic".to_string()])
        }
        _ => panic!("expected one path"),
    }
}

#[test]
fn later_result_replaces_earlier() {
    let mut f: FileDialogFuture<u32> = FileDialogFuture::new();
    f.cancel();
    f.did_pick_url(Some("/x".to_string()));
    assert!(matches!(f.poll(0), Some(FileDialogResult::Complete { .. })));
}
