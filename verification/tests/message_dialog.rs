use native::dialog::message::{
    action_result, ActionStyle, ActionType, AlertFuture, MessageDialog, MessageDialogResult,
    TextInputConfiguration,
};

#[test]
fn new_dialog_is_blank() {
    let d = MessageDialog::new();
    assert_eq!(d.title, "");
    assert_eq!(d.message, "");
    assert!(d.actions.is_empty());
    assert!(d.text_fields.is_empty());
}

#[test]
fn builders_chain_and_keep_order() {
    let mut d = MessageDialog::new();
    d.set_title("Delete?")
        .set_message("This cannot be undone.")
        .add_destructive_confirm("Delete")
        .add_cancel()
        .add_confirm("Keep")
        .add_ok()
        .add_dismiss("Later");
    assert_eq!(d.title, "Delete?");
    assert_eq!(d.message, "This cannot be undone.");
    let got: Vec<(String, ActionType, ActionStyle)> =
        d.actions.iter().map(|a| (a.title.clone(), a.action_type, a.style)).collect();
    assert_eq!(
        got,
        vec![
            ("Delete".to_string(), ActionType::Confirm, ActionStyle::Destructive),
            ("Cancel".to_string(), ActionType::Dismiss, ActionStyle::Cancel),
            ("Keep".to_string(), ActionType::Confirm, ActionStyle::Default),
            ("OK".to_string(), ActionType::Dismiss, ActionStyle::Cancel),
            ("Later".to_string(), ActionType::Dismiss, ActionStyle::Cancel),
        ]
    );
}

#[test]
fn add_action_keeps_given_type_and_style() {
    let mut d = MessageDialog::new();
    d.add_action("Go", ActionType::Dismiss, ActionStyle::Destructive);
    assert_eq!(d.actions.len(), 1);
    assert_eq!(d.actions[0].title, "Go");
    assert_eq!(d.actions[0].action_type, ActionType::Dismiss);
    assert_eq!(d.actions[0].style, ActionStyle::Destructive);
}

#[test]
fn setting_title_twice_keeps_last() {
    let mut d = MessageDialog::new();
    d.set_title("a").set_title("b");
    assert_eq!(d.title, "b");
}

#[test]
fn text_inputs_are_appended() {
    let mut d = MessageDialog::new();
    d.add_text_input(TextInputConfiguration::default()).add_text_input(TextInputConfiguration {
        text: Some("name".to_string()),
        placeholder: Some("Name".to_string()),
        autoselect: true,
        is_secure: false,
    });
    assert_eq!(d.text_fields.len(), 2);
    assert_eq!(d.text_fields[0].text, None);
    assert_eq!(d.text_fields[0].placeholder, None);
    assert!(!d.text_fields[0].autoselect && !d.text_fields[0].is_secure);
    assert_eq!(d.text_fields[1].text.as_deref(), Some("name"));
    assert!(d.text_fields[1].autoselect);
    assert!(d.actions.is_empty());
}

#[test]
fn confirm_press_reports_index_and_text() {
    let r = action_result(3, ActionType::Confirm, &vec![None, Some("hello".to_string())]);
    match r {
        MessageDialogResult::Confirmed(o) => {
            assert_eq!(o.selected_index, 3);
            assert_eq!(o.entered_text, vec!["hello".to_string()]);
        }
        _ => panic!("expected a confirmation"),
    }
}

#[test]
fn dismiss_press_reports_dismissed() {
    let r = action_result(0, ActionType::Dismiss, &vec![]);
    match r {
        MessageDialogResult::Dismissed(o) => {
            assert_eq!(o.selected_index, 0);
            assert!(o.entered_text.is_empty());
        }
        _ => panic!("expected a dismissal"),
    }
}

#[test]
fn first_press_wins_until_polled() {
    let mut f: AlertFuture<u8> = AlertFuture::new();
    assert!(f.poll(7).is_none());
    assert_eq!(f.action_selected(1, ActionType::Confirm, &vec![]), Some(7));
    assert_eq!(f.action_selected(0, ActionType::Dismiss, &vec![]), None);
    match f.poll(8) {
        Some(MessageDialogResult::Confirmed(o)) => assert_eq!(o.selected_index, 1),
        _ => panic!("expected the first press"),
    }
    assert!(f.poll(9).is_none());
    assert_eq!(f.action_selected(0, ActionType::Dismiss, &vec![]), Some(9));
    assert!(matches!(f.poll(10), Some(MessageDialogResult::Dismissed(_))));
}
