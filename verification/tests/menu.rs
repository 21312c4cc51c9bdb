use native::menu::context::{
    context_menu_plan, id_for_tag, mouse_up_after_menu, tag_for_id, MouseEventKind, NativeMenuEntry,
};
use native::menu::main_menu::{default_main_menu, menu_item, KeyEquivalent, MainMenuEntry, ModifierMask};
use native::menu::menu_item::{ActionItem, MenuItem};

fn action(id: u64, title: &str, is_selected: bool) -> MenuItem {
    MenuItem::Action(ActionItem { id, title: title.to_string(), is_selected })
}

#[test]
fn plan_has_one_entry_per_item_and_last_selected() {
    let items = vec![
        action(1, "Cut", true),
        MenuItem::Separator,
        action(2, "Copy", false),
        action(3, "Paste", true),
    ];
    let plan = context_menu_plan(&items);
    assert_eq!(plan.entries.len(), 4);
    match &plan.entries[0] {
        NativeMenuEntry::Action { title, tag, is_on } => {
            assert_eq!(title, "Cut");
            assert_eq!(*tag, 1);
            assert!(*is_on);
        }
        _ => panic!("expected an action"),
    }
    assert!(matches!(plan.entries[1], NativeMenuEntry::Separator));
    assert!(matches!(plan.entries[2], NativeMenuEntry::Action { is_on: false, tag: 2, .. }));
    assert_eq!(plan.selected_entry, Some(3));
}

#[test]
fn plan_without_selection() {
    let plan = context_menu_plan(&vec![action(5, "A", false), MenuItem::Separator]);
    assert_eq!(plan.selected_entry, None);
    let empty = context_menu_plan(&vec![]);
    assert!(empty.entries.is_empty());
    assert_eq!(empty.selected_entry, None);
}

#[test]
fn tag_round_trips_id() {
    for id in [0u64, 1, 42, i64::MAX as u64, u64::MAX] {
        assert_eq!(id_for_tag(tag_for_id(id)), id);
    }
    assert_eq!(tag_for_id(u64::MAX), -1);
}

#[test]
fn mouse_up_follows_mouse_down() {
    assert_eq!(mouse_up_after_menu(MouseEventKind::LeftMouseDown), Some(MouseEventKind::LeftMouseUp));
    assert_eq!(mouse_up_after_menu(MouseEventKind::RightMouseDown), Some(MouseEventKind::RightMouseUp));
    assert_eq!(mouse_up_after_menu(MouseEventKind::LeftMouseUp), None);
    assert_eq!(mouse_up_after_menu(MouseEventKind::Other), None);
}

#[test]
fn menu_item_without_key_equivalent() {
    let c = menu_item("Zoom", Some("performZoom:"), None);
    assert_eq!(c.title, "Zoom");
    assert_eq!(c.action.as_deref(), Some("performZoom:"));
    assert_eq!(c.key, "");
    assert_eq!(c.masks, None);
    let m = ModifierMask { option: true, command: true, control: false };
    let c = menu_item("X", None, Some(KeyEquivalent { key: "x".to_string(), masks: Some(m) }));
    assert_eq!(c.action, None);
    assert_eq!(c.key, "x");
    assert_eq!(c.masks, Some(m));
}

#[test]
fn default_main_menu_layout() {
    let menus = default_main_menu();
    let titles: Vec<&str> = menus.iter().map(|m| m.title.as_str()).collect();
    assert_eq!(titles, vec!["", "View", "Window", "Help"]);
    let app = &menus[0].entries;
    assert_eq!(app.len(), 8);
    assert!(matches!(app[1], MainMenuEntry::Separator));
    assert!(matches!(&app[2], MainMenuEntry::Services(c) if c.title == "Services" && c.action.is_none()));
    match &app[4] {
        MainMenuEntry::Command(c) => {
            assert_eq!(c.title, "Hide Others");
            assert_eq!(c.action.as_deref(), Some("hideOtherApplications:"));
            assert_eq!(c.key, "h");
            assert_eq!(c.masks, Some(ModifierMask { option: true, command: true, control: false }));
        }
        _ => panic!("expected Hide Others"),
    }
    match &app[7] {
        MainMenuEntry::Command(c) => {
            assert_eq!(c.title, "Quit APP_NAME");
            assert_eq!(c.key, "q");
            assert_eq!(c.masks, None);
        }
        _ => panic!("expected Quit"),
    }
    match &menus[1].entries[0] {
        MainMenuEntry::Command(c) => {
            assert_eq!(c.action.as_deref(), Some("toggleFullScreen:"));
            assert_eq!(c.masks, Some(ModifierMask { option: false, command: true, control: true }));
        }
        _ => panic!("expected full screen"),
    }
    assert_eq!(menus[2].entries.len(), 4);
    assert!(menus[3].entries.is_empty());
}
