use vstd::prelude::*;

verus! {

/// Modifier keys that a key equivalent needs besides the default.
#[derive(Debug, Clone, Copy, PartialEq, Eq, Structural)]
pub struct ModifierMask {
    /// The Option key.
    pub option: bool,
    /// The Command key.
    pub command: bool,
    /// The Control key.
    pub control: bool,
}

/// A key equivalent: the key, and the modifiers when they are not the default.
#[derive(Debug, Clone)]
pub struct KeyEquivalent {
    /// The key.
    pub key: String,
    /// The modifiers, if not the default.
    pub masks: Option<ModifierMask>,
}

/// A menu item that sends `action` (a selector name) when chosen.
#[derive(Debug, Clone)]
pub struct MenuCommand {
    /// The title.
    pub title: String,
    /// The selector sent, if any.
    pub action: Option<String>,
    /// The key equivalent; empty for none.
    pub key: String,
    /// The key equivalent's modifiers, if not the default.
    pub masks: Option<ModifierMask>,
}

/// An entry of a menu of the main menu bar.
#[derive(Debug, Clone)]
pub enum MainMenuEntry {
    /// An item.
    Command(MenuCommand),
    /// An item whose submenu is the application's services menu.
    Services(MenuCommand),
    /// A separator.
    Separator,
}

/// A menu of the main menu bar: its title and its entries.
#[derive(Debug, Clone)]
pub struct MainMenu {
    /// The title, shown in the menu bar (empty for the application menu).
    pub title: String,
    /// The entries.
    pub entries: Vec<MainMenuEntry>,
}

/// Whether `c` has the given title, action, key and modifiers.
pub open spec fn command_is(
    c: MenuCommand,
    title: Seq<char>,
    action: Option<Seq<char>>,
    key: Seq<char>,
    masks: Option<ModifierMask>,
) -> bool {
    &&& c.title@ == title
    &&& match c.action {
        Some(a) => action == Some(a@),
        None => action is None,
    }
    &&& c.key@ == key
    &&& c.masks == masks
}

/// Whether `e` is a command item with the given title, action, key and modifiers.
pub open spec fn is_command(
    e: MainMenuEntry,
    title: Seq<char>,
    action: Option<Seq<char>>,
    key: Seq<char>,
    masks: Option<ModifierMask>,
) -> bool {
    e matches MainMenuEntry::Command(c) && command_is(c, title, action, key, masks)
}

/// The modifiers Option and Command.
pub open spec fn option_command() -> ModifierMask {
    ModifierMask { option: true, command: true, control: false }
}

/// The modifiers Control and Command.
pub open spec fn control_command() -> ModifierMask {
    ModifierMask { option: false, command: true, control: true }
}

/// The application menu: About, a separator, Services, Hide (⌘H), Hide Others (⌥⌘H),
/// Show All, a separator and Quit (⌘Q).
pub open spec fn is_app_menu(m: MainMenu) -> bool {
    let e = m.entries@;
    &&& m.title@ == ""@
    &&& e.len() == 8
    &&& is_command(e[0], "About APP_NAME"@, Some("orderFrontStandardAboutPanel:"@), ""@, None)
    &&& e[1] is Separator
    &&& e[2] matches MainMenuEntry::Services(c) && command_is(c, "Services"@, None, ""@, None)
    &&& is_command(e[3], "Hide APP_NAME"@, Some("hide:"@), "h"@, None)
    &&& is_command(
        e[4],
        "Hide Others"@,
        Some("hideOtherApplications:"@),
        "h"@,
        Some(option_command()),
    )
    &&& is_command(e[5], "Show All"@, Some("unhideAllApplications:"@), ""@, None)
    &&& e[6] is Separator
    &&& is_command(e[7], "Quit APP_NAME"@, Some("terminate:"@), "q"@, None)
}

/// The View menu: Enter Full Screen (⌃⌘F).
pub open spec fn is_view_menu(m: MainMenu) -> bool {
    let e = m.entries@;
    &&& m.title@ == "View"@
    &&& e.len() == 1
    &&& is_command(
        e[0],
        "Enter Full Screen"@,
        Some("toggleFullScreen:"@),
        "f"@,
        Some(control_command()),
    )
}

/// The Window menu: Minimize (⌘M), Zoom, a separator and Bring All to Front.
pub open spec fn is_window_menu(m: MainMenu) -> bool {
    let e = m.entries@;
    &&& m.title@ == "Window"@
    &&& e.len() == 4
    &&& is_command(e[0], "Minimize"@, Some("performMiniaturize:"@), "m"@, None)
    &&& is_command(e[1], "Zoom"@, Some("performZoom:"@), ""@, None)
    &&& e[2] is Separator
    &&& is_command(e[3], "Bring All to Front"@, Some("arrangeInFront:"@), ""@, None)
}

/// The Help menu, which is empty.
pub open spec fn is_help_menu(m: MainMenu) -> bool {
    &&& m.title@ == "Help"@
    &&& m.entries@.len() == 0
}

/// The default main menu bar: the application, View, Window and Help menus.
pub open spec fn is_default_main_menu(menus: Seq<MainMenu>) -> bool {
    &&& menus.len() == 4
    &&& is_app_menu(menus[0])
    &&& is_view_menu(menus[1])
    &&& is_window_menu(menus[2])
    &&& is_help_menu(menus[3])
}

/// Whether, anywhere in `menus`, a command titled `title` sends `action` with key `key`.
pub open spec fn title_sends(
    menus: Seq<MainMenu>,
    title: Seq<char>,
    action: Seq<char>,
    key: Seq<char>,
) -> bool {
    forall|m: int, k: int|
        0 <= m < menus.len() && 0 <= k < menus[m].entries@.len() && (
        #[trigger] menus[m].entries@[k] matches MainMenuEntry::Command(c)) && menus[m].entries@[k]->Command_0.title@
            == title ==> {
            let c = menus[m].entries@[k]->Command_0;
            &&& c.action matches Some(a) && a@ == action
            &&& c.key@ == key
        }
}

/// In the default main menu bar each command title goes with its own selector and key:
/// About shows the about panel, Hide hides (⌘H), Hide Others hides the other applications
/// (⌘H with Option), Show All unhides them, Quit terminates (⌘Q), Enter Full Screen toggles
/// full screen (⌘F with Control), Minimize miniaturizes (⌘M), Zoom zooms and Bring All to
/// Front arranges the windows in front.
pub proof fn lemma_default_titles_send_their_selectors(menus: Seq<MainMenu>)
    requires
        is_default_main_menu(menus),
    ensures
        title_sends(menus, "About APP_NAME"@, "orderFrontStandardAboutPanel:"@, ""@),
        title_sends(menus, "Hide APP_NAME"@, "hide:"@, "h"@),
        title_sends(menus, "Hide Others"@, "hideOtherApplications:"@, "h"@),
        title_sends(menus, "Show All"@, "unhideAllApplications:"@, ""@),
        title_sends(menus, "Quit APP_NAME"@, "terminate:"@, "q"@),
        title_sends(menus, "Enter Full Screen"@, "toggleFullScreen:"@, "f"@),
        title_sends(menus, "Minimize"@, "performMiniaturize:"@, "m"@),
        title_sends(menus, "Zoom"@, "performZoom:"@, ""@),
        title_sends(menus, "Bring All to Front"@, "arrangeInFront:"@, ""@),
{
    reveal_strlit("About APP_NAME");
    assert("About APP_NAME"@.len() == 14 && "About APP_NAME"@[0] == 'A');
    reveal_strlit("Hide APP_NAME");
    assert("Hide APP_NAME"@.len() == 13 && "Hide APP_NAME"@[0] == 'H');
    reveal_strlit("Hide Others");
    assert("Hide Others"@.len() == 11 && "Hide Others"@[0] == 'H');
    reveal_strlit("Show All");
    assert("Show All"@.len() == 8 && "Show All"@[0] == 'S');
    reveal_strlit("Quit APP_NAME");
    assert("Quit APP_NAME"@.len() == 13 && "Quit APP_NAME"@[0] == 'Q');
    reveal_strlit("Enter Full Screen");
    assert("Enter Full Screen"@.len() == 17 && "Enter Full Screen"@[0] == 'E');
    reveal_strlit("Minimize");
    assert("Minimize"@.len() == 8 && "Minimize"@[0] == 'M');
    reveal_strlit("Zoom");
    assert("Zoom"@.len() == 4 && "Zoom"@[0] == 'Z');
    reveal_strlit("Bring All to Front");
    assert("Bring All to Front"@.len() == 18 && "Bring All to Front"@[0] == 'B');
    let app = menus[0].entries@;
    let view = menus[1].entries@;
    let window = menus[2].entries@;
    let help = menus[3].entries@;
    assert(app.len() == 8 && view.len() == 1 && window.len() == 4 && help.len() == 0);
}

/// Creates a menu item with `title` that sends `selector`; without a key equivalent its
/// key is empty and its modifiers the default.
pub fn menu_item(title: &str, selector: Option<&str>, key_equivalent: Option<KeyEquivalent>) -> (c:
    MenuCommand)
    ensures
        c.title@ == title@,
        match selector {
            Some(s) => c.action matches Some(a) && a@ == s@,
            None => c.action is None,
        },
        match key_equivalent {
            Some(ke) => c.key == ke.key && c.masks == ke.masks,
            None => c.key@ == ""@ && c.masks is None,
        },
{
    let (key, masks) = match key_equivalent {
        Some(ke) => (ke.key, ke.masks),
        None => ("".to_owned(), None),
    };
    let action = match selector {
        Some(s) => Some(s.to_owned()),
        None => None,
    };
    MenuCommand { title: title.to_owned(), action, key, masks }
}

/// A key equivalent of `key` with the default modifiers, or with `masks`.
fn key_equivalent(key: &str, masks: Option<ModifierMask>) -> (ke: KeyEquivalent)
    ensures
        ke.key@ == key@,
        ke.masks == masks,
{
    KeyEquivalent { key: key.to_owned(), masks }
}

/// Describes the default main menu bar.
pub fn default_main_menu() -> (menus: Vec<MainMenu>)
    ensures
        is_default_main_menu(menus@),
{
    let option_command = ModifierMask { option: true, command: true, control: false };
    let control_command = ModifierMask { option: false, command: true, control: true };

    let mut app_entries: Vec<MainMenuEntry> = Vec::new();
    app_entries.push(
        MainMenuEntry::Command(
            menu_item("About APP_NAME", Some("orderFrontStandardAboutPanel:"), None),
        ),
    );
    app_entries.push(MainMenuEntry::Separator);
    app_entries.push(MainMenuEntry::Services(menu_item("Services", None, None)));
    app_entries.push(
        MainMenuEntry::Command(
            menu_item("Hide APP_NAME", Some("hide:"), Some(key_equivalent("h", None))),
        ),
    );
    app_entries.push(
        MainMenuEntry::Command(
            menu_item(
                "Hide Others",
                Some("hideOtherApplications:"),
                Some(key_equivalent("h", Some(option_command))),
            ),
        ),
    );
    app_entries.push(
        MainMenuEntry::Command(menu_item("Show All", Some("unhideAllApplications:"), None)),
    );
    app_entries.push(MainMenuEntry::Separator);
    app_entries.push(
        MainMenuEntry::Command(
            menu_item("Quit APP_NAME", Some("terminate:"), Some(key_equivalent("q", None))),
        ),
    );
    let app_menu = MainMenu { title: "".to_owned(), entries: app_entries };

    let mut view_entries: Vec<MainMenuEntry> = Vec::new();
    view_entries.push(
        MainMenuEntry::Command(
            menu_item(
                "Enter Full Screen",
                Some("toggleFullScreen:"),
                Some(key_equivalent("f", Some(control_command))),
            ),
        ),
    );
    let view_menu = MainMenu { title: "View".to_owned(), entries: view_entries };

    let mut window_entries: Vec<MainMenuEntry> = Vec::new();
    window_entries.push(
        MainMenuEntry::Command(
            menu_item("Minimize", Some("performMiniaturize:"), Some(key_equivalent("m", None))),
        ),
    );
    window_entries.push(MainMenuEntry::Command(menu_item("Zoom", Some("performZoom:"), None)));
    window_entries.push(MainMenuEntry::Separator);
    window_entries.push(
        MainMenuEntry::Command(menu_item("Bring All to Front", Some("arrangeInFront:"), None)),
    );
    let window_menu = MainMenu { title: "Window".to_owned(), entries: window_entries };

    let help_menu = MainMenu { title: "Help".to_owned(), entries: Vec::new() };

    let mut menus: Vec<MainMenu> = Vec::new();
    menus.push(app_menu);
    menus.push(view_menu);
    menus.push(window_menu);
    menus.push(help_menu);
    menus
}

} // verus!
