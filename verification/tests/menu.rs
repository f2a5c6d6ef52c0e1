use wpp_desktop::menu::{
    app_menu_edits, find_item, item_text, on_menu_event, set_update_menu_text, terminal_position,
    Entry, ItemText, MenuAction, MenuEdit, MenuNode, UPDATE_MENU_ID,
};

fn item(id: &str) -> MenuNode {
    MenuNode::Item { id: id.to_string() }
}

fn submenu(title: &str, children: Vec<MenuNode>) -> MenuNode {
    MenuNode::Submenu { title: Some(title.to_string()), children }
}

fn default_menu() -> Vec<MenuNode> {
    vec![
        submenu("WordPuppi", vec![MenuNode::Other, MenuNode::Other]),
        submenu("Edit", vec![MenuNode::Other]),
        submenu("Window", vec![]),
        submenu("Help", vec![]),
    ]
}

fn tree(entry: Entry) -> MenuNode {
    match entry {
        Entry::CheckForUpdates => item("check-for-updates"),
        Entry::Settings => submenu("Settings", vec![item("settings")]),
        Entry::Help => submenu("Help", vec![tree(Entry::CheckForUpdates)]),
        Entry::File => submenu("File", vec![tree(Entry::Settings)]),
        Entry::Terminal => submenu("Terminal", vec![item("new-terminal")]),
    }
}

fn apply(menu: &mut Vec<MenuNode>, edit: MenuEdit) {
    match edit {
        MenuEdit::InsertInFirst { entry, position } => match &mut menu[0] {
            MenuNode::Submenu { children, .. } => children.insert(position, tree(entry)),
            _ => panic!("no submenu"),
        },
        MenuEdit::Append { entry } => menu.push(tree(entry)),
        MenuEdit::Insert { entry, position } => menu.insert(position, tree(entry)),
    }
}

fn install(mut menu: Vec<MenuNode>, macos: bool) -> Vec<MenuNode> {
    for edit in app_menu_edits(&menu, macos) {
        apply(&mut menu, edit);
    }
    let position = terminal_position(&menu);
    apply(&mut menu, MenuEdit::Insert { entry: Entry::Terminal, position });
    menu
}

#[test]
fn the_first_item_is_found() {
    let menu = vec![
        MenuNode::Other,
        submenu("a", vec![item("x"), submenu("b", vec![MenuNode::Other, item("y")])]),
        item("y"),
        item("z"),
    ];
    assert_eq!(find_item(&menu, "x"), Some(vec![1, 0]));
    assert_eq!(find_item(&menu, "y"), Some(vec![1, 1, 1]));
    assert_eq!(find_item(&menu, "z"), Some(vec![3]));
    assert_eq!(find_item(&menu, "a"), None);
    assert_eq!(find_item(&vec![], "x"), None);
}

#[test]
fn the_update_item_gets_its_text() {
    let menu = vec![submenu("Help", vec![item("check-for-updates")])];
    let change = set_update_menu_text(&menu, "Restart".to_string()).unwrap();
    assert_eq!(change.path, vec![0, 0]);
    assert_eq!(change.text, "Restart");
    assert!(set_update_menu_text(&default_menu(), "Restart".to_string()).is_none());
}

#[test]
fn macos_puts_the_items_into_the_application_menu() {
    assert_eq!(
        app_menu_edits(&default_menu(), true),
        vec![
            MenuEdit::InsertInFirst { entry: Entry::CheckForUpdates, position: 1 },
            MenuEdit::InsertInFirst { entry: Entry::Settings, position: 2 },
        ]
    );
    assert_eq!(app_menu_edits(&vec![item("x")], true), vec![]);
    assert_eq!(app_menu_edits(&vec![], true), vec![]);
}

#[test]
fn elsewhere_help_and_file_menus_hold_them() {
    assert_eq!(
        app_menu_edits(&default_menu(), false),
        vec![
            MenuEdit::Append { entry: Entry::Help },
            MenuEdit::Insert { entry: Entry::File, position: 0 },
        ]
    );
}

#[test]
fn the_terminal_menu_precedes_window() {
    assert_eq!(terminal_position(&default_menu()), 2);
    assert_eq!(terminal_position(&vec![item("Window"), MenuNode::Other]), 2);
    assert_eq!(terminal_position(&vec![]), 0);
    let untitled = MenuNode::Submenu { title: None, children: vec![] };
    assert_eq!(terminal_position(&vec![untitled, submenu("Window", vec![])]), 1);
}

#[test]
fn the_update_item_is_found_again() {
    assert_eq!(find_item(&install(default_menu(), true), UPDATE_MENU_ID), Some(vec![0, 1]));
    assert_eq!(find_item(&install(default_menu(), false), UPDATE_MENU_ID), Some(vec![6, 0]));
    assert_eq!(find_item(&install(vec![], false), UPDATE_MENU_ID), Some(vec![1, 0]));
}

#[test]
fn the_settings_and_the_terminal_can_be_reached() {
    let menu = install(default_menu(), false);
    assert_eq!(find_item(&menu, "settings"), Some(vec![0, 0, 0]));
    assert_eq!(find_item(&menu, "new-terminal"), Some(vec![3, 0]));
}

#[test]
fn each_item_has_its_action() {
    assert_eq!(on_menu_event("check-for-updates"), MenuAction::UpdateItem);
    assert_eq!(on_menu_event("new-terminal"), MenuAction::Emit { event: "terminal://new" });
    assert_eq!(on_menu_event("settings"), MenuAction::Emit { event: "settings://pick-workspace" });
    assert_eq!(on_menu_event("quit"), MenuAction::Nothing);
}

#[test]
fn items_have_labels_and_keys() {
    for (entry, id, label, keys) in [
        (Entry::CheckForUpdates, "check-for-updates", "Check for Updates…", None),
        (Entry::Help, "check-for-updates", "Check for Updates…", None),
        (Entry::Settings, "settings", "Set Default Folder…", Some("CmdOrCtrl+,")),
        (Entry::File, "settings", "Set Default Folder…", Some("CmdOrCtrl+,")),
        (Entry::Terminal, "new-terminal", "New Terminal", Some("CmdOrCtrl+Shift+`")),
    ] {
        assert_eq!(item_text(entry), ItemText { id, label, keys });
    }
}
