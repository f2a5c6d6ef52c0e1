//! The menu bar: what the shell adds to it, where, and what its items do.
use vstd::prelude::*;
use crate::text::same_text;

verus! {

/// The item that checks for updates, and later offers the restart.
pub const UPDATE_MENU_ID: &'static str = "check-for-updates";

pub const UPDATE_LABEL: &'static str = "Check for Updates…";

/// The item that opens a terminal in the dock.
pub const NEW_TERMINAL_MENU_ID: &'static str = "new-terminal";

pub const NEW_TERMINAL_LABEL: &'static str = "New Terminal";

pub const NEW_TERMINAL_KEYS: &'static str = "CmdOrCtrl+Shift+`";

/// The item that picks the directory of the dock.
pub const SETTINGS_MENU_ID: &'static str = "settings";

pub const SETTINGS_LABEL: &'static str = "Set Default Folder…";

pub const SETTINGS_KEYS: &'static str = "CmdOrCtrl+,";

pub const SETTINGS_TITLE: &'static str = "Settings";

pub const HELP_TITLE: &'static str = "Help";

pub const FILE_TITLE: &'static str = "File";

pub const TERMINAL_TITLE: &'static str = "Terminal";

/// The submenu that the terminal menu goes in front of.
pub const WINDOW_TITLE: &'static str = "Window";

/// The event that has the page start a terminal session.
pub const NEW_TERMINAL_EVENT: &'static str = "terminal://new";

/// The event that has the page ask for the directory of the dock.
pub const SETTINGS_EVENT: &'static str = "settings://pick-workspace";

/// An entry of a menu.
#[derive(Debug, PartialEq, Eq)]
pub enum MenuNode {
    /// A plain item.
    Item { id: String },
    /// A submenu; `title` is missing where it could not be read, and so are
    /// the children.
    Submenu { title: Option<String>, children: Vec<MenuNode> },
    /// Any other entry: a separator, a standard item, a check mark.
    Other,
}

/// An entry of a menu, as a value.
pub enum Tree {
    Item { id: Seq<char> },
    Submenu { title: Option<Seq<char>>, children: Seq<Tree> },
    Other,
}

/// The value of an entry.
pub open spec fn tree_of(node: MenuNode) -> Tree
    decreases node,
{
    match node {
        MenuNode::Item { id } => Tree::Item { id: id@ },
        MenuNode::Submenu { title, children } => Tree::Submenu {
            title: crate::text::text_of(title),
            children: Seq::new(
                children@.len(),
                |i: int|
                    if 0 <= i < children@.len() {
                        tree_of(children@[i])
                    } else {
                        Tree::Other
                    },
            ),
        },
        MenuNode::Other => Tree::Other,
    }
}

/// The values of the entries of a menu.
pub open spec fn trees_of(nodes: Seq<MenuNode>) -> Seq<Tree> {
    Seq::new(nodes.len(), |i: int| tree_of(nodes[i]))
}

/// A position in a menu: the index of an entry, then the index of one of its
/// children, and so on.
pub open spec fn path_of(path: Seq<usize>) -> Seq<int> {
    path.map_values(|i: usize| i as int)
}

/// Whether the plain item `id` stands at `path`.
pub open spec fn holds_at(menu: Seq<Tree>, path: Seq<int>, id: Seq<char>) -> bool
    decreases path.len(),
{
    &&& path.len() > 0
    &&& 0 <= path[0] < menu.len()
    &&& match menu[path[0]] {
        Tree::Item { id: own } => path.len() == 1 && own == id,
        Tree::Submenu { children, .. } => holds_at(children, path.drop_first(), id),
        Tree::Other => false,
    }
}

/// Whether `p` comes before `q` when the menu is read from top to bottom.
pub open spec fn earlier(p: Seq<int>, q: Seq<int>) -> bool
    decreases p.len(),
{
    &&& p.len() > 0
    &&& q.len() > 0
    &&& p[0] < q[0] || (p[0] == q[0] && earlier(p.drop_first(), q.drop_first()))
}

/// Whether `path` is where the item `id` stands for the first time.
pub open spec fn first_at(menu: Seq<Tree>, path: Seq<int>, id: Seq<char>) -> bool {
    &&& holds_at(menu, path, id)
    &&& forall|other: Seq<int>| #[trigger]
        holds_at(menu, other, id) ==> other == path || earlier(path, other)
}

/// Whether the item `id` stands nowhere in the menu.
pub open spec fn absent(menu: Seq<Tree>, id: Seq<char>) -> bool {
    forall|path: Seq<int>| !#[trigger] holds_at(menu, path, id)
}

proof fn lemma_submenu_tree(title: Option<String>, children: Vec<MenuNode>)
    ensures
        tree_of(MenuNode::Submenu { title, children }) == (Tree::Submenu {
            title: crate::text::text_of(title),
            children: trees_of(children@),
        }),
{
    let shown = tree_of(MenuNode::Submenu { title, children });
    assert(shown->children =~= trees_of(children@));
}

/// What the search of one entry says about the paths that lead into it.
proof fn lemma_first_in_entry(menu: Seq<Tree>, i: int, inner: Option<Seq<int>>, id: Seq<char>)
    requires
        0 <= i < menu.len(),
        match (menu[i], inner) {
            (Tree::Item { id: own }, Some(rest)) => own == id && rest.len() == 0,
            (Tree::Item { id: own }, None) => own != id,
            (Tree::Submenu { children, .. }, Some(rest)) => first_at(children, rest, id),
            (Tree::Submenu { children, .. }, None) => absent(children, id),
            (Tree::Other, _) => inner is None,
        },
    ensures
        match inner {
            Some(rest) => {
                &&& holds_at(menu, seq![i] + rest, id)
                &&& forall|path: Seq<int>| #[trigger]
                    holds_at(menu, path, id) && path[0] == i ==> path == seq![i] + rest || earlier(
                        seq![i] + rest,
                        path,
                    )
            },
            None => forall|path: Seq<int>| #[trigger] holds_at(menu, path, id) ==> path[0] != i,
        },
{
    match inner {
        Some(rest) => {
            let own = seq![i] + rest;
            assert(own.drop_first() =~= rest);
            assert forall|path: Seq<int>| #[trigger]
                holds_at(menu, path, id) && path[0] == i implies path == own || earlier(
                own,
                path,
            ) by {
                assert(path =~= seq![i] + path.drop_first());
                match menu[i] {
                    Tree::Submenu { children, .. } => {
                        assert(holds_at(children, path.drop_first(), id));
                    },
                    _ => {
                        assert(path =~= own);
                    },
                }
            }
        },
        None => {
            assert forall|path: Seq<int>| #[trigger] holds_at(menu, path, id) implies path[0]
                != i by {
                if path[0] == i {
                    match menu[i] {
                        Tree::Submenu { children, .. } => {
                            assert(!holds_at(children, path.drop_first(), id));
                        },
                        _ => {},
                    }
                }
            }
        },
    }
}

/// Where the item `id` stands for the first time, if it is there.
pub fn find_item(nodes: &Vec<MenuNode>, id: &str) -> (r: Option<Vec<usize>>)
    ensures
        match r {
            Some(path) => first_at(trees_of(nodes@), path_of(path@), id@),
            None => absent(trees_of(nodes@), id@),
        },
    decreases nodes,
{
    let ghost menu = trees_of(nodes@);
    let mut i: usize = 0;
    while i < nodes.len()
        invariant
            i <= nodes@.len(),
            menu == trees_of(nodes@),
            forall|path: Seq<int>| #[trigger] holds_at(menu, path, id@) ==> path[0] >= i,
        decreases nodes@.len() - i,
    {
        let inner: Option<Vec<usize>> = match &nodes[i] {
            MenuNode::Item { id: own } => {
                if same_text(own.as_str(), id) {
                    Some(Vec::new())
                } else {
                    None
                }
            },
            MenuNode::Submenu { title, children } => {
                proof {
                    lemma_submenu_tree(*title, *children);
                }
                find_item(children, id)
            },
            MenuNode::Other => None,
        };
        match inner {
            Some(rest) => {
                let ghost below = path_of(rest@);
                proof {
                    lemma_first_in_entry(menu, i as int, Some(below), id@);
                }
                let mut tail: Vec<usize> = rest;
                let mut path: Vec<usize> = Vec::new();
                path.push(i);
                path.append(&mut tail);
                assert(path_of(path@) =~= seq![i as int] + below);
                assert forall|other: Seq<int>| #[trigger] holds_at(menu, other, id@) implies other
                    == path_of(path@) || earlier(path_of(path@), other) by {
                    if other[0] != i {
                        assert(path_of(path@)[0] < other[0]);
                    }
                }
                return Some(path);
            },
            None => {
                proof {
                    lemma_first_in_entry(menu, i as int, None, id@);
                }
            },
        }
        i = i + 1;
    }
    None
}

/// A menu item that gets a new text.
#[derive(Debug, PartialEq, Eq)]
pub struct Retitle {
    /// Where the item stands.
    pub path: Vec<usize>,
    pub text: String,
}

/// Gives the update item a new text: the first item of that id in the menu, if
/// there is one.
pub fn set_update_menu_text(nodes: &Vec<MenuNode>, text: String) -> (r: Option<Retitle>)
    ensures
        match r {
            Some(change) => {
                &&& first_at(trees_of(nodes@), path_of(change.path@), UPDATE_MENU_ID@)
                &&& change.text@ == text@
            },
            None => absent(trees_of(nodes@), UPDATE_MENU_ID@),
        },
        r matches Some(change) ==> holds_at(
            trees_of(nodes@),
            path_of(change.path@),
            "check-for-updates"@,
        ),
{
    match find_item(nodes, UPDATE_MENU_ID) {
        Some(path) => Some(Retitle { path, text }),
        None => None,
    }
}

/// What the shell adds to the menu bar.
#[derive(Clone, Copy, PartialEq, Eq, Structural, Debug)]
pub enum Entry {
    /// The update item.
    CheckForUpdates,
    /// The submenu with the item that picks the directory of the dock.
    Settings,
    /// The submenu with the update item.
    Help,
    /// The submenu with the settings.
    File,
    /// The submenu with the item that opens a terminal.
    Terminal,
}

/// One change of the menu bar.
#[derive(Clone, Copy, PartialEq, Eq, Structural, Debug)]
pub enum MenuEdit {
    /// Into the first submenu, at `position`.
    InsertInFirst { entry: Entry, position: usize },
    /// To the end of the bar.
    Append { entry: Entry },
    /// Into the bar, at `position`.
    Insert { entry: Entry, position: usize },
}

/// A submenu that holds `child` alone.
pub open spec fn submenu_of(title: Seq<char>, child: Tree) -> Tree {
    Tree::Submenu { title: Some(title), children: seq![child] }
}

/// The entry itself.
pub open spec fn entry_tree(entry: Entry) -> Tree {
    let update = Tree::Item { id: UPDATE_MENU_ID@ };
    let settings = submenu_of(SETTINGS_TITLE@, Tree::Item { id: SETTINGS_MENU_ID@ });
    match entry {
        Entry::CheckForUpdates => update,
        Entry::Settings => settings,
        Entry::Help => submenu_of(HELP_TITLE@, update),
        Entry::File => submenu_of(FILE_TITLE@, settings),
        Entry::Terminal => submenu_of(TERMINAL_TITLE@, Tree::Item { id: NEW_TERMINAL_MENU_ID@ }),
    }
}

/// How a menu item reads: its id, its label and the keys that choose it.
#[derive(Clone, Copy, Debug, PartialEq, Eq)]
pub struct ItemText {
    pub id: &'static str,
    pub label: &'static str,
    pub keys: Option<&'static str>,
}

/// The characters of an item's id, label and keys.
pub open spec fn item_of(item: ItemText) -> (Seq<char>, Seq<char>, Option<Seq<char>>) {
    (
        item.id@,
        item.label@,
        match item.keys {
            Some(keys) => Some(keys@),
            None => None,
        },
    )
}

/// The id, the label and the keys of the one item that `entry` is or holds.
pub open spec fn entry_item(entry: Entry) -> (Seq<char>, Seq<char>, Option<Seq<char>>) {
    match entry {
        Entry::CheckForUpdates | Entry::Help => (UPDATE_MENU_ID@, UPDATE_LABEL@, None),
        Entry::Settings | Entry::File => (
            SETTINGS_MENU_ID@,
            SETTINGS_LABEL@,
            Some(SETTINGS_KEYS@),
        ),
        Entry::Terminal => (
            NEW_TERMINAL_MENU_ID@,
            NEW_TERMINAL_LABEL@,
            Some(NEW_TERMINAL_KEYS@),
        ),
    }
}

/// The text of the one item that `entry` is or holds.
pub fn item_text(entry: Entry) -> (r: ItemText)
    ensures
        item_of(r) == entry_item(entry),
{
    match entry {
        Entry::CheckForUpdates | Entry::Help => ItemText {
            id: UPDATE_MENU_ID,
            label: UPDATE_LABEL,
            keys: None,
        },
        Entry::Settings | Entry::File => ItemText {
            id: SETTINGS_MENU_ID,
            label: SETTINGS_LABEL,
            keys: Some(SETTINGS_KEYS),
        },
        Entry::Terminal => ItemText {
            id: NEW_TERMINAL_MENU_ID,
            label: NEW_TERMINAL_LABEL,
            keys: Some(NEW_TERMINAL_KEYS),
        },
    }
}

/// What is found in `tree` by always opening the first entry.
pub open spec fn innermost(tree: Tree) -> Tree
    decreases tree,
{
    match tree {
        Tree::Submenu { title, children } => if children.len() > 0 {
            innermost(children[0])
        } else {
            tree
        },
        _ => tree,
    }
}

/// The text that an entry gets belongs to the item that the entry brings: they
/// have the same id.
pub proof fn law_text_belongs_to_the_entry(entry: Entry)
    ensures
        innermost(entry_tree(entry)) == (Tree::Item { id: entry_item(entry).0 }),
{
    reveal_with_fuel(innermost, 3);
}

/// The menu after one change.
pub open spec fn edited(menu: Seq<Tree>, edit: MenuEdit) -> Seq<Tree> {
    match edit {
        MenuEdit::InsertInFirst { entry, position } => if menu.len() > 0 {
            match menu[0] {
                Tree::Submenu { title, children } => menu.update(
                    0,
                    Tree::Submenu {
                        title,
                        children: children.insert(position as int, entry_tree(entry)),
                    },
                ),
                _ => menu,
            }
        } else {
            menu
        },
        MenuEdit::Append { entry } => menu.push(entry_tree(entry)),
        MenuEdit::Insert { entry, position } => menu.insert(position as int, entry_tree(entry)),
    }
}

/// The changes that put the update item and the settings where the platform
/// expects them: on macOS in the application's own menu, right under the
/// first entry; elsewhere in a Help menu at the end and a File menu in front.
/// A bar that does not begin with a submenu gets neither on macOS.
pub open spec fn app_edits(menu: Seq<Tree>, macos: bool) -> Seq<MenuEdit> {
    if !macos {
        seq![
            MenuEdit::Append { entry: Entry::Help },
            MenuEdit::Insert { entry: Entry::File, position: 0 },
        ]
    } else if menu.len() > 0 && menu[0] is Submenu {
        seq![
            MenuEdit::InsertInFirst { entry: Entry::CheckForUpdates, position: 1 },
            MenuEdit::InsertInFirst { entry: Entry::Settings, position: 2 },
        ]
    } else {
        seq![]
    }
}

/// The menu after two changes, or as it is.
pub open spec fn with_app_entries(menu: Seq<Tree>, macos: bool) -> Seq<Tree> {
    let edits = app_edits(menu, macos);
    if edits.len() == 0 {
        menu
    } else {
        edited(edited(menu, edits[0]), edits[1])
    }
}

/// The changes that put the update item and the settings into the menu bar.
pub fn app_menu_edits(nodes: &Vec<MenuNode>, macos: bool) -> (r: Vec<MenuEdit>)
    ensures
        r@ == app_edits(trees_of(nodes@), macos),
{
    let mut edits: Vec<MenuEdit> = Vec::new();
    if !macos {
        edits.push(MenuEdit::Append { entry: Entry::Help });
        edits.push(MenuEdit::Insert { entry: Entry::File, position: 0 });
    } else if nodes.len() > 0 {
        let opens: bool = match &nodes[0] {
            MenuNode::Submenu { title: _, children: _ } => true,
            _ => false,
        };
        if opens {
            edits.push(MenuEdit::InsertInFirst { entry: Entry::CheckForUpdates, position: 1 });
            edits.push(MenuEdit::InsertInFirst { entry: Entry::Settings, position: 2 });
        }
    }
    assert(edits@ =~= app_edits(trees_of(nodes@), macos));
    edits
}

/// Whether `entry` is the submenu that the terminal menu goes in front of.
pub open spec fn is_window_menu(entry: Tree) -> bool {
    entry matches Tree::Submenu { title, .. } && title == Some(WINDOW_TITLE@)
}

/// Whether the terminal menu belongs at `position`: in front of the first
/// Window menu, or at the end where there is none.
pub open spec fn is_terminal_position(menu: Seq<Tree>, position: int) -> bool {
    &&& 0 <= position <= menu.len()
    &&& forall|i: int| 0 <= i < position ==> !is_window_menu(#[trigger] menu[i])
    &&& position < menu.len() ==> is_window_menu(menu[position])
}

/// Where the terminal menu goes.
pub fn terminal_position(nodes: &Vec<MenuNode>) -> (r: usize)
    ensures
        is_terminal_position(trees_of(nodes@), r as int),
        r <= nodes@.len(),
        forall|i: int|
            0 <= i < nodes@.len() && (#[trigger] nodes@[i] matches MenuNode::Submenu {
                title: Some(title),
                ..
            } && title@ == "Window"@) ==> r <= i,
        r < nodes@.len() ==> (nodes@[r as int] matches MenuNode::Submenu { title: Some(title), .. }
            && title@ == "Window"@),
{
    let ghost menu = trees_of(nodes@);
    let mut i: usize = 0;
    while i < nodes.len()
        invariant
            i <= nodes@.len(),
            menu == trees_of(nodes@),
            forall|j: int| 0 <= j < i ==> !is_window_menu(#[trigger] menu[j]),
        decreases nodes@.len() - i,
    {
        let found: bool = match &nodes[i] {
            MenuNode::Submenu { title, children: _ } => match title {
                Some(t) => same_text(t.as_str(), WINDOW_TITLE),
                None => false,
            },
            _ => false,
        };
        if found {
            assert forall|j: int|
                0 <= j < nodes@.len() && (#[trigger] nodes@[j] matches MenuNode::Submenu {
                    title: Some(title),
                    ..
                } && title@ == "Window"@) implies i <= j by {
                assert(is_window_menu(menu[j]));
            }
            return i;
        }
        i = i + 1;
    }
    assert forall|j: int|
        0 <= j < nodes@.len() && (#[trigger] nodes@[j] matches MenuNode::Submenu {
            title: Some(title),
            ..
        } && title@ == "Window"@) implies i <= j by {
        assert(is_window_menu(menu[j]));
    }
    i
}

/// What choosing a menu item does.
#[derive(Debug, PartialEq, Eq)]
pub enum MenuAction {
    /// What the update item stands for at the moment.
    UpdateItem,
    /// Sends the page this event.
    Emit { event: &'static str },
    Nothing,
}

/// What choosing the item `id` does.
pub fn on_menu_event(id: &str) -> (r: MenuAction)
    ensures
        match r {
            MenuAction::UpdateItem => id@ == UPDATE_MENU_ID@,
            MenuAction::Emit { event } => id@ != UPDATE_MENU_ID@ && {
                ||| id@ == NEW_TERMINAL_MENU_ID@ && event@ == NEW_TERMINAL_EVENT@
                ||| id@ == SETTINGS_MENU_ID@ && event@ == SETTINGS_EVENT@
            },
            MenuAction::Nothing => id@ != UPDATE_MENU_ID@ && id@ != NEW_TERMINAL_MENU_ID@ && id@
                != SETTINGS_MENU_ID@,
        },
        r is UpdateItem <==> id@ == "check-for-updates"@,
        r is Emit <==> id@ == "new-terminal"@ || id@ == "settings"@,
        id@ == "new-terminal"@ ==> (r matches MenuAction::Emit { event } && event@
            == "terminal://new"@),
        id@ == "settings"@ ==> (r matches MenuAction::Emit { event } && event@
            == "settings://pick-workspace"@),
{
    proof {
        law_ids_are_distinct();
    }
    if same_text(id, UPDATE_MENU_ID) {
        MenuAction::UpdateItem
    } else if same_text(id, NEW_TERMINAL_MENU_ID) {
        MenuAction::Emit { event: NEW_TERMINAL_EVENT }
    } else if same_text(id, SETTINGS_MENU_ID) {
        MenuAction::Emit { event: SETTINGS_EVENT }
    } else {
        MenuAction::Nothing
    }
}

/// The items that the shell adds are told apart by their ids.
pub proof fn law_ids_are_distinct()
    ensures
        UPDATE_MENU_ID@ != NEW_TERMINAL_MENU_ID@,
        UPDATE_MENU_ID@ != SETTINGS_MENU_ID@,
        NEW_TERMINAL_MENU_ID@ != SETTINGS_MENU_ID@,
{
    reveal_strlit("check-for-updates");
    reveal_strlit("new-terminal");
    reveal_strlit("settings");
    assert(UPDATE_MENU_ID@.len() == 17);
    assert(NEW_TERMINAL_MENU_ID@.len() == 12);
    assert(SETTINGS_MENU_ID@.len() == 8);
}

/// There is one place for the terminal menu.
pub proof fn law_one_terminal_position(menu: Seq<Tree>, p: int, q: int)
    requires
        is_terminal_position(menu, p),
        is_terminal_position(menu, q),
    ensures
        p == q,
{
    if p < q {
        assert(!is_window_menu(menu[p]));
    }
    if q < p {
        assert(!is_window_menu(menu[q]));
    }
}

/// The terminal menu stands right in front of the Window menu, or last, and
/// the other entries keep their order.
pub proof fn law_terminal_menu_precedes_window(menu: Seq<Tree>, position: usize)
    requires
        is_terminal_position(menu, position as int),
    ensures
        ({
            let bar = edited(menu, MenuEdit::Insert { entry: Entry::Terminal, position });
            &&& bar[position as int] == entry_tree(Entry::Terminal)
            &&& position + 1 < bar.len() ==> is_window_menu(bar[position + 1])
            &&& bar.remove(position as int) == menu
        }),
{
    let bar = edited(menu, MenuEdit::Insert { entry: Entry::Terminal, position });
    assert(bar.remove(position as int) =~= menu);
}

/// Whether the item `id` stands at `rest` below `entry`.
spec fn entry_holds(entry: Tree, rest: Seq<int>, id: Seq<char>) -> bool {
    match entry {
        Tree::Item { id: own } => rest.len() == 0 && own == id,
        Tree::Submenu { children, .. } => holds_at(children, rest, id),
        Tree::Other => false,
    }
}

proof fn lemma_holds_in_entry(menu: Seq<Tree>, path: Seq<int>, id: Seq<char>)
    requires
        path.len() > 0,
        0 <= path[0] < menu.len(),
    ensures
        holds_at(menu, path, id) == entry_holds(menu[path[0]], path.drop_first(), id),
{
}

proof fn lemma_absent_entry(menu: Seq<Tree>, i: int, rest: Seq<int>, id: Seq<char>)
    requires
        absent(menu, id),
        0 <= i < menu.len(),
    ensures
        !entry_holds(menu[i], rest, id),
{
    let path = seq![i] + rest;
    assert(path.drop_first() =~= rest);
    assert(!holds_at(menu, path, id));
}

/// What the added submenus hold: one item, at the bottom.
proof fn lemma_added_entries(rest: Seq<int>)
    ensures
        entry_holds(entry_tree(Entry::Help), rest, UPDATE_MENU_ID@) <==> rest == seq![0int],
        entry_holds(entry_tree(Entry::CheckForUpdates), rest, UPDATE_MENU_ID@) <==> rest.len() == 0,
        !entry_holds(entry_tree(Entry::Terminal), rest, UPDATE_MENU_ID@),
        !entry_holds(entry_tree(Entry::Settings), rest, UPDATE_MENU_ID@),
        !entry_holds(entry_tree(Entry::File), rest, UPDATE_MENU_ID@),
{
    law_ids_are_distinct();
    reveal_with_fuel(holds_at, 4);
    if rest.len() == 1 && rest[0] == 0 {
        assert(rest =~= seq![0int]);
    }
}

/// Whether the platform's menu has the place that the update item goes to.
pub open spec fn has_room(menu: Seq<Tree>, macos: bool) -> bool {
    macos ==> menu.len() > 0 && (menu[0] matches Tree::Submenu { children, .. } && children.len()
        > 0)
}

/// The update item can be found again: once the shell has added its entries to
/// a menu that had no such item, there is exactly one.
pub proof fn law_update_item_is_found_again(menu: Seq<Tree>, macos: bool, position: usize)
    requires
        absent(menu, UPDATE_MENU_ID@),
        has_room(menu, macos),
        is_terminal_position(with_app_entries(menu, macos), position as int),
    ensures
        ({
            let bar = edited(
                with_app_entries(menu, macos),
                MenuEdit::Insert { entry: Entry::Terminal, position },
            );
            exists|path: Seq<int>|
                {
                    &&& #[trigger] first_at(bar, path, UPDATE_MENU_ID@)
                    &&& forall|other: Seq<int>| #[trigger]
                        holds_at(bar, other, UPDATE_MENU_ID@) ==> other == path
                }
        }),
{
    let id = UPDATE_MENU_ID@;
    let ready = with_app_entries(menu, macos);
    let bar = edited(ready, MenuEdit::Insert { entry: Entry::Terminal, position });
    if macos {
        let children = menu[0]->children;
        let one = children.insert(1, entry_tree(Entry::CheckForUpdates));
        let two = one.insert(2, entry_tree(Entry::Settings));
        assert(ready[0]->children == two);
        let home: int = if position == 0 {
            1
        } else {
            0
        };
        let path = seq![home, 1int];
        assert(path.drop_first() =~= seq![1int]);
        assert(seq![1int].drop_first() =~= Seq::<int>::empty());
        lemma_added_entries(Seq::<int>::empty());
        lemma_holds_in_entry(two, seq![1int], id);
        lemma_holds_in_entry(bar, path, id);
        assert forall|other: Seq<int>| #[trigger] holds_at(bar, other, id) implies other == path by {
            let k = other[0];
            let rest = other.drop_first();
            lemma_holds_in_entry(bar, other, id);
            lemma_added_entries(rest);
            if k == position {
            } else {
                let from = if k < position {
                    k
                } else {
                    k - 1
                };
                assert(bar[k] == ready[from]);
                if from != 0 {
                    lemma_absent_entry(menu, from, rest, id);
                } else {
                    let m = rest[0];
                    let deeper = rest.drop_first();
                    lemma_holds_in_entry(two, rest, id);
                    lemma_added_entries(deeper);
                    if m == 1 {
                        assert(other =~= path);
                    } else if m != 2 {
                        let was = if m == 0 {
                            m
                        } else {
                            m - 2
                        };
                        assert(two[m] == children[was]);
                        let inner = seq![was] + deeper;
                        assert(inner.drop_first() =~= deeper);
                        lemma_holds_in_entry(children, inner, id);
                        lemma_absent_entry(menu, 0, inner, id);
                    }
                }
            }
        }
        assert(first_at(bar, path, id));
    } else {
        let last: int = menu.len() as int + 1;
        let home: int = if position <= last {
            last + 1
        } else {
            last
        };
        let path = seq![home, 0int];
        assert(path.drop_first() =~= seq![0int]);
        lemma_added_entries(seq![0int]);
        lemma_holds_in_entry(bar, path, id);
        assert forall|other: Seq<int>| #[trigger] holds_at(bar, other, id) implies other == path by {
            let k = other[0];
            let rest = other.drop_first();
            lemma_holds_in_entry(bar, other, id);
            lemma_added_entries(rest);
            if k != position {
                let from = if k < position {
                    k
                } else {
                    k - 1
                };
                assert(bar[k] == ready[from]);
                if from == last {
                    assert(other =~= path);
                } else if from > 0 {
                    lemma_absent_entry(menu, from - 1, rest, id);
                }
            }
        }
        assert(first_at(bar, path, id));
    }
}

/// The terminal menu goes in front of the first submenu titled "Window",
/// whatever that holds, and to the end where there is none.
pub proof fn law_terminal_menu_goes_before_the_first_window(menu: Seq<Tree>, position: int)
    requires
        is_terminal_position(menu, position),
    ensures
        0 <= position <= menu.len(),
        forall|i: int|
            0 <= i < menu.len() && (#[trigger] menu[i] matches Tree::Submenu { title, .. } && title
                == Some("Window"@)) ==> position <= i,
        position < menu.len() ==> (menu[position] matches Tree::Submenu { title, .. } && title
            == Some("Window"@)),
{
    assert forall|i: int|
        0 <= i < menu.len() && (#[trigger] menu[i] matches Tree::Submenu { title, .. } && title
            == Some("Window"@)) implies position <= i by {
        if i < position {
            assert(!is_window_menu(menu[i]));
        }
    }
}

/// What a submenu holds, and how its title reads otherwise, has no say in where
/// the terminal menu goes.
pub proof fn law_children_do_not_move_the_terminal_menu(
    a: Seq<Tree>,
    b: Seq<Tree>,
    p: int,
    q: int,
)
    requires
        a.len() == b.len(),
        forall|i: int|
            0 <= i < a.len() ==> ((#[trigger] a[i] matches Tree::Submenu { title, .. } && title
                == Some("Window"@)) <==> (b[i] matches Tree::Submenu { title, .. } && title == Some(
                "Window"@,
            ))),
        is_terminal_position(a, p),
        is_terminal_position(b, q),
    ensures
        p == q,
{
    law_terminal_menu_goes_before_the_first_window(a, p);
    law_terminal_menu_goes_before_the_first_window(b, q);
    if p < q {
        assert(b[p] matches Tree::Submenu { title, .. } && title == Some("Window"@));
    }
    if q < p {
        assert(a[q] matches Tree::Submenu { title, .. } && title == Some("Window"@));
    }
}

/// Entries are read as they are, each part for itself, and in their order.
pub proof fn law_entries_are_shown(node: MenuNode, nodes: Seq<MenuNode>, path: Seq<usize>)
    ensures
        match node {
            MenuNode::Item { id } => tree_of(node) == (Tree::Item { id: id@ }),
            MenuNode::Submenu { title, children } => {
                &&& tree_of(node) is Submenu
                &&& tree_of(node)->title is Some <==> title is Some
                &&& title matches Some(t) ==> tree_of(node)->title == Some(t@)
                &&& tree_of(node)->children == trees_of(children@)
            },
            MenuNode::Other => tree_of(node) is Other,
        },
        trees_of(nodes).len() == nodes.len(),
        forall|i: int| 0 <= i < nodes.len() ==> #[trigger] trees_of(nodes)[i] == tree_of(nodes[i]),
        path_of(path).len() == path.len(),
        forall|i: int| 0 <= i < path.len() ==> #[trigger] path_of(path)[i] == path[i],
{
    match node {
        MenuNode::Submenu { title, children } => {
            lemma_submenu_tree(title, children);
        },
        _ => {},
    }
}

/// An item stands at an index where the entry there is that item, and further
/// down where the entry there is a submenu, of whatever title, that holds it.
pub proof fn law_items_stand_where_the_path_leads(
    menu: Seq<Tree>,
    i: int,
    rest: Seq<int>,
    id: Seq<char>,
)
    ensures
        !holds_at(menu, Seq::<int>::empty(), id),
        rest.len() == 0 ==> (holds_at(menu, seq![i] + rest, id) <==> 0 <= i < menu.len() && menu[i]
            == (Tree::Item { id })),
        rest.len() > 0 ==> (holds_at(menu, seq![i] + rest, id) <==> 0 <= i < menu.len()
            && menu[i] is Submenu && holds_at(menu[i]->children, rest, id)),
{
    let path = seq![i] + rest;
    assert(path.drop_first() =~= rest);
    reveal_with_fuel(holds_at, 2);
}

/// Of two places the earlier one has the smaller index where their paths part,
/// and not the other way round.
pub proof fn law_earlier_is_where_paths_part(
    common: Seq<int>,
    i: int,
    j: int,
    p: Seq<int>,
    q: Seq<int>,
)
    requires
        i < j,
    ensures
        earlier(common + seq![i] + p, common + seq![j] + q),
        !earlier(common + seq![j] + q, common + seq![i] + p),
        !earlier(common, common),
    decreases common.len(),
{
    let a = common + seq![i] + p;
    let b = common + seq![j] + q;
    if common.len() > 0 {
        let below = common.drop_first();
        law_earlier_is_where_paths_part(below, i, j, p, q);
        assert(a.drop_first() =~= below + seq![i] + p);
        assert(b.drop_first() =~= below + seq![j] + q);
        assert(a[0] == common[0] && b[0] == common[0]);
    } else {
        assert(a[0] == i && b[0] == j);
    }
}

/// The first place of an item is one where it stands, and no other place where
/// it stands is earlier; an item is absent exactly where it stands nowhere.
pub proof fn law_first_place(menu: Seq<Tree>, path: Seq<int>, other: Seq<int>, id: Seq<char>)
    ensures
        first_at(menu, path, id) ==> holds_at(menu, path, id),
        first_at(menu, path, id) && holds_at(menu, other, id) && other != path ==> earlier(
            path,
            other,
        ),
        holds_at(menu, other, id) ==> !absent(menu, id),
        !absent(menu, id) ==> exists|place: Seq<int>| #[trigger] holds_at(menu, place, id),
{
}

/// What each entry is: the update item; a submenu "Settings" with the settings
/// item; a submenu "Help" with the update item; a submenu "File" with the
/// submenu "Settings"; and a submenu "Terminal" with the terminal item.
pub proof fn law_what_the_entries_are(entry: Entry)
    ensures
        ({
            let tree = entry_tree(entry);
            let update = Tree::Item { id: "check-for-updates"@ };
            let folder = Tree::Item { id: "settings"@ };
            match entry {
                Entry::CheckForUpdates => tree == update,
                Entry::Settings => tree == (Tree::Submenu {
                    title: Some("Settings"@),
                    children: seq![folder],
                }),
                Entry::Help => tree == (Tree::Submenu {
                    title: Some("Help"@),
                    children: seq![update],
                }),
                Entry::File => tree == (Tree::Submenu {
                    title: Some("File"@),
                    children: seq![
                        Tree::Submenu { title: Some("Settings"@), children: seq![folder] },
                    ],
                }),
                Entry::Terminal => tree == (Tree::Submenu {
                    title: Some("Terminal"@),
                    children: seq![Tree::Item { id: "new-terminal"@ }],
                }),
            }
        }),
{
}

/// How the item of each entry reads: its id, its label and its keys.
pub proof fn law_how_the_items_read(entry: Entry)
    ensures
        ({
            let (id, label, keys) = entry_item(entry);
            match entry {
                Entry::CheckForUpdates | Entry::Help => {
                    &&& id == "check-for-updates"@
                    &&& label == "Check for Updates…"@
                    &&& keys is None
                },
                Entry::Settings | Entry::File => {
                    &&& id == "settings"@
                    &&& label == "Set Default Folder…"@
                    &&& keys == Some("CmdOrCtrl+,"@)
                },
                Entry::Terminal => {
                    &&& id == "new-terminal"@
                    &&& label == "New Terminal"@
                    &&& keys == Some("CmdOrCtrl+Shift+`"@)
                },
            }
        }),
{
}

/// The text of an item is read as it is, each part for itself.
pub proof fn law_item_texts_are_shown(item: ItemText)
    ensures
        item_of(item).0 == item.id@,
        item_of(item).1 == item.label@,
        item_of(item).2 is Some <==> item.keys is Some,
        item.keys matches Some(keys) ==> item_of(item).2 == Some(keys@),
{
}

/// A change of the menu brings in its entry at the place it names, and leaves
/// everything else as it was, in its order.
pub proof fn law_changes_add_one_entry(menu: Seq<Tree>, entry: Entry, position: usize)
    ensures
        ({
            let bar = edited(menu, MenuEdit::Append { entry });
            &&& bar.len() == menu.len() + 1
            &&& bar.last() == entry_tree(entry)
            &&& bar.drop_last() == menu
        }),
        position <= menu.len() ==> ({
            let bar = edited(menu, MenuEdit::Insert { entry, position });
            &&& bar.len() == menu.len() + 1
            &&& bar[position as int] == entry_tree(entry)
            &&& bar.take(position as int) == menu.take(position as int)
            &&& bar.skip(position + 1) == menu.skip(position as int)
        }),
        ({
            let bar = edited(menu, MenuEdit::InsertInFirst { entry, position });
            &&& bar.len() == menu.len()
            &&& forall|i: int| 0 < i < menu.len() ==> #[trigger] bar[i] == menu[i]
            &&& menu.len() > 0 && !(menu[0] is Submenu) ==> bar == menu
            &&& menu.len() > 0 && menu[0] is Submenu && position <= menu[0]->children.len() ==> {
                let before = menu[0]->children;
                let after = bar[0]->children;
                &&& bar[0] is Submenu
                &&& bar[0]->title == menu[0]->title
                &&& after.len() == before.len() + 1
                &&& after[position as int] == entry_tree(entry)
                &&& after.take(position as int) == before.take(position as int)
                &&& after.skip(position + 1) == before.skip(position as int)
            }
        }),
{
    let appended = edited(menu, MenuEdit::Append { entry });
    assert(appended.drop_last() =~= menu);
    if position <= menu.len() {
        let bar = edited(menu, MenuEdit::Insert { entry, position });
        assert(bar.take(position as int) =~= menu.take(position as int));
        assert(bar.skip(position + 1) =~= menu.skip(position as int));
    }
    if menu.len() > 0 && menu[0] is Submenu && position <= menu[0]->children.len() {
        let before = menu[0]->children;
        let after = edited(menu, MenuEdit::InsertInFirst { entry, position })[0]->children;
        assert(after.take(position as int) =~= before.take(position as int));
        assert(after.skip(position + 1) =~= before.skip(position as int));
    }
}

/// On macOS the update item and the settings go into the first submenu, right
/// under its first entry and in this order; elsewhere the update item gets a
/// Help menu at the end and the settings a File menu in front.
pub proof fn law_entries_go_where_the_platform_has_them(menu: Seq<Tree>, macos: bool)
    ensures
        ({
            let edits = app_edits(menu, macos);
            &&& !macos ==> edits == seq![
                MenuEdit::Append { entry: Entry::Help },
                MenuEdit::Insert { entry: Entry::File, position: 0 },
            ]
            &&& macos && menu.len() > 0 && menu[0] is Submenu ==> edits == seq![
                MenuEdit::InsertInFirst { entry: Entry::CheckForUpdates, position: 1 },
                MenuEdit::InsertInFirst { entry: Entry::Settings, position: 2 },
            ]
            &&& macos && !(menu.len() > 0 && menu[0] is Submenu) ==> edits.len() == 0
        }),
        ({
            let bar = with_app_entries(menu, macos);
            &&& !macos ==> {
                &&& bar.len() == menu.len() + 2
                &&& bar[0] == entry_tree(Entry::File)
                &&& bar.last() == entry_tree(Entry::Help)
                &&& bar.subrange(1, menu.len() as int + 1) == menu
            }
            &&& macos && !(menu.len() > 0 && menu[0] is Submenu) ==> bar == menu
            &&& macos && menu.len() > 0 && menu[0] is Submenu && menu[0]->children.len() > 0 ==> {
                let before = menu[0]->children;
                let after = bar[0]->children;
                &&& bar.len() == menu.len()
                &&& forall|i: int| 0 < i < menu.len() ==> #[trigger] bar[i] == menu[i]
                &&& bar[0] is Submenu
                &&& bar[0]->title == menu[0]->title
                &&& after.len() == before.len() + 2
                &&& after[0] == before[0]
                &&& after[1] == entry_tree(Entry::CheckForUpdates)
                &&& after[2] == entry_tree(Entry::Settings)
                &&& after.skip(3) == before.skip(1)
            }
        }),
{
    let bar = with_app_entries(menu, macos);
    if !macos {
        assert(bar.subrange(1, menu.len() as int + 1) =~= menu);
    } else if menu.len() > 0 && menu[0] is Submenu && menu[0]->children.len() > 0 {
        let before = menu[0]->children;
        let one = before.insert(1, entry_tree(Entry::CheckForUpdates));
        assert(bar[0]->children == one.insert(2, entry_tree(Entry::Settings)));
        assert(bar[0]->children.skip(3) =~= before.skip(1));
    }
}

/// Choosing the update item is left to the update flow, the terminal and the
/// settings item each send the page their event, and no other item does anything.
pub proof fn law_chosen_items_act(id: &str, r: MenuAction)
    requires
        call_ensures(on_menu_event, (id,), r),
    ensures
        r is UpdateItem <==> id@ == "check-for-updates"@,
        r is Emit <==> id@ == "new-terminal"@ || id@ == "settings"@,
        id@ == "new-terminal"@ ==> (r matches MenuAction::Emit { event } && event@
            == "terminal://new"@),
        id@ == "settings"@ ==> (r matches MenuAction::Emit { event } && event@
            == "settings://pick-workspace"@),
{
}

/// Where `terminal_position` puts the terminal menu: at the first submenu titled
/// "Window", whatever that holds, and at the end where there is none.
pub proof fn law_terminal_position_is_the_first_window(nodes: &Vec<MenuNode>, r: usize)
    requires
        call_ensures(terminal_position, (nodes,), r),
    ensures
        r <= nodes@.len(),
        forall|i: int|
            0 <= i < nodes@.len() && (#[trigger] nodes@[i] matches MenuNode::Submenu {
                title: Some(title),
                ..
            } && title@ == "Window"@) ==> r <= i,
        r < nodes@.len() ==> (nodes@[r as int] matches MenuNode::Submenu { title: Some(title), .. }
            && title@ == "Window"@),
{
}

/// What the bar gets, as `app_menu_edits` has it: on macOS two entries below the
/// first of its first submenu, elsewhere a menu at each end.
pub proof fn law_bar_gets_the_platforms_entries(
    nodes: &Vec<MenuNode>,
    macos: bool,
    r: Vec<MenuEdit>,
)
    requires
        call_ensures(app_menu_edits, (nodes, macos), r),
    ensures
        !macos ==> r@ == seq![
            MenuEdit::Append { entry: Entry::Help },
            MenuEdit::Insert { entry: Entry::File, position: 0 },
        ],
        macos && nodes@.len() > 0 && nodes@[0] is Submenu ==> r@ == seq![
            MenuEdit::InsertInFirst { entry: Entry::CheckForUpdates, position: 1 },
            MenuEdit::InsertInFirst { entry: Entry::Settings, position: 2 },
        ],
        macos && !(nodes@.len() > 0 && nodes@[0] is Submenu) ==> r@.len() == 0,
{
    law_entries_go_where_the_platform_has_them(trees_of(nodes@), macos);
    if nodes@.len() > 0 {
        assert(trees_of(nodes@)[0] == tree_of(nodes@[0]));
    }
}

/// The item that is found is the one of the id asked for, and where none is found
/// none is there: not on the bar, and not in any submenu.
pub proof fn law_search_finds_the_item(
    nodes: &Vec<MenuNode>,
    id: &str,
    r: Option<Vec<usize>>,
    place: Seq<int>,
)
    requires
        call_ensures(find_item, (nodes, id), r),
    ensures
        r is None ==> !holds_at(trees_of(nodes@), place, id@),
        r matches Some(path) ==> holds_at(trees_of(nodes@), path_of(path@), id@),
        (r matches Some(path) && holds_at(trees_of(nodes@), place, id@)) ==> place == path_of(
            r->0@,
        ) || earlier(path_of(r->0@), place),
{
}

/// The text goes, unchanged, to the first update item of the menu, and nowhere
/// where there is none.
pub proof fn law_update_item_is_retitled(
    nodes: &Vec<MenuNode>,
    text: String,
    r: Option<Retitle>,
    place: Seq<int>,
)
    requires
        call_ensures(set_update_menu_text, (nodes, text), r),
    ensures
        r is None ==> !holds_at(trees_of(nodes@), place, "check-for-updates"@),
        r matches Some(change) ==> {
            &&& change.text@ == text@
            &&& holds_at(trees_of(nodes@), path_of(change.path@), "check-for-updates"@)
            &&& holds_at(trees_of(nodes@), place, "check-for-updates"@) ==> place == path_of(
                change.path@,
            ) || earlier(path_of(change.path@), place)
        },
{
}

/// How `item_text` has the items read.
pub proof fn law_items_read_so(entry: Entry, r: ItemText)
    requires
        call_ensures(item_text, (entry,), r),
    ensures
        match entry {
            Entry::CheckForUpdates | Entry::Help => {
                &&& r.id@ == "check-for-updates"@
                &&& r.label@ == "Check for Updates…"@
                &&& r.keys is None
            },
            Entry::Settings | Entry::File => {
                &&& r.id@ == "settings"@
                &&& r.label@ == "Set Default Folder…"@
                &&& r.keys matches Some(keys) && keys@ == "CmdOrCtrl+,"@
            },
            Entry::Terminal => {
                &&& r.id@ == "new-terminal"@
                &&& r.label@ == "New Terminal"@
                &&& r.keys matches Some(keys) && keys@ == "CmdOrCtrl+Shift+`"@
            },
        },
{
    law_how_the_items_read(entry);
    law_item_texts_are_shown(r);
}

} // verus!
