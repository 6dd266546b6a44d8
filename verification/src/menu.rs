//! The application menu, described as plain data, and what its items do.
use vstd::prelude::*;
use crate::text::{decimal, push_decimal, str_eq};

verus! {

/// The project page opened from the Help menu.
pub const GITHUB_REPO_URL: &'static str = "https://github.com/OSpoon/starter-tauri-app";

/// The issue tracker opened from the Help menu.
pub const ISSUES_URL: &'static str = "https://github.com/OSpoon/starter-tauri-app/issues";

/// The copyright line of the About box.
pub const ABOUT_COPYRIGHT: &'static str = "© 2026 OSpoon";

/// An item whose behaviour the platform provides.
#[derive(Clone, Copy, PartialEq, Eq, Structural, Debug)]
pub enum PredefinedItem {
    Separator,
    Services,
    Hide,
    HideOthers,
    ShowAll,
    Quit,
    CloseWindow,
    Minimize,
    Maximize,
    Fullscreen,
    Undo,
    Redo,
    Cut,
    Copy,
    Paste,
    SelectAll,
}

/// An entry that opens no submenu.
pub enum MenuLeaf {
    /// The About box, showing the application's icon and this copyright line.
    About { copyright: String },
    Predefined(PredefinedItem),
    /// An item of this application, reported by `id` when chosen.
    Item { id: String, label: String },
}

/// An entry of a top-level menu.
pub enum MenuEntry {
    Leaf(MenuLeaf),
    Submenu { label: String, items: Vec<MenuLeaf> },
}

/// A top-level menu.
pub struct Submenu {
    pub label: String,
    pub entries: Vec<MenuEntry>,
}

/// The whole menu bar.
pub struct MenuLayout {
    pub menus: Vec<Submenu>,
}

/// The value of a [`MenuLeaf`].
pub enum LeafView {
    About { copyright: Seq<char> },
    Predefined(PredefinedItem),
    Item { id: Seq<char>, label: Seq<char> },
}

/// The value of a [`MenuEntry`].
pub enum EntryView {
    Leaf(LeafView),
    Submenu { label: Seq<char>, items: Seq<LeafView> },
}

/// The value of a [`Submenu`].
pub struct SubmenuView {
    pub label: Seq<char>,
    pub entries: Seq<EntryView>,
}

/// The value of a [`MenuLayout`].
pub struct MenuLayoutView {
    pub menus: Seq<SubmenuView>,
}

impl View for MenuLeaf {
    type V = LeafView;

    open spec fn view(&self) -> LeafView {
        match self {
            MenuLeaf::About { copyright } => LeafView::About { copyright: copyright@ },
            MenuLeaf::Predefined(p) => LeafView::Predefined(*p),
            MenuLeaf::Item { id, label } => LeafView::Item { id: id@, label: label@ },
        }
    }
}

/// The values of a list of leaves.
pub open spec fn leaf_views(v: Seq<MenuLeaf>) -> Seq<LeafView> {
    v.map_values(|l: MenuLeaf| l@)
}

impl View for MenuEntry {
    type V = EntryView;

    open spec fn view(&self) -> EntryView {
        match self {
            MenuEntry::Leaf(l) => EntryView::Leaf(l@),
            MenuEntry::Submenu { label, items } => EntryView::Submenu {
                label: label@,
                items: leaf_views(items@),
            },
        }
    }
}

impl View for Submenu {
    type V = SubmenuView;

    open spec fn view(&self) -> SubmenuView {
        SubmenuView { label: self.label@, entries: self.entries@.map_values(|e: MenuEntry| e@) }
    }
}

impl View for MenuLayout {
    type V = MenuLayoutView;

    open spec fn view(&self) -> MenuLayoutView {
        MenuLayoutView { menus: self.menus@.map_values(|m: Submenu| m@) }
    }
}

/// An application item.
pub open spec fn item(id: Seq<char>, label: Seq<char>) -> LeafView {
    LeafView::Item { id, label }
}

/// A platform item as a menu entry.
pub open spec fn predefined(p: PredefinedItem) -> EntryView {
    EntryView::Leaf(LeafView::Predefined(p))
}

/// The label of the Node Runtime submenu: with the server's port while it serves.
pub open spec fn node_menu_label(port: Option<u16>) -> Seq<char> {
    match port {
        Some(p) => "Node Runtime ("@ + decimal(p as nat) + ")"@,
        None => "Node Runtime"@,
    }
}

/// The Node Runtime submenu: Open…, a separator, and Stop Service while the server runs,
/// Start Service otherwise.
pub open spec fn node_menu(port: Option<u16>, running: bool) -> EntryView {
    EntryView::Submenu {
        label: node_menu_label(port),
        items: seq![
            item("open_node_runtime"@, "Open…"@),
            LeafView::Predefined(PredefinedItem::Separator),
            if running {
                item("node_server_stop"@, "Stop Service"@)
            } else {
                item("node_server_start"@, "Start Service"@)
            },
        ],
    }
}

/// The Node Runtime submenu of the menu built at start-up.
pub open spec fn startup_node_menu() -> EntryView {
    EntryView::Submenu {
        label: "Node Runtime"@,
        items: seq![
            item("open_node_runtime"@, "Open…"@),
            LeafView::Predefined(PredefinedItem::Separator),
            item("node_server_start"@, "Start Service"@),
        ],
    }
}

/// The application menu, named after the application, around the given Node Runtime submenu.
pub open spec fn app_menu(app_name: Seq<char>, node: EntryView) -> SubmenuView {
    SubmenuView {
        label: app_name,
        entries: seq![
            EntryView::Leaf(LeafView::About { copyright: ABOUT_COPYRIGHT@ }),
            predefined(PredefinedItem::Separator),
            EntryView::Submenu {
                label: "Theme"@,
                items: seq![
                    item("theme_light"@, "Light"@),
                    item("theme_dark"@, "Dark"@),
                    item("theme_system"@, "System"@),
                ],
            },
            node,
            EntryView::Leaf(item("check_updates"@, "Check for Updates…"@)),
            predefined(PredefinedItem::Separator),
            predefined(PredefinedItem::Services),
            predefined(PredefinedItem::Separator),
            predefined(PredefinedItem::Hide),
            predefined(PredefinedItem::HideOthers),
            predefined(PredefinedItem::ShowAll),
            predefined(PredefinedItem::Separator),
            predefined(PredefinedItem::Quit),
        ],
    }
}

/// The menu bar: the application menu, then File, Edit, View, Window and Help.
pub open spec fn menu_layout(app_name: Seq<char>, node: EntryView) -> MenuLayoutView {
    MenuLayoutView {
        menus: seq![
            app_menu(app_name, node),
            SubmenuView { label: "File"@, entries: seq![predefined(PredefinedItem::CloseWindow)] },
            SubmenuView {
                label: "Edit"@,
                entries: seq![
                    predefined(PredefinedItem::Undo),
                    predefined(PredefinedItem::Redo),
                    predefined(PredefinedItem::Separator),
                    predefined(PredefinedItem::Cut),
                    predefined(PredefinedItem::Copy),
                    predefined(PredefinedItem::Paste),
                    predefined(PredefinedItem::Separator),
                    predefined(PredefinedItem::SelectAll),
                ],
            },
            SubmenuView { label: "View"@, entries: seq![predefined(PredefinedItem::Fullscreen)] },
            SubmenuView {
                label: "Window"@,
                entries: seq![
                    predefined(PredefinedItem::Minimize),
                    predefined(PredefinedItem::Maximize),
                ],
            },
            SubmenuView {
                label: "Help"@,
                entries: seq![
                    EntryView::Leaf(item("help_github"@, "GitHub"@)),
                    EntryView::Leaf(item("help_issues"@, "Issues"@)),
                ],
            },
        ],
    }
}

fn new_item(id: &str, label: &str) -> (r: MenuLeaf)
    ensures
        r@ == item(id@, label@),
{
    MenuLeaf::Item { id: String::from_str(id), label: String::from_str(label) }
}

fn new_predefined(p: PredefinedItem) -> (r: MenuEntry)
    ensures
        r@ == predefined(p),
{
    MenuEntry::Leaf(MenuLeaf::Predefined(p))
}

fn new_submenu(label: &str, entries: Vec<MenuEntry>) -> (r: Submenu)
    ensures
        r.label@ == label@,
        r.entries@ == entries@,
{
    Submenu { label: String::from_str(label), entries }
}

/// The label of the Node Runtime submenu.
pub fn node_runtime_menu_label(port: Option<u16>) -> (r: String)
    ensures
        r@ == node_menu_label(port),
{
    match port {
        Some(p) => {
            let mut r = String::from_str("Node Runtime (");
            push_decimal(&mut r, p as u64);
            r.append(")");
            r
        },
        None => String::from_str("Node Runtime"),
    }
}

/// The menu bar around the given Node Runtime submenu.
fn build_menu(app_name: &str, node: MenuEntry) -> (r: MenuLayout)
    ensures
        r@ == menu_layout(app_name@, node@),
{
    let mut theme: Vec<MenuLeaf> = Vec::new();
    theme.push(new_item("theme_light", "Light"));
    theme.push(new_item("theme_dark", "Dark"));
    theme.push(new_item("theme_system", "System"));
    let mut app: Vec<MenuEntry> = Vec::new();
    app.push(MenuEntry::Leaf(MenuLeaf::About { copyright: String::from_str(ABOUT_COPYRIGHT) }));
    app.push(new_predefined(PredefinedItem::Separator));
    app.push(MenuEntry::Submenu { label: String::from_str("Theme"), items: theme });
    app.push(node);
    app.push(MenuEntry::Leaf(new_item("check_updates", "Check for Updates…")));
    app.push(new_predefined(PredefinedItem::Separator));
    app.push(new_predefined(PredefinedItem::Services));
    app.push(new_predefined(PredefinedItem::Separator));
    app.push(new_predefined(PredefinedItem::Hide));
    app.push(new_predefined(PredefinedItem::HideOthers));
    app.push(new_predefined(PredefinedItem::ShowAll));
    app.push(new_predefined(PredefinedItem::Separator));
    app.push(new_predefined(PredefinedItem::Quit));
    let app_sub = Submenu { label: String::from_str(app_name), entries: app };
    assert(leaf_views(theme@) =~= seq![
        item("theme_light"@, "Light"@),
        item("theme_dark"@, "Dark"@),
        item("theme_system"@, "System"@),
    ]);
    assert(app_sub@.entries =~= app_menu(app_name@, node@).entries);

    let mut file: Vec<MenuEntry> = Vec::new();
    file.push(new_predefined(PredefinedItem::CloseWindow));
    let mut edit: Vec<MenuEntry> = Vec::new();
    edit.push(new_predefined(PredefinedItem::Undo));
    edit.push(new_predefined(PredefinedItem::Redo));
    edit.push(new_predefined(PredefinedItem::Separator));
    edit.push(new_predefined(PredefinedItem::Cut));
    edit.push(new_predefined(PredefinedItem::Copy));
    edit.push(new_predefined(PredefinedItem::Paste));
    edit.push(new_predefined(PredefinedItem::Separator));
    edit.push(new_predefined(PredefinedItem::SelectAll));
    let mut view: Vec<MenuEntry> = Vec::new();
    view.push(new_predefined(PredefinedItem::Fullscreen));
    let mut window: Vec<MenuEntry> = Vec::new();
    window.push(new_predefined(PredefinedItem::Minimize));
    window.push(new_predefined(PredefinedItem::Maximize));
    let mut help: Vec<MenuEntry> = Vec::new();
    help.push(MenuEntry::Leaf(new_item("help_github", "GitHub")));
    help.push(MenuEntry::Leaf(new_item("help_issues", "Issues")));

    let mut menus: Vec<Submenu> = Vec::new();
    menus.push(app_sub);
    menus.push(new_submenu("File", file));
    menus.push(new_submenu("Edit", edit));
    menus.push(new_submenu("View", view));
    menus.push(new_submenu("Window", window));
    menus.push(new_submenu("Help", help));
    let r = MenuLayout { menus };
    let ghost expected = menu_layout(app_name@, node@);
    assert(file@.map_values(|e: MenuEntry| e@) =~= expected.menus[1].entries);
    assert(edit@.map_values(|e: MenuEntry| e@) =~= expected.menus[2].entries);
    assert(view@.map_values(|e: MenuEntry| e@) =~= expected.menus[3].entries);
    assert(window@.map_values(|e: MenuEntry| e@) =~= expected.menus[4].entries);
    assert(help@.map_values(|e: MenuEntry| e@) =~= expected.menus[5].entries);
    assert(r@.menus =~= expected.menus);
    r
}

/// The menu bar built when the application starts, for the application `app_name`.
pub fn setup_menu(app_name: &str) -> (r: MenuLayout)
    ensures
        r@ == menu_layout(app_name@, startup_node_menu()),
{
    let mut items: Vec<MenuLeaf> = Vec::new();
    items.push(new_item("open_node_runtime", "Open…"));
    items.push(MenuLeaf::Predefined(PredefinedItem::Separator));
    items.push(new_item("node_server_start", "Start Service"));
    let node = MenuEntry::Submenu { label: String::from_str("Node Runtime"), items };
    assert(leaf_views(items@) =~= seq![
        item("open_node_runtime"@, "Open…"@),
        LeafView::Predefined(PredefinedItem::Separator),
        item("node_server_start"@, "Start Service"@),
    ]);
    build_menu(app_name, node)
}

/// The menu bar rebuilt when the server starts or stops: the Node Runtime submenu shows
/// the port it serves on and offers to stop it while it runs.
pub fn refresh_node_runtime_menu_label(app_name: &str, port: Option<u16>, running: bool) -> (r:
    MenuLayout)
    ensures
        r@ == menu_layout(app_name@, node_menu(port, running)),
{
    let mut items: Vec<MenuLeaf> = Vec::new();
    items.push(new_item("open_node_runtime", "Open…"));
    items.push(MenuLeaf::Predefined(PredefinedItem::Separator));
    if running {
        items.push(new_item("node_server_stop", "Stop Service"));
    } else {
        items.push(new_item("node_server_start", "Start Service"));
    }
    let node = MenuEntry::Submenu { label: node_runtime_menu_label(port), items };
    assert(leaf_views(items@) =~= seq![
        item("open_node_runtime"@, "Open…"@),
        LeafView::Predefined(PredefinedItem::Separator),
        if running {
            item("node_server_stop"@, "Stop Service"@)
        } else {
            item("node_server_start"@, "Start Service"@)
        },
    ]);
    build_menu(app_name, node)
}

/// The menu built at start-up is the one rebuilt for a stopped server with no port shown.
pub proof fn law_startup_menu_is_stopped_menu(app_name: Seq<char>)
    ensures
        menu_layout(app_name, startup_node_menu()) == menu_layout(app_name, node_menu(None, false)),
{
}


/// What choosing a menu item asks for.
pub enum MenuCommand {
    /// Send `event` to the front end, with `payload` as its text payload (none: unit).
    Emit { event: String, payload: Option<String> },
    /// Open `url` in the system browser.
    OpenUrl { url: String },
    /// Nothing to do.
    Nothing,
}

/// The value of a [`MenuCommand`].
pub enum MenuCommandView {
    Emit { event: Seq<char>, payload: Option<Seq<char>> },
    OpenUrl { url: Seq<char> },
    Nothing,
}

impl View for MenuCommand {
    type V = MenuCommandView;

    open spec fn view(&self) -> MenuCommandView {
        match self {
            MenuCommand::Emit { event, payload } => MenuCommandView::Emit {
                event: event@,
                payload: payload.deep_view(),
            },
            MenuCommand::OpenUrl { url } => MenuCommandView::OpenUrl { url: url@ },
            MenuCommand::Nothing => MenuCommandView::Nothing,
        }
    }
}

/// An event for the front end without payload.
pub open spec fn emit(event: Seq<char>) -> MenuCommandView {
    MenuCommandView::Emit { event, payload: None }
}

/// What choosing the item `id` asks for.
pub open spec fn menu_command(id: Seq<char>) -> MenuCommandView {
    if id == "check_updates"@ {
        emit("app://check-updates"@)
    } else if id == "theme_light"@ {
        MenuCommandView::Emit { event: "app://set-theme"@, payload: Some("light"@) }
    } else if id == "theme_dark"@ {
        MenuCommandView::Emit { event: "app://set-theme"@, payload: Some("dark"@) }
    } else if id == "theme_system"@ {
        MenuCommandView::Emit { event: "app://set-theme"@, payload: Some("auto"@) }
    } else if id == "open_node_runtime"@ {
        emit("app://open-node-runtime"@)
    } else if id == "node_server_start"@ {
        emit("app://node-server-start"@)
    } else if id == "node_server_stop"@ {
        emit("app://node-server-stop"@)
    } else if id == "help_github"@ {
        MenuCommandView::OpenUrl { url: GITHUB_REPO_URL@ }
    } else if id == "help_issues"@ {
        MenuCommandView::OpenUrl { url: ISSUES_URL@ }
    } else {
        MenuCommandView::Nothing
    }
}

fn emit_unit(event: &str) -> (r: MenuCommand)
    ensures
        r@ == emit(event@),
{
    MenuCommand::Emit { event: String::from_str(event), payload: None }
}

fn emit_theme(theme: &str) -> (r: MenuCommand)
    ensures
        r@ == (MenuCommandView::Emit { event: "app://set-theme"@, payload: Some(theme@) }),
{
    MenuCommand::Emit {
        event: String::from_str("app://set-theme"),
        payload: Some(String::from_str(theme)),
    }
}

/// What choosing the menu item `id` asks for.
pub fn handle_menu_event(id: &str) -> (r: MenuCommand)
    ensures
        r@ == menu_command(id@),
{
    if str_eq(id, "check_updates") {
        emit_unit("app://check-updates")
    } else if str_eq(id, "theme_light") {
        emit_theme("light")
    } else if str_eq(id, "theme_dark") {
        emit_theme("dark")
    } else if str_eq(id, "theme_system") {
        emit_theme("auto")
    } else if str_eq(id, "open_node_runtime") {
        emit_unit("app://open-node-runtime")
    } else if str_eq(id, "node_server_start") {
        emit_unit("app://node-server-start")
    } else if str_eq(id, "node_server_stop") {
        emit_unit("app://node-server-stop")
    } else if str_eq(id, "help_github") {
        MenuCommand::OpenUrl { url: String::from_str(GITHUB_REPO_URL) }
    } else if str_eq(id, "help_issues") {
        MenuCommand::OpenUrl { url: String::from_str(ISSUES_URL) }
    } else {
        MenuCommand::Nothing
    }
}

/// Whether choosing `l` does something, if it is an application item.
pub open spec fn leaf_handled(l: LeafView) -> bool {
    match l {
        LeafView::Item { id, .. } => !(menu_command(id) is Nothing),
        _ => true,
    }
}

/// Whether every application item in `e` does something.
pub open spec fn entry_handled(e: EntryView) -> bool {
    match e {
        EntryView::Leaf(l) => leaf_handled(l),
        EntryView::Submenu { items, .. } => forall|k: int|
            0 <= k < items.len() ==> leaf_handled(#[trigger] items[k]),
    }
}

/// Whether every application item of the menu bar does something.
pub open spec fn all_items_handled(layout: MenuLayoutView) -> bool {
    forall|m: int, e: int|
        0 <= m < layout.menus.len() && 0 <= e < layout.menus[m].entries.len() ==> entry_handled(
            #[trigger] layout.menus[m].entries[e],
        )
}

/// Every application item of the menu, in each of its forms, has an action.
pub proof fn law_every_menu_item_is_handled(app_name: Seq<char>, port: Option<u16>, running: bool)
    ensures
        all_items_handled(menu_layout(app_name, node_menu(port, running))),
        all_items_handled(menu_layout(app_name, startup_node_menu())),
{
    assert(entry_handled(node_menu(port, running)));
    assert(entry_handled(startup_node_menu()));
    let theme = menu_layout(app_name, node_menu(port, running)).menus[0].entries[2];
    assert(entry_handled(theme));
}


/// Whether a list of leaves holds an application item with id `id`.
pub open spec fn has_item_id(items: Seq<LeafView>, id: Seq<char>) -> bool {
    exists|k: int|
        0 <= k < items.len() && ((#[trigger] items[k]) matches LeafView::Item { id: i, .. } && i == id)
}

/// The Node Runtime submenu of the rebuilt menu (fourth entry of the application menu)
/// holds exactly Open…, a separator and one service item: Stop Service while the server
/// runs, Start Service otherwise. The other service item never appears, and the label
/// shows the port whenever one is given.
pub proof fn law_rebuilt_menu_offers_only_the_fitting_service(
    app_name: Seq<char>,
    port: Option<u16>,
    running: bool,
)
    ensures
        ({
            let node = menu_layout(app_name, node_menu(port, running)).menus[0].entries[3];
            &&& (node matches EntryView::Submenu { label, items } && {
                &&& label == node_menu_label(port)
                &&& items.len() == 3
                &&& items[0] == item("open_node_runtime"@, "Open…"@)
                &&& items[1] == LeafView::Predefined(PredefinedItem::Separator)
                &&& running ==> items[2] == item("node_server_stop"@, "Stop Service"@)
                &&& !running ==> items[2] == item("node_server_start"@, "Start Service"@)
                &&& running ==> !has_item_id(items, "node_server_start"@)
                &&& !running ==> !has_item_id(items, "node_server_stop"@)
            })
        }),
        port matches Some(p) ==> node_menu_label(port) == "Node Runtime ("@ + decimal(p as nat)
            + ")"@,
        port is None ==> node_menu_label(port) == "Node Runtime"@,
{
    reveal_strlit("node_server_start");
    reveal_strlit("node_server_stop");
    reveal_strlit("open_node_runtime");
    let node = menu_layout(app_name, node_menu(port, running)).menus[0].entries[3];
    if let EntryView::Submenu { label, items } = node {
        assert("node_server_start"@.len() != "node_server_stop"@.len());
        assert("node_server_start"@.len() != "open_node_runtime"@.len() || "node_server_start"@[5]
            != "open_node_runtime"@[5]);
        assert("node_server_stop"@[0] != "open_node_runtime"@[0]);
    }
}

} // verus!
