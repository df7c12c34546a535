//! The tray icon: its tooltip, its menu, and what a click on an entry does.
use crate::settings;
use crate::settings::protocol_of;
use crate::text;
use vstd::prelude::*;
use vstd::string::*;

verus! {

/// The tooltip of a tray icon without a tunnel.
pub const IDLE_TOOLTIP: &'static str = "dakal-tls VPN";

/// An entry of a menu. `T` is the type of texts: `String` in a program,
/// `Seq<char>` in contracts.
#[derive(Debug, PartialEq, Eq)]
pub enum MenuEntry<T> {
    Item { id: T, label: T, enabled: bool },
    Separator,
}

impl DeepView for MenuEntry<String> {
    type V = MenuEntry<Seq<char>>;

    open spec fn deep_view(&self) -> MenuEntry<Seq<char>> {
        match *self {
            MenuEntry::Item { id, label, enabled } => MenuEntry::Item {
                id: id@,
                label: label@,
                enabled,
            },
            MenuEntry::Separator => MenuEntry::Separator,
        }
    }
}

/// A tray icon.
pub struct TrayView {
    pub tooltip: String,
    pub menu: Vec<MenuEntry<String>>,
}

pub open spec fn item(id: Seq<char>, label: Seq<char>, enabled: bool) -> MenuEntry<Seq<char>> {
    MenuEntry::Item { id, label, enabled }
}

/// The name of a protocol that the user gets to see.
pub open spec fn protocol_name(protocol: Seq<char>) -> Seq<char> {
    if protocol == "hysteria2"@ {
        "Hysteria2"@
    } else {
        "ShadowTLS"@
    }
}

/// The tooltip of the tray icon.
pub open spec fn tooltip_of(running: bool, server: Seq<char>, protocol: Seq<char>) -> Seq<char> {
    if running {
        "dakal-tls — "@ + server + " | "@ + protocol_name(protocol) + " (connected)"@
    } else {
        IDLE_TOOLTIP@
    }
}

/// The entries below those of the tunnel.
pub open spec fn window_entries() -> Seq<MenuEntry<Seq<char>>> {
    seq![
        MenuEntry::Separator,
        item("show"@, "Show"@, true),
        item("hide"@, "Hide"@, true),
        MenuEntry::Separator,
        item("quit"@, "Quit"@, true),
    ]
}

/// The menu of the tray icon: it offers to disconnect while the tunnel is up,
/// and to connect while it is not.
pub open spec fn menu_of(running: bool, server: Seq<char>, protocol: Seq<char>) -> Seq<
    MenuEntry<Seq<char>>,
> {
    seq![
        item("server"@, server, false),
        item("protocol"@, protocol_name(protocol), false),
        if running {
            item("disconnect"@, "Disconnect"@, true)
        } else {
            item("connect"@, "Connect"@, true)
        },
    ] + window_entries()
}

/// The menu ahead of the first update.
pub open spec fn startup_menu_of(profile: Seq<char>) -> Seq<MenuEntry<Seq<char>>> {
    seq![
        item("mode"@, protocol_of(profile), false),
        item("connect"@, "Connect"@, true),
        item("disconnect"@, "Disconnect"@, false),
    ] + window_entries()
}

fn add_item(menu: &mut Vec<MenuEntry<String>>, id: &str, label: &str, enabled: bool)
    ensures
        final(menu).deep_view() == old(menu).deep_view().push(item(id@, label@, enabled)),
{
    let ghost before = menu.deep_view();
    menu.push(MenuEntry::Item { id: id.to_string(), label: label.to_string(), enabled });
    proof {
        assert(menu.deep_view() =~= before.push(item(id@, label@, enabled)));
    }
}

fn add_separator(menu: &mut Vec<MenuEntry<String>>)
    ensures
        final(menu).deep_view() == old(menu).deep_view().push(MenuEntry::Separator),
{
    let ghost before = menu.deep_view();
    menu.push(MenuEntry::Separator);
    proof {
        assert(menu.deep_view() =~= before.push(MenuEntry::Separator));
    }
}

fn add_window_entries(menu: &mut Vec<MenuEntry<String>>)
    ensures
        final(menu).deep_view() == old(menu).deep_view() + window_entries(),
{
    let ghost before = menu.deep_view();
    add_separator(menu);
    add_item(menu, "show", "Show", true);
    add_item(menu, "hide", "Hide", true);
    add_separator(menu);
    add_item(menu, "quit", "Quit", true);
    proof {
        assert(menu.deep_view() =~= before + window_entries());
    }
}

/// The tray icon for a tunnel that is up or not, of the selected profile.
pub fn update_tray_state(running: bool, server_name: &str, protocol: &str) -> (r: TrayView)
    ensures
        r.tooltip@ == tooltip_of(running, server_name@, protocol@),
        r.menu.deep_view() == menu_of(running, server_name@, protocol@),
{
    let name = if text::same(protocol, "hysteria2") {
        "Hysteria2"
    } else {
        "ShadowTLS"
    };
    let tooltip = if running {
        "dakal-tls — ".to_string().concat(server_name).concat(" | ").concat(name).concat(
            " (connected)",
        )
    } else {
        IDLE_TOOLTIP.to_string()
    };
    let mut menu: Vec<MenuEntry<String>> = Vec::new();
    add_item(&mut menu, "server", server_name, false);
    add_item(&mut menu, "protocol", name, false);
    if running {
        add_item(&mut menu, "disconnect", "Disconnect", true);
    } else {
        add_item(&mut menu, "connect", "Connect", true);
    }
    add_window_entries(&mut menu);
    proof {
        assert(menu.deep_view() =~= menu_of(running, server_name@, protocol@));
    }
    TrayView { tooltip, menu }
}

/// The menu ahead of the first update.
pub fn startup_menu(profile: &str) -> (menu: Vec<MenuEntry<String>>)
    ensures
        menu.deep_view() == startup_menu_of(profile@),
{
    let mut menu: Vec<MenuEntry<String>> = Vec::new();
    add_item(&mut menu, "mode", settings::profile_protocol(profile), false);
    add_item(&mut menu, "connect", "Connect", true);
    add_item(&mut menu, "disconnect", "Disconnect", false);
    add_window_entries(&mut menu);
    proof {
        assert(menu.deep_view() =~= startup_menu_of(profile@));
    }
    menu
}

/// What a click on a menu entry does.
#[derive(Debug, Clone, Copy, PartialEq, Eq, Structural)]
pub enum MenuAction {
    Show,
    Hide,
    Connect,
    Disconnect,
    Quit,
    Ignore,
}

/// What a click on the entry `id` does.
pub open spec fn action_of(id: Seq<char>) -> MenuAction {
    if id == "show"@ {
        MenuAction::Show
    } else if id == "hide"@ {
        MenuAction::Hide
    } else if id == "connect"@ {
        MenuAction::Connect
    } else if id == "disconnect"@ {
        MenuAction::Disconnect
    } else if id == "quit"@ {
        MenuAction::Quit
    } else {
        MenuAction::Ignore
    }
}

/// What a click on the entry `id` does.
pub fn menu_action(id: &str) -> (r: MenuAction)
    ensures
        r == action_of(id@),
{
    if text::same(id, "show") {
        MenuAction::Show
    } else if text::same(id, "hide") {
        MenuAction::Hide
    } else if text::same(id, "connect") {
        MenuAction::Connect
    } else if text::same(id, "disconnect") {
        MenuAction::Disconnect
    } else if text::same(id, "quit") {
        MenuAction::Quit
    } else {
        MenuAction::Ignore
    }
}

}
