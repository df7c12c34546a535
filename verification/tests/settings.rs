//! Profiles, presets, settings and the tray.
use dakal_tls::settings::{
    apply_h2_preset, get_h2_speeds, get_split_settings, list_profiles, profile_protocol,
    profile_server, reconnect_needed, set_mode, update_settings, SettingsRequest,
};
use dakal_tls::tray::{menu_action, startup_menu, update_tray_state, MenuAction, MenuEntry};

fn item(id: &str, label: &str, enabled: bool) -> MenuEntry<String> {
    MenuEntry::Item { id: id.to_string(), label: label.to_string(), enabled }
}

fn request(split_mode: &str) -> SettingsRequest {
    SettingsRequest {
        mtu: None,
        split_mode: split_mode.to_string(),
        wow_apps: None,
        wow_domains: None,
        tun_stack: None,
    }
}

fn refusal(q: SettingsRequest) -> String {
    match update_settings(q) {
        Ok(_) => panic!("accepted"),
        Err(e) => e,
    }
}

#[test]
fn mode_change_keeps_the_server() {
    for (current, mode, profile) in [
        ("germany-3-h2", "shadowtls", "germany-3-stls"),
        ("germany-3-stls", "hysteria2", "germany-3-h2"),
        ("finland-1-h2", "hysteria2", "finland-1-h2"),
        ("nowhere", "hysteria2", "netherlands-1-h2"),
        ("", "shadowtls", "netherlands-1-stls"),
        ("-h2", "shadowtls", "-stls"),
        ("a-h2-stls", "hysteria2", "a-h2-h2"),
    ] {
        let change = set_mode(current, mode).ok().unwrap();
        assert_eq!(change.profile, profile);
        assert_eq!(change.message, format!("Mode set to '{mode}'"));
        assert_eq!(profile_server(&change.profile), profile_server(current));
        assert_eq!(profile_protocol(&change.profile), mode);
    }
    assert_eq!(set_mode("germany-3-h2", "h2").err(), Some("Invalid mode".to_string()));
}

#[test]
fn selectable_profiles() {
    let profiles = list_profiles();
    assert_eq!(
        profiles,
        vec![
            "netherlands-1-h2",
            "netherlands-1-stls",
            "germany-3-h2",
            "germany-3-stls",
            "finland-1-h2",
            "finland-1-stls",
        ]
    );
    for p in &profiles {
        for mode in ["hysteria2", "shadowtls"] {
            assert!(profiles.contains(&set_mode(p, mode).ok().unwrap().profile));
        }
    }
}

#[test]
fn presets() {
    assert_eq!(apply_h2_preset("adsl"), Ok((4, 16)));
    assert_eq!(apply_h2_preset("4g"), Ok((15, 30)));
    assert_eq!(apply_h2_preset("5g"), Ok((40, 80)));
    assert_eq!(apply_h2_preset("max"), Ok((80, 120)));
    assert_eq!(apply_h2_preset("6g"), Err("unknown preset: 6g".to_string()));
    assert_eq!(
        get_h2_speeds(15, 30),
        serde_json::from_str::<serde_json::Value>(r#"{"up_mbps": 15, "down_mbps": 30}"#).unwrap()
    );
}

#[test]
fn split_report() {
    let v = get_split_settings("wow", &vec!["discord".to_string()], true);
    assert_eq!(
        v,
        serde_json::from_str::<serde_json::Value>(
            r#"{"split_mode": "wow", "wow_apps": ["discord"], "wow_domains": true}"#
        )
        .unwrap()
    );
}

#[test]
fn refused_settings() {
    for mtu in [575, 9001, 0, u32::MAX] {
        let mut q = request("full");
        q.mtu = Some(mtu);
        assert_eq!(refusal(q), "MTU must be between 576 and 9000");
    }
    for mtu in [576, 9000] {
        let mut q = request("full");
        q.mtu = Some(mtu);
        assert!(update_settings(q).is_ok());
    }
    assert_eq!(refusal(request("half")), "Invalid split mode");
    let mut q = request("full");
    q.tun_stack = Some("lwip".to_string());
    assert_eq!(refusal(q), "Invalid TUN stack");
}

#[test]
fn full_settings() {
    let mut q = request("full");
    q.tun_stack = Some("gvisor".to_string());
    q.wow_apps = Some(vec!["discord".to_string()]);
    q.wow_domains = Some(false);
    let p = update_settings(q).ok().unwrap();
    assert_eq!(p.split_mode, "full");
    assert_eq!(p.tun_stack, Some("gvisor".to_string()));
    assert_eq!(p.wow_apps, None);
    assert_eq!(p.wow_domains, Some(false));
    assert_eq!(p.refused, None);
}

#[test]
fn split_settings() {
    let p = update_settings(request("wow")).ok().unwrap();
    assert_eq!(
        p.wow_apps,
        Some(vec!["discord".to_string(), "chrome".to_string(), "telegram".to_string()])
    );
    assert_eq!(p.wow_domains, Some(true));
    assert_eq!(p.tun_stack, None);

    let mut q = request("wow");
    q.wow_apps = Some(Vec::new());
    q.wow_domains = Some(false);
    let p = update_settings(q).ok().unwrap();
    assert_eq!(
        p.refused,
        Some("Select at least one option: WoW Domains, Discord, Chrome, or Telegram".to_string())
    );
    assert_eq!(p.wow_apps, None);
    assert_eq!(p.wow_domains, None);
    assert_eq!(p.split_mode, "wow");
}

#[test]
fn reconnecting_after_a_change() {
    assert!(reconnect_needed(true, true));
    assert!(!reconnect_needed(true, false));
    assert!(!reconnect_needed(false, true));
}

#[test]
fn tray_of_a_running_tunnel() {
    let t = update_tray_state(true, "Germany 3", "hysteria2");
    assert_eq!(t.tooltip, "dakal-tls — Germany 3 | Hysteria2 (connected)");
    assert_eq!(
        t.menu,
        vec![
            item("server", "Germany 3", false),
            item("protocol", "Hysteria2", false),
            item("disconnect", "Disconnect", true),
            MenuEntry::Separator,
            item("show", "Show", true),
            item("hide", "Hide", true),
            MenuEntry::Separator,
            item("quit", "Quit", true),
        ]
    );
}

#[test]
fn tray_of_a_stopped_tunnel() {
    let t = update_tray_state(false, "x", "shadowtls");
    assert_eq!(t.tooltip, "dakal-tls VPN");
    assert_eq!(t.menu[1], item("protocol", "ShadowTLS", false));
    assert_eq!(t.menu[2], item("connect", "Connect", true));
}

#[test]
fn tray_ahead_of_the_first_update() {
    let menu = startup_menu("germany-3-h2");
    assert_eq!(menu.len(), 8);
    assert_eq!(menu[0], item("mode", "hysteria2", false));
    assert_eq!(menu[1], item("connect", "Connect", true));
    assert_eq!(menu[2], item("disconnect", "Disconnect", false));
    assert_eq!(startup_menu("germany-3")[0], item("mode", "shadowtls", false));
}

#[test]
fn clicks() {
    assert_eq!(menu_action("show"), MenuAction::Show);
    assert_eq!(menu_action("hide"), MenuAction::Hide);
    assert_eq!(menu_action("connect"), MenuAction::Connect);
    assert_eq!(menu_action("disconnect"), MenuAction::Disconnect);
    assert_eq!(menu_action("quit"), MenuAction::Quit);
    assert_eq!(menu_action("server"), MenuAction::Ignore);
}
