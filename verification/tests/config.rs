//! The configuration of sing-box.
use dakal_tls::vpn_config::{
    build_vpn_config, common_outbounds, Config, CLASH_API_ADDRESS, CLASH_API_BASE, CLASH_API_SECRET,
};
use serde_json::Value;

fn config(mode: &str, split_mode: &str) -> Config {
    Config {
        mode: mode.to_string(),
        server_address: "vpn.example.org".to_string(),
        h2_port: 20000,
        h2_up_mbps: 15,
        h2_down_mbps: 30,
        h2_password: "h2pw".to_string(),
        h2_sni: "h2.example.org".to_string(),
        h2_insecure: true,
        h2_obfs: "salamander".to_string(),
        h2_obfs_password: "obfspw".to_string(),
        ss_port: 8388,
        ss_password: "sspw".to_string(),
        stls_port: 443,
        stls_password: "stlspw".to_string(),
        stls_sni: "www.example.org".to_string(),
        mtu: None,
        tun_stack: "mixed".to_string(),
        split_mode: split_mode.to_string(),
        wow_domains: true,
        wow_apps: vec!["telegram".to_string(), "discord".to_string()],
    }
}

fn json(s: &str) -> Value {
    serde_json::from_str(s).unwrap()
}

fn ips(items: &[&str]) -> Vec<String> {
    items.iter().map(|s| s.to_string()).collect()
}

#[test]
fn hysteria2_outbounds() {
    let mut c = config("hysteria2", "full");
    assert_eq!(
        common_outbounds(&c),
        json(
            r#"[
            {"type": "hysteria2", "tag": "h2-out", "server": "vpn.example.org",
             "server_ports": ["20000:24999"], "hop_interval": "30s", "up_mbps": 15,
             "down_mbps": 30, "password": "testuser1:h2pw",
             "tls": {"enabled": true, "server_name": "h2.example.org", "insecure": true},
             "obfs": {"type": "salamander", "password": "obfspw"}},
            {"type": "direct", "tag": "direct"}]"#
        )
    );
    c.h2_obfs = String::new();
    c.h2_port = 60536;
    let v = common_outbounds(&c);
    assert_eq!(v[0].get("obfs"), None);
    assert_eq!(v[0]["server_ports"], json(r#"["60536:65535"]"#));
}

#[test]
fn shadowtls_outbounds() {
    let c = config("shadowtls", "full");
    assert_eq!(
        common_outbounds(&c),
        json(
            r#"[
            {"type": "shadowsocks", "tag": "ss-out", "server": "vpn.example.org",
             "server_port": 8388, "method": "2022-blake3-chacha20-poly1305", "password": "sspw",
             "detour": "shadowtls-out", "udp_over_tcp": {"enabled": true}},
            {"type": "shadowtls", "tag": "shadowtls-out", "server": "vpn.example.org",
             "server_port": 443, "version": 3, "password": "stlspw",
             "tls": {"enabled": true, "server_name": "www.example.org", "insecure": false}},
            {"type": "direct", "tag": "direct"}]"#
        )
    );
}

#[test]
fn full_configuration() {
    let mut c = config("shadowtls", "full");
    c.mtu = Some(1400);
    let v = build_vpn_config(&c, &ips(&["203.0.113.7", "203.0.113.8"]));
    let expected = json(
        r#"{
        "log": {"disabled": false, "level": "info", "timestamp": true},
        "experimental": {"clash_api": {"external_controller": "127.0.0.1:9097",
            "secret": "dakal", "default_mode": "rule"}},
        "dns": {"servers": [{"type": "https", "tag": "remote-doh", "server": "dns.google",
            "server_port": 443, "path": "/dns-query", "detour": "ss-out"}],
            "final": "remote-doh", "reverse_mapping": true, "strategy": "ipv4_only"},
        "inbounds": [{"type": "tun", "tag": "tun-in", "address": ["172.19.0.1/30"],
            "mtu": 1400, "auto_route": true, "strict_route": true, "stack": "mixed"}],
        "outbounds": [
            {"type": "shadowsocks", "tag": "ss-out", "server": "vpn.example.org",
             "server_port": 8388, "method": "2022-blake3-chacha20-poly1305", "password": "sspw",
             "detour": "shadowtls-out", "udp_over_tcp": {"enabled": true}},
            {"type": "shadowtls", "tag": "shadowtls-out", "server": "vpn.example.org",
             "server_port": 443, "version": 3, "password": "stlspw",
             "tls": {"enabled": true, "server_name": "www.example.org", "insecure": false}},
            {"type": "direct", "tag": "direct"}],
        "route": {"rules": [
            {"action": "sniff"},
            {"type": "logical", "mode": "or", "rules": [{"protocol": "dns"}, {"port": 53}],
             "action": "hijack-dns"},
            {"ip_cidr": ["203.0.113.7/32", "203.0.113.8/32"], "outbound": "direct"},
            {"ip_is_private": true, "action": "route", "outbound": "direct"},
            {"type": "logical", "mode": "or", "rules": [{"port": 853}, {"protocol": "stun"}],
             "action": "reject"}],
            "final": "ss-out", "auto_detect_interface": true,
            "default_domain_resolver": "remote-doh", "find_process": false}
        }"#,
    );
    assert_eq!(v, expected);
}

#[test]
fn split_mode_sends_only_what_is_listed() {
    let c = config("hysteria2", "wow");
    let v = build_vpn_config(&c, &ips(&["203.0.113.7"]));
    assert_eq!(v["route"]["final"], Value::from("direct"));
    assert_eq!(v["route"]["find_process"], Value::from(true));
    assert_eq!(v["dns"]["servers"][0]["detour"], Value::from("h2-out"));
    assert_eq!(v["inbounds"][0]["mtu"], Value::from(1360));
    let rules = v["route"]["rules"].as_array().unwrap();
    assert_eq!(rules.len(), 5 + 24 + 2);
    // What was added last comes first.
    assert_eq!(rules[3], json(r#"{"process_name": ["Telegram.exe"], "outbound": "h2-out"}"#));
    assert_eq!(
        rules[4],
        json(r#"{"process_name": ["Discord.exe", "Update.exe"], "outbound": "h2-out"}"#)
    );
    assert_eq!(rules[5], json(r#"{"domain_suffix": ["realmlist.wow"], "outbound": "h2-out"}"#));
    assert_eq!(rules[28], json(r#"{"domain_suffix": ["battle.net"], "outbound": "h2-out"}"#));
    assert_eq!(rules[29]["ip_is_private"], Value::from(true));
    for rule in &rules[3..29] {
        assert_eq!(rule["outbound"], Value::from("h2-out"));
    }
}

#[test]
fn split_mode_without_domains() {
    let mut c = config("shadowtls", "wow");
    c.wow_domains = false;
    c.wow_apps = vec!["chrome".to_string(), "unknown".to_string()];
    let v = build_vpn_config(&c, &ips(&["203.0.113.7"]));
    let rules = v["route"]["rules"].as_array().unwrap();
    assert_eq!(rules.len(), 6);
    assert_eq!(rules[3], json(r#"{"process_name": ["chrome.exe"], "outbound": "ss-out"}"#));

    c.wow_apps = vec!["Chrome".to_string()];
    let v = build_vpn_config(&c, &ips(&["203.0.113.7"]));
    assert_eq!(v["route"]["rules"].as_array().unwrap().len(), 5);
    assert_eq!(v["route"]["find_process"], Value::from(false));
}

#[test]
fn the_host_name_is_dialled() {
    for (mode, dialling) in [("hysteria2", 1), ("shadowtls", 2)] {
        let c = config(mode, "full");
        for addresses in [ips(&[]), ips(&["203.0.113.7"]), ips(&["2001:db8::1", "203.0.113.8"])] {
            let v = build_vpn_config(&c, &addresses);
            for k in 0..dialling {
                assert_eq!(v["outbounds"][k]["server"], Value::from("vpn.example.org"));
            }
            assert_eq!(v["outbounds"][dialling].get("server"), None);
        }
    }
}

#[test]
fn addresses_serve_the_bypass_alone() {
    let c = config("hysteria2", "wow");
    let mut a = build_vpn_config(&c, &ips(&["203.0.113.7", "203.0.113.8"]));
    let mut b = build_vpn_config(&c, &Vec::new());
    assert_eq!(a["route"]["rules"][2]["ip_cidr"], json(r#"["203.0.113.7/32", "203.0.113.8/32"]"#));
    assert_eq!(b["route"]["rules"][2]["ip_cidr"], json("[]"));
    a["route"]["rules"][2] = Value::Null;
    b["route"]["rules"][2] = Value::Null;
    assert_eq!(a, b);
}

#[test]
fn hopping_ranges() {
    let mut c = config("hysteria2", "full");
    c.h2_port = 60536;
    assert!(c.hop_range_fits());
    c.h2_port = 60537;
    assert!(!c.hop_range_fits());
    c.mode = "shadowtls".to_string();
    assert!(c.hop_range_fits());
}

#[test]
fn routes_lead_to_outbounds_that_are_there() {
    for mode in ["hysteria2", "shadowtls", "other"] {
        for split in ["full", "wow"] {
            let v = build_vpn_config(&config(mode, split), &ips(&["203.0.113.7"]));
            let tags: Vec<Value> =
                v["outbounds"].as_array().unwrap().iter().map(|o| o["tag"].clone()).collect();
            assert!(tags.contains(&v["route"]["final"]));
            assert!(tags.contains(&v["dns"]["servers"][0]["detour"]));
        }
    }
}

#[test]
fn statistics_are_asked_for_where_they_are_served() {
    let v = build_vpn_config(&config("shadowtls", "full"), &ips(&["203.0.113.7"]));
    let api = &v["experimental"]["clash_api"];
    assert_eq!(api["external_controller"], Value::from(CLASH_API_ADDRESS));
    assert_eq!(api["secret"], Value::from(CLASH_API_SECRET));
    assert_eq!(CLASH_API_BASE, format!("http://{CLASH_API_ADDRESS}"));
}
