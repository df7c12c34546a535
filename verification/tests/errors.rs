//! What failures are reported as.
use dakal_tls::classify::{categorize, classify, report, Category, StartError};
use dakal_tls::events::{Effect, VpnState};
use dakal_tls::manager::{ChildPoll, ProxyManager};
use dakal_tls::status::AppState;
use dakal_tls::vpn_config::Config;

fn message_of(text: &str) -> String {
    classify(&StartError::new(text.to_string()), &mut Vec::new())
}

#[test]
fn each_kind_of_failure() {
    for (text, message) in [
        ("Access is DENIED", "The VPN could not start because Windows permission was denied.\nPlease restart the application with administrator permissions."),
        ("admin rights", "The VPN could not start because Windows permission was denied.\nPlease restart the application with administrator permissions."),
        ("no permission", "The VPN could not start because Windows permission was denied.\nPlease restart the application with administrator permissions."),
        ("Connection Refused", "Could not connect to the VPN server.\nPlease check your internet connection or try again."),
        ("connect: x", "Could not connect to the VPN server.\nPlease check your internet connection or try again."),
        ("no route", "Could not connect to the VPN server.\nPlease check your internet connection or try again."),
        ("timeout", "Could not connect to the VPN server.\nPlease check your internet connection or try again."),
        ("deadline", "Could not connect to the VPN server.\nPlease check your internet connection or try again."),
        ("handshake", "Could not connect to the VPN server.\nPlease check your internet connection or try again."),
        ("closed by peer", "Could not connect to the VPN server.\nPlease check your internet connection or try again."),
        ("could not RESOLVE", "Could not resolve the VPN server.\nPlease check your internet connection and try again."),
        ("DNS", "Could not resolve the VPN server.\nPlease check your internet connection and try again."),
        ("hostname", "Could not resolve the VPN server.\nPlease check your internet connection and try again."),
        ("Tun device", "Could not start the VPN network interface.\nPlease try restarting the application."),
        ("interface", "Could not start the VPN network interface.\nPlease try restarting the application."),
        ("bind", "Could not start the VPN network interface.\nPlease try restarting the application."),
        ("network", "Could not start the VPN network interface.\nPlease try restarting the application."),
        ("Config", "VPN configuration is invalid.\nPlease check the selected profile."),
        ("validation", "VPN configuration is invalid.\nPlease check the selected profile."),
        ("check failed", "VPN configuration is invalid.\nPlease check the selected profile."),
        ("invalid", "VPN configuration is invalid.\nPlease check the selected profile."),
        ("sing-box", "The VPN could not start.\nPlease check the logs for more details."),
        ("spawn", "The VPN could not start.\nPlease check the logs for more details."),
        ("process", "The VPN could not start.\nPlease check the logs for more details."),
        ("file.EXE", "The VPN could not start.\nPlease check the logs for more details."),
        ("something", "The VPN could not start.\nCheck the logs for more details."),
        ("", "The VPN could not start.\nCheck the logs for more details."),
    ] {
        assert_eq!(message_of(text), message, "{text}");
    }
}

#[test]
fn the_first_kind_decides() {
    assert_eq!(categorize("config: permission"), Category::Permission);
    assert_eq!(categorize("dns timeout"), Category::Connection);
    assert_eq!(categorize("interface not resolved"), Category::Resolution);
    assert_eq!(categorize("network config"), Category::Interface);
    assert_eq!(categorize("sing-box check failed"), Category::Configuration);
    assert_eq!(categorize("DENIED"), Category::Generic);
}

#[test]
fn upper_case_beyond_ascii() {
    // The Kelvin sign is a `k` in lower case.
    assert_eq!(message_of("NETWOR\u{212a}"), Category::Interface.message());
}

#[test]
fn the_log_keeps_the_failure() {
    let mut out = Vec::new();
    let e = StartError::in_context("VPN server hostname could not be resolved", "A: b");
    let m = ProxyManager::new(config());
    assert_eq!(m.classify_error(&e, &mut out), Category::Resolution.message());
    assert_eq!(
        out,
        vec![
            Effect::Log(
                "[error-classify] dns/resolution: VPN server hostname could not be resolved: A: b"
                    .to_string()
            ),
            Effect::Stderr(
                "[error-classify] dns/resolution: VPN server hostname could not be resolved: A: b"
                    .to_string()
            ),
        ]
    );
}

#[test]
fn tags_of_the_log() {
    for (k, tag) in [
        (Category::Permission, "permission/access"),
        (Category::Connection, "connection/server"),
        (Category::Resolution, "dns/resolution"),
        (Category::Interface, "tun/network"),
        (Category::Configuration, "config"),
        (Category::Binary, "startup/binary"),
        (Category::Generic, "generic"),
    ] {
        let mut out = Vec::new();
        report(k, "d", &mut out);
        let line = format!("[error-classify] {tag}: d");
        assert_eq!(out, vec![Effect::Log(line.clone()), Effect::Stderr(line)]);
    }
}

fn config() -> Config {
    Config {
        mode: "shadowtls".to_string(),
        server_address: "vpn.example.org".to_string(),
        h2_port: 1,
        h2_up_mbps: 1,
        h2_down_mbps: 1,
        h2_password: String::new(),
        h2_sni: String::new(),
        h2_insecure: false,
        h2_obfs: String::new(),
        h2_obfs_password: String::new(),
        ss_port: 1,
        ss_password: String::new(),
        stls_port: 1,
        stls_password: String::new(),
        stls_sni: String::new(),
        mtu: None,
        tun_stack: "system".to_string(),
        split_mode: "full".to_string(),
        wow_domains: false,
        wow_apps: Vec::new(),
    }
}

#[test]
fn a_start_request_is_answered() {
    let mut s = AppState::new(config());
    let mut out = Vec::new();
    let err = StartError::new("Access denied".to_string());
    let r = s.start_proxy_inner(Err(err), ChildPoll::Alive, 5, &mut out);
    assert_eq!(r, Err(Category::Permission.message().to_string()));
    assert_eq!(s.clocks.started_at, None);
    assert!(!s.clocks.is_running_cache);
    assert_eq!(out.len(), 2);

    s.proxy.start(&mut out);
    s.proxy.process_started(8, &mut out);
    let r = s.start_proxy_inner(Ok("VPN mode started".to_string()), ChildPoll::Alive, 5, &mut out);
    assert_eq!(r, Ok("VPN mode started".to_string()));
    assert_eq!(s.clocks.started_at, Some(5));
    assert!(s.clocks.is_running_cache);

    let r = s.start_proxy_inner(Ok("x".to_string()), ChildPoll::Exited, 6, &mut out);
    assert_eq!(r, Ok("x".to_string()));
    assert!(!s.clocks.is_running_cache);
    assert_eq!(s.proxy.state(), VpnState::Stopped);
}

#[test]
fn a_failed_startup_is_answered() {
    let mut s = AppState::new(config());
    let mut out = Vec::new();
    s.proxy.start(&mut out);
    s.clocks.started_at = Some(3);
    s.clocks.is_running_cache = true;
    let mut out = Vec::new();
    let friendly = s.start_failed(&StartError::new("Access denied".to_string()), &mut out);
    assert_eq!(friendly, Category::Permission.message());
    assert_eq!(s.proxy.state(), VpnState::Stopped);
    assert_eq!(s.clocks.started_at, None);
    assert!(!s.clocks.is_running_cache);
    // The failure is told once.
    assert_eq!(out.iter().filter(|e| matches!(e, Effect::Stderr(_))).count(), 1);
}
