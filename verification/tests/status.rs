//! Status reports, traffic and round trips.
use dakal_tls::events::VpnState;
use dakal_tls::manager::{ChildPoll, Clocks};
use dakal_tls::ping::{may_ping, real_ping, status_reply, PingOutcome, PING_TARGET};
use dakal_tls::status::{AppState, LogCache, Observed};
use dakal_tls::text::{decimal, last_lines};
use dakal_tls::traffic::{sample, totals_of_body, traffic_totals, Growth, TrafficSample};
use dakal_tls::vpn_config::Config;

const SEC: u64 = 1_000_000_000;

fn config() -> Config {
    Config {
        mode: "shadowtls".to_string(),
        server_address: "vpn.example.org".to_string(),
        h2_port: 1,
        h2_up_mbps: 1,
        h2_down_mbps: 1,
        h2_password: String::new(),
        h2_sni: String::new(),
        h2_insecure: false,
        h2_obfs: String::new(),
        h2_obfs_password: String::new(),
        ss_port: 1,
        ss_password: String::new(),
        stls_port: 1,
        stls_password: String::new(),
        stls_sni: String::new(),
        mtu: None,
        tun_stack: "system".to_string(),
        split_mode: "full".to_string(),
        wow_domains: false,
        wow_apps: Vec::new(),
    }
}

fn observed(now: u64, body: &str) -> Observed {
    Observed {
        poll: ChildPoll::Alive,
        mode: "shadowtls".to_string(),
        server: "vpn.example.org".to_string(),
        now,
        log_modified: Some(10),
        log_content: Some("one\ntwo\r\n".to_string()),
        wall_now: 20,
        body: Some(body.as_bytes().to_vec()),
    }
}

fn up(at: u64) -> AppState {
    let mut s = AppState::new(config());
    let mut out = Vec::new();
    s.proxy.start(&mut out);
    s.proxy.process_started(99, &mut out);
    s.clocks = Clocks { started_at: Some(at), is_running_cache: true };
    s
}

#[test]
fn status_of_a_stopped_tunnel() {
    let mut s = AppState::new(config());
    let mut out = Vec::new();
    let (r, g) = s.get_full_status(&observed(5 * SEC, "{}"), &mut out);
    assert!(!r.running);
    assert_eq!(r.mode, "shadowtls");
    assert_eq!(r.server, None);
    assert_eq!(r.pid, None);
    assert_eq!(r.uptime_secs, 0);
    assert_eq!((r.total_up, r.total_down, r.traffic_up, r.traffic_down), (0, 0, 0, 0));
    assert!(r.log_lines.is_empty());
    assert_eq!(g, None);
    assert!(s.prev_sample.is_none());
    assert!(out.is_empty());
    assert_eq!(s.get_uptime(SEC), 0);
    assert_eq!(s.get_vpn_state(), "stopped");
}

#[test]
fn status_of_a_running_tunnel() {
    let mut s = up(2 * SEC);
    let mut out = Vec::new();
    let (r, g) = s.get_full_status(
        &observed(5 * SEC + 999_999_999, r#"{"upload_total": 100, "download_total": 7}"#),
        &mut out,
    );
    assert!(r.running);
    assert_eq!(r.server, Some("vpn.example.org".to_string()));
    assert_eq!(r.pid, Some(99));
    assert_eq!(r.uptime_secs, 3);
    assert_eq!((r.total_up, r.total_down), (100, 7));
    assert_eq!(r.log_lines, vec!["one".to_string(), "two".to_string()]);
    assert_eq!(g, None);
    assert_eq!(s.get_vpn_state(), "running");

    let (r, g) = s.get_full_status(
        &observed(8 * SEC, r#"{"upload_total": 400, "download_total": 3}"#),
        &mut out,
    );
    assert_eq!((r.total_up, r.total_down), (400, 3));
    assert_eq!(g, Some(Growth { up: 300, down: 0, nanos: 2_000_000_001 }));
    assert!(out.is_empty());
}

#[test]
fn status_of_a_tunnel_that_died() {
    let mut s = up(0);
    let mut out = Vec::new();
    let mut seen = observed(SEC, "{}");
    seen.poll = ChildPoll::Exited;
    let (r, _) = s.get_full_status(&seen, &mut out);
    assert!(!r.running);
    assert_eq!(s.proxy.state(), VpnState::Stopped);
    assert_eq!(out.len(), 3);
}

#[test]
fn traffic_counts_only_while_the_tunnel_is_believed_up() {
    let mut s = up(0);
    s.clocks.is_running_cache = false;
    let (r, _) = s.get_full_status(&observed(SEC, r#"{"upload_total": 9}"#), &mut Vec::new());
    assert!(r.running);
    assert_eq!((r.total_up, r.total_down), (0, 0));
}

#[test]
fn a_stop_is_answered() {
    let mut s = up(0);
    s.prev_sample = Some(TrafficSample { total: (1, 2), time: 3 });
    assert_eq!(s.stop_proxy_inner(), "Stopped");
    assert_eq!(s.clocks, Clocks { started_at: None, is_running_cache: false });
    assert!(s.prev_sample.is_none());
}

#[test]
fn the_log_is_read_again_only_when_it_changed() {
    let mut c = LogCache::new();
    assert!(!c.needs_refresh(None));
    assert!(c.needs_refresh(Some(0)));
    c.refresh("a\nb", 50);
    assert_eq!(c.lines, vec!["a".to_string(), "b".to_string()]);
    assert!(!c.needs_refresh(Some(50)));
    assert!(c.needs_refresh(Some(51)));
    assert!(!c.needs_refresh(None));
    c.refresh("", 60);
    assert!(c.needs_refresh(Some(1)));
}

#[test]
fn the_log_tail_is_bounded() {
    let mut content = String::new();
    for i in 0..250 {
        content.push_str(&format!("line {i}\n"));
    }
    let mut c = LogCache::new();
    c.refresh(&content, 1);
    assert_eq!(c.lines.len(), 100);
    assert_eq!(c.lines[0], "line 150");
    assert_eq!(c.lines[99], "line 249");
}

#[test]
fn lines_of_a_text() {
    for text in ["", "\n", "a", "a\n", "a\n\nb", "\r\n\r", "a\r\nb\r", "ä\nö\n", "\n\n\n", "a\r\r\n"] {
        let expected: Vec<String> = text.lines().map(String::from).collect();
        assert_eq!(last_lines(text, 100), expected, "{text:?}");
    }
    assert_eq!(last_lines("a\nb\nc", 2), vec!["b".to_string(), "c".to_string()]);
    assert_eq!(last_lines("a\nb\nc", 0), Vec::<String>::new());
}

#[test]
fn totals_of_a_report() {
    let json = |s: &str| serde_json::from_str::<serde_json::Value>(s).unwrap();
    assert_eq!(traffic_totals(&json(r#"{"upload_total": 5}"#)), (5, 0));
    assert_eq!(
        traffic_totals(&json(
            r#"{"upload_total": 0, "download_total": 1, "connections": [{"upload": 9}]}"#
        )),
        (0, 1)
    );
    assert_eq!(
        traffic_totals(&json(
            r#"{"connections": [{"upload": 9, "download": 1}, {"upload": 2}, {"upload": -4, "download": 1.5}, 7]}"#
        )),
        (11, 1)
    );
    assert_eq!(
        traffic_totals(&json(
            r#"{"connections": [{"upload": 18446744073709551615}, {"upload": 2, "download": 3}]}"#
        )),
        (u64::MAX, 3)
    );
    assert_eq!(traffic_totals(&json(r#"{"connections": 3}"#)), (0, 0));
    assert_eq!(traffic_totals(&json("[]")), (0, 0));
}

#[test]
fn totals_of_an_answer() {
    assert_eq!(totals_of_body(None), (0, 0));
    assert_eq!(totals_of_body(Some(b"not json")), (0, 0));
    assert_eq!(totals_of_body(Some(b"{\"download_total\": 12}")), (0, 12));
}

#[test]
fn a_rate_needs_two_readings_apart() {
    let mut prev = None;
    assert_eq!(sample(&mut prev, (10, 20), 0), None);
    assert_eq!(prev, Some(TrafficSample { total: (10, 20), time: 0 }));
    assert_eq!(sample(&mut prev, (99, 99), SEC / 2), None);
    assert_eq!(prev, Some(TrafficSample { total: (10, 20), time: 0 }));
    assert_eq!(
        sample(&mut prev, (15, 19), SEC / 2 + 1),
        Some(Growth { up: 5, down: 0, nanos: 500_000_001 })
    );
    assert_eq!(prev, Some(TrafficSample { total: (15, 19), time: 500_000_001 }));
}

#[test]
fn round_trips() {
    assert_eq!(may_ping(true), Ok(()));
    assert_eq!(may_ping(false), Err("VPN not connected".to_string()));
    assert_eq!(
        real_ping(&PingOutcome::Failed("timed out".to_string())),
        Err("ping failed: timed out".to_string())
    );
    assert_eq!(
        real_ping(&PingOutcome::Answered { code: 204, micros: 41999 }),
        Ok("41ms".to_string())
    );
    assert_eq!(
        real_ping(&PingOutcome::Answered { code: 404, micros: 1 }),
        Err("bad status: 404 Not Found".to_string())
    );
    assert_eq!(
        real_ping(&PingOutcome::Answered { code: 999, micros: 1 }),
        Err("bad status: 999 <unknown status code>".to_string())
    );
    assert_eq!(status_reply(300, "text", 1), Err("bad status: text".to_string()));
    assert_eq!(status_reply(299, "text", 0), Ok("0ms".to_string()));
    assert_eq!(PING_TARGET, "http://www.gstatic.com/generate_204");
}

#[test]
fn decimals() {
    for n in [0u64, 9, 10, 99, 100, 1360, 65535, u64::MAX] {
        assert_eq!(decimal(n), n.to_string());
    }
}
