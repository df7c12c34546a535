//! A startup, step by step.
use dakal_tls::classify::StartError;
use dakal_tls::dns::{distinct, resolve_hostname, Lookup};
use dakal_tls::events::{Effect, Event, VpnState};
use dakal_tls::launch::{Launch, Stage, StartAction, StartEvent};
use dakal_tls::manager::{Attempt, Clocks, JobOutcome, ProxyManager, Reconnect};
use dakal_tls::startup::{
    check_rejected, check_single_instance, check_step, config_text, log_line, needs_write,
    reap_step, CheckPoll, CheckStep, InstanceCheck, ReapPoll,
};
use dakal_tls::vpn_config::{build_vpn_config, Config};

fn config() -> Config {
    Config {
        mode: "hysteria2".to_string(),
        server_address: "vpn.example.org".to_string(),
        h2_port: 20000,
        h2_up_mbps: 15,
        h2_down_mbps: 30,
        h2_password: "h2pw".to_string(),
        h2_sni: "h2.example.org".to_string(),
        h2_insecure: false,
        h2_obfs: String::new(),
        h2_obfs_password: String::new(),
        ss_port: 8388,
        ss_password: "sspw".to_string(),
        stls_port: 443,
        stls_password: "stlspw".to_string(),
        stls_sni: "www.example.org".to_string(),
        mtu: None,
        tun_stack: "system".to_string(),
        split_mode: "full".to_string(),
        wow_domains: false,
        wow_apps: Vec::new(),
    }
}

fn texts(items: &[&str]) -> Vec<String> {
    items.iter().map(|s| s.to_string()).collect()
}

struct Run {
    attempt: Attempt,
    manager: ProxyManager,
    clocks: Clocks,
    out: Vec<Effect<String>>,
}

impl Run {
    fn new() -> Run {
        let mut out = Vec::new();
        let mut manager = ProxyManager::new(config());
        assert!(manager.start(&mut out));
        assert!(manager.prepare(Attempt::Start, config()));
        Run {
            attempt: Attempt::Start,
            manager,
            clocks: Clocks { started_at: None, is_running_cache: false },
            out: Vec::new(),
        }
    }

    fn step(&mut self, stage: Stage<String>, event: StartEvent) -> (Stage<String>, StartAction) {
        self.manager.start_inner(self.attempt, stage, event, &mut self.clocks, &mut self.out)
    }
}

#[test]
fn a_whole_startup() {
    let mut run = Run::new();
    let (stage, action) = run.step(Stage::Locating, StartEvent::Located(Ok(())));
    assert!(matches!(action, StartAction::Resolve));
    let lookup = Lookup::Addresses(texts(&["203.0.113.7", "203.0.113.7", "203.0.113.8"]));
    let (stage, action) = run.step(stage, StartEvent::Resolved(lookup));
    assert!(matches!(action, StartAction::ReadConfig));
    let value = build_vpn_config(&config(), &texts(&["203.0.113.7", "203.0.113.8"]));
    let text = serde_json::to_string_pretty(&value).unwrap();
    assert_eq!(stage, Stage::Comparing(text.clone()));
    let (stage, action) = run.step(stage, StartEvent::OnDisk(None));
    assert!(matches!(action, StartAction::WriteConfig(t) if t == text));
    let (stage, action) = run.step(stage, StartEvent::Written(Ok(())));
    assert!(matches!(action, StartAction::SpawnCheck));
    let (stage, action) = run.step(stage, StartEvent::CheckSpawned(Ok(())));
    assert!(matches!(action, StartAction::PollCheck));
    let poll = StartEvent::CheckPolled { poll: CheckPoll::Alive, past_deadline: false };
    let (stage, action) = run.step(stage, poll);
    assert_eq!(stage, Stage::Checking);
    assert!(matches!(action, StartAction::PollCheck));
    let poll = StartEvent::CheckPolled {
        poll: CheckPoll::Ended { success: true },
        past_deadline: true,
    };
    let (stage, action) = run.step(stage, poll);
    assert!(matches!(action, StartAction::Launch));
    assert_eq!(run.manager.state(), VpnState::Starting);
    let launch = Launch { pid: 4321, outcome: JobOutcome::Assigned, now: 1000 };
    let (stage, action) = run.step(stage, StartEvent::Launched(Ok(launch)));
    assert_eq!(stage, Stage::Done);
    assert_eq!(run.manager.state(), VpnState::Running);
    assert_eq!(run.manager.pid(), Some(4321));
    match action {
        StartAction::Watch { epoch, message } => {
            assert!(run.manager.monitor_live(epoch));
            assert_eq!(message, "VPN mode started");
        }
        _ => panic!("no monitor"),
    }
    assert_eq!(run.clocks, Clocks { started_at: Some(1000), is_running_cache: true });
    assert_eq!(
        run.out,
        vec![
            Effect::Log("[start] state -> Running".to_string()),
            Effect::Log("[job] assigned sing-box pid 4321 to kill-on-close job".to_string()),
            Effect::Emit(Event::State(VpnState::Running)),
        ]
    );
}

#[test]
fn a_start_is_not_superseded() {
    let mut run = Run::new();
    run.manager.stop(&mut Vec::new());
    run.manager.stop_finish(false, &mut Vec::new());
    let launch = Launch { pid: 4321, outcome: JobOutcome::Assigned, now: 1000 };
    let (stage, _) = run.step(Stage::Launching, StartEvent::Launched(Ok(launch)));
    assert_eq!(stage, Stage::Done);
    assert_eq!(run.manager.state(), VpnState::Running);
    assert_eq!(run.manager.pid(), Some(4321));
}

#[test]
fn a_superseded_try_is_abandoned() {
    let mut run = Run::new();
    let epoch = {
        let mut m = ProxyManager::new(config());
        let epoch = m.schedule_reconnect();
        assert!(m.reconnect_begin(&Reconnect::new(epoch), &mut Vec::new()));
        m.start(&mut Vec::new());
        m.process_started(1, &mut Vec::new());
        run.manager = m;
        epoch
    };
    run.attempt = Attempt::Reconnect(epoch);
    let launch = Launch { pid: 2, outcome: JobOutcome::Assigned, now: 1000 };
    let (stage, action) = run.step(Stage::Launching, StartEvent::Launched(Ok(launch)));
    assert_eq!(stage, Stage::Abandoned);
    assert!(matches!(action, StartAction::Abandon(Some(2))));
    assert_eq!(run.manager.pid(), Some(1));
    assert!(run.out.is_empty());
    let failed = StartEvent::Located(Err(StartError::new("gone".to_string())));
    let (_, action) = run.step(Stage::Locating, failed);
    assert!(matches!(action, StartAction::Abandon(None)));
}

#[test]
fn a_try_that_is_awaited_brings_the_tunnel_up() {
    let mut run = Run::new();
    run.manager = ProxyManager::new(config());
    run.attempt = Attempt::Reconnect(run.manager.schedule_reconnect());
    let outcome = JobOutcome::CreateFailed("quota".to_string());
    let launch = Launch { pid: 2, outcome, now: 5 };
    let (stage, _) = run.step(Stage::Launching, StartEvent::Launched(Ok(launch)));
    assert_eq!(stage, Stage::Done);
    assert_eq!(run.manager.state(), VpnState::Running);
}

#[test]
fn an_unchanged_configuration_is_not_written() {
    let mut run = Run::new();
    let stage = Stage::Comparing("{}".to_string());
    let (stage, action) = run.step(stage, StartEvent::OnDisk(Some("{}".to_string())));
    assert_eq!(stage, Stage::Spawning);
    assert!(matches!(action, StartAction::SpawnCheck));
    let stage = Stage::Comparing("{}".to_string());
    let (stage, action) = run.step(stage, StartEvent::OnDisk(Some("{} ".to_string())));
    assert_eq!(stage, Stage::Writing);
    assert!(matches!(action, StartAction::WriteConfig(t) if t == "{}"));
}

#[test]
fn an_unresolved_server_fails_the_startup() {
    let mut run = Run::new();
    let event = StartEvent::Resolved(Lookup::Failed("no such host".to_string()));
    let (stage, action) = run.step(Stage::Resolving, event);
    assert_eq!(stage, Stage::Failed);
    match action {
        StartAction::Fail(e) => {
            assert_eq!(e.message, "VPN server hostname could not be resolved before startup");
            assert_eq!(
                e.detail,
                "VPN server hostname could not be resolved before startup: bootstrap DNS resolution failed: no such host"
            );
        }
        _ => panic!("not failed"),
    }
}

#[test]
fn failures_end_a_startup() {
    let mut run = Run::new();
    let (stage, action) =
        run.step(Stage::Locating, StartEvent::Located(Err(StartError::new("gone".to_string()))));
    assert_eq!(stage, Stage::Failed);
    assert!(matches!(action, StartAction::Fail(e) if e.message == "gone"));
    let (_, action) =
        run.step(Stage::Writing, StartEvent::Written(Err(StartError::new("full".to_string()))));
    assert!(matches!(action, StartAction::Fail(e) if e.message == "full"));
    let (_, action) =
        run.step(Stage::Spawning, StartEvent::CheckSpawned(Err("not found".to_string())));
    assert!(matches!(action, StartAction::Fail(e)
        if e.message == "failed to run sing-box check"
        && e.detail == "failed to run sing-box check: not found"));
    let (_, action) =
        run.step(Stage::Launching, StartEvent::Launched(Err(StartError::new("spawn".to_string()))));
    assert!(matches!(action, StartAction::Fail(e) if e.message == "spawn"));
    assert_eq!(run.manager.pid(), None);
    assert!(run.out.is_empty());
}

#[test]
fn a_hanging_validation_is_given_up() {
    let mut run = Run::new();
    let event = StartEvent::CheckPolled { poll: CheckPoll::Alive, past_deadline: true };
    let (stage, action) = run.step(Stage::Checking, event);
    assert_eq!(stage, Stage::Failed);
    assert!(matches!(action, StartAction::KillCheckAndFail(e)
        if e.message == "Configuration validation timed out.\nThe server profile could not be verified. Try ShadowTLS, or reconnect on a different network."));
    let event = StartEvent::CheckPolled { poll: CheckPoll::Failed, past_deadline: false };
    let (_, action) = run.step(Stage::Checking, event);
    assert!(matches!(action, StartAction::Fail(e)
        if e.message == "Configuration validation failed to run."));
}

#[test]
fn a_rejected_configuration_is_not_launched() {
    let mut run = Run::new();
    let event = StartEvent::CheckPolled {
        poll: CheckPoll::Ended { success: false },
        past_deadline: false,
    };
    let (stage, action) = run.step(Stage::Checking, event);
    assert_eq!(stage, Stage::Collecting);
    assert!(matches!(action, StartAction::CollectOutput));
    let event = StartEvent::CheckPrinted {
        stderr: " FATAL bad\n".to_string(),
        stdout: "more \n".to_string(),
        path: "/etc/config.json".to_string(),
    };
    let (stage, action) = run.step(stage, event);
    assert_eq!(stage, Stage::Failed);
    assert!(matches!(action, StartAction::Fail(e)
        if e.message == "Config validation failed:\nFATAL bad\nmore\nConfig: /etc/config.json"));
}

#[test]
fn no_address_is_reused() {
    let mut m = ProxyManager::new(config());
    let first = m.build_vpn_config(&Lookup::Addresses(texts(&["192.0.2.1"]))).ok().unwrap();
    // Known addresses win over a later lookup...
    let again = m.build_vpn_config(&Lookup::TimedOut).ok().unwrap();
    assert_eq!(first, again);
    // ... until the next attempt.
    assert!(m.prepare(Attempt::Start, config()));
    assert!(m.build_vpn_config(&Lookup::TimedOut).is_err());
    let other = m.build_vpn_config(&Lookup::Addresses(texts(&["192.0.2.2"]))).ok().unwrap();
    let bypass = &other["route"]["rules"][2]["ip_cidr"];
    assert_eq!(bypass[0], serde_json::Value::from("192.0.2.2/32"));
}

#[test]
fn lookups() {
    let ok = resolve_hostname("h", &Lookup::Addresses(texts(&["b", "a", "b", "c", "a"])));
    assert_eq!(ok, Ok(texts(&["b", "a", "c"])));
    assert_eq!(distinct(&Vec::new()), Vec::<String>::new());
    assert_eq!(
        resolve_hostname("h", &Lookup::Addresses(Vec::new())),
        Err("no IPs resolved for h".to_string())
    );
    assert_eq!(
        resolve_hostname("h", &Lookup::Failed("e".to_string())),
        Err("bootstrap DNS resolution failed: e".to_string())
    );
    assert_eq!(
        resolve_hostname("h", &Lookup::TimedOut),
        Err("Could not resolve server 'h' within 8s.\nCheck your internet connection, or reconnect on a network that can reach the server.".to_string())
    );
    assert_eq!(
        resolve_hostname("h", &Lookup::Disconnected),
        Err("Could not resolve server 'h'.\nCheck your internet connection, or reconnect on a network that can reach the server.".to_string())
    );
}

#[test]
fn writing_the_configuration() {
    assert!(needs_write(None, ""));
    assert!(needs_write(Some("a"), "b"));
    assert!(!needs_write(Some("a"), "a"));
    let v: serde_json::Value = serde_json::from_str(r#"{"b": [1, true], "a": null}"#).unwrap();
    assert_eq!(config_text(&v), "{\n  \"a\": null,\n  \"b\": [\n    1,\n    true\n  ]\n}");
}

#[test]
fn validation_steps() {
    assert_eq!(check_step(CheckPoll::Alive, false), CheckStep::Wait);
    assert_eq!(check_step(CheckPoll::Alive, true), CheckStep::TimedOut);
    assert_eq!(check_step(CheckPoll::Failed, true), CheckStep::Lost);
    assert_eq!(check_step(CheckPoll::Ended { success: true }, true), CheckStep::Passed);
    assert_eq!(check_step(CheckPoll::Ended { success: false }, false), CheckStep::Rejected);
}

#[test]
fn rejection_trims_what_was_printed() {
    let e = check_rejected("\u{a0}\t", "\u{3000}x y\u{2028}\r\n", "p");
    assert_eq!(e.message, "Config validation failed:\nx y\nConfig: p");
    assert_eq!(e.detail, e.message);
    assert_eq!(check_rejected("", " \n", "p").message, "Config validation failed:\n\nConfig: p");
}

#[test]
fn the_wait_for_an_end_is_bounded() {
    let mut out = Vec::new();
    assert!(reap_step(&ReapPoll::Ended, false, &mut out));
    assert!(!reap_step(&ReapPoll::Alive, false, &mut out));
    assert!(out.is_empty());
    assert!(reap_step(&ReapPoll::Alive, true, &mut out));
    assert!(reap_step(&ReapPoll::Failed("lost".to_string()), false, &mut out));
    assert_eq!(
        out,
        vec![
            Effect::Log("[stop] sing-box did not exit within 5s; proceeding".to_string()),
            Effect::Log("[stop] wait error: lost".to_string()),
        ]
    );
}

#[test]
fn log_lines_hold_the_time() {
    assert_eq!(log_line(1700000000, "hello"), "[1700000000] hello\n");
    assert_eq!(log_line(0, ""), "[0] \n");
    assert_eq!(log_line(u64::MAX, "x"), "[18446744073709551615] x\n");
}

#[test]
fn single_instance() {
    assert_eq!(check_single_instance(false, 183), InstanceCheck::Unknown);
    assert_eq!(check_single_instance(true, 183), InstanceCheck::AlreadyRunning);
    assert_eq!(check_single_instance(true, 0), InstanceCheck::Alone);
}
