//! The manager of the tunnel: starting, stopping, polling and reconnecting.
use dakal_tls::classify::StartError;
use dakal_tls::events::{Effect, Event, VpnState};
use dakal_tls::manager::{
    Attempt, ChildPoll, Clocks, JobOutcome, MonitorStep, ProxyManager, Reconnect, StopPlan, GAVE_UP,
    RECONNECT_GAP, RECONNECT_TRIES,
};
use dakal_tls::startup::ReapPoll;
use dakal_tls::vpn_config::Config;

fn config() -> Config {
    Config {
        mode: "shadowtls".to_string(),
        server_address: "vpn.example.org".to_string(),
        h2_port: 20000,
        h2_up_mbps: 15,
        h2_down_mbps: 30,
        h2_password: "h2pw".to_string(),
        h2_sni: "h2.example.org".to_string(),
        h2_insecure: false,
        h2_obfs: String::new(),
        h2_obfs_password: String::new(),
        ss_port: 8388,
        ss_password: "sspw".to_string(),
        stls_port: 443,
        stls_password: "stlspw".to_string(),
        stls_sni: "www.example.org".to_string(),
        mtu: None,
        tun_stack: "system".to_string(),
        split_mode: "full".to_string(),
        wow_domains: false,
        wow_apps: Vec::new(),
    }
}

fn log(s: &str) -> Effect<String> {
    Effect::Log(s.to_string())
}

fn state(s: VpnState) -> Effect<String> {
    Effect::Emit(Event::State(s))
}

fn error(s: &str) -> Effect<String> {
    Effect::Emit(Event::Error(s.to_string()))
}

fn running(pid: u32) -> (ProxyManager, u64) {
    let mut out = Vec::new();
    let mut m = ProxyManager::new(config());
    assert!(m.start(&mut out));
    m.process_started(pid, &mut out);
    m.attach_job(pid, &JobOutcome::Assigned, &mut out);
    let epoch = m.spawn_monitor();
    (m, epoch)
}

#[test]
fn new_manager_is_stopped() {
    let m = ProxyManager::new(config());
    assert_eq!(m.state(), VpnState::Stopped);
    assert_eq!(m.pid(), None);
    assert_eq!(m.server_address(), "vpn.example.org");
}

#[test]
fn start_goes_to_starting() {
    let mut out = Vec::new();
    let mut m = ProxyManager::new(config());
    assert!(m.start(&mut out));
    assert_eq!(m.state(), VpnState::Starting);
    assert_eq!(out, vec![log("[start] state -> Starting"), state(VpnState::Starting)]);
}

#[test]
fn second_start_is_refused() {
    let mut m = ProxyManager::new(config());
    assert!(m.start(&mut Vec::new()));
    let mut out = Vec::new();
    assert!(!m.start(&mut out));
    assert_eq!(
        out,
        vec![
            log("[start] ignored: already in state starting"),
            error("VPN is already starting."),
        ]
    );
    assert_eq!(m.state(), VpnState::Starting);

    let (mut m, _) = running(7);
    let mut out = Vec::new();
    assert!(!m.start(&mut out));
    assert_eq!(out[1], error("VPN is already running."));

    m.stop(&mut Vec::new());
    let mut out = Vec::new();
    assert!(!m.start(&mut out));
    assert_eq!(
        out,
        vec![
            log("[start] ignored: already in state stopping"),
            error("VPN is stopping, please wait."),
        ]
    );
}

#[test]
fn stopping_what_is_stopped_is_harmless() {
    let mut m = ProxyManager::new(config());
    for _ in 0..3 {
        let mut out = Vec::new();
        assert_eq!(m.stop(&mut out), StopPlan::AlreadyStopped);
        assert_eq!(out, vec![log("[stop] ignored: already stopped")]);
        assert_eq!(m.state(), VpnState::Stopped);
    }
}

#[test]
fn stop_leaves_no_process() {
    let (mut m, epoch) = running(41);
    assert_eq!(m.pid(), Some(41));
    assert!(m.monitor_live(epoch));
    let mut out = Vec::new();
    assert_eq!(m.stop(&mut out), StopPlan::Terminate { was_running: true });
    assert_eq!(out, vec![log("[stop] state -> Stopping"), state(VpnState::Stopping)]);
    assert_eq!(m.pid(), None);
    assert!(!m.monitor_live(epoch));
    let mut out = Vec::new();
    assert_eq!(m.stop_finish(true, &mut out), "Stopped");
    assert_eq!(out, vec![state(VpnState::Stopped)]);
    assert_eq!(m.state(), VpnState::Stopped);
}

#[test]
fn stop_of_a_start_without_process() {
    let mut m = ProxyManager::new(config());
    m.start(&mut Vec::new());
    assert_eq!(m.stop(&mut Vec::new()), StopPlan::Terminate { was_running: false });
    assert_eq!(m.stop_finish(false, &mut Vec::new()), "Already stopped");
}

#[test]
fn stop_kills_a_process_that_came_up_meanwhile() {
    let (mut m, _) = running(1);
    m.stop(&mut Vec::new());
    m.process_started(2, &mut Vec::new());
    let mut out = Vec::new();
    m.stop_finish(true, &mut out);
    assert_eq!(out, vec![Effect::KillChild, state(VpnState::Stopped)]);
    assert_eq!(m.pid(), None);
}

#[test]
fn failure_leads_back_to_stopped() {
    let mut m = ProxyManager::new(config());
    m.start(&mut Vec::new());
    m.process_started(9, &mut Vec::new());
    let epoch = m.spawn_monitor();
    let mut out = Vec::new();
    let err = StartError::in_context("failed to run sing-box check", "no such file");
    let friendly = "The VPN could not start.\nPlease check the logs for more details.";
    assert_eq!(m.start_failed(&err, &mut out), friendly);
    assert_eq!(
        out,
        vec![
            log("[start] failed: failed to run sing-box check: no such file"),
            log("[error-classify] startup/binary: failed to run sing-box check: no such file"),
            Effect::Stderr(
                "[error-classify] startup/binary: failed to run sing-box check: no such file"
                    .to_string()
            ),
            log(&format!("[state] returning to Stopped: {friendly}")),
            Effect::KillChild,
            Effect::CloseJob,
            state(VpnState::Stopped),
            error(friendly),
        ]
    );
    assert_eq!(m.state(), VpnState::Stopped);
    assert_eq!(m.pid(), None);
    assert!(!m.monitor_live(epoch));
    assert!(m.start(&mut Vec::new()));
}

#[test]
fn reset_without_process_kills_nothing() {
    let mut m = ProxyManager::new(config());
    let mut out = Vec::new();
    m.reset_to_stopped_internal(None, &mut out);
    assert_eq!(
        out,
        vec![log("[state] returning to Stopped"), Effect::CloseJob, state(VpnState::Stopped)]
    );
}

#[test]
fn missing_rights_are_reported() {
    let mut m = ProxyManager::new(config());
    m.start(&mut Vec::new());
    let mut out = Vec::new();
    m.admin_missing(&mut out);
    assert_eq!(m.state(), VpnState::Stopped);
    assert_eq!(
        out,
        vec![
            log("[state] returning to Stopped: Admin required — Run as administrator."),
            Effect::CloseJob,
            state(VpnState::Stopped),
            error("Admin required. Right-click the app → 'Run as administrator'."),
        ]
    );
}

#[test]
fn a_status_request_does_not_undo_a_start() {
    for poll in [ChildPoll::Alive, ChildPoll::Exited, ChildPoll::Failed] {
        let mut m = ProxyManager::new(config());
        assert!(m.start(&mut Vec::new()));
        let mut out = Vec::new();
        assert!(!m.is_running(poll, &mut out));
        assert!(out.is_empty());
        assert_eq!(m.state(), VpnState::Starting);
        assert!(!m.start(&mut Vec::new()));
        assert!(m.awaits_attempt(Attempt::Start));
    }
}

#[test]
fn a_status_request_does_not_undo_a_stop() {
    let (mut m, _) = running(5);
    m.stop(&mut Vec::new());
    let mut out = Vec::new();
    assert!(!m.is_running(ChildPoll::Failed, &mut out));
    assert!(out.is_empty());
    assert_eq!(m.state(), VpnState::Stopping);
}

#[test]
fn an_end_that_is_seen_keeps_the_job() {
    let (mut m, _) = running(5);
    m.stop(&mut Vec::new());
    let mut out = Vec::new();
    assert!(!m.stop_wait(&ReapPoll::Alive, false, &mut out));
    assert!(m.stop_wait(&ReapPoll::Ended, false, &mut out));
    assert!(m.stop_wait(&ReapPoll::Ended, true, &mut out));
    assert!(out.is_empty());
}

#[test]
fn an_end_that_is_not_seen_closes_the_job() {
    let (mut m, _) = running(5);
    m.stop(&mut Vec::new());
    let mut out = Vec::new();
    assert!(m.stop_wait(&ReapPoll::Alive, true, &mut out));
    assert_eq!(
        out,
        vec![log("[stop] sing-box did not exit within 5s; proceeding"), Effect::CloseJob]
    );
    let mut out = Vec::new();
    assert!(m.stop_wait(&ReapPoll::Failed("lost".to_string()), false, &mut out));
    assert_eq!(out, vec![log("[stop] wait error: lost"), Effect::CloseJob]);
    let mut out = Vec::new();
    m.stop_gave_up(&mut out);
    assert_eq!(out, vec![Effect::CloseJob]);
}

#[test]
fn superseded_attempts() {
    let mut m = ProxyManager::new(config());
    let token = m.schedule_reconnect();
    assert!(m.awaits_attempt(Attempt::Reconnect(token)));
    assert!(m.prepare(Attempt::Reconnect(token), config()));
    m.stop(&mut Vec::new());
    assert!(!m.awaits_attempt(Attempt::Reconnect(token)));
    assert!(!m.prepare(Attempt::Reconnect(token), config()));
    assert!(m.prepare(Attempt::Start, config()));
}

#[test]
fn a_poll_reflects_reality() {
    let (mut m, _) = running(5);
    let mut out = Vec::new();
    assert!(m.is_running(ChildPoll::Alive, &mut out));
    assert!(out.is_empty());
    assert_eq!(m.pid(), Some(5));

    assert!(!m.is_running(ChildPoll::Exited, &mut out));
    assert_eq!(m.state(), VpnState::Stopped);
    assert_eq!(m.pid(), None);
    assert_eq!(
        out,
        vec![log("[state] returning to Stopped"), Effect::CloseJob, state(VpnState::Stopped)]
    );

    let mut out = Vec::new();
    assert!(!m.is_running(ChildPoll::Alive, &mut out));
    assert!(out.is_empty());
}

#[test]
fn an_unreadable_status_counts_as_down() {
    let (mut m, _) = running(5);
    let mut out = Vec::new();
    assert!(!m.is_running(ChildPoll::Failed, &mut out));
    assert_eq!(out[1], Effect::KillChild);
    assert_eq!(m.state(), VpnState::Stopped);
}

#[test]
fn job_outcomes_are_logged() {
    let mut m = ProxyManager::new(config());
    let mut out = Vec::new();
    m.attach_job(1234, &JobOutcome::Assigned, &mut out);
    m.attach_job(1234, &JobOutcome::AssignFailed("access".to_string()), &mut out);
    m.attach_job(1234, &JobOutcome::CreateFailed("quota".to_string()), &mut out);
    assert_eq!(
        out,
        vec![
            log("[job] assigned sing-box pid 1234 to kill-on-close job"),
            log("[job] assign failed (non-fatal): access"),
            log("[job] create failed (non-fatal): quota"),
        ]
    );
}

#[test]
fn tunnel_up_starts_the_clock() {
    let (m, _) = running(3);
    let mut clocks = Clocks { started_at: None, is_running_cache: false };
    let mut out = Vec::new();
    assert_eq!(m.tunnel_up(&mut clocks, 77, &mut out), "VPN mode started");
    assert_eq!(clocks, Clocks { started_at: Some(77), is_running_cache: true });
    assert_eq!(out, vec![state(VpnState::Running)]);
}

#[test]
fn stale_monitor_is_inert() {
    let (mut m, old) = running(3);
    let new = m.spawn_monitor();
    assert_ne!(old, new);
    let mut clocks = Clocks { started_at: Some(1), is_running_cache: true };
    assert_eq!(m.monitor_step(old, ChildPoll::Exited, &mut clocks), MonitorStep::Retire);
    assert_eq!(m.pid(), Some(3));
    assert_eq!(m.state(), VpnState::Running);
    assert!(clocks.is_running_cache);
}

#[test]
fn a_drop_is_noticed() {
    for poll in [ChildPoll::Exited, ChildPoll::Failed] {
        let (mut m, epoch) = running(3);
        let mut clocks = Clocks { started_at: Some(1), is_running_cache: true };
        assert_eq!(m.monitor_step(epoch, ChildPoll::Alive, &mut clocks), MonitorStep::Continue);
        let step = m.monitor_step(epoch, poll, &mut clocks);
        assert_eq!(m.state(), VpnState::Stopped);
        assert_eq!(m.pid(), None);
        assert_eq!(clocks, Clocks { started_at: Some(1), is_running_cache: false });
        match step {
            MonitorStep::Reconnect(token) => {
                assert!(m.reconnect_begin(&Reconnect::new(token), &mut Vec::new()));
            }
            other => panic!("{other:?}"),
        }
        assert_eq!(m.monitor_step(epoch, ChildPoll::Alive, &mut clocks), MonitorStep::Retire);
    }
}

#[test]
fn an_intended_exit_is_no_drop() {
    let (mut m, _) = running(3);
    m.stop(&mut Vec::new());
    let epoch = m.spawn_monitor();
    let mut clocks = Clocks { started_at: Some(1), is_running_cache: true };
    assert_eq!(m.monitor_step(epoch, ChildPoll::Exited, &mut clocks), MonitorStep::Retire);
    assert_eq!(m.state(), VpnState::Stopping);
    assert!(clocks.is_running_cache);
}

#[test]
fn tries_are_counted() {
    assert_eq!(RECONNECT_TRIES, 3);
    assert_eq!(RECONNECT_GAP, 5);
    let mut m = ProxyManager::new(config());
    let mut tries = Reconnect::new(m.schedule_reconnect());
    let mut messages = Vec::new();
    loop {
        let mut out = Vec::new();
        assert!(m.reconnect_begin(&tries, &mut out));
        messages.append(&mut out);
        let mut out = Vec::new();
        let attempt = tries.attempt;
        let again = m.reconnect_failed(&mut tries, "no luck", &mut out);
        assert_eq!(out[0], log(&format!("[reconnect] attempt {attempt} failed: no luck")));
        if !again {
            assert_eq!(out.pop(), Some(Effect::Emit(Event::Down(GAVE_UP.to_string()))));
            break;
        }
        assert_eq!(out.pop(), Some(state(VpnState::Stopped)));
    }
    assert_eq!(
        messages,
        vec![
            Effect::Emit(Event::Reconnecting("Connection lost — reconnecting… (1/3)".to_string())),
            Effect::Emit(Event::Reconnecting("Connection lost — reconnecting… (2/3)".to_string())),
            Effect::Emit(Event::Reconnecting("Connection lost — reconnecting… (3/3)".to_string())),
        ]
    );
    assert_eq!(
        GAVE_UP,
        "Connection lost and auto-reconnect failed after 3 attempts.\nClick Start to try again."
    );
}

#[test]
fn a_superseded_try_that_fails_changes_nothing() {
    for attempt in 1..=3 {
        let mut m = ProxyManager::new(config());
        let before = Reconnect { epoch: m.schedule_reconnect(), attempt };
        let mut tries = before;
        // A manual start brings the tunnel up while the try is under way.
        m.start(&mut Vec::new());
        m.process_started(12, &mut Vec::new());
        let epoch = m.spawn_monitor();
        let mut out = Vec::new();
        assert!(!m.reconnect_failed(&mut tries, "x", &mut out));
        assert_eq!(out, vec![log(&format!("[reconnect] attempt {attempt} failed: x"))]);
        assert_eq!(tries, before);
        assert_eq!(m.state(), VpnState::Running);
        assert_eq!(m.pid(), Some(12));
        assert!(m.monitor_live(epoch));
    }
}

#[test]
fn manual_requests_win_over_reconnecting() {
    let mut m = ProxyManager::new(config());
    let tries = Reconnect::new(m.schedule_reconnect());
    assert!(m.reconnect_begin(&tries, &mut Vec::new()));
    m.start(&mut Vec::new());
    let mut out = Vec::new();
    assert!(!m.reconnect_begin(&tries, &mut out));
    assert!(out.is_empty());

    let mut m = ProxyManager::new(config());
    let tries = Reconnect::new(m.schedule_reconnect());
    assert_eq!(m.stop(&mut Vec::new()), StopPlan::AlreadyStopped);
    assert!(!m.reconnect_begin(&tries, &mut Vec::new()));
}

#[test]
fn a_tunnel_that_is_up_ends_the_loop() {
    let (mut m, _) = running(3);
    let tries = Reconnect::new(m.schedule_reconnect());
    assert!(!m.reconnect_begin(&tries, &mut Vec::new()));
}

#[test]
fn a_new_loop_supersedes_an_earlier_one() {
    let (mut m, epoch) = running(3);
    let old = Reconnect::new(m.schedule_reconnect());
    let mut clocks = Clocks { started_at: None, is_running_cache: true };
    assert!(matches!(
        m.monitor_step(epoch, ChildPoll::Exited, &mut clocks),
        MonitorStep::Reconnect(_)
    ));
    assert!(!m.reconnect_begin(&old, &mut Vec::new()));
}

#[test]
fn state_labels() {
    assert_eq!(VpnState::Stopped.label(), "stopped");
    assert_eq!(VpnState::Starting.label(), "starting");
    assert_eq!(VpnState::Running.label(), "running");
    assert_eq!(VpnState::Stopping.label(), "stopping");
}

#[test]
fn event_payloads() {
    let parse = |s: &str| serde_json::from_str::<serde_json::Value>(s).unwrap();
    let e: Event<String> = Event::State(VpnState::Running);
    assert_eq!(e.channel(), "vpn-state");
    assert_eq!(e.payload(), parse(r#"{"state": "running"}"#));
    let e = Event::Reconnecting("again".to_string());
    assert_eq!(e.channel(), "vpn-state");
    assert_eq!(e.payload(), parse(r#"{"state": "reconnecting", "message": "again"}"#));
    let e = Event::Down("gone".to_string());
    assert_eq!(e.channel(), "vpn-state");
    assert_eq!(e.payload(), parse(r#"{"state": "stopped", "message": "gone"}"#));
    let e = Event::Error("no".to_string());
    assert_eq!(e.channel(), "vpn-error");
    assert_eq!(e.payload(), parse(r#"{"message": "no"}"#));
}
