//! What each request, poll and failure does to the manager and asks of the program,
//! field by field and effect by effect.
use crate::classify::{error_category, StartError};
use crate::dns::Lookup;
use crate::events::{channel_of, payload_of, Effect, Event, VpnState};
use crate::json::{pretty_text, Json};
use crate::launch::{
    clocks_after, effects_of, leads_to, manager_after, Launch, Stage, StartAction, StartEvent,
};
use crate::manager::{
    admin_effects, begin_effects, bumped, failure_effects, finish_effects, job_line,
    reconnect_goes_on, retry_effects, start_effects, stop_effects, stop_message,
    tries_again, wait_effects, Attempt, ChildPoll, Clocks, JobOutcome, Manager, MonitorStep, Reconnect, StopPlan,
};
use crate::startup::{
    check_verdict, instance_verdict, log_text, rejection, wait_over, CheckPoll, CheckStep,
    InstanceCheck, ReapPoll,
};
use crate::text::decimal_of;
use crate::vpn_config::{vpn_config, Config};
use vstd::prelude::*;

verus! {

// ── requests and transitions ───────────────────────────────────────

/// Two managers agree on what belongs to the process and its monitor.
pub open spec fn same_process(a: Manager, b: Manager) -> bool {
    a.child == b.child && a.monitor == b.monitor && a.monitor_epoch == b.monitor_epoch && a.job
        == b.job
}

/// Two managers agree on the settings and on what is known of the server.
pub open spec fn same_server(a: Manager, b: Manager) -> bool {
    a.config == b.config && a.dns_cache == b.dns_cache
}

/// `b` is the token that follows `a`; after the largest comes 0.
pub open spec fn follows(a: u64, b: u64) -> bool {
    (a < u64::MAX && b == a + 1) || (a == u64::MAX && b == 0)
}

/// Tokens go up by one, and a new one is never the one before.
pub proof fn law_tokens_go_up(a: u64, b: u64)
    ensures
        follows(a, bumped(a)),
        bumped(a) != a,
        bumped(a) == bumped(b) ==> a == b,
{
}

/// A manager begins stopped, with nothing held and with the given settings.
pub proof fn law_a_manager_begins_stopped(config: Config)
    ensures
        ({
            let m = Manager::initial(config);
            &&& m.state == VpnState::Stopped
            &&& m.child is None && !m.monitor && !m.job
            &&& m.monitor_epoch == 0 && m.reconnect_epoch == 0
            &&& m.config == config && m.dns_cache is None
        }),
{
}

/// A request to start takes a stopped tunnel to `Starting` and has the work done;
/// any other it leaves alone. It supersedes reconnect loops either way.
pub proof fn law_a_request_to_start(m: Manager)
    ensures
        m.startable() <==> m.state == VpnState::Stopped,
        m.startable() ==> m.started().state == VpnState::Starting,
        !m.startable() ==> m.started().state == m.state,
        follows(m.reconnect_epoch, m.started().reconnect_epoch),
        same_process(m.started(), m) && same_server(m.started(), m),
{
}

/// What a request to start tells: the new state, or why it is refused.
pub proof fn law_what_a_request_to_start_tells(state: VpnState)
    ensures
        state == VpnState::Stopped ==> start_effects(state) == seq![
            Effect::Log("[start] state -> Starting"@),
            Effect::Emit(Event::<Seq<char>>::State(VpnState::Starting)),
        ],
        state == VpnState::Starting ==> start_effects(state) == seq![
            Effect::Log("[start] ignored: already in state "@ + "starting"@),
            Effect::Emit(Event::Error("VPN is already starting."@)),
        ],
        state == VpnState::Running ==> start_effects(state) == seq![
            Effect::Log("[start] ignored: already in state "@ + "running"@),
            Effect::Emit(Event::Error("VPN is already running."@)),
        ],
        state == VpnState::Stopping ==> start_effects(state) == seq![
            Effect::Log("[start] ignored: already in state "@ + "stopping"@),
            Effect::Emit(Event::Error("VPN is stopping, please wait."@)),
        ],
{
}

/// An attempt begins with the settings of the moment and without known addresses;
/// one that is superseded changes nothing.
pub proof fn law_an_attempt_begins_afresh(m: Manager, attempt: Attempt, config: Config)
    ensures
        ({
            let p = m.prepared_for(attempt, config);
            &&& m.awaits(attempt) ==> p.config == config && p.dns_cache is None
            &&& !m.awaits(attempt) ==> p == m
            &&& p.state == m.state && p.reconnect_epoch == m.reconnect_epoch
            &&& same_process(p, m)
        }),
{
}

/// A start is always awaited, and a try as long as the token is that of its loop.
pub proof fn law_what_is_awaited(m: Manager, epoch: u64)
    ensures
        m.awaits(Attempt::Start),
        m.awaits(Attempt::Reconnect(epoch)) <==> m.reconnect_epoch == epoch,
{
}

/// Known addresses are used as they are; only where there are none does a lookup
/// count.
pub proof fn law_known_addresses_come_first(m: Manager, lookup: Lookup)
    ensures
        m.dns_cache is Some ==> m.addresses(lookup) == m.dns_cache->0 && m.address_error(
            lookup,
        ) is None,
        m.dns_cache is None ==> m.addresses(lookup) == crate::dns::lookup_addresses(lookup)
            && m.address_error(lookup) == crate::dns::lookup_error(
            m.config.server_address@,
            lookup,
        ),
{
}

/// A process that is up is held, and the tunnel is running.
pub proof fn law_a_process_is_taken_on(m: Manager, pid: u32, outcome: JobOutcome)
    ensures
        ({
            let p = m.process_up(pid);
            &&& p.child == Some(pid) && p.state == VpnState::Running
            &&& p.monitor == m.monitor && p.monitor_epoch == m.monitor_epoch && p.job == m.job
            &&& p.reconnect_epoch == m.reconnect_epoch && same_server(p, m)
        }),
        ({
            let a = m.attached(outcome);
            &&& outcome is Assigned ==> a.job
            &&& !(outcome is Assigned) ==> a.job == m.job
            &&& a.child == m.child && a.state == m.state && a.monitor == m.monitor
            &&& a.monitor_epoch == m.monitor_epoch && a.reconnect_epoch == m.reconnect_epoch
            &&& same_server(a, m)
        }),
{
}

/// A monitor is retired by the next token, and a new one runs under the token after
/// that. Nothing else changes.
pub proof fn law_monitors_run_under_tokens(m: Manager)
    ensures
        ({
            let u = m.unmonitored();
            &&& !u.monitor && follows(m.monitor_epoch, u.monitor_epoch)
            &&& u.child == m.child && u.state == m.state && u.job == m.job
            &&& u.reconnect_epoch == m.reconnect_epoch && same_server(u, m)
        }),
        ({
            let n = m.monitored();
            &&& n.monitor && follows(m.unmonitored().monitor_epoch, n.monitor_epoch)
            &&& n.child == m.child && n.state == m.state && n.job == m.job
            &&& n.reconnect_epoch == m.reconnect_epoch && same_server(n, m)
        }),
{
}

/// The way back to `Stopped` leaves no process, job or monitor behind, and keeps the
/// settings, the known addresses and the reconnect loop.
pub proof fn law_the_way_back_to_stopped(m: Manager)
    ensures
        ({
            let r = m.reset();
            &&& r.state == VpnState::Stopped
            &&& r.child is None && !r.job && !r.monitor
            &&& follows(m.monitor_epoch, r.monitor_epoch)
            &&& r.reconnect_epoch == m.reconnect_epoch && same_server(r, m)
        }),
{
}

/// The way back to `Stopped` kills a process if there is one, closes the job and
/// tells the frontend; the reason, if any, is in the log.
pub proof fn law_what_the_way_back_takes(m: Manager, reason: Option<Seq<char>>)
    ensures
        reason is Some ==> m.reset_effects(reason)[0] == Effect::Log(
            "[state] returning to Stopped: "@ + reason->0,
        ),
        reason is None ==> m.reset_effects(reason)[0] == Effect::Log(
            "[state] returning to Stopped"@,
        ),
        m.child is Some ==> m.reset_effects(reason).skip(1) == seq![
            Effect::<Seq<char>>::KillChild,
            Effect::<Seq<char>>::CloseJob,
            Effect::Emit(Event::<Seq<char>>::State(VpnState::Stopped)),
        ],
        m.child is None ==> m.reset_effects(reason).skip(1) == seq![
            Effect::<Seq<char>>::CloseJob,
            Effect::Emit(Event::<Seq<char>>::State(VpnState::Stopped)),
        ],
{
    let rest = m.reset_effects(reason).skip(1);
    if m.child is Some {
        assert(rest =~= seq![
            Effect::<Seq<char>>::KillChild,
            Effect::<Seq<char>>::CloseJob,
            Effect::Emit(Event::<Seq<char>>::State(VpnState::Stopped)),
        ]);
    } else {
        assert(rest =~= seq![Effect::<Seq<char>>::CloseJob, Effect::Emit(Event::<Seq<char>>::State(VpnState::Stopped))]);
    }
}

/// Reading the status: a live process changes nothing; one that has exited is let
/// go, and a running tunnel whose process is not known to live is taken down. What
/// has no process is left alone.
pub proof fn law_what_a_reading_of_the_status_does(m: Manager, poll: ChildPoll)
    ensures
        m.alive(poll) <==> m.child is Some && poll == ChildPoll::Alive,
        m.alive(poll) ==> m.polled(poll) == m && m.poll_effects(poll).len() == 0,
        m.state != VpnState::Running ==> m.polled(poll).state == m.state && m.poll_effects(
            poll,
        ).len() == 0,
        (m.state == VpnState::Running && !m.alive(poll)) ==> {
            &&& m.polled(poll).state == VpnState::Stopped
            &&& m.polled(poll).child is None && !m.polled(poll).job && !m.polled(poll).monitor
            &&& follows(m.monitor_epoch, m.polled(poll).monitor_epoch)
            &&& m.poll_effects(poll).len() > 0
            &&& m.poll_effects(poll).last() == Effect::Emit(Event::<Seq<char>>::State(
                VpnState::Stopped,
            ))
            &&& m.poll_effects(poll).contains(Effect::<Seq<char>>::KillChild) <==> m.child is Some && poll
                == ChildPoll::Failed
            &&& m.poll_effects(poll).contains(Effect::<Seq<char>>::CloseJob)
        },
        m.polled(poll).reconnect_epoch == m.reconnect_epoch,
        same_server(m.polled(poll), m),
{
    if m.state == VpnState::Running && !m.alive(poll) {
        let all = m.poll_effects(poll);
        if m.child is Some && poll == ChildPoll::Failed {
            assert(all[1] == Effect::<Seq<char>>::KillChild);
            assert(all[2] == Effect::<Seq<char>>::CloseJob);
        } else {
            assert(all.len() == 3);
            assert(all[1] == Effect::<Seq<char>>::CloseJob);
        }
    }
}

/// A request to stop takes anything but a stopped tunnel to `Stopping`, hands the
/// process to its caller and retires the monitor. It supersedes reconnect loops
/// either way.
pub proof fn law_a_request_to_stop(m: Manager)
    ensures
        follows(m.reconnect_epoch, m.stopping().reconnect_epoch),
        same_server(m.stopping(), m),
        m.stopping().job == m.job,
        m.state == VpnState::Stopped ==> {
            &&& m.stopping().state == VpnState::Stopped
            &&& same_process(m.stopping(), m)
            &&& m.stop_plan() == StopPlan::AlreadyStopped
            &&& stop_effects(m.state) == seq![Effect::Log("[stop] ignored: already stopped"@)]
        },
        m.state != VpnState::Stopped ==> {
            &&& m.stopping().state == VpnState::Stopping
            &&& m.stopping().child is None && !m.stopping().monitor
            &&& follows(m.monitor_epoch, m.stopping().monitor_epoch)
            &&& m.child is Some ==> m.stop_plan() == (StopPlan::Terminate { was_running: true })
            &&& m.child is None ==> m.stop_plan() == (StopPlan::Terminate { was_running: false })
            &&& stop_effects(m.state) == seq![
                Effect::Log("[stop] state -> Stopping"@),
                Effect::Emit(Event::<Seq<char>>::State(VpnState::Stopping)),
            ]
        },
{
}

/// A stop that is through leaves a stopped tunnel without process, tells the
/// frontend, and kills a process that came up meanwhile. It is answered by whether
/// there was a process to stop.
pub proof fn law_a_stop_that_is_through(m: Manager, was_running: bool)
    ensures
        m.finished().state == VpnState::Stopped && m.finished().child is None,
        m.finished().monitor == m.monitor && m.finished().monitor_epoch == m.monitor_epoch,
        m.finished().job == m.job && m.finished().reconnect_epoch == m.reconnect_epoch,
        same_server(m.finished(), m),
        m.child is None ==> finish_effects(m) == seq![
            Effect::Emit(Event::<Seq<char>>::State(VpnState::Stopped)),
        ],
        m.child is Some ==> finish_effects(m) == seq![
            Effect::<Seq<char>>::KillChild,
            Effect::Emit(Event::<Seq<char>>::State(VpnState::Stopped)),
        ],
        was_running ==> stop_message(was_running) == "Stopped"@,
        !was_running ==> stop_message(was_running) == "Already stopped"@,
{
    if m.child is None {
        assert(finish_effects(m) =~= seq![
            Effect::Emit(Event::<Seq<char>>::State(VpnState::Stopped)),
        ]);
    } else {
        assert(finish_effects(m) =~= seq![
            Effect::<Seq<char>>::KillChild,
            Effect::Emit(Event::<Seq<char>>::State(VpnState::Stopped)),
        ]);
    }
}

/// The wait for a killed process: an end that is seen takes nothing; past the
/// deadline, or where the status cannot be read, the reason is in the log and the
/// job is closed.
pub proof fn law_what_the_wait_takes(m: Manager, poll: ReapPoll, past_deadline: bool)
    ensures
        wait_over(poll, past_deadline) <==> poll is Ended || poll is Failed || past_deadline,
        poll is Ended ==> wait_effects(poll, past_deadline).len() == 0,
        (poll is Alive && !past_deadline) ==> wait_effects(poll, past_deadline).len() == 0,
        (poll is Alive && past_deadline) ==> wait_effects(poll, past_deadline) == seq![
            Effect::Log("[stop] sing-box did not exit within 5s; proceeding"@),
            Effect::<Seq<char>>::CloseJob,
        ],
        poll matches ReapPoll::Failed(e) ==> wait_effects(poll, past_deadline) == seq![
            Effect::Log("[stop] wait error: "@ + e@),
            Effect::<Seq<char>>::CloseJob,
        ],
        m.waited(poll, past_deadline).child == m.child,
        m.waited(poll, past_deadline).state == m.state,
        m.waited(poll, past_deadline).monitor_epoch == m.monitor_epoch,
        m.waited(poll, past_deadline).reconnect_epoch == m.reconnect_epoch,
        same_server(m.waited(poll, past_deadline), m),
{
    let all = wait_effects(poll, past_deadline);
    match poll {
        ReapPoll::Failed(e) => {
            assert(all =~= seq![Effect::Log("[stop] wait error: "@ + e@), Effect::<Seq<char>>::CloseJob]);
        },
        ReapPoll::Alive => {
            if past_deadline {
                assert(all =~= seq![
                    Effect::Log("[stop] sing-box did not exit within 5s; proceeding"@),
                    Effect::<Seq<char>>::CloseJob,
                ]);
            }
        },
        _ => {},
    }
}

// ── monitors and reconnecting ──────────────────────────────────────

/// What a monitor does: under its own token it goes on while the process lives, and
/// ends otherwise. Where a running tunnel lost its process, the tunnel is stopped at
/// once, is no longer believed to be up, and a reconnect loop with the next token
/// takes over. Nothing else ever changes.
pub proof fn law_what_a_monitor_does(m: Manager, epoch: u64, poll: ChildPoll, c: Clocks)
    ensures
        (epoch == m.monitor_epoch && m.child is Some && poll == ChildPoll::Alive) <==> m.watch_step(
            epoch,
            poll,
        ) == MonitorStep::Continue,
        (epoch == m.monitor_epoch && m.child is Some && poll != ChildPoll::Alive && m.state
            == VpnState::Running) ==> {
            &&& m.watch_step(epoch, poll) == MonitorStep::Reconnect(
                m.watched(epoch, poll).reconnect_epoch,
            )
            &&& follows(m.reconnect_epoch, m.watched(epoch, poll).reconnect_epoch)
            &&& m.watched(epoch, poll).state == VpnState::Stopped
            &&& !m.watch_clocks(epoch, poll, c).is_running_cache
        },
        !(epoch == m.monitor_epoch && m.child is Some && poll != ChildPoll::Alive && m.state
            == VpnState::Running) ==> {
            &&& !(m.watch_step(epoch, poll) is Reconnect)
            &&& m.watched(epoch, poll).state == m.state
            &&& m.watched(epoch, poll).reconnect_epoch == m.reconnect_epoch
            &&& m.watch_clocks(epoch, poll, c) == c
        },
        (epoch == m.monitor_epoch && poll != ChildPoll::Alive) ==> m.watched(
            epoch,
            poll,
        ).child is None,
        (epoch != m.monitor_epoch || poll == ChildPoll::Alive) ==> m.watched(epoch, poll) == m,
        m.watch_clocks(epoch, poll, c).started_at == c.started_at,
        m.watched(epoch, poll).monitor_epoch == m.monitor_epoch,
        m.watched(epoch, poll).job == m.job,
        same_server(m.watched(epoch, poll), m),
{
}

/// A try is made while the token is that of its loop and the tunnel is not up, and
/// the frontend hears the number of the try.
pub proof fn law_the_beginning_of_a_try(m: Manager, tries: Reconnect)
    ensures
        reconnect_goes_on(m, tries) <==> m.reconnect_epoch == tries.epoch && m.state
            != VpnState::Running,
        reconnect_goes_on(m, tries) ==> begin_effects(m, tries) == seq![
            Effect::Emit(
                Event::Reconnecting(
                    "Connection lost — reconnecting… ("@ + decimal_of(tries.attempt as nat) + "/"@
                        + "3"@ + ")"@,
                ),
            ),
        ],
        !reconnect_goes_on(m, tries) ==> begin_effects(m, tries).len() == 0,
{
    reveal_strlit("3");
    reveal_with_fuel(decimal_of, 2);
    assert(decimal_of(3) =~= "3"@);
}

/// A failed try of an awaited loop takes the tunnel down, and the last one tells the
/// frontend that it is down for good. Each goes to the log with its number.
pub proof fn law_the_failure_of_a_try(m: Manager, tries: Reconnect, detail: Seq<char>)
    ensures
        retry_effects(m, tries, detail).len() > 0,
        retry_effects(m, tries, detail)[0] == Effect::Log(
            "[reconnect] attempt "@ + decimal_of(tries.attempt as nat) + " failed: "@ + detail,
        ),
        m.reconnect_epoch != tries.epoch ==> retry_effects(m, tries, detail).len() == 1,
        (m.reconnect_epoch == tries.epoch && tries.attempt < 3) ==> retry_effects(
            m,
            tries,
            detail,
        ).skip(1) == m.reset_effects(None),
        (m.reconnect_epoch == tries.epoch && tries.attempt >= 3) ==> retry_effects(
            m,
            tries,
            detail,
        ).skip(1) == m.reset_effects(None).push(
            Effect::Emit(
                Event::Down(
                    "Connection lost and auto-reconnect failed after 3 attempts.\nClick Start to try again."@,
                ),
            ),
        ),
        tries_again(m, tries) <==> m.reconnect_epoch == tries.epoch && tries.attempt < 3,
        tries.has_next() <==> tries.attempt < 3,
        tries.has_next() ==> tries.next().attempt == tries.attempt + 1,
        tries.next().epoch == tries.epoch,
{
    let all = retry_effects(m, tries, detail);
    if m.reconnect_epoch == tries.epoch {
        if tries.attempt < 3 {
            assert(all.skip(1) =~= m.reset_effects(None));
        } else {
            assert(all.skip(1) =~= m.reset_effects(None).push(
                Effect::Emit(
                    Event::Down(
                        "Connection lost and auto-reconnect failed after 3 attempts.\nClick Start to try again."@,
                    ),
                ),
            ));
        }
    }
}

/// A failure takes the tunnel down if what has failed is awaited, and else nothing.
pub proof fn law_what_a_failure_takes_down(m: Manager, epoch: u64)
    ensures
        m.failed(Attempt::Start).state == VpnState::Stopped,
        m.failed(Attempt::Start).child is None,
        m.reconnect_epoch == epoch ==> m.failed(Attempt::Reconnect(epoch)).state
            == VpnState::Stopped && m.failed(Attempt::Reconnect(epoch)).child is None,
        m.reconnect_epoch != epoch ==> m.failed(Attempt::Reconnect(epoch)) == m,
        m.superseded().state == m.state,
        same_process(m.superseded(), m) && same_server(m.superseded(), m),
        follows(m.reconnect_epoch, m.superseded().reconnect_epoch),
{
}

/// What a failed start takes: the whole failure goes to the log and to the standard
/// error stream, the tunnel is taken down, and the user is told.
pub proof fn law_what_a_failed_start_takes(m: Manager, err: StartError)
    ensures
        ({
            let friendly = error_category(err).message_of();
            let line = "[error-classify] "@ + error_category(err).tag_of() + ": "@ + err.detail@;
            failure_effects(m, err) == seq![
                Effect::Log("[start] failed: "@ + err.detail@),
                Effect::Log(line),
                Effect::Stderr(line),
            ] + m.reset_effects(Some(friendly)) + seq![Effect::Emit(Event::Error(friendly))]
        }),
        admin_effects(m) == m.reset_effects(Some("Admin required — Run as administrator."@)).push(
            Effect::Emit(
                Event::Error("Admin required. Right-click the app → 'Run as administrator'."@),
            ),
        ),
{
    let friendly = error_category(err).message_of();
    let line = "[error-classify] "@ + error_category(err).tag_of() + ": "@ + err.detail@;
    assert(failure_effects(m, err) =~= seq![
        Effect::Log("[start] failed: "@ + err.detail@),
        Effect::Log(line),
        Effect::Stderr(line),
    ] + m.reset_effects(Some(friendly)) + seq![Effect::Emit(Event::Error(friendly))]);
}

/// The log tells what came of the job, with the process or with the reason.
pub proof fn law_what_the_log_tells_of_the_job(pid: u32, outcome: JobOutcome)
    ensures
        match outcome {
            JobOutcome::Assigned => job_line(pid, outcome) == "[job] assigned sing-box pid "@
                + decimal_of(pid as nat) + " to kill-on-close job"@,
            JobOutcome::AssignFailed(e) => job_line(pid, outcome)
                == "[job] assign failed (non-fatal): "@ + e@,
            JobOutcome::CreateFailed(e) => job_line(pid, outcome)
                == "[job] create failed (non-fatal): "@ + e@,
        },
{
}

// ── startup ────────────────────────────────────────────────────────

/// A launch brings the tunnel up, for a start and for a try of a reconnect loop
/// alike: the process is held and watched, the uptime counts from the launch, the
/// tunnel is believed to be up, and the frontend is told last that it is running.
pub proof fn law_a_launch_brings_the_tunnel_up(
    m: Manager,
    attempt: Attempt,
    clocks: Clocks,
    launch: Launch,
    next: Stage<Seq<char>>,
    action: StartAction,
)
    requires
        m.awaits(attempt),
        leads_to(
            m,
            attempt,
            Stage::Launching,
            StartEvent::Launched(Ok(launch)),
            next,
            action,
        ),
    ensures
        ({
            let event = StartEvent::Launched(Ok(launch));
            let after = manager_after(m, attempt, Stage::Launching, event);
            let c = clocks_after(m, attempt, clocks, Stage::Launching, event);
            let told = effects_of(m, attempt, Stage::Launching, event);
            &&& c.started_at == Some(launch.now) && c.is_running_cache
            &&& told.len() == 3
            &&& told[0] == Effect::Log("[start] state -> Running"@)
            &&& told[1] == Effect::Log(job_line(launch.pid, launch.outcome))
            &&& told[2] == Effect::Emit(Event::<Seq<char>>::State(VpnState::Running))
            &&& after.child == Some(launch.pid) && after.state == VpnState::Running
            &&& after.monitor && after.monitor_epoch != m.monitor_epoch
            &&& after.job == (m.job || launch.outcome is Assigned)
            &&& after.reconnect_epoch == m.reconnect_epoch && same_server(after, m)
            &&& next is Done
            &&& action matches StartAction::Watch { epoch, message } && epoch
                == after.monitor_epoch && message@ == "VPN mode started"@
        }),
{
}

/// No other step of a startup touches the clocks, tells anything, or changes the
/// manager but for the addresses of the server; and a superseded one does nothing at
/// all.
pub proof fn law_other_steps_keep_still(
    m: Manager,
    attempt: Attempt,
    clocks: Clocks,
    stage: Stage<Seq<char>>,
    event: StartEvent,
)
    requires
        !(event matches StartEvent::Launched(Ok(_)) && m.awaits(attempt)),
    ensures
        clocks_after(m, attempt, clocks, stage, event) == clocks,
        effects_of(m, attempt, stage, event).len() == 0,
        ({
            let after = manager_after(m, attempt, stage, event);
            &&& after.state == m.state && after.reconnect_epoch == m.reconnect_epoch
            &&& same_process(after, m) && after.config == m.config
            &&& !m.awaits(attempt) ==> after.dns_cache == m.dns_cache
            &&& !(event is Resolved) ==> after.dns_cache == m.dns_cache
        }),
{
}

/// Once the server's addresses are had, they are kept, and the configuration for them
/// is compared with the file; without them the startup fails, and why is told.
pub proof fn law_resolving_comes_to_a_configuration(
    m: Manager,
    attempt: Attempt,
    lookup: Lookup,
    next: Stage<Seq<char>>,
    action: StartAction,
)
    requires
        m.awaits(attempt),
        leads_to(m, attempt, Stage::Resolving, StartEvent::Resolved(lookup), next, action),
    ensures
        m.address_error(lookup) is None ==> {
            &&& next == Stage::Comparing(pretty_text(vpn_config(m.config, m.addresses(lookup))))
            &&& action is ReadConfig
            &&& manager_after(
                m,
                attempt,
                Stage::Resolving,
                StartEvent::Resolved(lookup),
            ).dns_cache == Some(m.addresses(lookup))
        },
        m.address_error(lookup) is Some ==> {
            &&& next is Failed
            &&& action matches StartAction::Fail(e) && e.message@
                == "VPN server hostname could not be resolved before startup"@ && e.detail@
                == "VPN server hostname could not be resolved before startup"@ + ": "@
                + m.address_error(lookup)->0
        },
{
}

/// The order of a startup: locate, resolve, compare, write where that is needed,
/// validate, launch. A failure of any of them is the failure of the startup, told as
/// it came.
pub proof fn law_the_order_of_a_startup(
    m: Manager,
    attempt: Attempt,
    stage: Stage<Seq<char>>,
    event: StartEvent,
    next: Stage<Seq<char>>,
    action: StartAction,
)
    requires
        m.awaits(attempt),
        leads_to(m, attempt, stage, event, next, action),
    ensures
        event matches StartEvent::Located(r) ==> match r {
            Ok(_) => next is Resolving && action is Resolve,
            Err(e) => next is Failed && action == StartAction::Fail(e),
        },
        event matches StartEvent::OnDisk(current) ==> if current is Some && current->0@
            == stage->Comparing_0 {
            next is Spawning && action is SpawnCheck
        } else {
            next is Writing && (action matches StartAction::WriteConfig(w) && w@
                == stage->Comparing_0)
        },
        event matches StartEvent::Written(r) ==> match r {
            Ok(_) => next is Spawning && action is SpawnCheck,
            Err(e) => next is Failed && action == StartAction::Fail(e),
        },
        event matches StartEvent::CheckSpawned(r) ==> match r {
            Ok(_) => next is Checking && action is PollCheck,
            Err(cause) => next is Failed && (action matches StartAction::Fail(e) && e.message@
                == "failed to run sing-box check"@ && e.detail@ == "failed to run sing-box check"@
                + ": "@ + cause@),
        },
        event matches StartEvent::CheckPrinted { stderr, stdout, path } ==> next is Failed && (
        action matches StartAction::Fail(e) && e.message@ == rejection(stderr@, stdout@, path@)
            && e.detail@ == e.message@),
        event matches StartEvent::Launched(Err(e)) ==> next is Failed && action
            == StartAction::Fail(e),
{
}

/// The validation run: one that ended well leads to the launch, one that ended badly
/// to a report; one that is still going is waited for until its deadline, and is
/// killed then.
pub proof fn law_the_validation_decides(
    m: Manager,
    attempt: Attempt,
    poll: CheckPoll,
    past_deadline: bool,
    next: Stage<Seq<char>>,
    action: StartAction,
)
    requires
        m.awaits(attempt),
        leads_to(
            m,
            attempt,
            Stage::Checking,
            StartEvent::CheckPolled { poll, past_deadline },
            next,
            action,
        ),
    ensures
        action is Launch <==> poll == (CheckPoll::Ended { success: true }),
        action is CollectOutput <==> poll == (CheckPoll::Ended { success: false }),
        action is PollCheck <==> poll is Alive && !past_deadline,
        action is KillCheckAndFail <==> poll is Alive && past_deadline,
        action is Fail <==> poll is Failed,
        action matches StartAction::KillCheckAndFail(e) ==> e.message@
            == "Configuration validation timed out.\nThe server profile could not be verified. Try ShadowTLS, or reconnect on a different network."@
            && e.detail@ == e.message@,
        action matches StartAction::Fail(e) ==> e.message@
            == "Configuration validation failed to run."@ && e.detail@ == e.message@,
        action is Launch ==> next is Launching,
        action is CollectOutput ==> next is Collecting,
        action is PollCheck ==> next is Checking,
{
}

/// What is done about a validation run: it is waited for only while it is going and
/// its deadline is ahead, and each other outcome has a step of its own.
pub proof fn law_each_outcome_of_the_validation_has_its_step(poll: CheckPoll, past_deadline: bool)
    ensures
        check_verdict(poll, past_deadline) == CheckStep::Wait <==> poll is Alive && !past_deadline,
        check_verdict(poll, past_deadline) == CheckStep::TimedOut <==> poll is Alive
            && past_deadline,
        check_verdict(poll, past_deadline) == CheckStep::Lost <==> poll is Failed,
        check_verdict(poll, past_deadline) == CheckStep::Passed <==> poll == (CheckPoll::Ended {
            success: true,
        }),
        check_verdict(poll, past_deadline) == CheckStep::Rejected <==> poll == (CheckPoll::Ended {
            success: false,
        }),
{
}

/// Only a mutex that was had, and was there before, tells of another instance.
pub proof fn law_another_instance_is_told_by_the_mutex(created: bool, last_error: u32)
    ensures
        instance_verdict(created, last_error) == InstanceCheck::AlreadyRunning <==> created
            && last_error == 183,
        instance_verdict(created, last_error) == InstanceCheck::Unknown <==> !created,
{
}

/// A line of the log holds the time and the message, and ends the line.
pub proof fn law_a_log_line_holds_time_and_message(secs: nat, msg: Seq<char>)
    ensures
        log_text(secs, msg) == "["@ + decimal_of(secs) + "] "@ + msg + "\n"@,
{
}

// ── events ─────────────────────────────────────────────────────────

/// What the frontend hears of: errors on their own channel, all else as a state, with
/// the message where there is one.
pub proof fn law_what_the_frontend_hears(e: Event<Seq<char>>)
    ensures
        channel_of(e) == (if e is Error {
            "vpn-error"@
        } else {
            "vpn-state"@
        }),
        match e {
            Event::State(VpnState::Stopped) => payload_of(e).member("state"@) == Json::Str(
                "stopped"@,
            ),
            Event::State(VpnState::Starting) => payload_of(e).member("state"@) == Json::Str(
                "starting"@,
            ),
            Event::State(VpnState::Running) => payload_of(e).member("state"@) == Json::Str(
                "running"@,
            ),
            Event::State(VpnState::Stopping) => payload_of(e).member("state"@) == Json::Str(
                "stopping"@,
            ),
            Event::Reconnecting(m) => payload_of(e).member("state"@) == Json::Str("reconnecting"@)
                && payload_of(e).member("message"@) == Json::Str(m),
            Event::Down(m) => payload_of(e).member("state"@) == Json::Str("stopped"@) && payload_of(
                e,
            ).member("message"@) == Json::Str(m),
            Event::Error(m) => payload_of(e).member("message"@) == Json::Str(m),
        },
        e is State ==> payload_of(e).member("message"@) == Json::Null,
        e is Error ==> payload_of(e).member("state"@) == Json::Null,
{
    reveal_strlit("state");
    reveal_strlit("message");
    assert("state"@.len() == 5 && "message"@.len() == 7);
}

}
