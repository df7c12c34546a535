//! What holds of the library as a whole.
use crate::classify::{error_category, StartError};
use crate::dns::{lookup_addresses, Lookup};
use crate::events::{channel_of, Effect, Event, VpnState};
use crate::json::{text_items, Json};
use crate::launch::{
    clocks_after, effects_of, expects, leads_to, manager_after, process_of, Launch, Stage,
    StartAction, StartEvent,
};
use crate::manager::{
    busy_message, failure_effects, reconnect_goes_on, retry_effects, start_effects, wait_effects,
    Attempt, ChildPoll, Clocks, JobOutcome, Manager, Reconnect, RECONNECT_TRIES,
};
use crate::settings::{ending_of, profile_list, protocol_of, server_of};
use crate::startup::{gives_up, CheckPoll, ReapPoll};
use crate::vpn_config::{
    app_rules, bypass_cidrs, clash_tree, domain_rules, final_outbound, js, outbound_list,
    route_final, route_rules, split_rules, vpn_config, Config, CLASH_API_ADDRESS, CLASH_API_BASE,
    CLASH_API_SECRET,
};
use vstd::prelude::*;

verus! {

// ── lifecycle ──────────────────────────────────────────────────────

/// Only a running tunnel has a process, whatever is asked for or happens.
pub proof fn law_only_a_running_tunnel_has_a_process(
    m: Manager,
    config: Config,
    epoch: u64,
    poll: ChildPoll,
    pid: u32,
    outcome: JobOutcome,
    attempt: Attempt,
)
    ensures
        Manager::initial(config).wf(),
        m.wf() ==> m.started().wf(),
        m.wf() ==> m.prepared(config).wf(),
        m.process_up(pid).wf(),
        m.wf() ==> m.unmonitored().wf(),
        m.wf() ==> m.monitored().wf(),
        m.reset().wf(),
        m.wf() ==> m.polled(poll).wf(),
        m.wf() ==> m.attached(outcome).wf(),
        m.wf() ==> m.stopping().wf(),
        m.finished().wf(),
        m.wf() ==> m.unattended().wf(),
        m.wf() ==> m.superseded().wf(),
        m.wf() ==> m.watched(epoch, poll).wf(),
        m.wf() ==> m.failed(attempt).wf(),
{
}

/// A startup keeps it so that only a running tunnel has a process.
pub proof fn law_startup_keeps_a_process_to_a_running_tunnel(
    m: Manager,
    attempt: Attempt,
    stage: Stage<Seq<char>>,
    event: StartEvent,
)
    requires
        m.wf(),
    ensures
        manager_after(m, attempt, stage, event).wf(),
{
}

/// While a start is under way, or the tunnel is up or on its way down, another
/// start changes nothing but the reconnect token, and is refused with a message.
/// Reading the status in between does not change that, unless it finds a tunnel
/// that was up to be down.
pub proof fn law_second_start_is_refused(m: Manager, poll: ChildPoll)
    ensures
        m.started().state != VpnState::Stopped,
        m.started().started() == m.started().superseded(),
        start_effects(m.started().state).last() == Effect::Emit(
            Event::Error(busy_message(m.started().state)),
        ),
        (m.wf() && !m.started().stale(poll)) ==> {
            &&& m.started().polled(poll) == m.started()
            &&& m.started().polled(poll).state != VpnState::Stopped
            &&& m.started().polled(poll).started() == m.started().polled(poll).superseded()
        },
        m.state != VpnState::Running ==> !m.started().stale(poll),
{
}

/// A start that is under way is in the state `Starting` until its process is up:
/// neither its own steps nor readings of the status change that.
pub proof fn law_a_start_stays_under_way(
    m: Manager,
    stage: Stage<Seq<char>>,
    event: StartEvent,
    poll: ChildPoll,
)
    requires
        m.wf(),
        m.state == VpnState::Starting,
        !(event is Launched),
    ensures
        m.polled(poll) == m,
        m.poll_effects(poll).len() == 0,
        manager_after(m, Attempt::Start, stage, event).state == VpnState::Starting,
{
}

/// Stopping what is stopped changes nothing but the reconnect token, so that it
/// can be done any number of times.
pub proof fn law_stopping_what_is_stopped_is_harmless(m: Manager)
    requires
        m.state == VpnState::Stopped,
    ensures
        m.stopping() == m.superseded(),
        m.stopping().stopping().state == VpnState::Stopped,
{
}

/// A stop takes the process from the manager, to be killed by its caller, and
/// retires the monitor.
pub proof fn law_a_stop_takes_the_process(m: Manager)
    requires
        m.wf(),
    ensures
        m.stopping().child is None,
        m.state != VpnState::Stopped ==> !m.stopping().monitor,
        m.state != VpnState::Stopped ==> m.stopping().state == VpnState::Stopping,
        m.stopping().finished().state == VpnState::Stopped,
        m.stopping().finished().child is None,
{
}

/// A stop ends in a bounded time, and leaves no orphan as far as that can be seen
/// to: once it waits no longer, it has seen the process end, or it has closed the
/// kill-on-close job.
pub proof fn law_a_stop_sees_the_end_or_closes_the_job(
    m: Manager,
    poll: ReapPoll,
    past_deadline: bool,
)
    ensures
        gives_up(poll, past_deadline) ==> !m.waited(poll, past_deadline).job && wait_effects(
            poll,
            past_deadline,
        ).last() == Effect::<Seq<char>>::CloseJob,
        past_deadline ==> poll is Ended || gives_up(poll, past_deadline),
        !(poll is Alive && !past_deadline) ==> poll is Ended || gives_up(poll, past_deadline),
        !gives_up(poll, past_deadline) ==> m.waited(poll, past_deadline) == m,
{
}

/// Any failure of a start leads back to a stopped tunnel without process, job or
/// monitor; a process that was there is killed, the user is told why, and the
/// tunnel can be started again.
pub proof fn law_failure_leads_back_to_stopped(m: Manager, err: StartError)
    ensures
        m.failed(Attempt::Start) == m.reset(),
        m.reset().state == VpnState::Stopped,
        m.reset().child is None && !m.reset().job && !m.reset().monitor,
        m.child is Some ==> failure_effects(m, err).contains(Effect::KillChild),
        failure_effects(m, err).contains(Effect::CloseJob),
        failure_effects(m, err).contains(Effect::Emit(Event::State(VpnState::Stopped))),
        failure_effects(m, err).last() == Effect::Emit(
            Event::Error(error_category(err).message_of()),
        ),
        m.reset().started().state == VpnState::Starting,
{
    let all = failure_effects(m, err);
    let reset = m.reset_effects(Some(error_category(err).message_of()));
    let n = reset.len() as int;
    assert(all.len() == n + 4);
    assert(all[n + 2] == reset[n - 1]);
    assert(all[n + 1] == reset[n - 2]);
    if m.child is Some {
        assert(all[4] == reset[1]);
    }
}

/// The outcome of a start is told to the frontend: that the tunnel is running
/// once it is up, and an error where the startup fails.
pub proof fn law_the_outcome_is_told(m: Manager, launch: Launch, err: StartError)
    ensures
        effects_of(
            m,
            Attempt::Start,
            Stage::Launching,
            StartEvent::Launched(Ok(launch)),
        ).last() == Effect::Emit(Event::<Seq<char>>::State(VpnState::Running)),
        manager_after(
            m,
            Attempt::Start,
            Stage::Launching,
            StartEvent::Launched(Ok(launch)),
        ).state == VpnState::Running,
        channel_of(Event::State(VpnState::Running)) == "vpn-state"@,
        failure_effects(m, err).last() == Effect::Emit(
            Event::Error(error_category(err).message_of()),
        ),
        channel_of(Event::Error(error_category(err).message_of())) == "vpn-error"@,
{
}

/// Reading the status of the process tells the truth of it: a process that is
/// there and alive leaves everything as it is, and without one the manager holds
/// none and the tunnel is not said to be up. A tunnel that is not up is left in
/// its state.
pub proof fn law_a_poll_reflects_reality(m: Manager, poll: ChildPoll)
    requires
        m.wf(),
    ensures
        m.alive(poll) ==> m.polled(poll) == m,
        !m.alive(poll) ==> m.polled(poll).state != VpnState::Running && m.polled(poll).child is None,
        m.stale(poll) ==> m.polled(poll).state == VpnState::Stopped,
        m.state != VpnState::Running ==> m.polled(poll) == m,
        m.polled(poll).polled(poll) == m.polled(poll),
{
}

// ── monitors ───────────────────────────────────────────────────────

/// A monitor whose token is not the active one touches nothing.
pub proof fn law_stale_monitor_is_inert(m: Manager, epoch: u64, poll: ChildPoll)
    requires
        epoch != m.monitor_epoch,
    ensures
        m.watched(epoch, poll) == m,
        !m.dropped(epoch, poll),
{
}

/// Whatever retires a monitor makes its token stale.
pub proof fn law_a_retired_monitor_is_stale(m: Manager)
    ensures
        m.unmonitored().monitor_epoch != m.monitor_epoch,
        m.monitored().monitor_epoch != m.monitor_epoch,
        m.monitored().monitor_epoch != m.unmonitored().monitor_epoch,
        m.reset().monitor_epoch != m.monitor_epoch,
        m.state != VpnState::Stopped ==> m.stopping().monitor_epoch != m.monitor_epoch,
{
}

/// An unexpected exit of a running tunnel is seen by its monitor: the tunnel is
/// stopped, without a process, and a reconnect loop that gets the new token is
/// free to go on.
pub proof fn law_a_drop_is_noticed(m: Manager, poll: ChildPoll)
    requires
        m.state == VpnState::Running,
        m.child is Some,
        poll != ChildPoll::Alive,
    ensures
        m.dropped(m.monitor_epoch, poll),
        m.watched(m.monitor_epoch, poll).state == VpnState::Stopped,
        m.watched(m.monitor_epoch, poll).child is None,
        reconnect_goes_on(
            m.watched(m.monitor_epoch, poll),
            Reconnect { epoch: m.watched(m.monitor_epoch, poll).reconnect_epoch, attempt: 1 },
        ),
{
}

/// An exit that was asked for is no drop.
pub proof fn law_an_intended_exit_is_no_drop(m: Manager, poll: ChildPoll)
    requires
        m.state != VpnState::Running,
    ensures
        !m.dropped(m.monitor_epoch, poll),
        m.watched(m.monitor_epoch, poll).reconnect_epoch == m.reconnect_epoch,
        m.watched(m.monitor_epoch, poll).state == m.state,
{
}

// ── reconnecting ───────────────────────────────────────────────────

/// The reconnect loop can no longer do anything to the manager, nor be heard of: it
/// makes no try, and a try that is under way is abandoned at its next event and
/// its failure goes to the log alone.
pub open spec fn is_powerless(m: Manager, tries: Reconnect) -> bool {
    let attempt = Attempt::Reconnect(tries.epoch);
    &&& !reconnect_goes_on(m, tries)
    &&& forall|stage: Stage<Seq<char>>, event: StartEvent| #[trigger]
        manager_after(m, attempt, stage, event) == m
    &&& forall|stage: Stage<Seq<char>>, event: StartEvent| #[trigger]
        effects_of(m, attempt, stage, event) == Seq::<Effect<Seq<char>>>::empty()
    &&& forall|c: Clocks, stage: Stage<Seq<char>>, event: StartEvent| #[trigger]
        clocks_after(m, attempt, c, stage, event) == c
    &&& forall|
        stage: Stage<Seq<char>>,
        event: StartEvent,
        next: Stage<Seq<char>>,
        action: StartAction,
    | #[trigger]
        leads_to(m, attempt, stage, event, next, action) ==> next is Abandoned && action
            == StartAction::Abandon(process_of(event))
    &&& m.failed(attempt) == m
    &&& forall|detail: Seq<char>|
        (#[trigger] retry_effects(m, tries, detail)).len() == 1 && retry_effects(
            m,
            tries,
            detail,
        )[0] is Log
}

/// A manual start or stop wins over a reconnect loop, in whatever state the tunnel
/// was: from then on the loop makes no try, and one that is under way neither
/// brings the tunnel up nor takes it down.
pub proof fn law_manual_requests_win_over_reconnecting(m: Manager, tries: Reconnect)
    requires
        tries.epoch == m.reconnect_epoch,
    ensures
        is_powerless(m.started(), tries),
        is_powerless(m.stopping(), tries),
        is_powerless(m.stopping().finished(), tries),
        is_powerless(m.stopping().reset(), tries),
{
}

/// What a manual start comes to does not depend on a reconnect loop that it
/// superseded: the loop stays powerless while the start goes through.
pub proof fn law_a_superseded_loop_stays_powerless(
    m: Manager,
    tries: Reconnect,
    stage: Stage<Seq<char>>,
    event: StartEvent,
    poll: ChildPoll,
)
    requires
        tries.epoch != m.reconnect_epoch,
    ensures
        is_powerless(m, tries),
        is_powerless(manager_after(m, Attempt::Start, stage, event), tries),
        is_powerless(m.failed(Attempt::Start), tries),
        is_powerless(m.polled(poll), tries),
{
}

/// A new reconnect loop supersedes an earlier one.
pub proof fn law_a_new_loop_supersedes_an_earlier_one(m: Manager, poll: ChildPoll, tries: Reconnect)
    requires
        tries.epoch == m.reconnect_epoch,
        m.dropped(m.monitor_epoch, poll),
    ensures
        is_powerless(m.watched(m.monitor_epoch, poll), tries),
{
}

/// A failed try by itself does not supersede its loop.
pub proof fn law_a_failed_try_keeps_the_loop(m: Manager, tries: Reconnect)
    requires
        tries.epoch == m.reconnect_epoch,
    ensures
        m.failed(Attempt::Reconnect(tries.epoch)) == m.reset(),
        reconnect_goes_on(m.reset(), tries),
{
}

/// A reconnect loop after `failures` failed tries; `None` where it has ended.
pub open spec fn loop_after(epoch: u64, failures: nat) -> Option<Reconnect>
    decreases failures,
{
    if failures == 0 {
        Some(Reconnect::first(epoch))
    } else {
        match loop_after(epoch, (failures - 1) as nat) {
            Some(t) => if t.has_next() {
                Some(t.next())
            } else {
                None
            },
            None => None,
        }
    }
}

/// A reconnect loop makes exactly as many tries as it is allowed, numbered from
/// 1, and then ends.
pub proof fn law_tries_are_counted(epoch: u64, failures: nat)
    ensures
        failures < RECONNECT_TRIES ==> loop_after(epoch, failures) == Some(
            Reconnect { epoch, attempt: (failures + 1) as u32 },
        ),
        failures >= RECONNECT_TRIES ==> loop_after(epoch, failures) is None,
    decreases failures,
{
    if failures > 0 {
        law_tries_are_counted(epoch, (failures - 1) as nat);
    }
}

// ── startup ────────────────────────────────────────────────────────

/// sing-box is launched only once a validation run of its configuration has
/// ended well.
pub proof fn law_validated_before_launch(
    m: Manager,
    attempt: Attempt,
    stage: Stage<Seq<char>>,
    event: StartEvent,
    next: Stage<Seq<char>>,
    action: StartAction,
)
    requires
        leads_to(m, attempt, stage, event, next, action),
        action is Launch || next is Launching,
    ensures
        stage is Checking,
        event matches StartEvent::CheckPolled { poll, .. } && poll == (CheckPoll::Ended {
            success: true,
        }),
{
}

/// A process comes up only by a launch, and the tunnel is `Running` from then on.
pub proof fn law_only_a_launch_brings_a_process(
    m: Manager,
    attempt: Attempt,
    stage: Stage<Seq<char>>,
    event: StartEvent,
)
    requires
        expects(stage, event),
        manager_after(m, attempt, stage, event).child != m.child || manager_after(
            m,
            attempt,
            stage,
            event,
        ).state != m.state,
    ensures
        m.awaits(attempt),
        stage is Launching,
        event matches StartEvent::Launched(Ok(l)) && manager_after(m, attempt, stage, event)
            == m.process_up(l.pid).attached(l.outcome).monitored(),
{
}

/// A startup that fails leaves the manager without a process of its own making.
pub proof fn law_a_failed_startup_made_no_process(
    m: Manager,
    attempt: Attempt,
    stage: Stage<Seq<char>>,
    event: StartEvent,
    next: Stage<Seq<char>>,
    action: StartAction,
)
    requires
        leads_to(m, attempt, stage, event, next, action),
        next is Failed || next is Abandoned,
    ensures
        next is Failed ==> action is Fail || action is KillCheckAndFail,
        next is Abandoned ==> action == StartAction::Abandon(process_of(event)),
        manager_after(m, attempt, stage, event).child == m.child,
        manager_after(m, attempt, stage, event).state == m.state,
{
}

/// A validation run that hangs is given up at its deadline.
pub proof fn law_validation_is_bounded(
    m: Manager,
    attempt: Attempt,
    poll: CheckPoll,
    next: Stage<Seq<char>>,
    action: StartAction,
)
    requires
        leads_to(
            m,
            attempt,
            Stage::Checking,
            StartEvent::CheckPolled { poll, past_deadline: true },
            next,
            action,
        ),
    ensures
        !(next is Checking),
        (m.awaits(attempt) && poll == CheckPoll::Alive) ==> next is Failed
            && action is KillCheckAndFail,
{
}

/// A configuration file that already holds the text is not written again.
pub proof fn law_an_unchanged_configuration_is_not_written(
    m: Manager,
    attempt: Attempt,
    config: Seq<char>,
    on_disk: String,
    next: Stage<Seq<char>>,
    action: StartAction,
)
    requires
        on_disk@ == config,
        leads_to(
            m,
            attempt,
            Stage::Comparing(config),
            StartEvent::OnDisk(Some(on_disk)),
            next,
            action,
        ),
    ensures
        !(action is WriteConfig),
        m.awaits(attempt) ==> next is Spawning && action is SpawnCheck,
{
}

/// A host name that does not resolve fails the startup: no configuration is
/// made, with a placeholder or otherwise.
pub proof fn law_unresolved_server_fails_the_startup(
    m: Manager,
    attempt: Attempt,
    lookup: Lookup,
    next: Stage<Seq<char>>,
    action: StartAction,
)
    requires
        m.awaits(attempt),
        m.address_error(lookup) is Some,
        leads_to(m, attempt, Stage::Resolving, StartEvent::Resolved(lookup), next, action),
    ensures
        next is Failed,
        action is Fail,
        manager_after(m, attempt, Stage::Resolving, StartEvent::Resolved(lookup)) == m,
{
}

/// An attempt to bring the tunnel up uses no address of an earlier one.
pub proof fn law_no_address_is_reused(m: Manager, config: Config, lookup: Lookup)
    ensures
        m.prepared(config).addresses(lookup) == lookup_addresses(lookup),
        m.prepared(config).config == config,
{
}

// ── configuration ──────────────────────────────────────────────────

/// The secret and the address that sing-box serves its statistics under are
/// those that the statistics are asked for with.
pub proof fn law_statistics_are_asked_for_where_they_are_served(c: Config, ips: Seq<Seq<char>>)
    ensures
        vpn_config(c, ips).member("experimental"@).member("clash_api"@).member("secret"@) == js(
            CLASH_API_SECRET@,
        ),
        vpn_config(c, ips).member("experimental"@).member("clash_api"@).member(
            "external_controller"@,
        ) == js(CLASH_API_ADDRESS@),
        CLASH_API_BASE@ == "http://"@ + CLASH_API_ADDRESS@,
{
    reveal_keys();
    reveal_strlit("http://");
    reveal_strlit("127.0.0.1:9097");
    reveal_strlit("http://127.0.0.1:9097");
    assert(CLASH_API_BASE@ =~= "http://"@ + CLASH_API_ADDRESS@);
    assert(vpn_config(c, ips).member("experimental"@).member("clash_api"@) == clash_tree());
}

/// The keys of the configuration's upper levels are all different.
proof fn reveal_keys()
    ensures
        "experimental"@ != "dns"@,
        "experimental"@ != "inbounds"@,
        "experimental"@ != "outbounds"@,
        "experimental"@ != "route"@,
        "outbounds"@ != "route"@,
        "secret"@ != "default_mode"@,
        "external_controller"@ != "secret"@,
        "external_controller"@ != "default_mode"@,
        "rules"@ != "final"@,
        "rules"@ != "auto_detect_interface"@,
        "rules"@ != "default_domain_resolver"@,
        "rules"@ != "find_process"@,
        "final"@ != "auto_detect_interface"@,
        "final"@ != "default_domain_resolver"@,
        "final"@ != "find_process"@,
        "tag"@ != "server"@,
        "domain_suffix"@ != "outbound"@,
        "process_name"@ != "outbound"@,
        "ip_cidr"@ != "outbound"@,
{
    reveal_strlit("experimental");
    reveal_strlit("dns");
    reveal_strlit("inbounds");
    reveal_strlit("outbounds");
    reveal_strlit("route");
    reveal_strlit("secret");
    reveal_strlit("default_mode");
    reveal_strlit("external_controller");
    reveal_strlit("rules");
    reveal_strlit("final");
    reveal_strlit("auto_detect_interface");
    reveal_strlit("default_domain_resolver");
    reveal_strlit("find_process");
    reveal_strlit("tag");
    reveal_strlit("server");
    reveal_strlit("domain_suffix");
    reveal_strlit("process_name");
    reveal_strlit("ip_cidr");
    reveal_strlit("outbound");
    assert("rules"@[0] == 'r' && "final"@[0] == 'f');
    assert("dns"@.len() == 3);
    assert("inbounds"@.len() == 8);
    assert("outbounds"@.len() == 9);
    assert("route"@.len() == 5);
    assert("secret"@.len() == 6);
    assert("default_mode"@.len() == 12);
    assert("external_controller"@.len() == 19);
    assert("rules"@.len() == 5);
    assert("final"@.len() == 5);
    assert("auto_detect_interface"@.len() == 21);
    assert("default_domain_resolver"@.len() == 23);
    assert("find_process"@.len() == 12);
    assert("tag"@.len() == 3);
    assert("server"@.len() == 6);
    assert("domain_suffix"@.len() == 13);
    assert("process_name"@.len() == 12);
    assert("ip_cidr"@.len() == 7);
    assert("outbound"@.len() == 8);
    assert("experimental"@.len() == 12);
}

/// Full mode sends everything through the VPN that no general rule keeps out of
/// it; the split mode sends nothing through it but what is listed.
pub proof fn law_split_mode_decides_what_is_tunnelled(c: Config, ips: Seq<Seq<char>>)
    ensures
        vpn_config(c, ips).member("route"@).member("final"@) == js(route_final(c)),
        vpn_config(c, ips).member("route"@).member("rules"@) == Json::Arr(route_rules(c, ips)),
        !c.is_wow() ==> route_final(c) == final_outbound(c) && route_rules(c, ips).len() == 5,
        c.is_wow() ==> route_final(c) == "direct"@,
        forall|k: int|
            0 <= k < split_rules(c).len() ==> (#[trigger] split_rules(c)[k]).member("outbound"@)
                == js(final_outbound(c)),
        forall|k: int|
            0 <= k < split_rules(c).len() ==> #[trigger] route_rules(c, ips)[3 + k] == split_rules(
                c,
            )[k],
{
    reveal_keys();
    assert forall|k: int| 0 <= k < split_rules(c).len() implies (
    #[trigger] split_rules(c)[k]).member("outbound"@) == js(final_outbound(c)) by {
        let apps = app_rules(c);
        let domains = domain_rules(c);
        if k < apps.len() {
            let j = apps.len() - 1 - k;
            assert(split_rules(c)[k] == apps[j]);
            assert(apps[j].member("outbound"@) == js(final_outbound(c)));
        } else {
            let j = domains.len() - 1 - (k - apps.len());
            assert(split_rules(c)[k] == domains[j]);
        }
    }
}

/// The host name is what the outbounds dial, whatever it resolved to, and traffic
/// to the resolved addresses bypasses the tunnel.
pub proof fn law_the_server_is_dialled_by_name_and_bypassed(
    c: Config,
    ips: Seq<Seq<char>>,
    k: int,
)
    requires
        0 <= k < outbound_list(c, c.server_address@).len() - 1,
    ensures
        vpn_config(c, ips).member("outbounds"@) == Json::Arr(
            outbound_list(c, c.server_address@),
        ),
        outbound_list(c, c.server_address@)[k].member("server"@) == js(c.server_address@),
        route_rules(c, ips)[2].member("outbound"@) == js("direct"@),
        route_rules(c, ips)[2].member("ip_cidr"@) == Json::Arr(text_items(bypass_cidrs(ips))),
        forall|i: int|
            0 <= i < ips.len() ==> #[trigger] bypass_cidrs(ips)[i] == ips[i] + "/32"@,
{
    reveal_keys();
    if k == 0 {
    } else {
        assert(k == 1);
    }
}

/// The resolved addresses occur in the bypass rule alone: the rest of the
/// configuration does not depend on them.
pub proof fn law_addresses_serve_the_bypass_alone(
    c: Config,
    a: Seq<Seq<char>>,
    b: Seq<Seq<char>>,
    key: Seq<char>,
    k: int,
)
    ensures
        key != "route"@ ==> vpn_config(c, a).member(key) == vpn_config(c, b).member(key),
        key != "rules"@ ==> vpn_config(c, a).member("route"@).member(key) == vpn_config(
            c,
            b,
        ).member("route"@).member(key),
        route_rules(c, a).len() == route_rules(c, b).len(),
        (0 <= k < route_rules(c, a).len() && k != 2) ==> route_rules(c, a)[k] == route_rules(
            c,
            b,
        )[k],
{
    reveal_keys();
}

/// The outbound that unnamed traffic takes, and the one that names are looked up
/// through, are among the outbounds.
pub proof fn law_routes_lead_to_outbounds_that_are_there(c: Config, server: Seq<char>)
    ensures
        outbound_list(c, server)[0].member("tag"@) == js(final_outbound(c)),
        outbound_list(c, server).last().member("tag"@) == js("direct"@),
        !c.is_h2() ==> outbound_list(c, server)[1].member("tag"@) == js("shadowtls-out"@),
        route_final(c) == final_outbound(c) || route_final(c) == "direct"@,
{
    reveal_keys();
}

// ── settings ───────────────────────────────────────────────────────

/// A profile names the server and the protocol that it was put together from.
pub proof fn law_a_profile_names_server_and_protocol(server: Seq<char>, mode: Seq<char>)
    requires
        ending_of(mode) is Some,
    ensures
        server_of(server + ending_of(mode)->0) == server,
        protocol_of(server + ending_of(mode)->0) == mode,
{
    reveal_strlit("-h2");
    reveal_strlit("-stls");
    let ending = ending_of(mode)->0;
    let profile = server + ending;
    assert(profile.skip(profile.len() - ending.len()) =~= ending);
    assert(profile.take(profile.len() - ending.len()) =~= server);
    if mode == "shadowtls"@ {
        assert(profile.skip(profile.len() - 3)[2] == 's');
        assert("-h2"@[2] == '2');
    }
}

/// A change of protocol leads from a selectable profile to a selectable one.
pub proof fn law_mode_change_stays_selectable(k: int, mode: Seq<char>)
    requires
        0 <= k < profile_list().len(),
        ending_of(mode) is Some,
    ensures
        profile_list().contains(server_of(profile_list()[k]) + ending_of(mode)->0),
{
    reveal_strlit("-h2");
    reveal_strlit("-stls");
    reveal_strlit("netherlands-1");
    reveal_strlit("germany-3");
    reveal_strlit("finland-1");
    reveal_strlit("netherlands-1-h2");
    reveal_strlit("netherlands-1-stls");
    reveal_strlit("germany-3-h2");
    reveal_strlit("germany-3-stls");
    reveal_strlit("finland-1-h2");
    reveal_strlit("finland-1-stls");
    let all = profile_list();
    assert(all[0] =~= "netherlands-1"@ + "-h2"@ && all[1] =~= "netherlands-1"@ + "-stls"@);
    assert(all[2] =~= "germany-3"@ + "-h2"@ && all[3] =~= "germany-3"@ + "-stls"@);
    assert(all[4] =~= "finland-1"@ + "-h2"@ && all[5] =~= "finland-1"@ + "-stls"@);
    let server = if k < 2 {
        "netherlands-1"@
    } else if k < 4 {
        "germany-3"@
    } else {
        "finland-1"@
    };
    let old_mode = if k % 2 == 0 {
        "hysteria2"@
    } else {
        "shadowtls"@
    };
    lemma_protocols_differ();
    law_a_profile_names_server_and_protocol(server, old_mode);
    let first = k - k % 2;
    assert(all[first] == server + "-h2"@);
    assert(all[first + 1] == server + "-stls"@);
    assert(all[k] == server + ending_of(old_mode)->0);
    if mode == "hysteria2"@ {
        assert(all[first] == server + ending_of(mode)->0);
    } else {
        assert(all[first + 1] == server + ending_of(mode)->0);
    }
}

/// The two protocols are told apart by their names.
proof fn lemma_protocols_differ()
    ensures
        "shadowtls"@ != "hysteria2"@,
{
    reveal_strlit("shadowtls");
    reveal_strlit("hysteria2");
    assert("shadowtls"@[0] == 's' && "hysteria2"@[0] == 'h');
}

}
