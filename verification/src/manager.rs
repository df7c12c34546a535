//! The lifecycle of the tunnel: what each request, poll and failure does to
//! the shared state, and what is to be done about it outside.
//!
//! The program around this module owns the sing-box process, its threads and
//! its clock. It reports what it sees and performs the effects that it is
//! handed, in order.
use crate::classify;
use crate::classify::{category_of, classify_effects, error_category, StartError};
use crate::dns;
use crate::dns::{lookup_addresses, lookup_error, Lookup};
use crate::events::{note, Effect, Event, VpnState};
use crate::json::json_of;
use crate::startup;
use crate::startup::{gives_up, reap_effects, wait_over, ReapPoll};
use crate::text;
use crate::text::decimal_of;
use crate::vpn_config;
use crate::vpn_config::{vpn_config, Config};
use vstd::prelude::*;
use vstd::string::*;
use vstd::utf8::is_ascii_chars;

verus! {

/// Auto-reconnect makes this many tries after an unexpected drop.
pub const RECONNECT_TRIES: u32 = 3;

/// Seconds between two tries.
pub const RECONNECT_GAP: u64 = 5;

/// What a failed lookup is reported under.
pub const RESOLVE_CONTEXT: &'static str = "VPN server hostname could not be resolved before startup";

/// What the operating system says of the sing-box process.
#[derive(Debug, Clone, Copy, PartialEq, Eq, Structural)]
pub enum ChildPoll {
    /// It has not exited.
    Alive,
    /// It has exited.
    Exited,
    /// Its status could not be read.
    Failed,
}

/// When the tunnel came up, and whether it is believed to be up. Times are in
/// nanoseconds, from an origin of the program's choice.
#[derive(Debug, Clone, Copy, PartialEq, Eq, Structural)]
pub struct Clocks {
    pub started_at: Option<u64>,
    pub is_running_cache: bool,
}

/// An attempt to bring the tunnel up.
#[derive(Debug, Clone, Copy, PartialEq, Eq, Structural)]
pub enum Attempt {
    /// Asked for by the user. Nothing supersedes it.
    Start,
    /// A try of the reconnect loop with this token.
    Reconnect(u64),
}

/// The state of the tunnel's manager.
#[verifier::ext_equal]
pub struct Manager {
    /// Authoritative lifecycle state.
    pub state: VpnState,
    /// The process id of the live sing-box, if any.
    pub child: Option<u32>,
    /// A monitor watches the process.
    pub monitor: bool,
    /// Token of the active monitor; another token means that it is retired.
    pub monitor_epoch: u64,
    /// Token of the active reconnect loop; another token means that it is
    /// superseded.
    pub reconnect_epoch: u64,
    /// The process is assigned to a kill-on-close job.
    pub job: bool,
    pub config: Config,
    /// The resolved addresses of the server.
    pub dns_cache: Option<Seq<Seq<char>>>,
}

/// The next token.
pub open spec fn bumped(epoch: u64) -> u64 {
    if epoch == u64::MAX {
        0
    } else {
        (epoch + 1) as u64
    }
}

fn bump(epoch: u64) -> (r: u64)
    ensures
        r == bumped(epoch),
{
    if epoch == u64::MAX {
        0
    } else {
        epoch + 1
    }
}

/// Why a start is refused in a state other than `Stopped`.
pub open spec fn busy_message(state: VpnState) -> Seq<char> {
    match state {
        VpnState::Starting => "VPN is already starting."@,
        VpnState::Running => "VPN is already running."@,
        _ => "VPN is stopping, please wait."@,
    }
}

impl Manager {
    /// A manager of a tunnel that was never started.
    pub open spec fn initial(config: Config) -> Manager {
        Manager {
            state: VpnState::Stopped,
            child: None,
            monitor: false,
            monitor_epoch: 0,
            reconnect_epoch: 0,
            job: false,
            config,
            dns_cache: None,
        }
    }

    /// Only a running tunnel has a process.
    pub open spec fn wf(self) -> bool {
        self.child is Some ==> self.state == VpnState::Running
    }

    /// After a request to start.
    pub open spec fn started(self) -> Manager {
        Manager {
            reconnect_epoch: bumped(self.reconnect_epoch),
            state: if self.state == VpnState::Stopped {
                VpnState::Starting
            } else {
                self.state
            },
            ..self
        }
    }

    /// A request to start has the startup work done.
    pub open spec fn startable(self) -> bool {
        self.state == VpnState::Stopped
    }

    /// What a request to stop asks of its caller.
    pub open spec fn stop_plan(self) -> StopPlan {
        if self.state == VpnState::Stopped {
            StopPlan::AlreadyStopped
        } else {
            StopPlan::Terminate { was_running: self.child is Some }
        }
    }

    /// Once an attempt was got ready for, unless it is superseded.
    pub open spec fn prepared_for(self, attempt: Attempt, config: Config) -> Manager {
        if self.awaits(attempt) {
            self.prepared(config)
        } else {
            self
        }
    }

    /// The attempt is not superseded.
    pub open spec fn awaits(self, attempt: Attempt) -> bool {
        match attempt {
            Attempt::Start => true,
            Attempt::Reconnect(epoch) => self.reconnect_epoch == epoch,
        }
    }

    /// Before an attempt to bring the tunnel up.
    pub open spec fn prepared(self, config: Config) -> Manager {
        Manager { config, dns_cache: None, ..self }
    }

    /// The addresses of the server, once a lookup was made where none are known.
    pub open spec fn addresses(self, lookup: Lookup) -> Seq<Seq<char>> {
        match self.dns_cache {
            Some(ips) => ips,
            None => lookup_addresses(lookup),
        }
    }

    /// Why the addresses of the server are not known.
    pub open spec fn address_error(self, lookup: Lookup) -> Option<Seq<char>> {
        match self.dns_cache {
            Some(_) => None,
            None => lookup_error(self.config.server_address@, lookup),
        }
    }

    /// Once sing-box runs as the process `pid`.
    pub open spec fn process_up(self, pid: u32) -> Manager {
        Manager { child: Some(pid), state: VpnState::Running, ..self }
    }

    /// Once any monitor is retired.
    pub open spec fn unmonitored(self) -> Manager {
        Manager { monitor: false, monitor_epoch: bumped(self.monitor_epoch), ..self }
    }

    /// Once a new monitor has taken over.
    pub open spec fn monitored(self) -> Manager {
        Manager {
            monitor: true,
            monitor_epoch: bumped(self.unmonitored().monitor_epoch),
            ..self
        }
    }

    /// Back in the state `Stopped`, with nothing left behind.
    pub open spec fn reset(self) -> Manager {
        Manager { child: None, job: false, state: VpnState::Stopped, ..self.unmonitored() }
    }

    /// What the way back to `Stopped` takes.
    pub open spec fn reset_effects(self, reason: Option<Seq<char>>) -> Seq<Effect<Seq<char>>> {
        let line = match reason {
            Some(r) => "[state] returning to Stopped: "@ + r,
            None => "[state] returning to Stopped"@,
        };
        let kill: Seq<Effect<Seq<char>>> = if self.child is Some {
            seq![Effect::KillChild]
        } else {
            seq![]
        };
        seq![Effect::Log(line)] + kill + seq![
            Effect::CloseJob,
            Effect::Emit(Event::State(VpnState::Stopped)),
        ]
    }

    /// The process is there, and not known to be dead.
    pub open spec fn alive(self, poll: ChildPoll) -> bool {
        self.child is Some && poll == ChildPoll::Alive
    }

    /// Once a process that has exited is let go.
    pub open spec fn reaped(self, poll: ChildPoll) -> Manager {
        if poll == ChildPoll::Exited {
            Manager { child: None, ..self }
        } else {
            self
        }
    }

    /// The state says that the process is up, but it is not. A start that has no
    /// process yet is not concerned, nor is a stop that has none any more.
    pub open spec fn stale(self, poll: ChildPoll) -> bool {
        !self.alive(poll) && self.state == VpnState::Running
    }

    /// Once the status of the process was read.
    pub open spec fn polled(self, poll: ChildPoll) -> Manager {
        if self.stale(poll) {
            self.reaped(poll).reset()
        } else {
            self.reaped(poll)
        }
    }

    /// What reading the status of the process takes.
    pub open spec fn poll_effects(self, poll: ChildPoll) -> Seq<Effect<Seq<char>>> {
        if self.stale(poll) {
            self.reaped(poll).reset_effects(None)
        } else {
            seq![]
        }
    }

    /// After a request to stop.
    pub open spec fn stopping(self) -> Manager {
        if self.state == VpnState::Stopped {
            self.superseded()
        } else {
            Manager { state: VpnState::Stopping, child: None, ..self.superseded().unmonitored() }
        }
    }

    /// Once a stop has given up waiting for the process, and has closed the job in
    /// its place.
    pub open spec fn unattended(self) -> Manager {
        Manager { job: false, ..self }
    }

    /// Once a stop has looked at the process that it waits for.
    pub open spec fn waited(self, poll: ReapPoll, past_deadline: bool) -> Manager {
        if gives_up(poll, past_deadline) {
            self.unattended()
        } else {
            self
        }
    }

    /// Once a stop is through.
    pub open spec fn finished(self) -> Manager {
        Manager { state: VpnState::Stopped, child: None, ..self }
    }

    /// Once an attempt has failed: what it was made for is down, unless the attempt
    /// is no longer awaited.
    pub open spec fn failed(self, attempt: Attempt) -> Manager {
        if self.awaits(attempt) {
            self.reset()
        } else {
            self
        }
    }

    /// Once a new reconnect loop has taken over.
    pub open spec fn superseded(self) -> Manager {
        Manager { reconnect_epoch: bumped(self.reconnect_epoch), ..self }
    }

    /// Once the process was assigned to a job, or not.
    pub open spec fn attached(self, outcome: JobOutcome) -> Manager {
        Manager { job: self.job || outcome is Assigned, ..self }
    }

    /// The monitor with the token `epoch` sees that the process is gone.
    pub open spec fn sees_exit(self, epoch: u64, poll: ChildPoll) -> bool {
        self.monitor_epoch == epoch && self.child is Some && poll != ChildPoll::Alive
    }

    /// The exit is an unexpected drop of a running tunnel.
    pub open spec fn dropped(self, epoch: u64, poll: ChildPoll) -> bool {
        self.sees_exit(epoch, poll) && self.state == VpnState::Running
    }

    /// What the monitor with the token `epoch` does next.
    pub open spec fn watch_step(self, epoch: u64, poll: ChildPoll) -> MonitorStep {
        if self.dropped(epoch, poll) {
            MonitorStep::Reconnect(self.watched(epoch, poll).reconnect_epoch)
        } else if self.monitor_epoch == epoch && self.alive(poll) {
            MonitorStep::Continue
        } else {
            MonitorStep::Retire
        }
    }

    /// The clocks after the monitor with the token `epoch` has looked.
    pub open spec fn watch_clocks(self, epoch: u64, poll: ChildPoll, clocks: Clocks) -> Clocks {
        if self.dropped(epoch, poll) {
            Clocks { is_running_cache: false, ..clocks }
        } else {
            clocks
        }
    }

    /// After the monitor with the token `epoch` has looked.
    pub open spec fn watched(self, epoch: u64, poll: ChildPoll) -> Manager {
        if self.dropped(epoch, poll) {
            self.finished().superseded()
        } else if self.sees_exit(epoch, poll) {
            Manager { child: None, ..self }
        } else {
            self
        }
    }
}

/// Owner of the tunnel's lifecycle.
pub struct ProxyManager {
    state: VpnState,
    child: Option<u32>,
    monitor: bool,
    monitor_epoch: u64,
    reconnect_epoch: u64,
    job: bool,
    config: Config,
    dns_cache: Option<Vec<String>>,
}

impl View for ProxyManager {
    type V = Manager;

    closed spec fn view(&self) -> Manager {
        Manager {
            state: self.state,
            child: self.child,
            monitor: self.monitor,
            monitor_epoch: self.monitor_epoch,
            reconnect_epoch: self.reconnect_epoch,
            job: self.job,
            config: self.config,
            dns_cache: match self.dns_cache {
                Some(ips) => Some(ips.deep_view()),
                None => None,
            },
        }
    }
}

impl ProxyManager {
    /// Only a running tunnel has a process.
    #[verifier::type_invariant]
    closed spec fn inv(self) -> bool {
        self.child is Some ==> self.state == VpnState::Running
    }

    /// A manager of a tunnel that was never started.
    pub fn new(config: Config) -> (m: ProxyManager)
        ensures
            m@ == Manager::initial(config),
            m@.wf(),
    {
        ProxyManager {
            state: VpnState::Stopped,
            child: None,
            monitor: false,
            monitor_epoch: 0,
            reconnect_epoch: 0,
            job: false,
            config,
            dns_cache: None,
        }
    }

    /// The lifecycle state.
    pub fn state(&self) -> (r: VpnState)
        ensures
            r == self@.state,
            self@.wf(),
    {
        proof {
            use_type_invariant(self);
        }
        self.state
    }

    /// The process id of the live sing-box, if any.
    pub fn pid(&self) -> (r: Option<u32>)
        ensures
            r == self@.child,
            self@.wf(),
    {
        proof {
            use_type_invariant(self);
        }
        self.child
    }

    /// Tells the frontend the current state.
    fn emit_state(&self, out: &mut Vec<Effect<String>>)
        ensures
            final(out).deep_view() == old(out).deep_view().push(
                Effect::Emit(Event::State(self@.state)),
            ),
    {
        note(out, Effect::Emit(Event::State(self.state)));
    }

    /// Begins a start. A manual start supersedes any reconnect loop. Only a
    /// stopped tunnel can be started; the state is `Starting` before any
    /// blocking work, so that a second request is refused while the first is
    /// under way. Tells whether the startup work is to be done.
    pub fn start(&mut self, out: &mut Vec<Effect<String>>) -> (go: bool)
        ensures
            final(self)@ == old(self)@.started(),
            go == old(self)@.startable(),
            final(out).deep_view() == old(out).deep_view() + start_effects(old(self)@.state),
    {
        proof {
            use_type_invariant(&*self);
        }
        self.reconnect_epoch = bump(self.reconnect_epoch);
        let cur = self.state;
        let ghost before = out.deep_view();
        if cur != VpnState::Stopped {
            let line = "[start] ignored: already in state ".to_string().concat(cur.label());
            note(out, Effect::Log(line));
            let msg = match cur {
                VpnState::Starting => "VPN is already starting.",
                VpnState::Running => "VPN is already running.",
                _ => "VPN is stopping, please wait.",
            };
            note(out, Effect::Emit(Event::Error(msg.to_string())));
            proof {
                assert(out.deep_view() =~= before + start_effects(cur));
            }
            return false;
        }
        self.state = VpnState::Starting;
        note(out, Effect::Log("[start] state -> Starting".to_string()));
        self.emit_state(out);
        proof {
            assert(out.deep_view() =~= before + start_effects(cur));
        }
        true
    }

    /// Whether an attempt is not superseded.
    pub fn awaits_attempt(&self, attempt: Attempt) -> (r: bool)
        ensures
            r == self@.awaits(attempt),
    {
        match attempt {
            Attempt::Start => true,
            Attempt::Reconnect(epoch) => self.reconnect_epoch == epoch,
        }
    }

    /// Returns to `Stopped`, with no process left behind. The reason, if any,
    /// goes to the log.
    pub fn reset_to_stopped_internal(
        &mut self,
        reason: Option<&str>,
        out: &mut Vec<Effect<String>>,
    )
        ensures
            final(self)@ == old(self)@.reset(),
            final(out).deep_view() == old(out).deep_view() + old(self)@.reset_effects(
                match reason {
                    Some(r) => Some(r@),
                    None => None,
                },
            ),
    {
        proof {
            use_type_invariant(&*self);
        }
        let ghost before = out.deep_view();
        let line = match reason {
            Some(r) => "[state] returning to Stopped: ".to_string().concat(r),
            None => "[state] returning to Stopped".to_string(),
        };
        note(out, Effect::Log(line));
        if self.child.is_some() {
            self.child = None;
            note(out, Effect::KillChild);
        }
        self.job = false;
        note(out, Effect::CloseJob);
        self.stop_monitor();
        self.state = VpnState::Stopped;
        self.emit_state(out);
        proof {
            assert(out.deep_view() =~= before + old(self)@.reset_effects(
                match reason {
                    Some(r) => Some(r@),
                    None => None,
                },
            ));
        }
    }

    /// Retires any monitor without waiting for it: the monitor sees that its
    /// token is stale and ends by itself.
    pub fn stop_monitor(&mut self)
        ensures
            final(self)@ == old(self)@.unmonitored(),
    {
        proof {
            use_type_invariant(&*self);
        }
        self.monitor_epoch = bump(self.monitor_epoch);
        self.monitor = false;
    }

    /// Makes way for a new monitor, and hands out its token.
    pub fn spawn_monitor(&mut self) -> (epoch: u64)
        ensures
            final(self)@ == old(self)@.monitored(),
            epoch == final(self)@.monitor_epoch,
    {
        self.stop_monitor();
        proof {
            use_type_invariant(&*self);
        }
        self.monitor_epoch = bump(self.monitor_epoch);
        self.monitor = true;
        self.monitor_epoch
    }

    /// Whether the monitor with the token `epoch` is still the active one.
    pub fn monitor_live(&self, epoch: u64) -> (r: bool)
        ensures
            r == (self@.monitor_epoch == epoch),
    {
        self.monitor_epoch == epoch
    }

    /// Reflects reality: a process that has exited is let go, and where the
    /// state says that a process is up but none is, the state goes back to
    /// `Stopped`. A start whose process is still to come is left alone. Tells
    /// whether a process is there that is not known to be dead. `poll` is the
    /// status of the process; it says nothing where there is none.
    pub fn is_running(&mut self, poll: ChildPoll, out: &mut Vec<Effect<String>>) -> (alive: bool)
        ensures
            alive == old(self)@.alive(poll),
            final(self)@ == old(self)@.polled(poll),
            final(out).deep_view() == old(out).deep_view() + old(self)@.poll_effects(poll),
    {
        proof {
            use_type_invariant(&*self);
        }
        let ghost before = out.deep_view();
        let alive = match self.child {
            Some(_) => match poll {
                ChildPoll::Exited => {
                    self.child = None;
                    false
                },
                ChildPoll::Alive => true,
                ChildPoll::Failed => false,
            },
            None => false,
        };
        proof {
            assert(self@ == old(self)@.reaped(poll));
            assert(before + Seq::<Effect<Seq<char>>>::empty() =~= before);
        }
        if !alive && self.state == VpnState::Running {
            self.reset_to_stopped_internal(None, out);
        }
        alive
    }

    /// Classifies a technical error into a short, non-technical message. The
    /// original error is always preserved in the log and on the standard error
    /// stream.
    pub fn classify_error(&self, err: &StartError, out: &mut Vec<Effect<String>>) -> (r: String)
        ensures
            r@ == error_category(*err).message_of(),
            final(out).deep_view() == old(out).deep_view() + classify_effects(
                error_category(*err),
                err.detail@,
            ),
            is_ascii_chars(err.message@) ==> r@ == category_of(
                err.message@.map_values(|c: char| text::ascii_lower(c)),
            ).message_of(),
    {
        classify::classify(err, out)
    }

    /// Gets ready for an attempt to bring the tunnel up: with the settings as
    /// they are now, and without addresses of an earlier server. Tells whether the
    /// attempt is still awaited; one that is not changes nothing.
    pub fn prepare(&mut self, attempt: Attempt, config: Config) -> (awaited: bool)
        ensures
            awaited == old(self)@.awaits(attempt),
            final(self)@ == old(self)@.prepared_for(attempt, config),
    {
        proof {
            use_type_invariant(&*self);
        }
        if !self.awaits_attempt(attempt) {
            return false;
        }
        self.config = config;
        self.dns_cache = None;
        true
    }

    /// The host name that a lookup is to be made of.
    pub fn server_address(&self) -> (r: &str)
        ensures
            r@ == self@.config.server_address@,
    {
        self.config.server_address.as_str()
    }

    /// The configuration to run sing-box with. `lookup` is what came of a
    /// lookup of the server's host name; it counts only where no addresses are
    /// known yet.
    pub fn build_vpn_config(&mut self, lookup: &Lookup) -> (r: Result<
        serde_json::Value,
        StartError,
    >)
        requires
            old(self)@.config.wf(),
        ensures
            match r {
                Ok(v) => {
                    &&& old(self)@.address_error(*lookup) is None
                    &&& json_of(v) == vpn_config(
                        old(self)@.config,
                        old(self)@.addresses(*lookup),
                    )
                    &&& final(self)@ == Manager {
                        dns_cache: Some(old(self)@.addresses(*lookup)),
                        ..old(self)@
                    }
                },
                Err(e) => {
                    &&& old(self)@.address_error(*lookup) is Some
                    &&& e.message@ == RESOLVE_CONTEXT@
                    &&& e.detail@ == RESOLVE_CONTEXT@ + ": "@ + old(self)@.address_error(
                        *lookup,
                    )->0
                    &&& final(self)@ == old(self)@
                },
            },
    {
        proof {
            use_type_invariant(&*self);
        }
        if let Some(ips) = &self.dns_cache {
            return Ok(vpn_config::build_vpn_config(&self.config, ips));
        }
        match dns::resolve_hostname(self.config.server_address.as_str(), lookup) {
            Ok(ips) => {
                let v = vpn_config::build_vpn_config(&self.config, &ips);
                self.dns_cache = Some(ips);
                Ok(v)
            },
            Err(e) => Err(StartError::in_context(RESOLVE_CONTEXT, e.as_str())),
        }
    }

    /// A start without administrator rights goes back to `Stopped`.
    pub fn admin_missing(&mut self, out: &mut Vec<Effect<String>>)
        ensures
            final(self)@ == old(self)@.reset(),
            final(out).deep_view() == old(out).deep_view() + admin_effects(old(self)@),
    {
        let ghost before = out.deep_view();
        self.reset_to_stopped_internal(Some("Admin required — Run as administrator."), out);
        let message = "Admin required. Right-click the app → 'Run as administrator'.".to_string();
        note(out, Effect::Emit(Event::Error(message)));
        proof {
            assert(out.deep_view() =~= before + admin_effects(old(self)@));
        }
    }

    /// sing-box runs as the process `pid`.
    pub fn process_started(&mut self, pid: u32, out: &mut Vec<Effect<String>>)
        ensures
            final(self)@ == old(self)@.process_up(pid),
            final(out).deep_view() == old(out).deep_view().push(
                Effect::Log("[start] state -> Running"@),
            ),
    {
        proof {
            use_type_invariant(&*self);
        }
        self.state = VpnState::Running;
        self.child = Some(pid);
        note(out, Effect::Log("[start] state -> Running".to_string()));
    }

    /// Takes note of whether the process was assigned to a kill-on-close job.
    /// A failure to do so is not fatal.
    pub fn attach_job(&mut self, pid: u32, outcome: &JobOutcome, out: &mut Vec<Effect<String>>)
        ensures
            final(self)@ == old(self)@.attached(*outcome),
            final(out).deep_view() == old(out).deep_view().push(
                Effect::Log(job_line(pid, *outcome)),
            ),
    {
        proof {
            use_type_invariant(&*self);
        }
        let line = match outcome {
            JobOutcome::Assigned => {
                self.job = true;
                "[job] assigned sing-box pid ".to_string().concat(
                    text::decimal(pid as u64).as_str(),
                ).concat(" to kill-on-close job")
            },
            JobOutcome::AssignFailed(e) => "[job] assign failed (non-fatal): ".to_string().concat(
                e.as_str(),
            ),
            JobOutcome::CreateFailed(e) => "[job] create failed (non-fatal): ".to_string().concat(
                e.as_str(),
            ),
        };
        note(out, Effect::Log(line));
    }

    /// The tunnel is up: uptime counts from `now`.
    pub fn tunnel_up(
        &self,
        clocks: &mut Clocks,
        now: u64,
        out: &mut Vec<Effect<String>>,
    ) -> (r: String)
        ensures
            *final(clocks) == (Clocks { started_at: Some(now), is_running_cache: true }),
            final(out).deep_view() == old(out).deep_view().push(
                Effect::Emit(Event::State(self@.state)),
            ),
            r@ == "VPN mode started"@,
    {
        clocks.started_at = Some(now);
        clocks.is_running_cache = true;
        self.emit_state(out);
        "VPN mode started".to_string()
    }

    /// Any failure during a start leads back to `Stopped`, with no process left
    /// behind, and the user is told why. Returns what the user is told.
    pub fn start_failed(&mut self, err: &StartError, out: &mut Vec<Effect<String>>) -> (r: String)
        ensures
            r@ == error_category(*err).message_of(),
            final(self)@ == old(self)@.reset(),
            final(out).deep_view() == old(out).deep_view() + failure_effects(old(self)@, *err),
    {
        let ghost before = out.deep_view();
        note(out, Effect::Log("[start] failed: ".to_string().concat(err.detail.as_str())));
        let friendly = self.classify_error(err, out);
        self.reset_to_stopped_internal(Some(friendly.as_str()), out);
        note(out, Effect::Emit(Event::Error(friendly.clone())));
        proof {
            assert(out.deep_view() =~= before + failure_effects(old(self)@, *err));
        }
        friendly
    }

    /// What the monitor with the token `epoch` does once it has seen `poll`.
    /// It acts only while its token is the active one and a process is there;
    /// it takes an unreadable status for an exit. An exit of a running tunnel
    /// is a drop: the state goes to `Stopped` at once, and a reconnect loop
    /// begins.
    pub fn monitor_step(&mut self, epoch: u64, poll: ChildPoll, clocks: &mut Clocks) -> (r:
        MonitorStep)
        ensures
            final(self)@ == old(self)@.watched(epoch, poll),
            *final(clocks) == old(self)@.watch_clocks(epoch, poll, *old(clocks)),
            r == old(self)@.watch_step(epoch, poll),
    {
        proof {
            use_type_invariant(&*self);
        }
        if self.monitor_epoch != epoch {
            return MonitorStep::Retire;
        }
        if self.child.is_none() {
            return MonitorStep::Retire;
        }
        if poll == ChildPoll::Alive {
            return MonitorStep::Continue;
        }
        self.child = None;
        if self.state == VpnState::Running {
            self.state = VpnState::Stopped;
            clocks.is_running_cache = false;
            MonitorStep::Reconnect(self.schedule_reconnect())
        } else {
            MonitorStep::Retire
        }
    }

    /// Makes way for a new reconnect loop, and hands out its token.
    pub fn schedule_reconnect(&mut self) -> (epoch: u64)
        ensures
            final(self)@ == old(self)@.superseded(),
            epoch == final(self)@.reconnect_epoch,
    {
        proof {
            use_type_invariant(&*self);
        }
        self.reconnect_epoch = bump(self.reconnect_epoch);
        self.reconnect_epoch
    }

    /// Whether a reconnect loop is to make its next try. It gives way to a manual
    /// start or stop, and to a tunnel that is up.
    pub fn reconnect_begin(&self, tries: &Reconnect, out: &mut Vec<Effect<String>>) -> (go: bool)
        ensures
            go == reconnect_goes_on(self@, *tries),
            final(out).deep_view() == old(out).deep_view() + begin_effects(self@, *tries),
    {
        let ghost before = out.deep_view();
        proof {
            assert(before + Seq::<Effect<Seq<char>>>::empty() =~= before);
        }
        if self.reconnect_epoch != tries.epoch || self.state == VpnState::Running {
            return false;
        }
        let message = "Connection lost — reconnecting… (".to_string().concat(
            text::decimal(tries.attempt as u64).as_str(),
        ).concat("/").concat(text::decimal(RECONNECT_TRIES as u64).as_str()).concat(")");
        note(out, Effect::Emit(Event::Reconnecting(message)));
        proof {
            assert(out.deep_view() =~= before + begin_effects(self@, *tries));
        }
        true
    }

    /// A try has failed. Tells whether to wait for the next one; after the last
    /// one the VPN is down for good. The failure of a loop that was superseded
    /// meanwhile goes to the log, and no further: the loop ends.
    pub fn reconnect_failed(
        &mut self,
        tries: &mut Reconnect,
        detail: &str,
        out: &mut Vec<Effect<String>>,
    ) -> (again: bool)
        ensures
            again == tries_again(old(self)@, *old(tries)),
            *final(tries) == (if again {
                old(tries).next()
            } else {
                *old(tries)
            }),
            final(self)@ == old(self)@.failed(Attempt::Reconnect(old(tries).epoch)),
            final(out).deep_view() == old(out).deep_view() + retry_effects(
                old(self)@,
                *old(tries),
                detail@,
            ),
    {
        let ghost before = out.deep_view();
        let line = "[reconnect] attempt ".to_string().concat(
            text::decimal(tries.attempt as u64).as_str(),
        ).concat(" failed: ").concat(detail);
        note(out, Effect::Log(line));
        let mut again = false;
        if self.reconnect_epoch == tries.epoch {
            self.reset_to_stopped_internal(None, out);
            again = tries.attempt < RECONNECT_TRIES;
            if again {
                tries.attempt = tries.attempt + 1;
            } else {
                note(out, Effect::Emit(Event::Down(GAVE_UP.to_string())));
            }
        }
        proof {
            assert(out.deep_view() =~= before + retry_effects(old(self)@, *old(tries), detail@));
        }
        again
    }

    /// Begins a stop. A manual stop supersedes any reconnect loop, also where
    /// the tunnel is down and the loop waits for its next try; stopping what is
    /// stopped is harmless otherwise. The process, if there is one, is the
    /// caller's to kill.
    pub fn stop(&mut self, out: &mut Vec<Effect<String>>) -> (r: StopPlan)
        ensures
            final(self)@ == old(self)@.stopping(),
            r == old(self)@.stop_plan(),
            final(out).deep_view() == old(out).deep_view() + stop_effects(old(self)@.state),
    {
        proof {
            use_type_invariant(&*self);
        }
        let ghost before = out.deep_view();
        self.reconnect_epoch = bump(self.reconnect_epoch);
        if self.state == VpnState::Stopped {
            note(out, Effect::Log("[stop] ignored: already stopped".to_string()));
            proof {
                assert(out.deep_view() =~= before + stop_effects(old(self)@.state));
            }
            return StopPlan::AlreadyStopped;
        }
        let was_running = self.child.is_some();
        self.child = None;
        self.state = VpnState::Stopping;
        note(out, Effect::Log("[stop] state -> Stopping".to_string()));
        self.emit_state(out);
        self.stop_monitor();
        proof {
            assert(out.deep_view() =~= before + stop_effects(old(self)@.state));
        }
        StopPlan::Terminate { was_running }
    }

    /// The process was killed, but its end was not seen: the kill-on-close job is
    /// closed, so that the operating system ends what is left of it.
    pub fn stop_gave_up(&mut self, out: &mut Vec<Effect<String>>)
        ensures
            final(self)@ == old(self)@.unattended(),
            final(out).deep_view() == old(out).deep_view().push(Effect::CloseJob),
    {
        proof {
            use_type_invariant(&*self);
        }
        self.job = false;
        note(out, Effect::CloseJob);
    }

    /// Whether the wait for the killed process is over, once its status was read.
    /// It never goes beyond the deadline, and where it ends without the process
    /// having ended, the job is closed: no orphan remains.
    pub fn stop_wait(
        &mut self,
        poll: &ReapPoll,
        past_deadline: bool,
        out: &mut Vec<Effect<String>>,
    ) -> (done: bool)
        ensures
            done == wait_over(*poll, past_deadline),
            final(self)@ == old(self)@.waited(*poll, past_deadline),
            final(out).deep_view() == old(out).deep_view() + wait_effects(*poll, past_deadline),
    {
        let ghost before = out.deep_view();
        let done = startup::reap_step(poll, past_deadline, out);
        let ended = match poll {
            ReapPoll::Ended => true,
            _ => false,
        };
        if done && !ended {
            self.stop_gave_up(out);
        }
        proof {
            assert(out.deep_view() =~= before + wait_effects(*poll, past_deadline));
        }
        done
    }

    /// The process is gone, or was waited for long enough: the tunnel is down.
    /// A process that came up meanwhile is killed too.
    pub fn stop_finish(&mut self, was_running: bool, out: &mut Vec<Effect<String>>) -> (r: String)
        ensures
            final(self)@ == old(self)@.finished(),
            r@ == stop_message(was_running),
            final(out).deep_view() == old(out).deep_view() + finish_effects(old(self)@),
    {
        proof {
            use_type_invariant(&*self);
        }
        let ghost before = out.deep_view();
        if self.child.is_some() {
            self.child = None;
            note(out, Effect::KillChild);
        }
        self.state = VpnState::Stopped;
        self.emit_state(out);
        proof {
            assert(out.deep_view() =~= before + finish_effects(old(self)@));
        }
        if was_running {
            "Stopped".to_string()
        } else {
            "Already stopped".to_string()
        }
    }
}

/// What a request to start does outside.
pub open spec fn start_effects(state: VpnState) -> Seq<Effect<Seq<char>>> {
    if state == VpnState::Stopped {
        seq![
            Effect::Log("[start] state -> Starting"@),
            Effect::Emit(Event::State(VpnState::Starting)),
        ]
    } else {
        seq![
            Effect::Log("[start] ignored: already in state "@ + state.label_of()),
            Effect::Emit(Event::Error(busy_message(state))),
        ]
    }
}

/// What a start without administrator rights takes.
pub open spec fn admin_effects(m: Manager) -> Seq<Effect<Seq<char>>> {
    m.reset_effects(Some("Admin required — Run as administrator."@)).push(
        Effect::Emit(
            Event::Error("Admin required. Right-click the app → 'Run as administrator'."@),
        ),
    )
}

/// What came of assigning the process to a kill-on-close job.
pub enum JobOutcome {
    Assigned,
    AssignFailed(String),
    CreateFailed(String),
}

/// What the log says of the job.
pub open spec fn job_line(pid: u32, outcome: JobOutcome) -> Seq<char> {
    match outcome {
        JobOutcome::Assigned => "[job] assigned sing-box pid "@ + decimal_of(pid as nat)
            + " to kill-on-close job"@,
        JobOutcome::AssignFailed(e) => "[job] assign failed (non-fatal): "@ + e@,
        JobOutcome::CreateFailed(e) => "[job] create failed (non-fatal): "@ + e@,
    }
}

/// What a failure during a start takes.
pub open spec fn failure_effects(m: Manager, err: StartError) -> Seq<Effect<Seq<char>>> {
    let k = error_category(err);
    seq![Effect::Log("[start] failed: "@ + err.detail@)] + classify_effects(k, err.detail@)
        + m.reset_effects(Some(k.message_of())) + seq![Effect::Emit(Event::Error(k.message_of()))]
}

/// What the monitor does next.
#[derive(Debug, Clone, Copy, PartialEq, Eq, Structural)]
pub enum MonitorStep {
    /// Poll again later.
    Continue,
    /// End.
    Retire,
    /// End, and run a reconnect loop with this token.
    Reconnect(u64),
}

/// A reconnect loop: its token, and the number of its next try.
#[derive(Debug, Clone, Copy, PartialEq, Eq, Structural)]
pub struct Reconnect {
    pub epoch: u64,
    pub attempt: u32,
}

impl Reconnect {
    /// A loop ahead of its first try.
    pub fn new(epoch: u64) -> (r: Reconnect)
        ensures
            r == Reconnect::first(epoch),
    {
        Reconnect { epoch, attempt: 1 }
    }

    /// A loop ahead of its first try.
    pub open spec fn first(epoch: u64) -> Reconnect {
        Reconnect { epoch, attempt: 1 }
    }

    /// There is another try after this one.
    pub open spec fn has_next(self) -> bool {
        self.attempt < RECONNECT_TRIES
    }

    /// The loop ahead of its following try.
    pub open spec fn next(self) -> Reconnect {
        Reconnect { attempt: (self.attempt + 1) as u32, ..self }
    }
}

/// The reconnect loop is neither superseded nor needless.
pub open spec fn reconnect_goes_on(m: Manager, tries: Reconnect) -> bool {
    m.reconnect_epoch == tries.epoch && m.state != VpnState::Running
}

/// The loop makes another try after a failed one.
pub open spec fn tries_again(m: Manager, tries: Reconnect) -> bool {
    m.reconnect_epoch == tries.epoch && tries.has_next()
}

/// What the beginning of a try takes.
pub open spec fn begin_effects(m: Manager, tries: Reconnect) -> Seq<Effect<Seq<char>>> {
    if reconnect_goes_on(m, tries) {
        seq![Effect::Emit(Event::Reconnecting(reconnect_message(tries.attempt)))]
    } else {
        seq![]
    }
}

/// What the user is told while a try is under way.
pub open spec fn reconnect_message(attempt: u32) -> Seq<char> {
    "Connection lost — reconnecting… ("@ + decimal_of(attempt as nat) + "/"@ + decimal_of(
        RECONNECT_TRIES as nat,
    ) + ")"@
}

/// What the user is told after the last try.
pub const GAVE_UP: &'static str = "Connection lost and auto-reconnect failed after 3 attempts.\nClick Start to try again.";

/// What a failed try takes.
pub open spec fn retry_effects(m: Manager, tries: Reconnect, detail: Seq<char>) -> Seq<
    Effect<Seq<char>>,
> {
    let line: Seq<Effect<Seq<char>>> = seq![
        Effect::Log(
            "[reconnect] attempt "@ + decimal_of(tries.attempt as nat) + " failed: "@ + detail,
        ),
    ];
    if m.reconnect_epoch != tries.epoch {
        line
    } else if tries.has_next() {
        line + m.reset_effects(None)
    } else {
        line + m.reset_effects(None) + seq![Effect::Emit(Event::Down(GAVE_UP@))]
    }
}

/// What a request to stop asks of its caller.
#[derive(Debug, Clone, Copy, PartialEq, Eq, Structural)]
pub enum StopPlan {
    /// There is nothing to do.
    AlreadyStopped,
    /// Kill the process, if there is one, wait for it, and finish.
    Terminate { was_running: bool },
}

/// What a request to stop does outside.
pub open spec fn stop_effects(state: VpnState) -> Seq<Effect<Seq<char>>> {
    if state == VpnState::Stopped {
        seq![Effect::Log("[stop] ignored: already stopped"@)]
    } else {
        seq![
            Effect::Log("[stop] state -> Stopping"@),
            Effect::Emit(Event::State(VpnState::Stopping)),
        ]
    }
}

/// What a look at the process that a stop waits for takes.
pub open spec fn wait_effects(poll: ReapPoll, past_deadline: bool) -> Seq<Effect<Seq<char>>> {
    let close: Seq<Effect<Seq<char>>> = if gives_up(poll, past_deadline) {
        seq![Effect::CloseJob]
    } else {
        seq![]
    };
    reap_effects(poll, past_deadline) + close
}

/// What the end of a stop takes.
pub open spec fn finish_effects(m: Manager) -> Seq<Effect<Seq<char>>> {
    let kill: Seq<Effect<Seq<char>>> = if m.child is Some {
        seq![Effect::KillChild]
    } else {
        seq![]
    };
    kill.push(Effect::Emit(Event::State(VpnState::Stopped)))
}

/// What a stop is answered.
pub open spec fn stop_message(was_running: bool) -> Seq<char> {
    if was_running {
        "Stopped"@
    } else {
        "Already stopped"@
    }
}

}
