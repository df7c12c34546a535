//! The steps of a startup, from locating sing-box to a tunnel that is up.
//!
//! The program performs an action and reports the event that came of it; each
//! event leads to the next stage and the next action. A startup for a reconnect
//! loop that was superseded is abandoned at its next event, and changes nothing.
use crate::classify::StartError;
use crate::dns::Lookup;
use crate::events::{Effect, Event, VpnState};
use crate::json::pretty_text;
use crate::manager::{
    job_line, Attempt, Clocks, JobOutcome, Manager, ProxyManager, RESOLVE_CONTEXT,
};
use crate::startup;
use crate::startup::{rejection, CheckPoll, CheckStep, CHECK_CONTEXT, CHECK_LOST, CHECK_TIMED_OUT};
use crate::vpn_config::vpn_config;
use vstd::prelude::*;
use vstd::string::*;

verus! {

/// How far a startup has come. `T` is the type of texts: `String` in a program,
/// `Seq<char>` in contracts.
#[derive(Debug, PartialEq, Eq)]
pub enum Stage<T> {
    /// sing-box is being located, or downloaded.
    Locating,
    /// The server's host name is being looked up.
    Resolving,
    /// This text is to be compared with the configuration file.
    Comparing(T),
    /// The configuration file is being written.
    Writing,
    /// The validation run is being started.
    Spawning,
    /// The validation run is under way.
    Checking,
    /// What a failed validation run printed is being read.
    Collecting,
    /// sing-box is being started, and assigned to a job.
    Launching,
    /// The tunnel is up.
    Done,
    /// The startup has failed.
    Failed,
    /// The startup was superseded.
    Abandoned,
}

/// A sing-box that was started.
pub struct Launch {
    /// Its process.
    pub pid: u32,
    /// What came of assigning it to a job.
    pub outcome: JobOutcome,
    /// The time.
    pub now: u64,
}

/// What came of an action.
pub enum StartEvent {
    Located(Result<(), StartError>),
    Resolved(Lookup),
    /// The contents of the configuration file, where it can be read.
    OnDisk(Option<String>),
    Written(Result<(), StartError>),
    /// The validation run was started, or why not.
    CheckSpawned(Result<(), String>),
    CheckPolled { poll: CheckPoll, past_deadline: bool },
    /// What the validation run printed, and the path of the configuration file.
    CheckPrinted { stderr: String, stdout: String, path: String },
    /// sing-box was started, or why not.
    Launched(Result<Launch, StartError>),
}

/// What is to be done next.
pub enum StartAction {
    Resolve,
    ReadConfig,
    WriteConfig(String),
    SpawnCheck,
    PollCheck,
    CollectOutput,
    /// Start sing-box, and assign it to a job.
    Launch,
    /// The tunnel is up: run a monitor with this token.
    Watch { epoch: u64, message: String },
    Fail(StartError),
    /// Kill the validation run, and fail.
    KillCheckAndFail(StartError),
    /// Kill the validation run and this process, where there are any, and report
    /// nothing.
    Abandon(Option<u32>),
}

impl DeepView for Stage<String> {
    type V = Stage<Seq<char>>;

    open spec fn deep_view(&self) -> Stage<Seq<char>> {
        match *self {
            Stage::Locating => Stage::Locating,
            Stage::Resolving => Stage::Resolving,
            Stage::Comparing(t) => Stage::Comparing(t@),
            Stage::Writing => Stage::Writing,
            Stage::Spawning => Stage::Spawning,
            Stage::Checking => Stage::Checking,
            Stage::Collecting => Stage::Collecting,
            Stage::Launching => Stage::Launching,
            Stage::Done => Stage::Done,
            Stage::Failed => Stage::Failed,
            Stage::Abandoned => Stage::Abandoned,
        }
    }
}

/// The event is one that the stage waits for.
pub open spec fn expects(stage: Stage<Seq<char>>, event: StartEvent) -> bool {
    match stage {
        Stage::Locating => event is Located,
        Stage::Resolving => event is Resolved,
        Stage::Comparing(_) => event is OnDisk,
        Stage::Writing => event is Written,
        Stage::Spawning => event is CheckSpawned,
        Stage::Checking => event is CheckPolled,
        Stage::Collecting => event is CheckPrinted,
        Stage::Launching => event is Launched,
        Stage::Done | Stage::Failed | Stage::Abandoned => false,
    }
}

/// The action reports a failure with these texts.
pub open spec fn fails_with(action: StartAction, message: Seq<char>, detail: Seq<char>) -> bool {
    action matches StartAction::Fail(e) && e.message@ == message && e.detail@ == detail
}

/// The process that the event tells of.
pub open spec fn process_of(event: StartEvent) -> Option<u32> {
    match event {
        StartEvent::Launched(Ok(l)) => Some(l.pid),
        _ => None,
    }
}

/// The stage and the action that an event leads to, in the course of `attempt`.
pub open spec fn leads_to(
    m: Manager,
    attempt: Attempt,
    stage: Stage<Seq<char>>,
    event: StartEvent,
    next: Stage<Seq<char>>,
    action: StartAction,
) -> bool {
    if m.awaits(attempt) {
        goes_on(m, stage, event, next, action)
    } else {
        next is Abandoned && action == StartAction::Abandon(process_of(event))
    }
}

/// The stage and the action that an event of an awaited startup leads to.
pub open spec fn goes_on(
    m: Manager,
    stage: Stage<Seq<char>>,
    event: StartEvent,
    next: Stage<Seq<char>>,
    action: StartAction,
) -> bool {
    match (stage, event) {
        (Stage::Locating, StartEvent::Located(r)) => match r {
            Ok(_) => next is Resolving && action is Resolve,
            Err(e) => next is Failed && action == StartAction::Fail(e),
        },
        (Stage::Resolving, StartEvent::Resolved(l)) => match m.address_error(l) {
            Some(cause) => next is Failed && fails_with(
                action,
                RESOLVE_CONTEXT@,
                RESOLVE_CONTEXT@ + ": "@ + cause,
            ),
            None => next == Stage::Comparing(pretty_text(vpn_config(m.config, m.addresses(l))))
                && action is ReadConfig,
        },
        (Stage::Comparing(t), StartEvent::OnDisk(current)) => if current matches Some(c) && c@
            == t {
            next is Spawning && action is SpawnCheck
        } else {
            next is Writing && (action matches StartAction::WriteConfig(w) && w@ == t)
        },
        (Stage::Writing, StartEvent::Written(r)) => match r {
            Ok(_) => next is Spawning && action is SpawnCheck,
            Err(e) => next is Failed && action == StartAction::Fail(e),
        },
        (Stage::Spawning, StartEvent::CheckSpawned(r)) => match r {
            Ok(_) => next is Checking && action is PollCheck,
            Err(cause) => next is Failed && fails_with(
                action,
                CHECK_CONTEXT@,
                CHECK_CONTEXT@ + ": "@ + cause@,
            ),
        },
        (Stage::Checking, StartEvent::CheckPolled { poll, past_deadline }) => match poll {
            CheckPoll::Ended { success } => if success {
                next is Launching && action is Launch
            } else {
                next is Collecting && action is CollectOutput
            },
            CheckPoll::Alive => if past_deadline {
                next is Failed && (action matches StartAction::KillCheckAndFail(e) && e.message@
                    == CHECK_TIMED_OUT@ && e.detail@ == CHECK_TIMED_OUT@)
            } else {
                next is Checking && action is PollCheck
            },
            CheckPoll::Failed => next is Failed && fails_with(action, CHECK_LOST@, CHECK_LOST@),
        },
        (Stage::Collecting, StartEvent::CheckPrinted { stderr, stdout, path }) => next is Failed
            && fails_with(
            action,
            rejection(stderr@, stdout@, path@),
            rejection(stderr@, stdout@, path@),
        ),
        (Stage::Launching, StartEvent::Launched(r)) => match r {
            Ok(_) => next is Done && (action matches StartAction::Watch { epoch, message } && epoch
                == m.monitored().monitor_epoch && message@ == "VPN mode started"@),
            Err(e) => next is Failed && action == StartAction::Fail(e),
        },
        _ => false,
    }
}

/// The manager after an event.
pub open spec fn manager_after(
    m: Manager,
    attempt: Attempt,
    stage: Stage<Seq<char>>,
    event: StartEvent,
) -> Manager {
    if m.awaits(attempt) {
        match (stage, event) {
            (Stage::Resolving, StartEvent::Resolved(l)) => if m.address_error(l) is None {
                Manager { dns_cache: Some(m.addresses(l)), ..m }
            } else {
                m
            },
            (Stage::Launching, StartEvent::Launched(Ok(l))) => m.process_up(l.pid).attached(
                l.outcome,
            ).monitored(),
            _ => m,
        }
    } else {
        m
    }
}

/// The clocks after an event.
pub open spec fn clocks_after(
    m: Manager,
    attempt: Attempt,
    c: Clocks,
    stage: Stage<Seq<char>>,
    event: StartEvent,
) -> Clocks {
    match (stage, event) {
        (Stage::Launching, StartEvent::Launched(Ok(l))) if m.awaits(attempt) => Clocks {
            started_at: Some(l.now),
            is_running_cache: true,
        },
        _ => c,
    }
}

/// What an event does outside, besides the action.
pub open spec fn effects_of(
    m: Manager,
    attempt: Attempt,
    stage: Stage<Seq<char>>,
    event: StartEvent,
) -> Seq<Effect<Seq<char>>> {
    match (stage, event) {
        (Stage::Launching, StartEvent::Launched(Ok(l))) if m.awaits(attempt) => seq![
            Effect::Log("[start] state -> Running"@),
            Effect::Log(job_line(l.pid, l.outcome)),
            Effect::Emit(Event::State(VpnState::Running)),
        ],
        _ => seq![],
    }
}

impl ProxyManager {
    /// Takes the startup of `attempt` one event further. The configuration is
    /// validated before sing-box is launched with it. A startup that was superseded
    /// meanwhile leaves everything as it is; a process that it started is the
    /// caller's to kill.
    pub fn start_inner(
        &mut self,
        attempt: Attempt,
        stage: Stage<String>,
        event: StartEvent,
        clocks: &mut Clocks,
        out: &mut Vec<Effect<String>>,
    ) -> (r: (Stage<String>, StartAction))
        requires
            expects(stage.deep_view(), event),
            old(self)@.config.wf(),
        ensures
            leads_to(old(self)@, attempt, stage.deep_view(), event, r.0.deep_view(), r.1),
            final(self)@ == manager_after(old(self)@, attempt, stage.deep_view(), event),
            *final(clocks) == clocks_after(
                old(self)@,
                attempt,
                *old(clocks),
                stage.deep_view(),
                event,
            ),
            final(out).deep_view() == old(out).deep_view() + effects_of(
                old(self)@,
                attempt,
                stage.deep_view(),
                event,
            ),
    {
        let ghost before = out.deep_view();
        proof {
            assert(before + Seq::<Effect<Seq<char>>>::empty() =~= before);
        }
        if !self.awaits_attempt(attempt) {
            let process: Option<u32> = match &event {
                StartEvent::Launched(Ok(l)) => Some(l.pid),
                _ => None,
            };
            return (Stage::Abandoned, StartAction::Abandon(process));
        }
        match event {
            StartEvent::Located(r) => match r {
                Ok(_) => (Stage::Resolving, StartAction::Resolve),
                Err(e) => (Stage::Failed, StartAction::Fail(e)),
            },
            StartEvent::Resolved(lookup) => {
                let config = match self.build_vpn_config(&lookup) {
                    Ok(v) => v,
                    Err(e) => return (Stage::Failed, StartAction::Fail(e)),
                };
                (Stage::Comparing(startup::config_text(&config)), StartAction::ReadConfig)
            },
            StartEvent::OnDisk(current) => {
                let config = match stage {
                    Stage::Comparing(t) => t,
                    _ => String::new(),
                };
                let on_disk = match &current {
                    Some(c) => Some(c.as_str()),
                    None => None,
                };
                if startup::needs_write(on_disk, config.as_str()) {
                    (Stage::Writing, StartAction::WriteConfig(config))
                } else {
                    (Stage::Spawning, StartAction::SpawnCheck)
                }
            },
            StartEvent::Written(r) => match r {
                Ok(_) => (Stage::Spawning, StartAction::SpawnCheck),
                Err(e) => (Stage::Failed, StartAction::Fail(e)),
            },
            StartEvent::CheckSpawned(r) => match r {
                Ok(_) => (Stage::Checking, StartAction::PollCheck),
                Err(cause) => (
                    Stage::Failed,
                    StartAction::Fail(StartError::in_context(CHECK_CONTEXT, cause.as_str())),
                ),
            },
            StartEvent::CheckPolled { poll, past_deadline } => {
                match startup::check_step(poll, past_deadline) {
                    CheckStep::Wait => (Stage::Checking, StartAction::PollCheck),
                    CheckStep::Passed => (Stage::Launching, StartAction::Launch),
                    CheckStep::Rejected => (Stage::Collecting, StartAction::CollectOutput),
                    CheckStep::TimedOut => (
                        Stage::Failed,
                        StartAction::KillCheckAndFail(StartError::new(CHECK_TIMED_OUT.to_string())),
                    ),
                    CheckStep::Lost => (
                        Stage::Failed,
                        StartAction::Fail(StartError::new(CHECK_LOST.to_string())),
                    ),
                }
            },
            StartEvent::CheckPrinted { stderr, stdout, path } => {
                let e = startup::check_rejected(stderr.as_str(), stdout.as_str(), path.as_str());
                (Stage::Failed, StartAction::Fail(e))
            },
            StartEvent::Launched(r) => match r {
                Ok(l) => {
                    self.process_started(l.pid, out);
                    self.attach_job(l.pid, &l.outcome, out);
                    let epoch: u64 = self.spawn_monitor();
                    let message = self.tunnel_up(clocks, l.now, out);
                    proof {
                        assert(out.deep_view() =~= before + effects_of(
                            old(self)@,
                            attempt,
                            stage.deep_view(),
                            event,
                        ));
                    }
                    (Stage::Done, StartAction::Watch { epoch, message })
                },
                Err(e) => (Stage::Failed, StartAction::Fail(e)),
            },
        }
    }
}

}
