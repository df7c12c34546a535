//! Bringing sing-box up and down: its configuration file, the validation run
//! ahead of the start, and the wait for its end.
use crate::classify::StartError;
use crate::events::{note, Effect};
use crate::json;
use crate::json::{json_of, pretty_text};
use crate::text;
use crate::text::trimmed;
use vstd::prelude::*;
use vstd::string::*;

verus! {

/// How long the validation run may take, in seconds.
pub const CHECK_TIMEOUT_SECS: u64 = 8;

/// How long a stop waits for the process, in seconds.
pub const STOP_TIMEOUT_SECS: u64 = 5;

/// Pause between two polls of a process that is waited for, in milliseconds.
pub const WAIT_POLL_MILLIS: u64 = 100;

/// Pause between two polls of the monitor, in milliseconds.
pub const MONITOR_POLL_MILLIS: u64 = 400;

/// Pause ahead of the first reconnect try, in milliseconds, so that what died is
/// fully gone.
pub const RECONNECT_SETTLE_MILLIS: u64 = 800;

/// What a validation run that could not be started is reported under.
pub const CHECK_CONTEXT: &'static str = "failed to run sing-box check";

/// What a validation run that did not end in time is reported as.
pub const CHECK_TIMED_OUT: &'static str = "Configuration validation timed out.\nThe server profile could not be verified. Try ShadowTLS, or reconnect on a different network.";

/// What a validation run whose status could not be read is reported as.
pub const CHECK_LOST: &'static str = "Configuration validation failed to run.";

/// Whether the configuration file has to be written: its contents are not
/// already this text.
pub fn needs_write(current: Option<&str>, config: &str) -> (r: bool)
    ensures
        r == !(current matches Some(c) && c@ == config@),
{
    match current {
        Some(c) => !text::same(c, config),
        None => true,
    }
}

/// The text of the configuration file.
pub fn config_text(v: &serde_json::Value) -> (r: String)
    ensures
        r@ == pretty_text(json_of(*v)),
{
    match json::to_pretty(v) {
        Ok(t) => t,
        Err(_) => String::new(),
    }
}

/// What the operating system says of the validation run.
#[derive(Debug, Clone, Copy, PartialEq, Eq, Structural)]
pub enum CheckPoll {
    /// It has ended, well or not.
    Ended { success: bool },
    /// It is still running.
    Alive,
    /// Its status could not be read.
    Failed,
}

/// What to do about the validation run.
#[derive(Debug, Clone, Copy, PartialEq, Eq, Structural)]
pub enum CheckStep {
    /// Poll again later.
    Wait,
    /// Go on with the start.
    Passed,
    /// Report what the run printed.
    Rejected,
    /// Kill the run, and report that it did not end in time.
    TimedOut,
    /// Report that its status could not be read.
    Lost,
}

/// What to do about the validation run, once its status was read.
pub open spec fn check_verdict(poll: CheckPoll, past_deadline: bool) -> CheckStep {
    match poll {
        CheckPoll::Ended { success } => if success {
            CheckStep::Passed
        } else {
            CheckStep::Rejected
        },
        CheckPoll::Alive => if past_deadline {
            CheckStep::TimedOut
        } else {
            CheckStep::Wait
        },
        CheckPoll::Failed => CheckStep::Lost,
    }
}

/// What to do about the validation run, once its status was read. A run that
/// hangs is cut off at its deadline.
pub fn check_step(poll: CheckPoll, past_deadline: bool) -> (r: CheckStep)
    ensures
        r == check_verdict(poll, past_deadline),
{
    match poll {
        CheckPoll::Ended { success } => if success {
            CheckStep::Passed
        } else {
            CheckStep::Rejected
        },
        CheckPoll::Alive => if past_deadline {
            CheckStep::TimedOut
        } else {
            CheckStep::Wait
        },
        CheckPoll::Failed => CheckStep::Lost,
    }
}

/// What a rejected configuration is reported as.
pub open spec fn rejection(stderr: Seq<char>, stdout: Seq<char>, path: Seq<char>) -> Seq<char> {
    "Config validation failed:\n"@ + trimmed(stderr + stdout) + "\nConfig: "@ + path
}

/// The failure of a validation run that printed this, on the file at `path`.
pub fn check_rejected(stderr: &str, stdout: &str, path: &str) -> (r: StartError)
    ensures
        r.message@ == rejection(stderr@, stdout@, path@),
        r.detail@ == r.message@,
{
    let printed = stderr.to_string().concat(stdout);
    let message = "Config validation failed:\n".to_string().concat(
        text::trim(printed.as_str()),
    ).concat("\nConfig: ").concat(path);
    StartError::new(message)
}

/// What the operating system says of a process that was killed.
pub enum ReapPoll {
    Ended,
    Alive,
    /// Its status could not be read, for this reason.
    Failed(String),
}

/// The wait for a killed process is over.
pub open spec fn wait_over(poll: ReapPoll, past_deadline: bool) -> bool {
    !(poll is Alive && !past_deadline)
}

/// The wait for a killed process ends without the process having ended.
pub open spec fn gives_up(poll: ReapPoll, past_deadline: bool) -> bool {
    poll is Failed || (poll is Alive && past_deadline)
}

/// What the log says of the wait, where it ends without the process having
/// ended.
pub open spec fn reap_effects(poll: ReapPoll, past_deadline: bool) -> Seq<Effect<Seq<char>>> {
    match poll {
        ReapPoll::Alive if past_deadline => seq![
            Effect::Log("[stop] sing-box did not exit within 5s; proceeding"@),
        ],
        ReapPoll::Failed(e) => seq![Effect::Log("[stop] wait error: "@ + e@)],
        _ => seq![],
    }
}

/// Whether the wait for a killed process is over. It never goes beyond the
/// deadline.
pub fn reap_step(
    poll: &ReapPoll,
    past_deadline: bool,
    out: &mut Vec<Effect<String>>,
) -> (done: bool)
    ensures
        done == wait_over(*poll, past_deadline),
        final(out).deep_view() == old(out).deep_view() + reap_effects(*poll, past_deadline),
{
    let ghost before = out.deep_view();
    let done = match poll {
        ReapPoll::Ended => true,
        ReapPoll::Alive => {
            if past_deadline {
                let line = "[stop] sing-box did not exit within 5s; proceeding".to_string();
                note(out, Effect::Log(line));
            }
            past_deadline
        },
        ReapPoll::Failed(e) => {
            note(out, Effect::Log("[stop] wait error: ".to_string().concat(e.as_str())));
            true
        },
    };
    proof {
        assert(out.deep_view() =~= before + reap_effects(*poll, past_deadline));
    }
    done
}

/// A line of the debug log.
pub open spec fn log_text(secs: nat, msg: Seq<char>) -> Seq<char> {
    "["@ + text::decimal_of(secs) + "] "@ + msg + "\n"@
}

/// The line of the debug log for a message, `secs` seconds into the Unix epoch.
pub fn log_line(secs: u64, msg: &str) -> (r: String)
    ensures
        r@ == log_text(secs as nat, msg@),
{
    "[".to_string().concat(text::decimal(secs).as_str()).concat("] ").concat(msg).concat("\n")
}

/// What is to be done about an earlier instance of the application.
#[derive(Debug, Clone, Copy, PartialEq, Eq, Structural)]
pub enum InstanceCheck {
    /// This is the only instance.
    Alone,
    /// It cannot be told; go on.
    Unknown,
    /// Another instance is running; exit.
    AlreadyRunning,
}

/// The error code of Windows for a named object that exists already.
pub const ERROR_ALREADY_EXISTS: u32 = 183;

/// Whether another instance holds the application's named mutex.
pub open spec fn instance_verdict(created: bool, last_error: u32) -> InstanceCheck {
    if !created {
        InstanceCheck::Unknown
    } else if last_error == ERROR_ALREADY_EXISTS {
        InstanceCheck::AlreadyRunning
    } else {
        InstanceCheck::Alone
    }
}

/// Whether another instance holds the application's named mutex: `created`
/// tells whether a handle to it was had, and `last_error` the error code then.
pub fn check_single_instance(created: bool, last_error: u32) -> (r: InstanceCheck)
    ensures
        r == instance_verdict(created, last_error),
{
    if !created {
        return InstanceCheck::Unknown;
    }
    if last_error == ERROR_ALREADY_EXISTS {
        return InstanceCheck::AlreadyRunning;
    }
    InstanceCheck::Alone
}

}
