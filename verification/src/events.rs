//! Lifecycle states of the VPN, and what a decision asks to be done.
use crate::json;
use crate::json::{json_of, Json};
use vstd::prelude::*;

verus! {

/// Lifecycle state of the VPN. A single enum (not scattered booleans), so the
/// UI and the backend can never disagree about what the VPN is doing.
#[derive(Debug, Clone, Copy, PartialEq, Eq, Structural)]
pub enum VpnState {
    Stopped,
    Starting,
    Running,
    Stopping,
}

impl VpnState {
    /// The label of a state.
    pub open spec fn label_of(self) -> Seq<char> {
        match self {
            VpnState::Stopped => "stopped"@,
            VpnState::Starting => "starting"@,
            VpnState::Running => "running"@,
            VpnState::Stopping => "stopping"@,
        }
    }

    /// Textual label, for the UI and for logs.
    pub fn label(self) -> (s: &'static str)
        ensures
            s@ == self.label_of(),
    {
        match self {
            VpnState::Stopped => "stopped",
            VpnState::Starting => "starting",
            VpnState::Running => "running",
            VpnState::Stopping => "stopping",
        }
    }
}

/// Different states have different labels.
pub proof fn law_labels_tell_states_apart(a: VpnState, b: VpnState)
    requires
        a.label_of() == b.label_of(),
    ensures
        a == b,
{
    reveal_strlit("stopped");
    reveal_strlit("starting");
    reveal_strlit("running");
    reveal_strlit("stopping");
    assert("stopped"@.len() == 7 && "starting"@.len() == 8 && "running"@.len() == 7
        && "stopping"@.len() == 8);
    assert("stopped"@[0] == 's' && "running"@[0] == 'r');
    assert("starting"@[2] == 'a' && "stopping"@[2] == 'o');
}

/// What the frontend is told. `T` is the type of texts: `String` in a program,
/// `Seq<char>` in contracts.
#[derive(Debug, PartialEq, Eq)]
pub enum Event<T> {
    /// The state of the VPN.
    State(VpnState),
    /// The connection was lost and another try begins.
    Reconnecting(T),
    /// The VPN is down for good, with the reason.
    Down(T),
    /// A request was refused or has failed.
    Error(T),
}

/// What is to be done outside, in order.
#[derive(Debug, PartialEq, Eq)]
pub enum Effect<T> {
    /// Append to the debug log, with the time.
    Log(T),
    /// Write a line to the standard error stream.
    Stderr(T),
    /// Tell the frontend.
    Emit(Event<T>),
    /// Kill the sing-box process and wait for it.
    KillChild,
    /// Close the job object, which kills what is assigned to it.
    CloseJob,
}

impl DeepView for Event<String> {
    type V = Event<Seq<char>>;

    open spec fn deep_view(&self) -> Event<Seq<char>> {
        match *self {
            Event::State(s) => Event::State(s),
            Event::Reconnecting(m) => Event::Reconnecting(m@),
            Event::Down(m) => Event::Down(m@),
            Event::Error(m) => Event::Error(m@),
        }
    }
}

impl DeepView for Effect<String> {
    type V = Effect<Seq<char>>;

    open spec fn deep_view(&self) -> Effect<Seq<char>> {
        match *self {
            Effect::Log(m) => Effect::Log(m@),
            Effect::Stderr(m) => Effect::Stderr(m@),
            Effect::Emit(e) => Effect::Emit(e.deep_view()),
            Effect::KillChild => Effect::KillChild,
            Effect::CloseJob => Effect::CloseJob,
        }
    }
}

/// The channel that an event is sent on.
pub open spec fn channel_of(e: Event<Seq<char>>) -> Seq<char> {
    match e {
        Event::Error(_) => "vpn-error"@,
        _ => "vpn-state"@,
    }
}

/// The payload of an event.
pub open spec fn payload_of(e: Event<Seq<char>>) -> Json {
    match e {
        Event::State(s) => Json::object().with("state"@, Json::Str(s.label_of())),
        Event::Reconnecting(m) => Json::object().with("state"@, Json::Str("reconnecting"@)).with(
            "message"@,
            Json::Str(m),
        ),
        Event::Down(m) => Json::object().with("state"@, Json::Str("stopped"@)).with(
            "message"@,
            Json::Str(m),
        ),
        Event::Error(m) => Json::object().with("message"@, Json::Str(m)),
    }
}

/// What the frontend hears of a state is the label of that state.
pub proof fn law_state_events_carry_the_label(s: VpnState)
    ensures
        payload_of(Event::State(s)).member("state"@) == Json::Str(s.label_of()),
        channel_of(Event::State(s)) == "vpn-state"@,
{
}

impl Event<String> {
    /// The channel that the event is sent on.
    pub fn channel(&self) -> (s: &'static str)
        ensures
            s@ == channel_of(self.deep_view()),
    {
        match self {
            Event::Error(_) => "vpn-error",
            _ => "vpn-state",
        }
    }

    /// The payload of the event.
    pub fn payload(&self) -> (r: serde_json::Value)
        ensures
            json_of(r) == payload_of(self.deep_view()),
    {
        match self {
            Event::State(s) => {
                let s: VpnState = *s;
                json::with(json::object(), "state", json::string(s.label()))
            },
            Event::Reconnecting(m) => {
                let v = json::with(json::object(), "state", json::string("reconnecting"));
                json::with(v, "message", json::string(m.as_str()))
            },
            Event::Down(m) => {
                let v = json::with(json::object(), "state", json::string("stopped"));
                json::with(v, "message", json::string(m.as_str()))
            },
            Event::Error(m) => json::with(json::object(), "message", json::string(m.as_str())),
        }
    }
}

/// Appends an effect.
pub(crate) fn note(out: &mut Vec<Effect<String>>, e: Effect<String>)
    ensures
        final(out).deep_view() == old(out).deep_view().push(e.deep_view()),
{
    let ghost before = out.deep_view();
    out.push(e);
    proof {
        assert(out.deep_view() =~= before.push(e.deep_view()));
    }
}

}
