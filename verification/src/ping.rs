//! Round trips through the tunnel.
use crate::text;
use crate::text::decimal_of;
use vstd::prelude::*;
use vstd::string::*;

verus! {

/// What is requested for a round trip: an answer without a body.
pub const PING_TARGET: &'static str = "http://www.gstatic.com/generate_204";

/// How long a round trip may take, in seconds.
pub const PING_TIMEOUT_SECS: u64 = 2;

/// How `reqwest::StatusCode` displays a status code.
pub uninterp spec fn status_line(code: u16) -> Seq<char>;

/// `StatusCode::from_u16` and its `Display`: the text of a status code of three
/// digits; other numbers are none.
#[verifier::external_body]
fn status_text(code: u16) -> (r: Option<String>)
    ensures
        match r {
            Some(s) => 100 <= code <= 999 && s@ == status_line(code),
            None => !(100 <= code <= 999),
        },
{
    reqwest::StatusCode::from_u16(code).ok().map(|s| s.to_string())
}

/// What came of a round trip.
pub enum PingOutcome {
    /// The request could not be sent or answered, for this reason.
    Failed(String),
    /// There was an answer with this status code, after this many microseconds.
    Answered { code: u16, micros: u64 },
}

/// The status code tells of success.
pub open spec fn is_success(code: u16) -> bool {
    200 <= code < 300
}

/// Whether a round trip can be made: only through a tunnel that is believed to
/// be up.
pub fn may_ping(is_running_cache: bool) -> (r: Result<(), String>)
    ensures
        is_running_cache ==> r is Ok,
        !is_running_cache ==> (r matches Err(e) && e@ == "VPN not connected"@),
{
    if is_running_cache {
        Ok(())
    } else {
        Err("VPN not connected".to_string())
    }
}

/// What the user is told of a status code that has the text `status`.
pub open spec fn reply_to(code: u16, status: Seq<char>, micros: u64) -> Result<
    Seq<char>,
    Seq<char>,
> {
    if is_success(code) {
        Ok(decimal_of((micros / 1000) as nat) + "ms"@)
    } else {
        Err("bad status: "@ + status)
    }
}

/// What the user is told of a round trip.
pub open spec fn ping_reply(outcome: PingOutcome) -> Result<Seq<char>, Seq<char>> {
    match outcome {
        PingOutcome::Failed(e) => Err("ping failed: "@ + e@),
        PingOutcome::Answered { code, micros } => reply_to(code, status_line(code), micros),
    }
}

/// The reply, as contracts speak of it.
pub open spec fn reply_view(r: Result<String, String>) -> Result<Seq<char>, Seq<char>> {
    match r {
        Ok(s) => Ok(s@),
        Err(e) => Err(e@),
    }
}

/// What the user is told of a status code that has this text.
pub fn status_reply(code: u16, status: &str, micros: u64) -> (r: Result<String, String>)
    ensures
        reply_view(r) == reply_to(code, status@, micros),
{
    if code < 200 || code >= 300 {
        return Err("bad status: ".to_string().concat(status));
    }
    Ok(text::decimal(micros / 1000).concat("ms"))
}

/// What the user is told of a round trip.
pub fn real_ping(outcome: &PingOutcome) -> (r: Result<String, String>)
    requires
        outcome matches PingOutcome::Answered { code, .. } ==> 100 <= *code <= 999,
    ensures
        reply_view(r) == ping_reply(*outcome),
{
    match outcome {
        PingOutcome::Failed(e) => Err("ping failed: ".to_string().concat(e.as_str())),
        PingOutcome::Answered { code, micros } => {
            let code: u16 = *code;
            let micros: u64 = *micros;
            match status_text(code) {
                Some(s) => status_reply(code, s.as_str(), micros),
                None => status_reply(code, "", micros),
            }
        },
    }
}

}
