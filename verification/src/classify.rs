//! Technical errors, and the short messages that a user gets to see.
use crate::events::{note, Effect};
use crate::text;
use crate::text::{lowercase_of, occurs};
use vstd::prelude::*;
use vstd::string::*;

verus! {

/// A failure on the way to a running tunnel.
pub struct StartError {
    /// What went wrong, at the outermost level.
    pub message: String,
    /// The whole chain of causes, outermost first.
    pub detail: String,
}

impl StartError {
    /// A failure without a further cause.
    pub fn new(message: String) -> (e: StartError)
        ensures
            e.message@ == message@,
            e.detail@ == message@,
    {
        let detail = message.clone();
        StartError { message, detail }
    }

    /// A failure in the course of `context`.
    pub fn in_context(context: &str, cause: &str) -> (e: StartError)
        ensures
            e.message@ == context@,
            e.detail@ == context@ + ": "@ + cause@,
    {
        StartError {
            message: context.to_string(),
            detail: context.to_string().concat(": ").concat(cause),
        }
    }
}

/// What a failure is about.
#[derive(Debug, Clone, Copy, PartialEq, Eq, Structural)]
pub enum Category {
    Permission,
    Connection,
    Resolution,
    Interface,
    Configuration,
    Binary,
    Generic,
}

/// Permission failures: the TUN interface needs an administrator.
pub open spec fn about_permission(msg: Seq<char>) -> bool {
    occurs(msg, "admin"@) || occurs(msg, "permission"@) || occurs(msg, "denied"@)
}

/// The server could not be reached.
pub open spec fn about_connection(msg: Seq<char>) -> bool {
    occurs(msg, "connection refused"@) || occurs(msg, "connect:"@) || occurs(msg, "no route"@)
        || occurs(msg, "timeout"@) || occurs(msg, "deadline"@) || occurs(msg, "handshake"@)
        || occurs(msg, "closed by peer"@)
}

/// The server's name could not be resolved.
pub open spec fn about_resolution(msg: Seq<char>) -> bool {
    occurs(msg, "resolve"@) || occurs(msg, "dns"@) || occurs(msg, "hostname"@) || occurs(
        msg,
        "no ips resolved"@,
    )
}

/// The network interface could not be set up.
pub open spec fn about_interface(msg: Seq<char>) -> bool {
    occurs(msg, "tun"@) || occurs(msg, "interface"@) || occurs(msg, "bind"@) || occurs(
        msg,
        "network"@,
    )
}

/// The configuration did not pass validation.
pub open spec fn about_configuration(msg: Seq<char>) -> bool {
    occurs(msg, "config"@) || occurs(msg, "validation"@) || occurs(msg, "check failed"@) || occurs(
        msg,
        "invalid"@,
    )
}

/// The sing-box program could not be started.
pub open spec fn about_binary(msg: Seq<char>) -> bool {
    occurs(msg, "sing-box"@) || occurs(msg, "spawn"@) || occurs(msg, "process"@) || occurs(
        msg,
        "exe"@,
    )
}

/// What a message in lower case is about: the first kind that it mentions.
pub open spec fn category_of(msg: Seq<char>) -> Category {
    if about_permission(msg) {
        Category::Permission
    } else if about_connection(msg) {
        Category::Connection
    } else if about_resolution(msg) {
        Category::Resolution
    } else if about_interface(msg) {
        Category::Interface
    } else if about_configuration(msg) {
        Category::Configuration
    } else if about_binary(msg) {
        Category::Binary
    } else {
        Category::Generic
    }
}

/// What a message in lower case is about.
pub fn categorize(msg: &str) -> (r: Category)
    ensures
        r == category_of(msg@),
{
    let m: Vec<char> = text::chars_of(msg);
    if text::contains(&m, "admin") || text::contains(&m, "permission") || text::contains(
        &m,
        "denied",
    ) {
        Category::Permission
    } else if text::contains(&m, "connection refused") || text::contains(&m, "connect:")
        || text::contains(&m, "no route") || text::contains(&m, "timeout") || text::contains(
        &m,
        "deadline",
    ) || text::contains(&m, "handshake") || text::contains(&m, "closed by peer") {
        Category::Connection
    } else if text::contains(&m, "resolve") || text::contains(&m, "dns") || text::contains(
        &m,
        "hostname",
    ) || text::contains(&m, "no ips resolved") {
        Category::Resolution
    } else if text::contains(&m, "tun") || text::contains(&m, "interface") || text::contains(
        &m,
        "bind",
    ) || text::contains(&m, "network") {
        Category::Interface
    } else if text::contains(&m, "config") || text::contains(&m, "validation") || text::contains(
        &m,
        "check failed",
    ) || text::contains(&m, "invalid") {
        Category::Configuration
    } else if text::contains(&m, "sing-box") || text::contains(&m, "spawn") || text::contains(
        &m,
        "process",
    ) || text::contains(&m, "exe") {
        Category::Binary
    } else {
        Category::Generic
    }
}

impl Category {
    /// What the user is told.
    pub open spec fn message_of(self) -> Seq<char> {
        match self {
            Category::Permission => "The VPN could not start because Windows permission was denied.\nPlease restart the application with administrator permissions."@,
            Category::Connection => "Could not connect to the VPN server.\nPlease check your internet connection or try again."@,
            Category::Resolution => "Could not resolve the VPN server.\nPlease check your internet connection and try again."@,
            Category::Interface => "Could not start the VPN network interface.\nPlease try restarting the application."@,
            Category::Configuration => "VPN configuration is invalid.\nPlease check the selected profile."@,
            Category::Binary => "The VPN could not start.\nPlease check the logs for more details."@,
            Category::Generic => "The VPN could not start.\nCheck the logs for more details."@,
        }
    }

    /// What the user is told.
    pub fn message(self) -> (s: &'static str)
        ensures
            s@ == self.message_of(),
    {
        match self {
            Category::Permission => "The VPN could not start because Windows permission was denied.\nPlease restart the application with administrator permissions.",
            Category::Connection => "Could not connect to the VPN server.\nPlease check your internet connection or try again.",
            Category::Resolution => "Could not resolve the VPN server.\nPlease check your internet connection and try again.",
            Category::Interface => "Could not start the VPN network interface.\nPlease try restarting the application.",
            Category::Configuration => "VPN configuration is invalid.\nPlease check the selected profile.",
            Category::Binary => "The VPN could not start.\nPlease check the logs for more details.",
            Category::Generic => "The VPN could not start.\nCheck the logs for more details.",
        }
    }

    /// How the log calls the kind.
    pub open spec fn tag_of(self) -> Seq<char> {
        match self {
            Category::Permission => "permission/access"@,
            Category::Connection => "connection/server"@,
            Category::Resolution => "dns/resolution"@,
            Category::Interface => "tun/network"@,
            Category::Configuration => "config"@,
            Category::Binary => "startup/binary"@,
            Category::Generic => "generic"@,
        }
    }

    /// How the log calls the kind.
    pub fn tag(self) -> (s: &'static str)
        ensures
            s@ == self.tag_of(),
    {
        match self {
            Category::Permission => "permission/access",
            Category::Connection => "connection/server",
            Category::Resolution => "dns/resolution",
            Category::Interface => "tun/network",
            Category::Configuration => "config",
            Category::Binary => "startup/binary",
            Category::Generic => "generic",
        }
    }
}

/// The kind of a failure: that of its message in lower case.
pub open spec fn error_category(err: StartError) -> Category {
    category_of(lowercase_of(err.message@))
}

/// The log line that keeps the whole failure of the kind `k`.
pub open spec fn classify_line(k: Category, detail: Seq<char>) -> Seq<char> {
    "[error-classify] "@ + k.tag_of() + ": "@ + detail
}

/// What keeps the whole failure of the kind `k`: a line of the log, and the same
/// line on the standard error stream.
pub open spec fn classify_effects(k: Category, detail: Seq<char>) -> Seq<Effect<Seq<char>>> {
    seq![Effect::Log(classify_line(k, detail)), Effect::Stderr(classify_line(k, detail))]
}

/// The message of the kind `k`, once the whole failure is in the log and on the
/// standard error stream.
pub fn report(k: Category, detail: &str, out: &mut Vec<Effect<String>>) -> (r: String)
    ensures
        r@ == k.message_of(),
        final(out).deep_view() == old(out).deep_view() + classify_effects(k, detail@),
{
    let ghost before = out.deep_view();
    let line = "[error-classify] ".to_string().concat(k.tag()).concat(": ").concat(detail);
    note(out, Effect::Log(line.clone()));
    note(out, Effect::Stderr(line));
    proof {
        assert(out.deep_view() =~= before + classify_effects(k, detail@));
    }
    k.message().to_string()
}

/// Classifies a technical error into a short, non-technical message. The
/// original error is always preserved in the log and on the standard error
/// stream, so nothing is thrown away.
pub fn classify(err: &StartError, out: &mut Vec<Effect<String>>) -> (r: String)
    ensures
        r@ == error_category(*err).message_of(),
        final(out).deep_view() == old(out).deep_view() + classify_effects(
            error_category(*err),
            err.detail@,
        ),
        vstd::utf8::is_ascii_chars(err.message@) ==> r@ == category_of(
            err.message@.map_values(|c: char| text::ascii_lower(c)),
        ).message_of(),
{
    let msg = text::lowercase(err.message.as_str());
    report(categorize(msg.as_str()), err.detail.as_str(), out)
}

/// The log keeps every character of the failure's chain of causes.
pub proof fn law_log_keeps_the_failure(k: Category, detail: Seq<char>)
    ensures
        text::has_suffix(classify_line(k, detail), detail),
        occurs(classify_line(k, detail), detail),
{
    let line = classify_line(k, detail);
    let start = line.len() - detail.len();
    assert(line.skip(start) =~= detail);
    assert(line.subrange(start, start + detail.len()) =~= detail);
    assert(text::occurs_at(line, detail, start));
}

}
