//! What the frontend is told when it asks.
use crate::classify::{classify_effects, error_category, StartError};
use crate::events::Effect;
use crate::manager::{failure_effects, ChildPoll, Clocks, Manager, ProxyManager};
use crate::text;
use crate::text::{last_items, lines_from};
use crate::traffic;
use crate::traffic::{body_totals, growth, minus, next_sample, Growth, TrafficSample};
use crate::vpn_config::Config;
use vstd::prelude::*;
use vstd::string::*;

verus! {

/// Most log lines that a status report holds.
pub const LOG_LINE_LIMIT: usize = 100;

/// Nanoseconds in a second.
pub const NANOS_PER_SEC: u64 = 1_000_000_000;

/// The end of the log as it was last read, and when that was: in nanoseconds
/// since the Unix epoch.
pub struct LogCache {
    pub read_at: u64,
    pub lines: Vec<String>,
}

impl LogCache {
    /// A cache ahead of the first read.
    pub fn new() -> (c: LogCache)
        ensures
            c.read_at == 0,
            c.lines.deep_view() == Seq::<Seq<char>>::empty(),
    {
        let lines: Vec<String> = Vec::new();
        proof {
            assert(lines.deep_view() =~= Seq::<Seq<char>>::empty());
        }
        LogCache { read_at: 0, lines }
    }

    /// The log has changed since it was read, or nothing of it was read yet.
    pub open spec fn outdated(self, modified: Option<u64>) -> bool {
        match modified {
            Some(m) => self.lines@.len() == 0 || m > self.read_at,
            None => false,
        }
    }

    /// Whether the log is to be read again; `modified` is when it last changed,
    /// where that is known.
    pub fn needs_refresh(&self, modified: Option<u64>) -> (r: bool)
        ensures
            r == self.outdated(modified),
    {
        match modified {
            Some(m) => self.lines.len() == 0 || m > self.read_at,
            None => false,
        }
    }

    /// Keeps the end of a log that was read at `now`.
    pub fn refresh(&mut self, content: &str, now: u64)
        ensures
            final(self).read_at == now,
            final(self).lines.deep_view() == log_tail(content@),
    {
        self.lines = text::last_lines(content, LOG_LINE_LIMIT);
        self.read_at = now;
    }
}

/// The end of a log that a status report holds.
pub open spec fn log_tail(content: Seq<char>) -> Seq<Seq<char>> {
    last_items(lines_from(content, 0), LOG_LINE_LIMIT as nat)
}

/// A status report never holds more than its limit of log lines.
pub proof fn law_log_tail_is_bounded(content: Seq<char>)
    ensures
        log_tail(content).len() <= LOG_LINE_LIMIT,
        lines_from(content, 0).len() <= LOG_LINE_LIMIT ==> log_tail(content) == lines_from(
            content,
            0,
        ),
        forall|k: int|
            0 <= k < log_tail(content).len() ==> #[trigger] log_tail(content)[k] == lines_from(
                content,
                0,
            )[lines_from(content, 0).len() - log_tail(content).len() + k],
{
}

/// The whole status.
pub struct FullStatus {
    pub running: bool,
    pub mode: String,
    pub server: Option<String>,
    pub uptime_secs: u64,
    pub pid: Option<u32>,
    /// Bytes per second.
    pub traffic_up: u64,
    pub traffic_down: u64,
    pub total_up: u64,
    pub total_down: u64,
    pub log_lines: Vec<String>,
}

/// What the program saw while it gathered a status.
pub struct Observed {
    /// The status of the process; it says nothing where there is none.
    pub poll: ChildPoll,
    /// The protocol of the selected profile.
    pub mode: String,
    /// The host name of the server.
    pub server: String,
    /// The time on the clock that the tunnel's start is told by.
    pub now: u64,
    /// When the log last changed.
    pub log_modified: Option<u64>,
    /// The contents of the log, where it was read.
    pub log_content: Option<String>,
    /// The time since the Unix epoch.
    pub wall_now: u64,
    /// The answer of the Clash API, where there was one.
    pub body: Option<Vec<u8>>,
}

/// Seconds since the tunnel came up; 0 where it did not.
pub open spec fn uptime(started_at: Option<u64>, now: u64) -> u64 {
    match started_at {
        Some(s) => (minus(now, s) / NANOS_PER_SEC) as u64,
        None => 0,
    }
}

/// The lines of a status report.
pub open spec fn reported_lines(cache: LogCache, seen: Observed) -> Seq<Seq<char>> {
    if cache.outdated(seen.log_modified) && seen.log_content is Some {
        log_tail(seen.log_content->0@)
    } else {
        cache.lines.deep_view()
    }
}

/// The traffic of a status report.
pub open spec fn reported_totals(clocks: Clocks, seen: Observed) -> (u64, u64) {
    if clocks.is_running_cache {
        body_totals(
            match seen.body {
                Some(b) => Some(b@),
                None => None,
            },
        )
    } else {
        (0, 0)
    }
}

/// The report on a tunnel that is not up.
pub open spec fn reports_idle(s: FullStatus, mode: Seq<char>) -> bool {
    &&& !s.running
    &&& s.mode@ == mode
    &&& s.server is None
    &&& s.uptime_secs == 0
    &&& s.pid is None
    &&& s.traffic_up == 0 && s.traffic_down == 0
    &&& s.total_up == 0 && s.total_down == 0
    &&& s.log_lines.deep_view() == Seq::<Seq<char>>::empty()
}

/// The report on a tunnel that is up, but for the rates.
pub open spec fn reports_running(s: FullStatus, before: AppState, seen: Observed) -> bool {
    &&& s.running
    &&& s.mode@ == seen.mode@
    &&& s.server is Some && s.server->0@ == seen.server@
    &&& s.uptime_secs == uptime(before.clocks.started_at, seen.now)
    &&& s.pid == before.proxy@.child
    &&& (s.total_up, s.total_down) == reported_totals(before.clocks, seen)
    &&& s.log_lines.deep_view() == reported_lines(before.cached_log, seen)
}

/// The state that the frontend's requests share.
pub struct AppState {
    pub proxy: ProxyManager,
    pub clocks: Clocks,
    pub prev_sample: Option<TrafficSample>,
    pub cached_log: LogCache,
}

/// What a request for the status comes to: the report, what its rates are made of,
/// and what is kept for the next one.
pub open spec fn reports(
    before: AppState,
    after: AppState,
    seen: Observed,
    s: FullStatus,
    rates: Option<Growth>,
) -> bool {
    if before.proxy@.alive(seen.poll) {
        let total = reported_totals(before.clocks, seen);
        &&& reports_running(s, before, seen)
        &&& rates == growth(before.prev_sample, total, seen.now)
        &&& after.prev_sample == Some(next_sample(before.prev_sample, total, seen.now))
        &&& after.cached_log.lines.deep_view() == reported_lines(before.cached_log, seen)
        &&& after.cached_log.read_at == (if before.cached_log.outdated(seen.log_modified)
            && seen.log_content is Some {
            seen.wall_now
        } else {
            before.cached_log.read_at
        })
    } else {
        &&& reports_idle(s, seen.mode@)
        &&& rates is None
        &&& after.prev_sample == before.prev_sample
        &&& after.cached_log == before.cached_log
    }
}

/// What a request to start is answered, and when the tunnel counts as up.
pub open spec fn answers_start(
    before: AppState,
    after: AppState,
    result: Result<String, StartError>,
    poll: ChildPoll,
    now: u64,
    answer: Result<String, String>,
) -> bool {
    match result {
        Ok(msg) => {
            &&& answer matches Ok(m) && m@ == msg@
            &&& after.clocks == (Clocks {
                started_at: Some(now),
                is_running_cache: before.proxy@.alive(poll),
            })
            &&& after.proxy@ == before.proxy@.polled(poll)
        },
        Err(e) => {
            &&& answer matches Err(m) && m@ == error_category(e).message_of()
            &&& after.clocks == (Clocks { started_at: None, is_running_cache: false })
            &&& after.proxy@ == before.proxy@
        },
    }
}

/// What a request to start is answered once the startup has failed.
pub open spec fn answers_failure(
    before: AppState,
    after: AppState,
    err: StartError,
    answer: String,
) -> bool {
    &&& answer@ == error_category(err).message_of()
    &&& after.proxy@ == before.proxy@.reset()
    &&& after.clocks == (Clocks { started_at: None, is_running_cache: false })
    &&& after.prev_sample == before.prev_sample
    &&& after.cached_log == before.cached_log
}

/// What a request to stop is answered once the stop is through.
pub open spec fn answers_stop(before: AppState, after: AppState, answer: String) -> bool {
    &&& answer@ == "Stopped"@
    &&& after.proxy@ == before.proxy@
    &&& after.clocks == (Clocks { started_at: None, is_running_cache: false })
    &&& after.prev_sample is None
    &&& after.cached_log == before.cached_log
}

fn copy_lines(lines: &Vec<String>) -> (r: Vec<String>)
    ensures
        r.deep_view() == lines.deep_view(),
{
    let mut r: Vec<String> = Vec::new();
    let mut i: usize = 0;
    while i < lines.len()
        invariant
            i <= lines.len(),
            r.deep_view() == lines.deep_view().take(i as int),
        decreases lines.len() - i,
    {
        let ghost before = r.deep_view();
        r.push(lines[i].clone());
        proof {
            assert(r.deep_view() =~= before.push(lines@[i as int]@));
            assert(lines.deep_view().take(i + 1) =~= lines.deep_view().take(i as int).push(
                lines@[i as int]@,
            ));
        }
        i = i + 1;
    }
    proof {
        assert(lines.deep_view().take(lines.len() as int) =~= lines.deep_view());
    }
    r
}

impl AppState {
    /// The state ahead of any request.
    pub fn new(config: Config) -> (s: AppState)
        ensures
            s.proxy@ == Manager::initial(config),
            s.clocks == (Clocks { started_at: None, is_running_cache: false }),
            s.prev_sample is None,
            s.cached_log.read_at == 0,
            s.cached_log.lines.deep_view() == Seq::<Seq<char>>::empty(),
    {
        AppState {
            proxy: ProxyManager::new(config),
            clocks: Clocks { started_at: None, is_running_cache: false },
            prev_sample: None,
            cached_log: LogCache::new(),
        }
    }

    /// Seconds since the tunnel came up.
    pub fn get_uptime(&self, now: u64) -> (r: u64)
        ensures
            r == uptime(self.clocks.started_at, now),
    {
        match self.clocks.started_at {
            Some(s) => if now >= s {
                (now - s) / NANOS_PER_SEC
            } else {
                0
            },
            None => 0,
        }
    }

    /// The label of the lifecycle state.
    pub fn get_vpn_state(&self) -> (r: String)
        ensures
            r@ == self.proxy@.state.label_of(),
    {
        self.proxy.state().label().to_string()
    }

    /// What a request to start is answered, once the startup has come to
    /// `result`.
    pub fn start_proxy_inner(
        &mut self,
        result: Result<String, StartError>,
        poll: ChildPoll,
        now: u64,
        out: &mut Vec<Effect<String>>,
    ) -> (r: Result<String, String>)
        ensures
            final(self).prev_sample == old(self).prev_sample,
            final(self).cached_log == old(self).cached_log,
            answers_start(*old(self), *final(self), result, poll, now, r),
            final(out).deep_view() == old(out).deep_view() + match result {
                Ok(_) => old(self).proxy@.poll_effects(poll),
                Err(e) => classify_effects(error_category(e), e.detail@),
            },
    {
        match result {
            Ok(msg) => {
                self.clocks.started_at = Some(now);
                let alive = self.proxy.is_running(poll, out);
                self.clocks.is_running_cache = alive;
                Ok(msg)
            },
            Err(e) => {
                let friendly = self.proxy.classify_error(&e, out);
                self.clocks.is_running_cache = false;
                self.clocks.started_at = None;
                Err(friendly)
            },
        }
    }

    /// The startup has failed: the tunnel is down, and so are its clocks. Returns
    /// what a request to start is answered.
    pub fn start_failed(&mut self, err: &StartError, out: &mut Vec<Effect<String>>) -> (r: String)
        ensures
            answers_failure(*old(self), *final(self), *err, r),
            final(out).deep_view() == old(out).deep_view() + failure_effects(
                old(self).proxy@,
                *err,
            ),
    {
        self.clocks.started_at = None;
        self.clocks.is_running_cache = false;
        self.proxy.start_failed(err, out)
    }

    /// What a request to stop is answered, once the stop is through: stopping
    /// what is stopped is a stop too.
    pub fn stop_proxy_inner(&mut self) -> (r: String)
        ensures
            answers_stop(*old(self), *final(self), r),
    {
        self.clocks.started_at = None;
        self.prev_sample = None;
        self.clocks.is_running_cache = false;
        "Stopped".to_string()
    }

    /// The whole status, with rates of 0, and what the rates are made of. The
    /// log counts only where it changed since it was last read, and the answer
    /// of the Clash API only where the tunnel is believed to be up.
    pub fn get_full_status(&mut self, seen: &Observed, out: &mut Vec<Effect<String>>) -> (r: (
        FullStatus,
        Option<Growth>,
    ))
        ensures
            final(self).proxy@ == old(self).proxy@.polled(seen.poll),
            final(out).deep_view() == old(out).deep_view() + old(self).proxy@.poll_effects(
                seen.poll,
            ),
            final(self).clocks == old(self).clocks,
            r.0.traffic_up == 0 && r.0.traffic_down == 0,
            reports(*old(self), *final(self), *seen, r.0, r.1),
    {
        let running = self.proxy.is_running(seen.poll, out);
        let pid = self.proxy.pid();
        if !running {
            let lines: Vec<String> = Vec::new();
            proof {
                assert(lines.deep_view() =~= Seq::<Seq<char>>::empty());
            }
            return (
                FullStatus {
                    running: false,
                    mode: seen.mode.clone(),
                    server: None,
                    uptime_secs: 0,
                    pid: None,
                    traffic_up: 0,
                    traffic_down: 0,
                    total_up: 0,
                    total_down: 0,
                    log_lines: lines,
                },
                None,
            );
        }
        let uptime_secs: u64 = self.get_uptime(seen.now);
        if self.cached_log.needs_refresh(seen.log_modified) {
            if let Some(content) = &seen.log_content {
                self.cached_log.refresh(content.as_str(), seen.wall_now);
            }
        }
        let log_lines = copy_lines(&self.cached_log.lines);
        let total: (u64, u64) = if self.clocks.is_running_cache {
            match &seen.body {
                Some(b) => traffic::totals_of_body(Some(b.as_slice())),
                None => traffic::totals_of_body(None),
            }
        } else {
            (0, 0)
        };
        let grown = traffic::sample(&mut self.prev_sample, total, seen.now);
        (
            FullStatus {
                running: true,
                mode: seen.mode.clone(),
                server: Some(seen.server.clone()),
                uptime_secs,
                pid,
                traffic_up: 0,
                traffic_down: 0,
                total_up: total.0,
                total_down: total.1,
                log_lines,
            },
            grown,
        )
    }
}

}
