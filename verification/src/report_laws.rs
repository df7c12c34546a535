//! What the status, the traffic, a round trip, the settings, the tray icon and an
//! unpacked release come to.
use crate::binary::{
    decides, finds_first, is_binary, is_stale_output, name_of, release_data, release_names,
    tells_other_version, unpacked, unpacks, zip_entry_data, zip_entry_name, zip_len, zip_refusal,
    UnpackError, Unpacked,
};
use crate::classify::{error_category, StartError};
use crate::events::VpnState;
use crate::json::Json;
use crate::manager::{ChildPoll, Reconnect};
use crate::ping::{is_success, ping_reply, reply_to, status_line, PingOutcome};
use crate::settings::{
    answers_mode, answers_preset, answers_settings, ending_of, needs_reconnect, preset, profile_list, protocol_of,
    server_of, speeds_tree, split_tree, ModeChange, SettingsPlan, SettingsRequest,
};
use crate::status::{
    answers_failure, answers_start, answers_stop, log_tail, reports, uptime, AppState, FullStatus, LogCache, Observed,
};
use crate::text::{decimal_of, has_suffix, lines_from};
use crate::traffic::{
    body_totals, counter_sum, growth, next_sample, totals, Growth, TrafficSample,
};
use crate::tray::{
    action_of, menu_of, startup_menu_of, tooltip_of, MenuAction, MenuEntry,
};
use vstd::prelude::*;

verus! {

// ── JSON ───────────────────────────────────────────────────────────

/// A member that is set is the one that is read; all others stay, and what was not
/// set is null.
pub proof fn law_what_is_set_is_read(v: Json, key: Seq<char>, other: Seq<char>, x: Json)
    requires
        v is Obj,
    ensures
        v.with(key, x).member(key) == x,
        other != key ==> v.with(key, x).member(other) == v.member(other),
        Json::object().member(key) == Json::Null,
{
}

// ── traffic ────────────────────────────────────────────────────────

/// The counter `key` of a JSON value: its number, where it is one of 64 bits without
/// sign, and else 0.
pub open spec fn reading(v: Json, key: Seq<char>) -> int {
    match v.member(key) {
        Json::Int(n) => if 0 <= n <= 0xffff_ffff_ffff_ffff {
            n
        } else {
            0
        },
        _ => 0,
    }
}

/// Every connection counts, however many there are: the sum over two lists is the
/// sum of their sums, and that over one connection is its counter.
pub proof fn law_every_connection_counts(a: Seq<Json>, b: Seq<Json>, x: Json, key: Seq<char>)
    ensures
        counter_sum(a + b, key) == counter_sum(a, key) + counter_sum(b, key),
        counter_sum(a.push(x), key) == counter_sum(a, key) + reading(x, key),
        counter_sum(seq![x], key) == reading(x, key),
        counter_sum(Seq::empty(), key) == 0,
    decreases b.len(),
{
    assert(a.push(x).drop_last() =~= a);
    assert(a.push(x).last() == x);
    assert(seq![x].drop_last() =~= Seq::<Json>::empty());
    assert(seq![x].last() == x);
    assert(counter_sum(Seq::<Json>::empty(), key) == 0);
    if b.len() == 0 {
        assert(a + b =~= a);
    } else {
        law_every_connection_counts(a, b.drop_last(), x, key);
        assert((a + b).drop_last() =~= a + b.drop_last());
        assert((a + b).last() == b.last());
    }
}

/// The number, or the largest one of 64 bits where it is larger.
pub open spec fn at_most_64_bits(n: int) -> int {
    if n > 0xffff_ffff_ffff_ffff {
        0xffff_ffff_ffff_ffff
    } else {
        n
    }
}

/// The overall counters are the totals unless both are 0; the totals are then the
/// sums over the connections, sent and received each for itself.
pub proof fn law_where_the_totals_come_from(v: Json)
    ensures
        (reading(v, "upload_total"@) != 0 || reading(v, "download_total"@) != 0) ==> totals(v).0
            == reading(v, "upload_total"@) && totals(v).1 == reading(v, "download_total"@),
        (reading(v, "upload_total"@) == 0 && reading(v, "download_total"@) == 0) ==> match v.member(
            "connections"@,
        ) {
            Json::Arr(items) => totals(v).0 == at_most_64_bits(
                counter_sum(items, "upload"@) as int,
            ) && totals(v).1 == at_most_64_bits(counter_sum(items, "download"@) as int),
            _ => totals(v) == (0u64, 0u64),
        },
{
}

/// One more connection raises the totals by its counters, up to the largest number.
pub proof fn law_one_more_connection_raises_the_totals(v: Json, w: Json, a: Seq<Json>, x: Json)
    requires
        reading(v, "upload_total"@) == 0 && reading(v, "download_total"@) == 0,
        reading(w, "upload_total"@) == 0 && reading(w, "download_total"@) == 0,
        v.member("connections"@) == Json::Arr(a),
        w.member("connections"@) == Json::Arr(a.push(x)),
    ensures
        totals(w).0 == at_most_64_bits(totals(v).0 + reading(x, "upload"@)),
        totals(w).1 == at_most_64_bits(totals(v).1 + reading(x, "download"@)),
{
    law_every_connection_counts(a, seq![], x, "upload"@);
    law_every_connection_counts(a, seq![], x, "download"@);
}

/// No answer of the Clash API, or one that is no JSON, comes to nothing.
pub proof fn law_an_answer_that_cannot_be_read_counts_nothing(body: Option<Seq<u8>>)
    ensures
        body is None ==> body_totals(body) == (0u64, 0u64),
        (body is Some && crate::json::parsed(body->0) is None) ==> body_totals(body) == (0u64, 0u64),
        (body is Some && crate::json::parsed(body->0) is Some) ==> body_totals(body) == totals(
            crate::json::parsed(body->0)->0,
        ),
{
}

/// The growth between two readings: more than half a second apart, each counter by
/// itself, and nothing where a counter fell. The next reading is compared with this
/// one, unless this one came too soon.
pub proof fn law_growth_is_between_two_readings(
    prev: TrafficSample,
    total: (u64, u64),
    now: u64,
)
    ensures
        growth(None, total, now) is None,
        next_sample(None, total, now) == (TrafficSample { total, time: now }),
        now - prev.time > 500_000_000 ==> {
            &&& growth(Some(prev), total, now) is Some
            &&& growth(Some(prev), total, now)->0.nanos == now - prev.time
            &&& total.0 >= prev.total.0 ==> growth(Some(prev), total, now)->0.up == total.0
                - prev.total.0
            &&& total.0 < prev.total.0 ==> growth(Some(prev), total, now)->0.up == 0
            &&& total.1 >= prev.total.1 ==> growth(Some(prev), total, now)->0.down == total.1
                - prev.total.1
            &&& total.1 < prev.total.1 ==> growth(Some(prev), total, now)->0.down == 0
            &&& next_sample(Some(prev), total, now) == (TrafficSample { total, time: now })
        },
        now - prev.time <= 500_000_000 ==> growth(Some(prev), total, now) is None && next_sample(
            Some(prev),
            total,
            now,
        ) == prev,
{
}

// ── status ─────────────────────────────────────────────────────────

/// The uptime is the number of whole seconds since the tunnel came up, however many
/// they are, and never falls.
pub proof fn law_uptime_counts_whole_seconds(started: u64, now: u64, later: u64)
    requires
        started <= now <= later,
    ensures
        uptime(Some(started), now) * 1_000_000_000 <= now - started,
        now - started < (uptime(Some(started), now) + 1) * 1_000_000_000,
        uptime(Some(started), now) <= uptime(Some(started), later),
        uptime(None, now) == 0,
{
}

/// A tunnel that came up later than now has no uptime yet.
pub proof fn law_uptime_begins_at_the_start(started: u64, now: u64)
    requires
        now < started,
    ensures
        uptime(Some(started), now) == 0,
{
}

/// The log is read again where it changed since, or where nothing is kept of it; a
/// log whose time is not known is not.
pub proof fn law_when_the_log_is_outdated(c: LogCache, modified: u64)
    ensures
        c.outdated(Some(modified)) <==> c.lines@.len() == 0 || modified > c.read_at,
        !c.outdated(None),
{
}

/// The report holds the last 100 lines of the log, or all where there are fewer, in
/// their order.
pub proof fn law_the_report_holds_the_last_lines(content: Seq<char>)
    ensures
        ({
            let all = lines_from(content, 0);
            let kept = log_tail(content);
            &&& all.len() <= 100 ==> kept == all
            &&& all.len() > 100 ==> kept.len() == 100
            &&& forall|i: int|
                0 <= i < kept.len() ==> #[trigger] kept[i] == all[all.len() - kept.len() + i]
        }),
{
}

/// A report on a tunnel that is up: the process, the uptime and the settings are those
/// of the tunnel, the lines are fresh where the log changed and could be read, and the
/// traffic counts where the tunnel is believed to be up.
pub proof fn law_what_is_reported_of_a_running_tunnel(
    before: AppState,
    after: AppState,
    seen: Observed,
    s: FullStatus,
    rates: Option<Growth>,
)
    requires
        reports(before, after, seen, s, rates),
        before.proxy@.child is Some,
        seen.poll == ChildPoll::Alive,
    ensures
        s.running,
        s.pid == before.proxy@.child,
        s.mode@ == seen.mode@,
        s.server is Some && s.server->0@ == seen.server@,
        before.clocks.started_at is None ==> s.uptime_secs == 0,
        (before.clocks.started_at is Some && before.clocks.started_at->0 <= seen.now) ==> {
            let since = seen.now - before.clocks.started_at->0;
            s.uptime_secs * 1_000_000_000 <= since && since < (s.uptime_secs + 1) * 1_000_000_000
        },
        (seen.log_modified is Some && (before.cached_log.lines@.len() == 0 || seen.log_modified->0
            > before.cached_log.read_at) && seen.log_content is Some) ==> {
            &&& s.log_lines.deep_view() == log_tail(seen.log_content->0@)
            &&& after.cached_log.read_at == seen.wall_now
        },
        (seen.log_modified is None || seen.log_content is None || (before.cached_log.lines@.len()
            > 0 && seen.log_modified->0 <= before.cached_log.read_at)) ==> {
            &&& s.log_lines.deep_view() == before.cached_log.lines.deep_view()
            &&& after.cached_log.read_at == before.cached_log.read_at
        },
        after.cached_log.lines.deep_view() == s.log_lines.deep_view(),
        !before.clocks.is_running_cache ==> s.total_up == 0 && s.total_down == 0,
        (before.clocks.is_running_cache && seen.body is None) ==> s.total_up == 0 && s.total_down
            == 0,
        (before.clocks.is_running_cache && seen.body is Some) ==> (s.total_up, s.total_down)
            == body_totals(Some(seen.body->0@)),
        rates == growth(before.prev_sample, (s.total_up, s.total_down), seen.now),
        after.prev_sample == Some(
            next_sample(before.prev_sample, (s.total_up, s.total_down), seen.now),
        ),
{
}

/// A report on a tunnel that is not up tells its mode and nothing else, and leaves
/// what is kept for the next one.
pub proof fn law_what_is_reported_of_a_tunnel_that_is_down(
    before: AppState,
    after: AppState,
    seen: Observed,
    s: FullStatus,
    rates: Option<Growth>,
)
    requires
        reports(before, after, seen, s, rates),
        before.proxy@.child is None || seen.poll != ChildPoll::Alive,
    ensures
        !s.running && s.pid is None && s.server is None && s.uptime_secs == 0,
        s.mode@ == seen.mode@,
        s.total_up == 0 && s.total_down == 0 && s.traffic_up == 0 && s.traffic_down == 0,
        s.log_lines.deep_view().len() == 0,
        rates is None,
        after.prev_sample == before.prev_sample,
        after.cached_log == before.cached_log,
{
}

/// A start that came through counts from now, and is believed to be up if the process
/// lives; one that failed is answered with what its error comes to, and counts no time.
pub proof fn law_what_a_start_is_answered(
    before: AppState,
    after: AppState,
    result: Result<String, StartError>,
    poll: ChildPoll,
    now: u64,
    answer: Result<String, String>,
)
    requires
        answers_start(before, after, result, poll, now, answer),
    ensures
        result is Ok <==> answer is Ok,
        result is Ok ==> {
            &&& answer->Ok_0@ == result->Ok_0@
            &&& after.clocks.started_at == Some(now)
            &&& after.clocks.is_running_cache <==> before.proxy@.child is Some && poll
                == ChildPoll::Alive
        },
        result is Err ==> {
            &&& answer->Err_0@ == error_category(result->Err_0).message_of()
            &&& after.clocks.started_at is None && !after.clocks.is_running_cache
            &&& after.proxy@ == before.proxy@
        },
{
}

/// A startup that failed takes the tunnel down and counts no time; the answer is what
/// its error comes to.
pub proof fn law_what_a_failed_startup_is_answered(
    before: AppState,
    after: AppState,
    err: StartError,
    answer: String,
)
    requires
        answers_failure(before, after, err, answer),
    ensures
        answer@ == error_category(err).message_of(),
        after.proxy@.state == VpnState::Stopped && after.proxy@.child is None,
        after.clocks.started_at is None && !after.clocks.is_running_cache,
        after.prev_sample == before.prev_sample && after.cached_log == before.cached_log,
{
}

/// A stop is answered so whatever there was to stop. No time counts from then on, no
/// round trip is made, and traffic is measured afresh.
pub proof fn law_what_a_stop_is_answered(before: AppState, after: AppState, answer: String)
    requires
        answers_stop(before, after, answer),
    ensures
        answer@ == "Stopped"@,
        after.proxy@ == before.proxy@ && after.cached_log == before.cached_log,
        after.clocks.started_at is None && !after.clocks.is_running_cache,
        after.prev_sample is None,
{
}

// ── round trips ────────────────────────────────────────────────────

/// A round trip with a status of success is told in whole milliseconds; any other is
/// told with the status or with the cause.
pub proof fn law_what_is_told_of_a_round_trip(code: u16, status: Seq<char>, micros: u64)
    ensures
        is_success(code) <==> code == 200 || (200 < code && code < 300),
        is_success(code) <==> reply_to(code, status, micros) is Ok,
        is_success(code) ==> exists|ms: nat|
            ms * 1000 <= micros < (ms + 1) * 1000 && reply_to(code, status, micros)->Ok_0 == (
            #[trigger] decimal_of(ms)) + "ms"@,
        !is_success(code) ==> reply_to(code, status, micros)->Err_0 == "bad status: "@ + status,
        ping_reply(PingOutcome::Answered { code, micros }) == reply_to(
            code,
            status_line(code),
            micros,
        ),
{
    let ms = (micros / 1000) as nat;
    assert(ms * 1000 <= micros < (ms + 1) * 1000);
    assert(decimal_of(ms) == decimal_of(ms));
}

/// A request that could not be made is told with the cause.
pub proof fn law_a_failed_round_trip_tells_the_cause(e: String)
    ensures
        ping_reply(PingOutcome::Failed(e)) == Err::<Seq<char>, Seq<char>>("ping failed: "@ + e@),
{
}

// ── settings ───────────────────────────────────────────────────────

/// A profile that names no server stands for the default one, and one that does not
/// name Hysteria2 for ShadowTLS.
pub proof fn law_what_a_profile_names(profile: Seq<char>, mode: Seq<char>)
    ensures
        has_suffix(profile, "-h2"@) ==> protocol_of(profile) == "hysteria2"@ && profile == server_of(
            profile,
        ) + "-h2"@,
        !has_suffix(profile, "-h2"@) ==> protocol_of(profile) == "shadowtls"@,
        (!has_suffix(profile, "-h2"@) && has_suffix(profile, "-stls"@)) ==> profile == server_of(
            profile,
        ) + "-stls"@,
        (!has_suffix(profile, "-h2"@) && !has_suffix(profile, "-stls"@)) ==> server_of(profile)
            == "netherlands-1"@,
        ending_of(mode) is Some <==> mode == "shadowtls"@ || mode == "hysteria2"@,
        mode == "shadowtls"@ ==> ending_of(mode) == Some("-stls"@),
        (mode == "hysteria2"@ && mode != "shadowtls"@) ==> ending_of(mode) == Some("-h2"@),
{
    crate::text_laws::law_an_ending_is_what_comes_last(profile, "-h2"@);
    crate::text_laws::law_an_ending_is_what_comes_last(profile, "-stls"@);
}

/// A change of protocol keeps the server and takes the protocol that was asked for,
/// which the answer names; any other protocol is refused.
pub proof fn law_what_a_change_of_protocol_is_answered(
    current: Seq<char>,
    mode: Seq<char>,
    r: Result<ModeChange, String>,
)
    requires
        answers_mode(current, mode, r),
    ensures
        r is Ok <==> mode == "shadowtls"@ || mode == "hysteria2"@,
        r is Ok ==> {
            &&& server_of(r->Ok_0.profile@) == server_of(current)
            &&& protocol_of(r->Ok_0.profile@) == mode
            &&& r->Ok_0.message@ == "Mode set to '"@ + mode + "'"@
        },
        r is Err ==> r->Err_0@ == "Invalid mode"@,
{
    if ending_of(mode) is Some {
        crate::laws::law_a_profile_names_server_and_protocol(server_of(current), mode);
    }
}

/// Every server can be had with every protocol, and nothing else can be selected.
pub proof fn law_what_can_be_selected(k: int)
    ensures
        profile_list() == seq![
            "netherlands-1-h2"@,
            "netherlands-1-stls"@,
            "germany-3-h2"@,
            "germany-3-stls"@,
            "finland-1-h2"@,
            "finland-1-stls"@,
        ],
        (0 <= k < profile_list().len() && has_suffix(profile_list()[k], "-h2"@))
            ==> profile_list()[k] == server_of(profile_list()[k]) + "-h2"@,
{
    if 0 <= k < profile_list().len() {
        crate::text_laws::law_an_ending_is_what_comes_last(profile_list()[k], "-h2"@);
    }
}

/// There are four presets, each with its speeds, and no others.
pub proof fn law_the_presets(name: Seq<char>)
    ensures
        preset(name) is Some <==> name == "adsl"@ || name == "4g"@ || name == "5g"@ || name
            == "max"@,
        name == "adsl"@ ==> preset(name) == Some((4u32, 16u32)),
        name == "4g"@ ==> preset(name) == Some((15u32, 30u32)),
        name == "5g"@ ==> preset(name) == Some((40u32, 80u32)),
        name == "max"@ ==> preset(name) == Some((80u32, 120u32)),
        forall|r: Result<(u32, u32), String>| #[trigger]
            answers_preset(name, r) ==> match preset(name) {
                Some(p) => r is Ok && r->Ok_0 == p,
                None => r is Err && r->Err_0@ == "unknown preset: "@ + name,
            },
{
    reveal_strlit("adsl");
    reveal_strlit("4g");
    reveal_strlit("5g");
    reveal_strlit("max");
    assert("adsl"@.len() == 4 && "4g"@.len() == 2 && "5g"@.len() == 2 && "max"@.len() == 3);
    assert("4g"@[0] != "5g"@[0]);
}

/// The request asks for what there is: a packet size within bounds, a known split mode
/// and a known stack.
pub open spec fn asks_for_what_there_is(q: SettingsRequest) -> bool {
    &&& q.mtu is Some ==> q.mtu->0 >= 576 && q.mtu->0 <= 9000
    &&& q.split_mode@ == "full"@ || q.split_mode@ == "wow"@
    &&& q.tun_stack is Some ==> q.tun_stack->0@ == "system"@ || q.tun_stack->0@ == "mixed"@
        || q.tun_stack->0@ == "gvisor"@
}

/// A request is turned down if and only if it asks for what there is not, and is told
/// the first reason.
pub proof fn law_which_settings_are_turned_down(
    q: SettingsRequest,
    r: Result<SettingsPlan, String>,
)
    requires
        answers_settings(q, r),
    ensures
        r is Ok <==> asks_for_what_there_is(q),
        (q.mtu is Some && (q.mtu->0 < 576 || q.mtu->0 > 9000)) ==> r is Err && r->Err_0@
            == "MTU must be between 576 and 9000"@,
        (r is Err && (q.mtu is None || 576 <= q.mtu->0 <= 9000) && q.split_mode@ != "full"@
            && q.split_mode@ != "wow"@) ==> r->Err_0@ == "Invalid split mode"@,
        (r is Err && (q.mtu is None || 576 <= q.mtu->0 <= 9000) && (q.split_mode@ == "full"@
            || q.split_mode@ == "wow"@)) ==> r->Err_0@ == "Invalid TUN stack"@,
{
}

/// What is saved is what the user chose: the split mode and the stack as asked for; in
/// the split mode the named apps, all in their order, or the three known ones only where
/// none are named, and the domains unless they are switched off. A choice of nothing at
/// all is refused.
pub proof fn law_what_is_saved_is_what_was_chosen(
    q: SettingsRequest,
    r: Result<SettingsPlan, String>,
)
    requires
        answers_settings(q, r),
        r is Ok,
    ensures
        r->Ok_0.split_mode@ == q.split_mode@,
        q.tun_stack is None <==> r->Ok_0.tun_stack is None,
        q.tun_stack is Some ==> r->Ok_0.tun_stack->0@ == q.tun_stack->0@,
        q.split_mode@ != "wow"@ ==> r->Ok_0.wow_apps is None && r->Ok_0.wow_domains == q.wow_domains
            && r->Ok_0.refused is None,
        q.split_mode@ == "wow"@ ==> {
            let nothing = q.wow_domains == Some(false) && q.wow_apps is Some
                && q.wow_apps->0@.len() == 0;
            &&& r->Ok_0.refused is Some <==> nothing
            &&& nothing ==> r->Ok_0.refused->0@
                == "Select at least one option: WoW Domains, Discord, Chrome, or Telegram"@
                && r->Ok_0.wow_apps is None && r->Ok_0.wow_domains is None
            &&& !nothing ==> r->Ok_0.wow_apps is Some && r->Ok_0.wow_domains is Some
            &&& (!nothing && q.wow_domains is Some) ==> r->Ok_0.wow_domains == q.wow_domains
            &&& (!nothing && q.wow_domains is None) ==> r->Ok_0.wow_domains == Some(true)
            &&& (!nothing && q.wow_apps is Some) ==> {
                &&& r->Ok_0.wow_apps->0@.len() == q.wow_apps->0@.len()
                &&& forall|i: int|
                    0 <= i < q.wow_apps->0@.len() ==> (#[trigger] r->Ok_0.wow_apps->0@[i])@
                        == q.wow_apps->0@[i]@
            }
            &&& (!nothing && q.wow_apps is None) ==> {
                &&& r->Ok_0.wow_apps->0@.len() == 3
                &&& r->Ok_0.wow_apps->0@[0]@ == "discord"@
                &&& r->Ok_0.wow_apps->0@[1]@ == "chrome"@
                &&& r->Ok_0.wow_apps->0@[2]@ == "telegram"@
            }
        },
{
    if q.split_mode@ == "wow"@ && r->Ok_0.wow_apps is Some {
        let saved = r->Ok_0.wow_apps->0;
        assert(saved.deep_view().len() == saved@.len());
        assert forall|i: int| 0 <= i < saved@.len() implies (#[trigger] saved@[i])@
            == saved.deep_view()[i] by {}
        if q.wow_apps is Some {
            let named = q.wow_apps->0;
            assert(named.deep_view().len() == named@.len());
            assert(saved.deep_view() == named.deep_view());
            assert forall|i: int| 0 <= i < named@.len() implies (#[trigger] saved@[i])@
                == named@[i]@ by {
                assert(named.deep_view()[i] == named@[i]@);
            }
        } else {
            assert(saved.deep_view() == seq!["discord"@, "chrome"@, "telegram"@]);
        }
    }
    if q.wow_apps is Some {
        assert(q.wow_apps->0.deep_view().len() == q.wow_apps->0@.len());
    }
}

/// The tunnel is brought up again after a change only where it was up and that was
/// asked for.
pub proof fn law_when_a_change_reconnects(reconnect: bool, was_running: bool)
    ensures
        needs_reconnect(reconnect, was_running) ==> reconnect,
        needs_reconnect(reconnect, was_running) ==> was_running,
        needs_reconnect(true, true),
{
}

/// The reports of speeds and of the split settings hold what they are made of.
pub proof fn law_reports_of_settings_hold_them(
    up: u32,
    down: u32,
    mode: Seq<char>,
    apps: Seq<Seq<char>>,
    domains: bool,
)
    ensures
        speeds_tree(up, down).member("up_mbps"@) == Json::Int(up as int),
        speeds_tree(up, down).member("down_mbps"@) == Json::Int(down as int),
        split_tree(mode, apps, domains).member("split_mode"@) == Json::Str(mode),
        split_tree(mode, apps, domains).member("wow_domains"@) == Json::Bool(domains),
        ({
            let listed = split_tree(mode, apps, domains).member("wow_apps"@);
            &&& listed is Arr && listed->Arr_0.len() == apps.len()
            &&& forall|i: int|
                0 <= i < apps.len() ==> #[trigger] listed->Arr_0[i] == Json::Str(apps[i])
        }),
{
    reveal_strlit("up_mbps");
    reveal_strlit("down_mbps");
    reveal_strlit("split_mode");
    reveal_strlit("wow_apps");
    reveal_strlit("wow_domains");
    assert("up_mbps"@.len() == 7 && "down_mbps"@.len() == 9);
    assert("split_mode"@.len() == 10 && "wow_apps"@.len() == 8 && "wow_domains"@.len() == 11);
}

// ── tray icon ──────────────────────────────────────────────────────

/// The tooltip names server and protocol while the tunnel is up, and only then.
pub proof fn law_what_the_tooltip_names(running: bool, server: Seq<char>, protocol: Seq<char>)
    ensures
        !running ==> tooltip_of(running, server, protocol) == "dakal-tls VPN"@,
        (running && protocol == "hysteria2"@) ==> tooltip_of(running, server, protocol)
            == "dakal-tls — "@ + server + " | "@ + "Hysteria2"@ + " (connected)"@,
        (running && protocol != "hysteria2"@) ==> tooltip_of(running, server, protocol)
            == "dakal-tls — "@ + server + " | "@ + "ShadowTLS"@ + " (connected)"@,
{
}

/// The entry is an item with these texts.
pub open spec fn is_item(
    e: MenuEntry<Seq<char>>,
    id: Seq<char>,
    label: Seq<char>,
    enabled: bool,
) -> bool {
    e == MenuEntry::Item { id, label, enabled }
}

/// The entries that every menu ends in.
pub open spec fn ends_in_window_entries(menu: Seq<MenuEntry<Seq<char>>>) -> bool {
    &&& menu.len() == 8
    &&& menu[3] is Separator
    &&& is_item(menu[4], "show"@, "Show"@, true)
    &&& is_item(menu[5], "hide"@, "Hide"@, true)
    &&& menu[6] is Separator
    &&& is_item(menu[7], "quit"@, "Quit"@, true)
}

/// The menu shows server and protocol, and offers to disconnect while the tunnel is up
/// and to connect while it is not.
pub proof fn law_what_the_menu_offers(
    running: bool,
    server: Seq<char>,
    protocol: Seq<char>,
    profile: Seq<char>,
)
    ensures
        ({
            let menu = menu_of(running, server, protocol);
            &&& is_item(menu[0], "server"@, server, false)
            &&& protocol == "hysteria2"@ ==> is_item(menu[1], "protocol"@, "Hysteria2"@, false)
            &&& protocol != "hysteria2"@ ==> is_item(menu[1], "protocol"@, "ShadowTLS"@, false)
            &&& running ==> is_item(menu[2], "disconnect"@, "Disconnect"@, true)
            &&& !running ==> is_item(menu[2], "connect"@, "Connect"@, true)
            &&& ends_in_window_entries(menu)
        }),
        ({
            let menu = startup_menu_of(profile);
            &&& has_suffix(profile, "-h2"@) ==> is_item(menu[0], "mode"@, "hysteria2"@, false)
            &&& !has_suffix(profile, "-h2"@) ==> is_item(menu[0], "mode"@, "shadowtls"@, false)
            &&& is_item(menu[1], "connect"@, "Connect"@, true)
            &&& is_item(menu[2], "disconnect"@, "Disconnect"@, false)
            &&& ends_in_window_entries(menu)
        }),
{
}

/// Each entry that does something does it, and no other does anything.
pub proof fn law_what_a_click_does(id: Seq<char>)
    ensures
        id == "show"@ ==> action_of(id) == MenuAction::Show,
        id == "hide"@ ==> action_of(id) == MenuAction::Hide,
        id == "connect"@ ==> action_of(id) == MenuAction::Connect,
        id == "disconnect"@ ==> action_of(id) == MenuAction::Disconnect,
        id == "quit"@ ==> action_of(id) == MenuAction::Quit,
        (id != "show"@ && id != "hide"@ && id != "connect"@ && id != "disconnect"@ && id
            != "quit"@) ==> action_of(id) == MenuAction::Ignore,
{
    reveal_strlit("show");
    reveal_strlit("hide");
    reveal_strlit("connect");
    reveal_strlit("disconnect");
    reveal_strlit("quit");
    assert("show"@.len() == 4 && "hide"@.len() == 4 && "quit"@.len() == 4);
    assert("connect"@.len() == 7 && "disconnect"@.len() == 10);
    assert("show"@[0] == 's' && "hide"@[0] == 'h' && "quit"@[0] == 'q');
}

// ── releases ───────────────────────────────────────────────────────

/// A program is of the release in use if and only if what it reports names its version,
/// wherever that stands.
pub proof fn law_the_version_is_named_somewhere(a: Seq<char>, b: Seq<char>, report: Seq<char>)
    ensures
        !tells_other_version(a + "1.13.19"@ + b),
        !is_stale_output(None),
        forall|bytes: Seq<u8>| #[trigger]
            is_stale_output(Some(bytes)) == tells_other_version(crate::binary::lossy_text(bytes)),
        !tells_other_version(report) ==> exists|i: int|
            0 <= i <= report.len() - "1.13.19"@.len() && #[trigger] report.subrange(
                i,
                i + "1.13.19"@.len(),
            ) == "1.13.19"@,
{
    crate::text_laws::law_what_occurs_stands_between(a, "1.13.19"@, b);
    crate::text_laws::law_what_occurs_stands_between(report, "1.13.19"@, b);
}

/// The program is told by its file name, in whatever directory.
pub proof fn law_the_program_is_told_by_its_name(dir: Seq<char>, name: Seq<char>)
    ensures
        is_binary(dir + "sing-box.exe"@),
        is_binary(name) ==> name.len() >= "sing-box.exe"@.len() && name == name.take(
            name.len() - "sing-box.exe"@.len(),
        ) + "sing-box.exe"@,
{
    crate::text_laws::law_an_ending_is_what_comes_last(dir, "sing-box.exe"@);
    crate::text_laws::law_an_ending_is_what_comes_last(name, "sing-box.exe"@);
}

/// A release comes to its first entry that is the program or cannot be opened,
/// whatever stands behind it; one without such an entry has no program.
pub proof fn law_the_first_deciding_entry_is_taken(
    names: Seq<Result<Seq<char>, (Seq<char>, Seq<char>)>>,
    data: Seq<Result<Seq<u8>, (Seq<char>, Seq<char>)>>,
    k: nat,
)
    requires
        k <= names.len(),
        forall|j: int|
            0 <= j < k ==> (#[trigger] names[j]) is Ok && !has_suffix(
                names[j]->Ok_0,
                "sing-box.exe"@,
            ),
    ensures
        k == names.len() ==> unpacked(names, data, 0) == Unpacked::NotThere,
        (k < names.len() && names[k as int] is Err) ==> unpacked(names, data, 0)
            == Unpacked::BrokenEntry(names[k as int]->Err_0),
        (k < names.len() && names[k as int] is Ok && has_suffix(
            names[k as int]->Ok_0,
            "sing-box.exe"@,
        )) ==> match data[k as int] {
            Ok(d) => unpacked(names, data, 0) == Unpacked::Program(d),
            Err(texts) => unpacked(names, data, 0) == Unpacked::Unreadable(texts),
        },
    decreases k,
{
    lemma_skipped(names, data, k);
}

proof fn lemma_skipped(
    names: Seq<Result<Seq<char>, (Seq<char>, Seq<char>)>>,
    data: Seq<Result<Seq<u8>, (Seq<char>, Seq<char>)>>,
    k: nat,
)
    requires
        k <= names.len(),
        forall|j: int|
            0 <= j < k ==> (#[trigger] names[j]) is Ok && !has_suffix(
                names[j]->Ok_0,
                "sing-box.exe"@,
            ),
    ensures
        unpacked(names, data, 0) == unpacked(names, data, k),
    decreases k,
{
    if k > 0 {
        lemma_skipped(names, data, (k - 1) as nat);
        assert(names[k - 1] is Ok);
    }
}

/// The entries that decide are those, and the names of entries are as they were read.
pub proof fn law_which_entries_decide(
    name: Result<Seq<char>, (Seq<char>, Seq<char>)>,
    read: Result<String, StartError>,
)
    ensures
        name is Err ==> decides(name),
        name is Ok ==> decides(name) == has_suffix(name->Ok_0, "sing-box.exe"@),
        read is Ok ==> name_of(read) == Ok::<Seq<char>, (Seq<char>, Seq<char>)>(read->Ok_0@),
        read is Err ==> name_of(read) == Err::<Seq<char>, (Seq<char>, Seq<char>)>(
            (read->Err_0.message@, read->Err_0.detail@),
        ),
{
}

/// The place that is taken has the program, and no earlier one has it; where any has
/// it, one is taken.
pub proof fn law_the_first_place_is_taken(found: Seq<bool>, r: Option<usize>, k: int)
    requires
        finds_first(found, r),
        0 <= k < found.len(),
    ensures
        found[k] ==> r is Some && r->0 <= k,
        r is Some ==> r->0 < found.len() && found[r->0 as int],
{
}

/// Unpacking gives the program if and only if the archive opens, its entries up to the
/// program do, and the program can be read; the failure that is told is the one that
/// came.
pub proof fn law_what_unpacking_gives(bytes: Seq<u8>, r: Result<Vec<u8>, UnpackError>)
    requires
        unpacks(bytes, r),
    ensures
        zip_refusal(bytes) is Some ==> r is Err && r->Err_0 is Archive && r->Err_0.texts()
            == zip_refusal(bytes)->0,
        zip_refusal(bytes) is None ==> match unpacked(
            release_names(bytes),
            release_data(bytes),
            0,
        ) {
            Unpacked::Program(d) => r is Ok && r->Ok_0@ == d,
            Unpacked::Unreadable(t) => r is Err && r->Err_0 is Read && r->Err_0.texts() == t,
            Unpacked::BrokenEntry(t) => r is Err && r->Err_0 is Entry && r->Err_0.texts() == t,
            Unpacked::NotThere => r is Err && r->Err_0 is Missing,
        },
        release_names(bytes).len() == zip_len(bytes),
        forall|i: int|
            0 <= i < zip_len(bytes) ==> #[trigger] release_names(bytes)[i] == zip_entry_name(
                bytes,
                i as nat,
            ),
        forall|i: int|
            0 <= i < zip_len(bytes) ==> #[trigger] release_data(bytes)[i] == zip_entry_data(
                bytes,
                i as nat,
            ),
{
}

/// A failure to unpack is told as it came, and a missing program by its name.
pub proof fn law_a_failure_to_unpack_is_told_as_it_came(e: UnpackError)
    ensures
        e matches UnpackError::Archive(c) ==> e.texts() == (c.message@, c.detail@),
        e matches UnpackError::Entry(c) ==> e.texts() == (c.message@, c.detail@),
        e matches UnpackError::Read(c) ==> e.texts() == (c.message@, c.detail@),
        e is Missing ==> e.texts() == (
            "sing-box.exe not found in release"@,
            "sing-box.exe not found in release"@,
        ),
{
}

/// A reconnect loop begins with its first try.
pub proof fn law_a_loop_begins_with_its_first_try(epoch: u64)
    ensures
        Reconnect::first(epoch).epoch == epoch,
        Reconnect::first(epoch).attempt == 1,
{
}

}
