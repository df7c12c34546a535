//! Traffic counters of sing-box, and the rates between two readings.
use crate::json;
use crate::json::{json_items, json_of, parsed, Json};
use vstd::prelude::*;

verus! {

/// A rate is reported only for readings further apart than this, in nanoseconds.
pub const SAMPLE_MIN_NANOS: u64 = 500_000_000;

/// The counter in a JSON value; 0 where it holds none.
pub open spec fn counter(v: Json) -> nat {
    match v {
        Json::Int(n) => if 0 <= n <= u64::MAX {
            n as nat
        } else {
            0
        },
        _ => 0,
    }
}

/// The sum of the counters `key` over all items.
pub open spec fn counter_sum(items: Seq<Json>, key: Seq<char>) -> nat
    decreases items.len(),
{
    if items.len() == 0 {
        0
    } else {
        counter_sum(items.drop_last(), key) + counter(items.last().member(key))
    }
}

/// `n`, or the largest number of 64 bits where it is larger.
pub open spec fn capped(n: nat) -> u64 {
    if n <= u64::MAX {
        n as u64
    } else {
        u64::MAX
    }
}

/// The bytes sent and received in all: the overall counters, or, where both
/// are 0, the sums over the open connections.
pub open spec fn totals(v: Json) -> (u64, u64) {
    let up = counter(v.member("upload_total"@));
    let down = counter(v.member("download_total"@));
    if up == 0 && down == 0 {
        match v.member("connections"@) {
            Json::Arr(items) => (
                capped(counter_sum(items, "upload"@)),
                capped(counter_sum(items, "download"@)),
            ),
            _ => (0, 0),
        }
    } else {
        (up as u64, down as u64)
    }
}

fn read_counter(v: &serde_json::Value) -> (r: u64)
    ensures
        r == counter(json_of(*v)),
{
    json::as_u64(v).unwrap_or(0)
}

fn add_capped(a: u64, b: u64) -> (r: u64)
    ensures
        r == capped((a + b) as nat),
{
    if a > u64::MAX - b {
        u64::MAX
    } else {
        a + b
    }
}

/// The bytes sent and received in all, as a report of the Clash API tells them.
pub fn traffic_totals(v: &serde_json::Value) -> (r: (u64, u64))
    ensures
        r == totals(json_of(*v)),
{
    let up: u64 = read_counter(json::member(v, "upload_total"));
    let down: u64 = read_counter(json::member(v, "download_total"));
    if up != 0 || down != 0 {
        return (up, down);
    }
    match json::as_array(json::member(v, "connections")) {
        Some(items) => {
            let mut u: u64 = 0;
            let mut d: u64 = 0;
            let mut i: usize = 0;
            let ghost all = json_items(items@);
            while i < items.len()
                invariant
                    i <= items.len(),
                    all == json_items(items@),
                    u == capped(counter_sum(all.take(i as int), "upload"@)),
                    d == capped(counter_sum(all.take(i as int), "download"@)),
                decreases items.len() - i,
            {
                proof {
                    assert(all.take(i + 1).drop_last() =~= all.take(i as int));
                    assert(all.take(i + 1).last() == json_of(items@[i as int]));
                }
                u = add_capped(u, read_counter(json::member(&items[i], "upload")));
                d = add_capped(d, read_counter(json::member(&items[i], "download")));
                i = i + 1;
            }
            proof {
                assert(all.take(items.len() as int) =~= all);
            }
            (u, d)
        },
        None => (0, 0),
    }
}

/// The totals that an answer of the Clash API comes to; none, or one that is no
/// JSON, comes to 0.
pub open spec fn body_totals(body: Option<Seq<u8>>) -> (u64, u64) {
    match body {
        Some(b) => match parsed(b) {
            Some(v) => totals(v),
            None => (0, 0),
        },
        None => (0, 0),
    }
}

/// The totals that an answer of the Clash API comes to.
pub fn totals_of_body(body: Option<&[u8]>) -> (r: (u64, u64))
    ensures
        r == body_totals(
            match body {
                Some(b) => Some(b@),
                None => None,
            },
        ),
{
    match body {
        Some(b) => match json::parse(b) {
            Ok(v) => traffic_totals(&v),
            Err(_) => (0, 0),
        },
        None => (0, 0),
    }
}

/// A reading of the counters: bytes sent and received, and the time in
/// nanoseconds.
#[derive(Debug, Clone, Copy, PartialEq, Eq)]
pub struct TrafficSample {
    pub total: (u64, u64),
    pub time: u64,
}

/// What a rate is made of: the growth of both counters, and the nanoseconds that
/// it took.
#[derive(Debug, Clone, Copy, PartialEq, Eq, Structural)]
pub struct Growth {
    pub up: u64,
    pub down: u64,
    pub nanos: u64,
}

/// `a - b`, or 0 where that is negative.
pub open spec fn minus(a: u64, b: u64) -> u64 {
    if a >= b {
        (a - b) as u64
    } else {
        0
    }
}

fn sub_floor(a: u64, b: u64) -> (r: u64)
    ensures
        r == minus(a, b),
{
    if a >= b {
        a - b
    } else {
        0
    }
}

/// The growth since an earlier reading, where there is one from long enough ago.
pub open spec fn growth(
    prev: Option<TrafficSample>,
    total: (u64, u64),
    now: u64,
) -> Option<Growth> {
    match prev {
        Some(p) => if minus(now, p.time) > SAMPLE_MIN_NANOS {
            Some(
                Growth {
                    up: minus(total.0, p.total.0),
                    down: minus(total.1, p.total.1),
                    nanos: minus(now, p.time),
                },
            )
        } else {
            None
        },
        None => None,
    }
}

/// The reading that the next one is compared with.
pub open spec fn next_sample(
    prev: Option<TrafficSample>,
    total: (u64, u64),
    now: u64,
) -> TrafficSample {
    if prev is None || growth(prev, total, now) is Some {
        TrafficSample { total, time: now }
    } else {
        prev->0
    }
}

/// The growth since the last reading. The new reading takes its place, unless
/// the last one is too recent.
pub fn sample(prev: &mut Option<TrafficSample>, total: (u64, u64), now: u64) -> (r: Option<Growth>)
    ensures
        r == growth(*old(prev), total, now),
        *final(prev) == Some(next_sample(*old(prev), total, now)),
{
    let r = match *prev {
        Some(p) => {
            let nanos: u64 = sub_floor(now, p.time);
            if nanos > SAMPLE_MIN_NANOS {
                Some(
                    Growth {
                        up: sub_floor(total.0, p.total.0),
                        down: sub_floor(total.1, p.total.1),
                        nanos,
                    },
                )
            } else {
                return None;
            }
        },
        None => None,
    };
    *prev = Some(TrafficSample { total, time: now });
    r
}

/// A rate is reported only between two readings that are far enough apart, and
/// is that of the counters' growth.
pub proof fn law_a_rate_needs_two_readings_apart(
    prev: Option<TrafficSample>,
    total: (u64, u64),
    now: u64,
)
    ensures
        growth(prev, total, now) is Some <==> prev is Some && now - prev->0.time
            > SAMPLE_MIN_NANOS,
        (growth(prev, total, now) is Some && prev->0.total.0 <= total.0 && prev->0.total.1
            <= total.1) ==> growth(prev, total, now)->0.up == total.0 - prev->0.total.0 && growth(
            prev,
            total,
            now,
        )->0.down == total.1 - prev->0.total.1,
{
}

}
