//! What a lookup of the VPN server's host name comes to.
use crate::text;
use vstd::prelude::*;
use vstd::string::*;

verus! {

/// How long a lookup may take, in seconds.
pub const LOOKUP_TIMEOUT_SECS: u64 = 8;

/// What came of a lookup.
pub enum Lookup {
    /// The addresses, in the order in which the resolver gave them.
    Addresses(Vec<String>),
    /// The resolver reported this error.
    Failed(String),
    /// There was no answer in time.
    TimedOut,
    /// The resolving thread ended without an answer.
    Disconnected,
}

/// The items of `s` without repetitions, in the order of first occurrence.
pub open spec fn unique<T>(s: Seq<T>) -> Seq<T>
    decreases s.len(),
{
    if s.len() == 0 {
        seq![]
    } else {
        let head = unique(s.drop_last());
        if head.contains(s.last()) {
            head
        } else {
            head.push(s.last())
        }
    }
}

/// Dropping repetitions keeps every item, exactly once.
pub proof fn law_unique_keeps_each_item_once<T>(s: Seq<T>)
    ensures
        unique(s).no_duplicates(),
        forall|x: T| unique(s).contains(x) <==> s.contains(x),
        s.len() > 0 ==> unique(s).len() > 0 && unique(s)[0] == s[0],
    decreases s.len(),
{
    if s.len() > 0 {
        let init = s.drop_last();
        let head = unique(init);
        law_unique_keeps_each_item_once(init);
        assert forall|x: T| unique(s).contains(x) <==> s.contains(x) by {
            if s.contains(x) {
                let k = choose|k: int| 0 <= k < s.len() && s[k] == x;
                if k < s.len() - 1 {
                    assert(init[k] == x);
                    assert(init.contains(x));
                    let j = choose|j: int| 0 <= j < head.len() && head[j] == x;
                    assert(unique(s)[j] == x);
                } else if !head.contains(x) {
                    assert(unique(s)[head.len() as int] == x);
                }
            }
            if unique(s).contains(x) {
                let j = choose|j: int| 0 <= j < unique(s).len() && unique(s)[j] == x;
                if j < head.len() {
                    assert(head[j] == x);
                    assert(init.contains(x));
                    let k = choose|k: int| 0 <= k < init.len() && init[k] == x;
                    assert(s[k] == x);
                } else {
                    assert(s[s.len() - 1] == x);
                }
            }
        }
        if s.len() == 1 {
            assert(!head.contains(s[0])) by {
                assert(init.len() == 0);
            }
        } else {
            assert(init[0] == s[0]);
        }
    }
}

/// The addresses without repetitions.
pub fn distinct(addresses: &Vec<String>) -> (r: Vec<String>)
    ensures
        r.deep_view() == unique(addresses.deep_view()),
{
    let mut r: Vec<String> = Vec::new();
    let mut i: usize = 0;
    let ghost all = addresses.deep_view();
    proof {
        assert(r.deep_view() =~= unique(all.take(0)));
    }
    while i < addresses.len()
        invariant
            i <= addresses.len(),
            all == addresses.deep_view(),
            r.deep_view() == unique(all.take(i as int)),
        decreases addresses.len() - i,
    {
        let ghost before = r.deep_view();
        proof {
            assert(all.take(i + 1).drop_last() =~= all.take(i as int));
            assert(all.take(i + 1).last() == addresses@[i as int]@);
        }
        if !text::any_same(&r, addresses[i].as_str()) {
            r.push(addresses[i].clone());
            proof {
                assert(r.deep_view() =~= before.push(addresses@[i as int]@));
            }
        }
        i = i + 1;
    }
    proof {
        assert(all.take(all.len() as int) =~= all);
    }
    r
}

/// Why a lookup of `host` gave no address; `None` where it gave some.
pub open spec fn lookup_error(host: Seq<char>, lookup: Lookup) -> Option<Seq<char>> {
    match lookup {
        Lookup::Addresses(a) => if a@.len() == 0 {
            Some("no IPs resolved for "@ + host)
        } else {
            None
        },
        Lookup::Failed(e) => Some("bootstrap DNS resolution failed: "@ + e@),
        Lookup::TimedOut => Some(
            "Could not resolve server '"@ + host
                + "' within 8s.\nCheck your internet connection, or reconnect on a network that can reach the server."@,
        ),
        Lookup::Disconnected => Some(
            "Could not resolve server '"@ + host
                + "'.\nCheck your internet connection, or reconnect on a network that can reach the server."@,
        ),
    }
}

/// The addresses that a lookup gave, in order, without repetitions.
pub open spec fn lookup_addresses(lookup: Lookup) -> Seq<Seq<char>> {
    match lookup {
        Lookup::Addresses(a) => unique(a.deep_view()),
        _ => seq![],
    }
}

/// The addresses of `host`, or why there are none.
pub fn resolve_hostname(host: &str, lookup: &Lookup) -> (r: Result<Vec<String>, String>)
    ensures
        match r {
            Ok(ips) => lookup_error(host@, *lookup) is None && ips.deep_view() == lookup_addresses(
                *lookup,
            ) && ips@.len() > 0,
            Err(e) => lookup_error(host@, *lookup) == Some(e@),
        },
{
    match lookup {
        Lookup::Addresses(a) => {
            if a.len() == 0 {
                return Err("no IPs resolved for ".to_string().concat(host));
            }
            proof {
                law_unique_keeps_each_item_once(a.deep_view());
            }
            Ok(distinct(a))
        },
        Lookup::Failed(e) => Err(
            "bootstrap DNS resolution failed: ".to_string().concat(e.as_str()),
        ),
        Lookup::TimedOut => Err(
            "Could not resolve server '".to_string().concat(host).concat(
                "' within 8s.\nCheck your internet connection, or reconnect on a network that can reach the server.",
            ),
        ),
        Lookup::Disconnected => Err(
            "Could not resolve server '".to_string().concat(host).concat(
                "'.\nCheck your internet connection, or reconnect on a network that can reach the server.",
            ),
        ),
    }
}

}
