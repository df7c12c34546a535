//! What the operations on text, on addresses and on error messages come to.
use crate::classify::{category_of, classify_effects, error_category, Category, StartError};
use crate::dns::{law_unique_keeps_each_item_once, lookup_addresses, lookup_error, unique, Lookup};
use crate::events::Effect;
use crate::startup::rejection;
use crate::text::{
    ascii_lower, decimal_of, digit, has_suffix, is_space, last_items, line_end, lines_from,
    lowercase_of, occurs, occurs_at, trim_end, trim_start, trimmed,
};
use vstd::prelude::*;

verus! {

// ── parts of texts ─────────────────────────────────────────────────

/// A text occurs in another wherever it stands between two others, and nowhere else.
pub proof fn law_what_occurs_stands_between(a: Seq<char>, b: Seq<char>, c: Seq<char>)
    ensures
        occurs(a + b + c, b),
        occurs(a, b) ==> exists|i: int|
            0 <= i <= a.len() - b.len() && #[trigger] a.subrange(i, i + b.len()) == b,
        b.len() > a.len() ==> !occurs(a, b),
{
    assert((a + b + c).subrange(a.len() as int, (a.len() + b.len()) as int) =~= b);
    assert(occurs_at(a + b + c, b, a.len() as int));
    if occurs(a, b) {
        let i = choose|i: int| occurs_at(a, b, i);
        assert(a.subrange(i, i + b.len()) == b);
    }
}

/// A text ends in another if and only if it is put together from something and that.
pub proof fn law_an_ending_is_what_comes_last(a: Seq<char>, b: Seq<char>)
    ensures
        has_suffix(a + b, b),
        has_suffix(a, b) ==> b.len() <= a.len() && a == a.take(a.len() - b.len()) + b,
{
    assert((a + b).skip(a.len() as int) =~= b);
    if has_suffix(a, b) {
        assert(a =~= a.take(a.len() - b.len()) + a.skip(a.len() - b.len()));
    }
}

/// White space is what Unicode calls so.
pub proof fn law_white_space(c: char)
    ensures
        is_space(c) <==> (c == '\t' || c == '\n' || c == '\u{b}' || c == '\u{c}' || c == '\r' || c
            == ' ' || c == '\u{85}' || c == '\u{a0}' || c == '\u{1680}' || c == '\u{2000}' || c
            == '\u{2001}' || c == '\u{2002}' || c == '\u{2003}' || c == '\u{2004}' || c
            == '\u{2005}' || c == '\u{2006}' || c == '\u{2007}' || c == '\u{2008}' || c
            == '\u{2009}' || c == '\u{200a}' || c == '\u{2028}' || c == '\u{2029}' || c
            == '\u{202f}' || c == '\u{205f}' || c == '\u{3000}'),
{
}

proof fn lemma_trim_start(s: Seq<char>) -> (i: int)
    ensures
        0 <= i <= s.len(),
        trim_start(s) == s.skip(i),
        forall|k: int| 0 <= k < i ==> is_space(#[trigger] s[k]),
        i < s.len() ==> !is_space(s[i]),
    decreases s.len(),
{
    if s.len() > 0 && is_space(s[0]) {
        let j = lemma_trim_start(s.drop_first());
        assert(s.drop_first().skip(j) =~= s.skip(j + 1));
        assert forall|k: int| 0 <= k < j + 1 implies is_space(#[trigger] s[k]) by {
            if k > 0 {
                assert(s.drop_first()[k - 1] == s[k]);
            }
        }
        if j + 1 < s.len() {
            assert(s.drop_first()[j] == s[j + 1]);
        }
        j + 1
    } else {
        assert(s.skip(0) =~= s);
        0
    }
}

proof fn lemma_trim_end(s: Seq<char>) -> (j: int)
    ensures
        0 <= j <= s.len(),
        trim_end(s) == s.take(j),
        forall|k: int| j <= k < s.len() ==> is_space(#[trigger] s[k]),
        j > 0 ==> !is_space(s[j - 1]),
    decreases s.len(),
{
    if s.len() > 0 && is_space(s.last()) {
        let j = lemma_trim_end(s.drop_last());
        assert(s.drop_last().take(j) =~= s.take(j));
        assert forall|k: int| j <= k < s.len() implies is_space(#[trigger] s[k]) by {
            if k < s.len() - 1 {
                assert(s.drop_last()[k] == s[k]);
            }
        }
        if j > 0 {
            assert(s.drop_last()[j - 1] == s[j - 1]);
        }
        j
    } else {
        assert(s.take(s.len() as int) =~= s);
        s.len() as int
    }
}

/// Trimming takes the white space off both ends, all of it and nothing else.
pub proof fn law_trimming_takes_white_space_off_the_ends(s: Seq<char>)
    ensures
        exists|i: int, j: int|
            {
                &&& 0 <= i <= j <= s.len()
                &&& #[trigger] s.subrange(i, j) == trimmed(s)
                &&& forall|k: int| 0 <= k < i ==> is_space(#[trigger] s[k])
                &&& forall|k: int| j <= k < s.len() ==> is_space(#[trigger] s[k])
            },
        trimmed(s).len() > 0 ==> !is_space(trimmed(s)[0]) && !is_space(trimmed(s).last()),
{
    let i = lemma_trim_start(s);
    let rest = s.skip(i);
    let n = lemma_trim_end(rest);
    let j = i + n;
    assert(rest.take(n) =~= s.subrange(i, j));
    assert forall|k: int| j <= k < s.len() implies is_space(#[trigger] s[k]) by {
        assert(rest[k - i] == s[k]);
    }
    if n > 0 {
        assert(rest[n - 1] == s[j - 1]);
        assert(trimmed(s)[0] == s[i]);
        assert(trimmed(s).last() == s[j - 1]);
    }
}

/// On ASCII, lower case maps `A` to `Z` to `a` to `z` in order, and keeps the rest.
pub proof fn law_lower_case_of_ascii(c: char)
    ensures
        ('A' <= c && c <= 'Z') ==> ascii_lower(c) as u32 - 'a' as u32 == c as u32 - 'A' as u32,
        !('A' <= c && c <= 'Z') ==> ascii_lower(c) == c,
{
}

// ── numbers ────────────────────────────────────────────────────────

/// The number that a sequence of digits stands for.
pub open spec fn number_of(s: Seq<char>) -> int
    decreases s.len(),
{
    if s.len() == 0 {
        0
    } else {
        10 * number_of(s.drop_last()) + (s.last() as u32 - '0' as u32)
    }
}

/// A decimal is made of digits, begins with no needless zero, and stands for its
/// number.
pub proof fn law_a_decimal_stands_for_its_number(n: nat)
    ensures
        number_of(decimal_of(n)) == n,
        decimal_of(n).len() > 0,
        forall|k: int|
            0 <= k < decimal_of(n).len() ==> '0' <= #[trigger] decimal_of(n)[k] && decimal_of(n)[k]
                <= '9',
        n > 0 ==> decimal_of(n)[0] != '0',
        n == 0 ==> decimal_of(n).len() == 1,
    decreases n,
{
    let d = decimal_of(n);
    assert(digit(n % 10) as u32 == '0' as u32 + n % 10);
    if n < 10 {
        assert(digit(n) as u32 == '0' as u32 + n);
        assert(d.drop_last() =~= Seq::<char>::empty());
        reveal_with_fuel(number_of, 2);
    } else {
        let head = decimal_of(n / 10);
        law_a_decimal_stands_for_its_number(n / 10);
        assert(d.drop_last() =~= head);
        assert forall|k: int| 0 <= k < d.len() implies '0' <= #[trigger] d[k] && d[k] <= '9' by {
            if k < head.len() {
                assert(d[k] == head[k]);
            }
        }
        assert(d[0] == head[0]);
    }
}

// ── lines ──────────────────────────────────────────────────────────

proof fn lemma_no_newline(s: Seq<char>, i: int, n: int)
    requires
        0 <= i <= n <= s.len(),
        forall|k: int| i <= k < n ==> #[trigger] s[k] != '\n',
        n < s.len() ==> s[n] == '\n',
    ensures
        line_end(s, i) == n,
    decreases n - i,
{
    if i < n {
        lemma_no_newline(s, i + 1, n);
    }
}

proof fn lemma_line_end_behind(s: Seq<char>, k: int, i: int)
    requires
        0 <= k,
        0 <= i,
        k + i <= s.len(),
    ensures
        line_end(s.skip(k), i) + k == line_end(s, k + i),
    decreases s.len() - k - i,
{
    if k + i < s.len() && s[k + i] != '\n' {
        lemma_line_end_behind(s, k, i + 1);
    }
}

proof fn lemma_lines_behind(s: Seq<char>, k: int, i: int)
    requires
        0 <= k,
        0 <= i,
        k + i <= s.len(),
    ensures
        lines_from(s, k + i) == lines_from(s.skip(k), i),
    decreases s.len() - k - i,
{
    let t = s.skip(k);
    if k + i < s.len() {
        lemma_line_end_behind(s, k, i);
        crate::text::lemma_line_end(s, k + i);
        let e = line_end(s, k + i);
        if e < s.len() {
            lemma_lines_behind(s, k, e + 1 - k);
            assert(s.subrange(k + i, e) =~= t.subrange(i, e - k));
        } else {
            assert(s.skip(k + i) =~= t.skip(i));
        }
    }
}

/// A line is what stands ahead of a newline, less a carriage return at its end; the
/// lines behind are those of the rest. What stands behind the last newline is a line
/// as it is, if there is anything.
pub proof fn law_lines_end_at_newlines(line: Seq<char>, rest: Seq<char>)
    requires
        !line.contains('\n'),
    ensures
        lines_from(line + seq!['\n'] + rest, 0) == seq![
            if line.len() > 0 && line[line.len() - 1] == '\r' {
                line.take(line.len() - 1)
            } else {
                line
            },
        ] + lines_from(rest, 0),
        line.len() > 0 ==> lines_from(line, 0) == seq![line],
        line.len() == 0 ==> lines_from(line, 0).len() == 0,
{
    let s = line + seq!['\n'] + rest;
    let n = line.len() as int;
    assert forall|k: int| 0 <= k < n implies #[trigger] line[k] != '\n' by {
        assert(line.contains(line[k]));
    }
    assert forall|k: int| 0 <= k < n implies #[trigger] s[k] != '\n' by {
        assert(s[k] == line[k]);
    }
    lemma_no_newline(s, 0, n);
    lemma_no_newline(line, 0, n);
    assert(s.subrange(0, n) =~= line);
    assert(s.skip(n + 1) =~= rest);
    lemma_lines_behind(s, n + 1, 0);
    if n > 0 {
        assert(line.drop_last() =~= line.take(n - 1));
        assert(line.skip(0) =~= line);
    }
}

/// The last items are as many as are asked for, or all, and stand at the end.
pub proof fn law_the_last_items_stand_at_the_end<T>(s: Seq<T>, k: nat)
    ensures
        last_items(s, k).len() == (if s.len() < k {
            s.len()
        } else {
            k
        }),
        forall|i: int|
            0 <= i < last_items(s, k).len() ==> #[trigger] last_items(s, k)[i] == s[s.len()
                - last_items(s, k).len() + i],
{
}

// ── addresses ──────────────────────────────────────────────────────

/// Dropping repetitions goes from the front: what comes of the first items is the
/// beginning of what comes of all.
pub proof fn law_repetitions_are_dropped_from_the_front<T>(a: Seq<T>, b: Seq<T>)
    ensures
        unique(a).len() <= unique(a + b).len(),
        unique(a + b).take(unique(a).len() as int) == unique(a),
    decreases b.len(),
{
    if b.len() == 0 {
        assert(a + b =~= a);
        assert(unique(a).take(unique(a).len() as int) =~= unique(a));
    } else {
        law_repetitions_are_dropped_from_the_front(a, b.drop_last());
        assert((a + b).drop_last() =~= a + b.drop_last());
        assert((a + b).last() == b.last());
        let shorter = unique(a + b.drop_last());
        let n = unique(a).len() as int;
        assert(unique(a + b).take(n) =~= shorter.take(n));
    }
}

/// A lookup that gave addresses gives each of them once, the first one first; the
/// others are told with the host or with the cause.
pub proof fn law_what_a_lookup_comes_to(host: Seq<char>, lookup: Lookup)
    ensures
        match lookup {
            Lookup::Addresses(a) => {
                &&& a@.len() > 0 ==> {
                    &&& lookup_error(host, lookup) is None
                    &&& lookup_addresses(lookup).len() > 0
                    &&& lookup_addresses(lookup)[0] == a@[0]@
                    &&& lookup_addresses(lookup).no_duplicates()
                    &&& forall|i: int|
                        0 <= i < a@.len() ==> lookup_addresses(lookup).contains(
                            (#[trigger] a@[i])@,
                        )
                    &&& forall|x: Seq<char>| #[trigger]
                        lookup_addresses(lookup).contains(x) ==> a.deep_view().contains(x)
                }
                &&& a@.len() == 0 ==> lookup_error(host, lookup) == Some(
                    "no IPs resolved for "@ + host,
                )
            },
            Lookup::Failed(e) => lookup_error(host, lookup) == Some(
                "bootstrap DNS resolution failed: "@ + e@,
            ),
            Lookup::TimedOut => lookup_error(host, lookup) == Some(
                "Could not resolve server '"@ + host
                    + "' within 8s.\nCheck your internet connection, or reconnect on a network that can reach the server."@,
            ),
            Lookup::Disconnected => lookup_error(host, lookup) == Some(
                "Could not resolve server '"@ + host
                    + "'.\nCheck your internet connection, or reconnect on a network that can reach the server."@,
            ),
        },
{
    if let Lookup::Addresses(a) = lookup {
        let all = a.deep_view();
        law_unique_keeps_each_item_once(all);
        assert forall|i: int| 0 <= i < a@.len() implies lookup_addresses(lookup).contains(
            (#[trigger] a@[i])@,
        ) by {
            assert(all[i] == a@[i]@);
            assert(all.contains(a@[i]@));
        }
    }
}

// ── failures ───────────────────────────────────────────────────────

/// The words that tell a kind of failure.
pub open spec fn words_of(k: Category) -> Seq<Seq<char>> {
    match k {
        Category::Permission => seq!["admin"@, "permission"@, "denied"@],
        Category::Connection => seq![
            "connection refused"@,
            "connect:"@,
            "no route"@,
            "timeout"@,
            "deadline"@,
            "handshake"@,
            "closed by peer"@,
        ],
        Category::Resolution => seq!["resolve"@, "dns"@, "hostname"@, "no ips resolved"@],
        Category::Interface => seq!["tun"@, "interface"@, "bind"@, "network"@],
        Category::Configuration => seq!["config"@, "validation"@, "check failed"@, "invalid"@],
        Category::Binary => seq!["sing-box"@, "spawn"@, "process"@, "exe"@],
        Category::Generic => seq![],
    }
}

/// The rank of a kind: the lower one decides.
pub open spec fn rank(k: Category) -> int {
    match k {
        Category::Permission => 0,
        Category::Connection => 1,
        Category::Resolution => 2,
        Category::Interface => 3,
        Category::Configuration => 4,
        Category::Binary => 5,
        Category::Generic => 6,
    }
}

/// The message has a word of the kind in it.
pub open spec fn mentions(msg: Seq<char>, k: Category) -> bool {
    exists|i: int| 0 <= i < words_of(k).len() && occurs(msg, #[trigger] words_of(k)[i])
}

proof fn lemma_mentions(msg: Seq<char>)
    ensures
        mentions(msg, Category::Permission) == crate::classify::about_permission(msg),
        mentions(msg, Category::Connection) == crate::classify::about_connection(msg),
        mentions(msg, Category::Resolution) == crate::classify::about_resolution(msg),
        mentions(msg, Category::Interface) == crate::classify::about_interface(msg),
        mentions(msg, Category::Configuration) == crate::classify::about_configuration(msg),
        mentions(msg, Category::Binary) == crate::classify::about_binary(msg),
{
    let p = words_of(Category::Permission);
    assert(p[0] == "admin"@ && p[1] == "permission"@ && p[2] == "denied"@);
    let c = words_of(Category::Connection);
    assert(c[0] == "connection refused"@ && c[1] == "connect:"@ && c[2] == "no route"@ && c[3]
        == "timeout"@ && c[4] == "deadline"@ && c[5] == "handshake"@ && c[6] == "closed by peer"@);
    let r = words_of(Category::Resolution);
    assert(r[0] == "resolve"@ && r[1] == "dns"@ && r[2] == "hostname"@ && r[3]
        == "no ips resolved"@);
    let i = words_of(Category::Interface);
    assert(i[0] == "tun"@ && i[1] == "interface"@ && i[2] == "bind"@ && i[3] == "network"@);
    let f = words_of(Category::Configuration);
    assert(f[0] == "config"@ && f[1] == "validation"@ && f[2] == "check failed"@ && f[3]
        == "invalid"@);
    let b = words_of(Category::Binary);
    assert(b[0] == "sing-box"@ && b[1] == "spawn"@ && b[2] == "process"@ && b[3] == "exe"@);
}

/// A failure is of the first kind that its message mentions, in lower case, whatever
/// else it mentions; and of no particular kind where it mentions none.
pub proof fn law_the_first_kind_mentioned_decides(err: StartError, msg: Seq<char>, k: Category)
    ensures
        (mentions(msg, k) && forall|j: Category|
            rank(j) < rank(k) ==> !#[trigger] mentions(msg, j)) ==> category_of(msg) == k,
        (forall|j: Category| !#[trigger] mentions(msg, j)) ==> category_of(msg)
            == Category::Generic,
        category_of(msg) == k && k != Category::Generic ==> mentions(msg, k),
        error_category(err) == category_of(lowercase_of(err.message@)),
{
    lemma_mentions(msg);
    assert(words_of(Category::Generic).len() == 0);
}

/// What the user and the log are told of each kind.
pub proof fn law_what_is_told_of_a_kind(k: Category, detail: Seq<char>)
    ensures
        k == Category::Permission ==> k.message_of()
            == "The VPN could not start because Windows permission was denied.\nPlease restart the application with administrator permissions."@
            && k.tag_of() == "permission/access"@,
        k == Category::Connection ==> k.message_of()
            == "Could not connect to the VPN server.\nPlease check your internet connection or try again."@
            && k.tag_of() == "connection/server"@,
        k == Category::Resolution ==> k.message_of()
            == "Could not resolve the VPN server.\nPlease check your internet connection and try again."@
            && k.tag_of() == "dns/resolution"@,
        k == Category::Interface ==> k.message_of()
            == "Could not start the VPN network interface.\nPlease try restarting the application."@
            && k.tag_of() == "tun/network"@,
        k == Category::Configuration ==> k.message_of()
            == "VPN configuration is invalid.\nPlease check the selected profile."@ && k.tag_of()
            == "config"@,
        k == Category::Binary ==> k.message_of()
            == "The VPN could not start.\nPlease check the logs for more details."@ && k.tag_of()
            == "startup/binary"@,
        k == Category::Generic ==> k.message_of()
            == "The VPN could not start.\nCheck the logs for more details."@ && k.tag_of()
            == "generic"@,
        ({
            let line = "[error-classify] "@ + k.tag_of() + ": "@ + detail;
            classify_effects(k, detail) == seq![Effect::Log(line), Effect::Stderr(line)]
        }),
{
}

/// A rejected configuration is reported with what the run printed, its errors first
/// and trimmed as a whole, and with the file.
pub proof fn law_a_rejection_holds_output_and_file(
    stderr: Seq<char>,
    stdout: Seq<char>,
    path: Seq<char>,
)
    ensures
        ({
            let r = rejection(stderr, stdout, path);
            &&& has_suffix(r, "\nConfig: "@ + path)
            &&& r.take(r.len() - ("\nConfig: "@ + path).len()) == "Config validation failed:\n"@
                + trimmed(stderr + stdout)
        }),
{
    let head = "Config validation failed:\n"@ + trimmed(stderr + stdout);
    let tail = "\nConfig: "@ + path;
    let r = rejection(stderr, stdout, path);
    assert(r =~= head + tail);
    assert(r.skip(head.len() as int) =~= tail);
    assert(r.take(head.len() as int) =~= head);
}

}
