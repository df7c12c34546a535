//! The configuration file that sing-box runs with.
use crate::json;
use crate::json::{json_items, json_of, text_items, Json};
use crate::text;
use vstd::prelude::*;
use vstd::string::*;

verus! {

/// The active profile and the user's settings.
pub struct Config {
    /// Protocol: `hysteria2`, or anything else for ShadowTLS.
    pub mode: String,
    /// Host name of the VPN server.
    pub server_address: String,
    pub h2_port: u16,
    pub h2_up_mbps: u32,
    pub h2_down_mbps: u32,
    pub h2_password: String,
    pub h2_sni: String,
    pub h2_insecure: bool,
    /// Kind of obfuscation; empty for none.
    pub h2_obfs: String,
    pub h2_obfs_password: String,
    pub ss_port: u16,
    pub ss_password: String,
    pub stls_port: u16,
    pub stls_password: String,
    pub stls_sni: String,
    pub mtu: Option<u32>,
    pub tun_stack: String,
    /// `wow` to send only the listed domains and apps through the VPN.
    pub split_mode: String,
    pub wow_domains: bool,
    pub wow_apps: Vec<String>,
}

/// Hysteria2 hops over this many ports above its first.
pub const H2_PORT_SPAN: u16 = 4999;

/// Address of sing-box's Clash API inside the configuration.
pub const CLASH_API_ADDRESS: &'static str = "127.0.0.1:9097";

/// Base URL of the Clash API, which serves traffic statistics.
pub const CLASH_API_BASE: &'static str = "http://127.0.0.1:9097";

/// Secret of the Clash API.
pub const CLASH_API_SECRET: &'static str = "dakal";

/// MTU of the TUN interface where the user set none: a safe clamp for paths on
/// which larger segments are lost without notice.
pub const DEFAULT_MTU: u32 = 1360;

impl Config {
    /// The Hysteria2 protocol is selected.
    pub open spec fn is_h2(self) -> bool {
        self.mode@ == "hysteria2"@
    }

    /// Only listed traffic goes through the VPN.
    pub open spec fn is_wow(self) -> bool {
        self.split_mode@ == "wow"@
    }

    /// The hopping range ends at a port number.
    pub open spec fn wf(self) -> bool {
        self.is_h2() ==> self.h2_port + H2_PORT_SPAN <= u16::MAX
    }

    /// Whether the hopping range ends at a port number.
    pub fn hop_range_fits(&self) -> (r: bool)
        ensures
            r == self.wf(),
    {
        !text::same(self.mode.as_str(), "hysteria2") || self.h2_port <= u16::MAX - H2_PORT_SPAN
    }

    /// The user checked the app `id`.
    pub open spec fn checked(self, id: Seq<char>) -> bool {
        self.wow_apps.deep_view().contains(id)
    }
}

pub open spec fn js(s: Seq<char>) -> Json {
    Json::Str(s)
}

// ── outbounds ──────────────────────────────────────────────────────

pub open spec fn tls_tree(server_name: Seq<char>, insecure: bool) -> Json {
    Json::object().with("enabled"@, Json::Bool(true)).with("server_name"@, js(server_name)).with(
        "insecure"@,
        Json::Bool(insecure),
    )
}

/// The range of ports that Hysteria2 hops over.
pub open spec fn hop_range(port: nat) -> Seq<char> {
    text::decimal_of(port) + ":"@ + text::decimal_of(port + H2_PORT_SPAN as nat)
}

pub open spec fn h2_outbound(c: Config, server: Seq<char>) -> Json {
    let base = Json::object().with("type"@, js("hysteria2"@)).with(
        "server_ports"@,
        Json::Arr(seq![js(hop_range(c.h2_port as nat))]),
    ).with("hop_interval"@, js("30s"@)).with("up_mbps"@, Json::Int(c.h2_up_mbps as int)).with(
        "down_mbps"@,
        Json::Int(c.h2_down_mbps as int),
    ).with("password"@, js("testuser1:"@ + c.h2_password@)).with(
        "tls"@,
        tls_tree(c.h2_sni@, c.h2_insecure),
    );
    let full = if c.h2_obfs@.len() == 0 {
        base
    } else {
        base.with(
            "obfs"@,
            Json::object().with("type"@, js(c.h2_obfs@)).with("password"@, js(c.h2_obfs_password@)),
        )
    };
    full.with("tag"@, js("h2-out"@)).with("server"@, js(server))
}

pub open spec fn ss_outbound(c: Config, server: Seq<char>) -> Json {
    Json::object().with("type"@, js("shadowsocks"@)).with(
        "server_port"@,
        Json::Int(c.ss_port as int),
    ).with("method"@, js("2022-blake3-chacha20-poly1305"@)).with("password"@, js(c.ss_password@)).with(
        "detour"@,
        js("shadowtls-out"@),
    ).with("udp_over_tcp"@, Json::object().with("enabled"@, Json::Bool(true))).with(
        "tag"@,
        js("ss-out"@),
    ).with("server"@, js(server))
}

pub open spec fn shadowtls_outbound(c: Config, server: Seq<char>) -> Json {
    Json::object().with("type"@, js("shadowtls"@)).with(
        "server_port"@,
        Json::Int(c.stls_port as int),
    ).with("version"@, Json::Int(3)).with("password"@, js(c.stls_password@)).with(
        "tls"@,
        tls_tree(c.stls_sni@, false),
    ).with("tag"@, js("shadowtls-out"@)).with("server"@, js(server))
}

pub open spec fn direct_outbound() -> Json {
    Json::object().with("type"@, js("direct"@)).with("tag"@, js("direct"@))
}

/// The outbounds of the selected protocol, reaching the VPN server at `server`.
pub open spec fn outbound_list(c: Config, server: Seq<char>) -> Seq<Json> {
    if c.is_h2() {
        seq![h2_outbound(c, server), direct_outbound()]
    } else {
        seq![ss_outbound(c, server), shadowtls_outbound(c, server), direct_outbound()]
    }
}

/// The outbounds of the selected protocol, reaching the server by its host name.
pub fn common_outbounds(c: &Config) -> (r: serde_json::Value)
    requires
        c.wf(),
    ensures
        json_of(r) == Json::Arr(outbound_list(*c, c.server_address@)),
{
    let mut outbounds: Vec<serde_json::Value> = Vec::new();
    if text::same(c.mode.as_str(), "hysteria2") {
        outbounds.push(make_h2_outbound(c));
    } else {
        outbounds.push(make_ss_outbound(c));
        outbounds.push(make_shadowtls_outbound(c));
    }
    let direct = json::with(
        json::with(json::object(), "type", json::string("direct")),
        "tag",
        json::string("direct"),
    );
    outbounds.push(direct);
    proof {
        assert(json_items(outbounds@) =~= outbound_list(*c, c.server_address@));
    }
    json::array(outbounds)
}

fn make_tls(server_name: &str, insecure: bool) -> (r: serde_json::Value)
    ensures
        json_of(r) == tls_tree(server_name@, insecure),
{
    let v = json::with(json::object(), "enabled", json::boolean(true));
    let v = json::with(v, "server_name", json::string(server_name));
    json::with(v, "insecure", json::boolean(insecure))
}

fn make_h2_outbound(c: &Config) -> (r: serde_json::Value)
    requires
        c.wf(),
        c.is_h2(),
    ensures
        json_of(r) == h2_outbound(*c, c.server_address@),
{
    let range = text::decimal(c.h2_port as u64).concat(":").concat(
        text::decimal((c.h2_port + H2_PORT_SPAN) as u64).as_str(),
    );
    let mut ports: Vec<serde_json::Value> = Vec::new();
    ports.push(json::string(range.as_str()));
    proof {
        assert(json_items(ports@) =~= seq![js(hop_range(c.h2_port as nat))]);
    }
    let v = json::with(json::object(), "type", json::string("hysteria2"));
    let v = json::with(v, "server_ports", json::array(ports));
    let v = json::with(v, "hop_interval", json::string("30s"));
    let v = json::with(v, "up_mbps", json::number(c.h2_up_mbps as u64));
    let v = json::with(v, "down_mbps", json::number(c.h2_down_mbps as u64));
    let password = "testuser1:".to_string().concat(c.h2_password.as_str());
    let v = json::with(v, "password", json::string(password.as_str()));
    let mut v = json::with(v, "tls", make_tls(c.h2_sni.as_str(), c.h2_insecure));
    if !c.h2_obfs.as_str().is_empty() {
        let obfs = json::with(json::object(), "type", json::string(c.h2_obfs.as_str()));
        let obfs = json::with(obfs, "password", json::string(c.h2_obfs_password.as_str()));
        v = json::with(v, "obfs", obfs);
    }
    let v = json::with(v, "tag", json::string("h2-out"));
    json::with(v, "server", json::string(c.server_address.as_str()))
}

fn make_ss_outbound(c: &Config) -> (r: serde_json::Value)
    ensures
        json_of(r) == ss_outbound(*c, c.server_address@),
{
    let v = json::with(json::object(), "type", json::string("shadowsocks"));
    let v = json::with(v, "server_port", json::number(c.ss_port as u64));
    let v = json::with(v, "method", json::string("2022-blake3-chacha20-poly1305"));
    let v = json::with(v, "password", json::string(c.ss_password.as_str()));
    let v = json::with(v, "detour", json::string("shadowtls-out"));
    let udp = json::with(json::object(), "enabled", json::boolean(true));
    let v = json::with(v, "udp_over_tcp", udp);
    let v = json::with(v, "tag", json::string("ss-out"));
    json::with(v, "server", json::string(c.server_address.as_str()))
}

fn make_shadowtls_outbound(c: &Config) -> (r: serde_json::Value)
    ensures
        json_of(r) == shadowtls_outbound(*c, c.server_address@),
{
    let v = json::with(json::object(), "type", json::string("shadowtls"));
    let v = json::with(v, "server_port", json::number(c.stls_port as u64));
    let v = json::with(v, "version", json::number(3));
    let v = json::with(v, "password", json::string(c.stls_password.as_str()));
    let v = json::with(v, "tls", make_tls(c.stls_sni.as_str(), false));
    let v = json::with(v, "tag", json::string("shadowtls-out"));
    json::with(v, "server", json::string(c.server_address.as_str()))
}

// ── route rules ────────────────────────────────────────────────────

/// The domains that the game is served from.
pub open spec fn wow_domain_list() -> Seq<Seq<char>> {
    seq![
        "battle.net"@,
        "blizzard.com"@,
        "worldofwarcraft.com"@,
        "wow.com"@,
        "battlenet.com"@,
        "akamaized.net"@,
        "akamaihd.net"@,
        "akadns.net"@,
        "akamai.net"@,
        "edgecastcdn.net"@,
        "edgecast.net"@,
        "llnw.net"@,
        "llnw.com"@,
        "limelight.net"@,
        "cloudfront.net"@,
        "fastly.net"@,
        "level3.com"@,
        "level3.net"@,
        "blizzardcdn.com"@,
        "blizzard.112.2o7.net"@,
        "2o7.net"@,
        "omtrdc.net"@,
        "connection.wow"@,
        "realmlist.wow"@,
    ]
}

/// The outbound that leads through the VPN.
pub open spec fn final_outbound(c: Config) -> Seq<char> {
    if c.is_h2() {
        "h2-out"@
    } else {
        "ss-out"@
    }
}

/// The outbound of traffic that no rule names.
pub open spec fn route_final(c: Config) -> Seq<char> {
    if c.is_wow() {
        "direct"@
    } else {
        final_outbound(c)
    }
}

/// Sends the subdomains of `domain` to `outbound`.
pub open spec fn domain_rule(domain: Seq<char>, outbound: Seq<char>) -> Json {
    Json::object().with("domain_suffix"@, Json::Arr(seq![js(domain)])).with(
        "outbound"@,
        js(outbound),
    )
}

/// Sends the traffic of the processes `names` to `outbound`.
pub open spec fn process_rule(names: Seq<Seq<char>>, outbound: Seq<char>) -> Json {
    Json::object().with("process_name"@, Json::Arr(text_items(names))).with(
        "outbound"@,
        js(outbound),
    )
}

/// The rules of the game's domains, in the order of the list.
pub open spec fn domain_rules(c: Config) -> Seq<Json> {
    if c.wow_domains {
        wow_domain_list().map_values(|d: Seq<char>| domain_rule(d, final_outbound(c)))
    } else {
        seq![]
    }
}

/// The rule of the app `id`, if the user checked it.
pub open spec fn app_rule(c: Config, id: Seq<char>, names: Seq<Seq<char>>) -> Seq<Json> {
    if c.checked(id) {
        seq![process_rule(names, final_outbound(c))]
    } else {
        seq![]
    }
}

/// The rules of the checked apps.
pub open spec fn app_rules(c: Config) -> Seq<Json> {
    app_rule(c, "discord"@, seq!["Discord.exe"@, "Update.exe"@]) + app_rule(
        c,
        "chrome"@,
        seq!["chrome.exe"@],
    ) + app_rule(c, "telegram"@, seq!["Telegram.exe"@])
}

/// What the split mode adds to the rules. What was listed last comes first.
pub open spec fn split_rules(c: Config) -> Seq<Json> {
    if c.is_wow() {
        app_rules(c).reverse() + domain_rules(c).reverse()
    } else {
        seq![]
    }
}

/// Either of two conditions.
pub open spec fn either_rule(a: Json, b: Json, action: Seq<char>) -> Json {
    Json::object().with("type"@, js("logical"@)).with("mode"@, js("or"@)).with(
        "rules"@,
        Json::Arr(seq![a, b]),
    ).with("action"@, js(action))
}

/// The addresses as networks of one address.
pub open spec fn bypass_cidrs(ips: Seq<Seq<char>>) -> Seq<Seq<char>> {
    ips.map_values(|ip: Seq<char>| ip + "/32"@)
}

/// The rules ahead of those of the split mode.
pub open spec fn leading_rules(ips: Seq<Seq<char>>) -> Seq<Json> {
    seq![
        Json::object().with("action"@, js("sniff"@)),
        either_rule(
            Json::object().with("protocol"@, js("dns"@)),
            Json::object().with("port"@, Json::Int(53)),
            "hijack-dns"@,
        ),
        Json::object().with("ip_cidr"@, Json::Arr(text_items(bypass_cidrs(ips)))).with(
            "outbound"@,
            js("direct"@),
        ),
    ]
}

/// The rules behind those of the split mode.
pub open spec fn trailing_rules() -> Seq<Json> {
    seq![
        Json::object().with("ip_is_private"@, Json::Bool(true)).with("action"@, js("route"@)).with(
            "outbound"@,
            js("direct"@),
        ),
        either_rule(
            Json::object().with("port"@, Json::Int(853)),
            Json::object().with("protocol"@, js("stun"@)),
            "reject"@,
        ),
    ]
}

/// All route rules, for a server with the addresses `ips`.
pub open spec fn route_rules(c: Config, ips: Seq<Seq<char>>) -> Seq<Json> {
    leading_rules(ips) + split_rules(c) + trailing_rules()
}

fn wow_domains() -> (r: Vec<&'static str>)
    ensures
        r.deep_view() == wow_domain_list(),
{
    let r: Vec<&'static str> = vec![
        "battle.net",
        "blizzard.com",
        "worldofwarcraft.com",
        "wow.com",
        "battlenet.com",
        "akamaized.net",
        "akamaihd.net",
        "akadns.net",
        "akamai.net",
        "edgecastcdn.net",
        "edgecast.net",
        "llnw.net",
        "llnw.com",
        "limelight.net",
        "cloudfront.net",
        "fastly.net",
        "level3.com",
        "level3.net",
        "blizzardcdn.com",
        "blizzard.112.2o7.net",
        "2o7.net",
        "omtrdc.net",
        "connection.wow",
        "realmlist.wow",
    ];
    proof {
        assert(r.deep_view() =~= wow_domain_list());
    }
    r
}

fn make_domain_rule(domain: &str, outbound: &str) -> (r: serde_json::Value)
    ensures
        json_of(r) == domain_rule(domain@, outbound@),
{
    let mut suffixes: Vec<serde_json::Value> = Vec::new();
    suffixes.push(json::string(domain));
    proof {
        assert(json_items(suffixes@) =~= seq![js(domain@)]);
    }
    let v = json::with(json::object(), "domain_suffix", json::array(suffixes));
    json::with(v, "outbound", json::string(outbound))
}

fn make_process_rule(names: &Vec<String>, outbound: &str) -> (r: serde_json::Value)
    ensures
        json_of(r) == process_rule(names.deep_view(), outbound@),
{
    let v = json::with(json::object(), "process_name", json::strings(names));
    json::with(v, "outbound", json::string(outbound))
}

fn make_either_rule(a: serde_json::Value, b: serde_json::Value, action: &str) -> (r:
    serde_json::Value)
    ensures
        json_of(r) == either_rule(json_of(a), json_of(b), action@),
{
    let mut rules: Vec<serde_json::Value> = Vec::new();
    rules.push(a);
    rules.push(b);
    proof {
        assert(json_items(rules@) =~= seq![json_of(a), json_of(b)]);
    }
    let v = json::with(json::object(), "type", json::string("logical"));
    let v = json::with(v, "mode", json::string("or"));
    let v = json::with(v, "rules", json::array(rules));
    json::with(v, "action", json::string(action))
}

fn make_cidrs(ips: &Vec<String>) -> (r: Vec<String>)
    ensures
        r.deep_view() == bypass_cidrs(ips.deep_view()),
{
    let mut r: Vec<String> = Vec::new();
    let mut i: usize = 0;
    while i < ips.len()
        invariant
            i <= ips.len(),
            r.deep_view() == bypass_cidrs(ips.deep_view()).take(i as int),
        decreases ips.len() - i,
    {
        let ghost before = r.deep_view();
        r.push(ips[i].clone().concat("/32"));
        proof {
            assert(r.deep_view() =~= before.push(ips@[i as int]@ + "/32"@));
            assert(bypass_cidrs(ips.deep_view()).take(i + 1) =~= bypass_cidrs(
                ips.deep_view(),
            ).take(i as int).push(ips@[i as int]@ + "/32"@));
        }
        i = i + 1;
    }
    proof {
        assert(bypass_cidrs(ips.deep_view()).take(ips.len() as int) =~= bypass_cidrs(
            ips.deep_view(),
        ));
    }
    r
}

/// The rules of every mode.
fn make_base_rules(ips: &Vec<String>) -> (r: Vec<serde_json::Value>)
    ensures
        json_items(r@) == leading_rules(ips.deep_view()) + trailing_rules(),
{
    let mut r: Vec<serde_json::Value> = Vec::new();
    r.push(json::with(json::object(), "action", json::string("sniff")));
    let dns = json::with(json::object(), "protocol", json::string("dns"));
    let port = json::with(json::object(), "port", json::number(53));
    r.push(make_either_rule(dns, port, "hijack-dns"));
    let bypass = json::with(json::object(), "ip_cidr", json::strings(&make_cidrs(ips)));
    r.push(json::with(bypass, "outbound", json::string("direct")));
    let private = json::with(json::object(), "ip_is_private", json::boolean(true));
    let private = json::with(private, "action", json::string("route"));
    r.push(json::with(private, "outbound", json::string("direct")));
    let port = json::with(json::object(), "port", json::number(853));
    let stun = json::with(json::object(), "protocol", json::string("stun"));
    r.push(make_either_rule(port, stun, "reject"));
    proof {
        assert(json_items(r@) =~= leading_rules(ips.deep_view()) + trailing_rules());
    }
    r
}

/// Inserting behind the head puts the new item ahead of the reversed middle.
proof fn lemma_insert_reversed(head: Seq<Json>, middle: Seq<Json>, tail: Seq<Json>, x: Json)
    ensures
        (head + middle.reverse() + tail).insert(head.len() as int, x) == head + middle.push(
            x,
        ).reverse() + tail,
{
    let l = (head + middle.reverse() + tail).insert(head.len() as int, x);
    let r = head + middle.push(x).reverse() + tail;
    assert(l.len() == r.len());
    assert forall|k: int| 0 <= k < l.len() implies l[k] == r[k] by {}
    assert(l =~= r);
}

/// Puts a rule behind the leading ones.
fn insert_rule(
    rules: &mut Vec<serde_json::Value>,
    rule: serde_json::Value,
    Ghost(head): Ghost<Seq<Json>>,
    Ghost(middle): Ghost<Seq<Json>>,
    Ghost(tail): Ghost<Seq<Json>>,
)
    requires
        head.len() == 3,
        json_items(old(rules)@) == head + middle.reverse() + tail,
    ensures
        json_items(final(rules)@) == head + middle.push(json_of(rule)).reverse() + tail,
{
    let ghost before = rules@;
    proof {
        assert(json_items(before).len() == before.len());
        lemma_insert_reversed(head, middle, tail, json_of(rule));
    }
    rules.insert(3, rule);
    proof {
        assert(json_items(rules@) =~= json_items(before).insert(3, json_of(rule)));
    }
}

/// Adds the rules of the game's domains.
fn add_domain_rules(
    c: &Config,
    rules: &mut Vec<serde_json::Value>,
    outbound: &str,
    Ghost(head): Ghost<Seq<Json>>,
    Ghost(tail): Ghost<Seq<Json>>,
)
    requires
        head.len() == 3,
        outbound@ == final_outbound(*c),
        json_items(old(rules)@) == head + tail,
    ensures
        json_items(final(rules)@) == head + domain_rules(*c).reverse() + tail,
{
    let ghost done: Seq<Json> = seq![];
    proof {
        assert(head + done.reverse() + tail =~= head + tail);
    }
    if c.wow_domains {
        let domains = wow_domains();
        let ghost all = domain_rules(*c);
        proof {
            assert(all.take(0) =~= done);
        }
        let mut i: usize = 0;
        while i < domains.len()
            invariant
                head.len() == 3,
                i <= domains.len(),
                domains.deep_view() == wow_domain_list(),
                c.wow_domains,
                outbound@ == final_outbound(*c),
                all == domain_rules(*c),
                json_items(rules@) == head + all.take(i as int).reverse() + tail,
            decreases domains.len() - i,
        {
            let rule = make_domain_rule(domains[i], outbound);
            proof {
                assert(domains.deep_view()[i as int] == domains@[i as int]@);
                assert(all.take(i + 1) =~= all.take(i as int).push(json_of(rule)));
            }
            insert_rule(rules, rule, Ghost(head), Ghost(all.take(i as int)), Ghost(tail));
            i = i + 1;
        }
        proof {
            assert(all.take(domains.len() as int) =~= all);
        }
    }
}

/// Adds the rule of the app `id`, if the user checked it; tells whether it did.
fn add_app_rule(
    c: &Config,
    rules: &mut Vec<serde_json::Value>,
    outbound: &str,
    id: &str,
    names: &Vec<String>,
    Ghost(head): Ghost<Seq<Json>>,
    Ghost(middle): Ghost<Seq<Json>>,
    Ghost(tail): Ghost<Seq<Json>>,
) -> (added: bool)
    requires
        head.len() == 3,
        outbound@ == final_outbound(*c),
        json_items(old(rules)@) == head + middle.reverse() + tail,
    ensures
        added == c.checked(id@),
        json_items(final(rules)@) == head + (middle + app_rule(
            *c,
            id@,
            names.deep_view(),
        )).reverse() + tail,
{
    if text::any_same(&c.wow_apps, id) {
        let rule = make_process_rule(names, outbound);
        proof {
            assert(middle + app_rule(*c, id@, names.deep_view()) =~= middle.push(json_of(rule)));
        }
        insert_rule(rules, rule, Ghost(head), Ghost(middle), Ghost(tail));
        true
    } else {
        proof {
            assert(middle + app_rule(*c, id@, names.deep_view()) =~= middle);
        }
        false
    }
}

fn one(a: &str) -> (r: Vec<String>)
    ensures
        r.deep_view() == seq![a@],
{
    let mut r: Vec<String> = Vec::new();
    r.push(a.to_string());
    proof {
        assert(r.deep_view() =~= seq![a@]);
    }
    r
}

fn two(a: &str, b: &str) -> (r: Vec<String>)
    ensures
        r.deep_view() == seq![a@, b@],
{
    let mut r: Vec<String> = Vec::new();
    r.push(a.to_string());
    r.push(b.to_string());
    proof {
        assert(r.deep_view() =~= seq![a@, b@]);
    }
    r
}

/// An app whose traffic the split mode sends through the VPN is checked.
pub open spec fn any_app_checked(c: Config) -> bool {
    c.checked("discord"@) || c.checked("chrome"@) || c.checked("telegram"@)
}

/// sing-box has to look up the process of each connection.
pub open spec fn finds_process(c: Config) -> bool {
    c.is_wow() && any_app_checked(c)
}

/// All route rules, and whether one of them names a process.
fn make_route_rules(c: &Config, ips: &Vec<String>, outbound: &str) -> (r: (
    Vec<serde_json::Value>,
    bool,
))
    requires
        outbound@ == final_outbound(*c),
    ensures
        json_items(r.0@) == route_rules(*c, ips.deep_view()),
        r.1 == finds_process(*c),
{
    let mut rules = make_base_rules(ips);
    let mut has_app_rules = false;
    let ghost head = leading_rules(ips.deep_view());
    let ghost tail = trailing_rules();
    if text::same(c.split_mode.as_str(), "wow") {
        add_domain_rules(c, &mut rules, outbound, Ghost(head), Ghost(tail));
        let ghost m0 = domain_rules(*c);
        let ghost discord = app_rule(*c, "discord"@, seq!["Discord.exe"@, "Update.exe"@]);
        let ghost chrome = app_rule(*c, "chrome"@, seq!["chrome.exe"@]);
        let ghost telegram = app_rule(*c, "telegram"@, seq!["Telegram.exe"@]);
        if add_app_rule(
            c,
            &mut rules,
            outbound,
            "discord",
            &two("Discord.exe", "Update.exe"),
            Ghost(head),
            Ghost(m0),
            Ghost(tail),
        ) {
            has_app_rules = true;
        }
        if add_app_rule(
            c,
            &mut rules,
            outbound,
            "chrome",
            &one("chrome.exe"),
            Ghost(head),
            Ghost(m0 + discord),
            Ghost(tail),
        ) {
            has_app_rules = true;
        }
        if add_app_rule(
            c,
            &mut rules,
            outbound,
            "telegram",
            &one("Telegram.exe"),
            Ghost(head),
            Ghost(m0 + discord + chrome),
            Ghost(tail),
        ) {
            has_app_rules = true;
        }
        proof {
            let whole = m0 + discord + chrome + telegram;
            assert(whole =~= m0 + app_rules(*c));
            assert(whole.reverse() =~= split_rules(*c));
        }
    } else {
        proof {
            assert(head + tail =~= route_rules(*c, ips.deep_view()));
        }
    }
    (rules, has_app_rules)
}

// ── the whole file ─────────────────────────────────────────────────

pub open spec fn log_tree() -> Json {
    Json::object().with("disabled"@, Json::Bool(false)).with("level"@, js("info"@)).with(
        "timestamp"@,
        Json::Bool(true),
    )
}

pub open spec fn clash_tree() -> Json {
    Json::object().with("external_controller"@, js(CLASH_API_ADDRESS@)).with(
        "secret"@,
        js(CLASH_API_SECRET@),
    ).with("default_mode"@, js("rule"@))
}

pub open spec fn dns_tree(c: Config) -> Json {
    let server = Json::object().with("type"@, js("https"@)).with("tag"@, js("remote-doh"@)).with(
        "server"@,
        js("dns.google"@),
    ).with("server_port"@, Json::Int(443)).with("path"@, js("/dns-query"@)).with(
        "detour"@,
        js(final_outbound(c)),
    );
    Json::object().with("servers"@, Json::Arr(seq![server])).with("final"@, js("remote-doh"@)).with(
        "reverse_mapping"@,
        Json::Bool(true),
    ).with("strategy"@, js("ipv4_only"@))
}

/// The MTU in use.
pub open spec fn mtu_of(c: Config) -> u32 {
    match c.mtu {
        Some(m) => m,
        None => DEFAULT_MTU,
    }
}

pub open spec fn tun_tree(c: Config) -> Json {
    Json::object().with("type"@, js("tun"@)).with("tag"@, js("tun-in"@)).with(
        "address"@,
        Json::Arr(seq![js("172.19.0.1/30"@)]),
    ).with("mtu"@, Json::Int(mtu_of(c) as int)).with("auto_route"@, Json::Bool(true)).with(
        "strict_route"@,
        Json::Bool(true),
    ).with("stack"@, js(c.tun_stack@))
}

pub open spec fn route_tree(c: Config, ips: Seq<Seq<char>>) -> Json {
    Json::object().with("rules"@, Json::Arr(route_rules(c, ips))).with(
        "final"@,
        js(route_final(c)),
    ).with("auto_detect_interface"@, Json::Bool(true)).with(
        "default_domain_resolver"@,
        js("remote-doh"@),
    ).with("find_process"@, Json::Bool(finds_process(c)))
}

/// The configuration of sing-box for a server with the addresses `ips`. The host
/// name is what the outbounds dial; the addresses only route around the TUN
/// interface.
pub open spec fn vpn_config(c: Config, ips: Seq<Seq<char>>) -> Json {
    Json::object().with("log"@, log_tree()).with(
        "experimental"@,
        Json::object().with("clash_api"@, clash_tree()),
    ).with("dns"@, dns_tree(c)).with("inbounds"@, Json::Arr(seq![tun_tree(c)])).with(
        "outbounds"@,
        Json::Arr(outbound_list(c, c.server_address@)),
    ).with("route"@, route_tree(c, ips))
}

fn make_log() -> (r: serde_json::Value)
    ensures
        json_of(r) == log_tree(),
{
    let v = json::with(json::object(), "disabled", json::boolean(false));
    let v = json::with(v, "level", json::string("info"));
    json::with(v, "timestamp", json::boolean(true))
}

fn make_clash() -> (r: serde_json::Value)
    ensures
        json_of(r) == clash_tree(),
{
    let v = json::with(json::object(), "external_controller", json::string(CLASH_API_ADDRESS));
    let v = json::with(v, "secret", json::string(CLASH_API_SECRET));
    json::with(v, "default_mode", json::string("rule"))
}

fn make_dns(c: &Config, outbound: &str) -> (r: serde_json::Value)
    requires
        outbound@ == final_outbound(*c),
    ensures
        json_of(r) == dns_tree(*c),
{
    let s = json::with(json::object(), "type", json::string("https"));
    let s = json::with(s, "tag", json::string("remote-doh"));
    let s = json::with(s, "server", json::string("dns.google"));
    let s = json::with(s, "server_port", json::number(443));
    let s = json::with(s, "path", json::string("/dns-query"));
    let s = json::with(s, "detour", json::string(outbound));
    let mut servers: Vec<serde_json::Value> = Vec::new();
    servers.push(s);
    proof {
        assert(json_items(servers@) =~= seq![json_of(s)]);
    }
    let v = json::with(json::object(), "servers", json::array(servers));
    let v = json::with(v, "final", json::string("remote-doh"));
    let v = json::with(v, "reverse_mapping", json::boolean(true));
    json::with(v, "strategy", json::string("ipv4_only"))
}

fn make_tun(c: &Config) -> (r: serde_json::Value)
    ensures
        json_of(r) == tun_tree(*c),
{
    let mtu: u32 = c.mtu.unwrap_or(DEFAULT_MTU);
    let v = json::with(json::object(), "type", json::string("tun"));
    let v = json::with(v, "tag", json::string("tun-in"));
    let address = json::strings(&one("172.19.0.1/30"));
    proof {
        assert(text_items(seq!["172.19.0.1/30"@]) =~= seq![js("172.19.0.1/30"@)]);
    }
    let v = json::with(v, "address", address);
    let v = json::with(v, "mtu", json::number(mtu as u64));
    let v = json::with(v, "auto_route", json::boolean(true));
    let v = json::with(v, "strict_route", json::boolean(true));
    json::with(v, "stack", json::string(c.tun_stack.as_str()))
}

fn make_route(c: &Config, ips: &Vec<String>, outbound: &str) -> (r: serde_json::Value)
    requires
        outbound@ == final_outbound(*c),
    ensures
        json_of(r) == route_tree(*c, ips.deep_view()),
{
    let (rules, has_app_rules) = make_route_rules(c, ips, outbound);
    let last = if text::same(c.split_mode.as_str(), "wow") {
        "direct"
    } else {
        outbound
    };
    let v = json::with(json::object(), "rules", json::array(rules));
    let v = json::with(v, "final", json::string(last));
    let v = json::with(v, "auto_detect_interface", json::boolean(true));
    let v = json::with(v, "default_domain_resolver", json::string("remote-doh"));
    json::with(v, "find_process", json::boolean(has_app_rules))
}

/// The configuration of sing-box for a server with the addresses `ips`, which
/// only route around the TUN interface.
pub fn build_vpn_config(c: &Config, ips: &Vec<String>) -> (r: serde_json::Value)
    requires
        c.wf(),
    ensures
        json_of(r) == vpn_config(*c, ips.deep_view()),
{
    let outbound = if text::same(c.mode.as_str(), "hysteria2") {
        "h2-out"
    } else {
        "ss-out"
    };
    let experimental = json::with(json::object(), "clash_api", make_clash());
    let mut inbounds: Vec<serde_json::Value> = Vec::new();
    inbounds.push(make_tun(c));
    proof {
        assert(json_items(inbounds@) =~= seq![tun_tree(*c)]);
    }
    let v = json::with(json::object(), "log", make_log());
    let v = json::with(v, "experimental", experimental);
    let v = json::with(v, "dns", make_dns(c, outbound));
    let v = json::with(v, "inbounds", json::array(inbounds));
    let v = json::with(v, "outbounds", common_outbounds(c));
    json::with(v, "route", make_route(c, ips, outbound))
}

}
