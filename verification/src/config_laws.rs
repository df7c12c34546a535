//! What the configuration of sing-box holds, member by member.
use crate::json::Json;
use crate::text::decimal_of;
use crate::vpn_config::{vpn_config, Config};
use vstd::prelude::*;

verus! {

/// An object has no member but these.
pub open spec fn has_only(v: Json, keys: Seq<Seq<char>>) -> bool {
    v is Obj && forall|key: Seq<char>| #[trigger]
        v->Obj_0.contains_key(key) ==> keys.contains(key)
}

/// The members of the whole are told apart.
proof fn keys_of_root()
    ensures
        "log"@ != "experimental"@,
        "log"@ != "dns"@,
        "log"@ != "inbounds"@,
        "log"@ != "outbounds"@,
        "log"@ != "route"@,
        "experimental"@ != "dns"@,
        "experimental"@ != "inbounds"@,
        "experimental"@ != "outbounds"@,
        "experimental"@ != "route"@,
        "dns"@ != "inbounds"@,
        "dns"@ != "outbounds"@,
        "dns"@ != "route"@,
        "inbounds"@ != "outbounds"@,
        "inbounds"@ != "route"@,
        "outbounds"@ != "route"@,
{
    reveal_strlit("log");
    reveal_strlit("experimental");
    reveal_strlit("dns");
    reveal_strlit("inbounds");
    reveal_strlit("outbounds");
    reveal_strlit("route");
    assert("log"@.len() == 3);
    assert("experimental"@.len() == 12);
    assert("dns"@.len() == 3);
    assert("inbounds"@.len() == 8);
    assert("outbounds"@.len() == 9);
    assert("route"@.len() == 5);
    assert("log"@[0] != "dns"@[0]);
}

/// The members of the log settings are told apart.
proof fn keys_of_log()
    ensures
        "disabled"@ != "level"@,
        "disabled"@ != "timestamp"@,
        "level"@ != "timestamp"@,
{
    reveal_strlit("disabled");
    reveal_strlit("level");
    reveal_strlit("timestamp");
    assert("disabled"@.len() == 8);
    assert("level"@.len() == 5);
    assert("timestamp"@.len() == 9);
}

/// The members of the Clash API are told apart.
proof fn keys_of_clash()
    ensures
        "external_controller"@ != "secret"@,
        "external_controller"@ != "default_mode"@,
        "secret"@ != "default_mode"@,
{
    reveal_strlit("external_controller");
    reveal_strlit("secret");
    reveal_strlit("default_mode");
    assert("external_controller"@.len() == 19);
    assert("secret"@.len() == 6);
    assert("default_mode"@.len() == 12);
}

/// The members of the DNS settings are told apart.
proof fn keys_of_dns()
    ensures
        "servers"@ != "final"@,
        "servers"@ != "reverse_mapping"@,
        "servers"@ != "strategy"@,
        "final"@ != "reverse_mapping"@,
        "final"@ != "strategy"@,
        "reverse_mapping"@ != "strategy"@,
{
    reveal_strlit("servers");
    reveal_strlit("final");
    reveal_strlit("reverse_mapping");
    reveal_strlit("strategy");
    assert("servers"@.len() == 7);
    assert("final"@.len() == 5);
    assert("reverse_mapping"@.len() == 15);
    assert("strategy"@.len() == 8);
}

/// The members of a DNS server are told apart.
proof fn keys_of_dns_server()
    ensures
        "type"@ != "tag"@,
        "type"@ != "server"@,
        "type"@ != "server_port"@,
        "type"@ != "path"@,
        "type"@ != "detour"@,
        "tag"@ != "server"@,
        "tag"@ != "server_port"@,
        "tag"@ != "path"@,
        "tag"@ != "detour"@,
        "server"@ != "server_port"@,
        "server"@ != "path"@,
        "server"@ != "detour"@,
        "server_port"@ != "path"@,
        "server_port"@ != "detour"@,
        "path"@ != "detour"@,
{
    reveal_strlit("type");
    reveal_strlit("tag");
    reveal_strlit("server");
    reveal_strlit("server_port");
    reveal_strlit("path");
    reveal_strlit("detour");
    assert("type"@.len() == 4);
    assert("tag"@.len() == 3);
    assert("server"@.len() == 6);
    assert("server_port"@.len() == 11);
    assert("path"@.len() == 4);
    assert("detour"@.len() == 6);
    assert("type"@[0] != "path"@[0]);
    assert("server"@[0] != "detour"@[0]);
}

/// The members of the TUN interface are told apart.
proof fn keys_of_tun()
    ensures
        "type"@ != "tag"@,
        "type"@ != "address"@,
        "type"@ != "mtu"@,
        "type"@ != "auto_route"@,
        "type"@ != "strict_route"@,
        "type"@ != "stack"@,
        "tag"@ != "address"@,
        "tag"@ != "mtu"@,
        "tag"@ != "auto_route"@,
        "tag"@ != "strict_route"@,
        "tag"@ != "stack"@,
        "address"@ != "mtu"@,
        "address"@ != "auto_route"@,
        "address"@ != "strict_route"@,
        "address"@ != "stack"@,
        "mtu"@ != "auto_route"@,
        "mtu"@ != "strict_route"@,
        "mtu"@ != "stack"@,
        "auto_route"@ != "strict_route"@,
        "auto_route"@ != "stack"@,
        "strict_route"@ != "stack"@,
{
    reveal_strlit("type");
    reveal_strlit("tag");
    reveal_strlit("address");
    reveal_strlit("mtu");
    reveal_strlit("auto_route");
    reveal_strlit("strict_route");
    reveal_strlit("stack");
    assert("type"@.len() == 4);
    assert("tag"@.len() == 3);
    assert("address"@.len() == 7);
    assert("mtu"@.len() == 3);
    assert("auto_route"@.len() == 10);
    assert("strict_route"@.len() == 12);
    assert("stack"@.len() == 5);
    assert("tag"@[0] != "mtu"@[0]);
}

/// The members of a Hysteria2 outbound are told apart.
proof fn keys_of_h2()
    ensures
        "type"@ != "server_ports"@,
        "type"@ != "hop_interval"@,
        "type"@ != "up_mbps"@,
        "type"@ != "down_mbps"@,
        "type"@ != "password"@,
        "type"@ != "tls"@,
        "type"@ != "obfs"@,
        "type"@ != "tag"@,
        "type"@ != "server"@,
        "server_ports"@ != "hop_interval"@,
        "server_ports"@ != "up_mbps"@,
        "server_ports"@ != "down_mbps"@,
        "server_ports"@ != "password"@,
        "server_ports"@ != "tls"@,
        "server_ports"@ != "obfs"@,
        "server_ports"@ != "tag"@,
        "server_ports"@ != "server"@,
        "hop_interval"@ != "up_mbps"@,
        "hop_interval"@ != "down_mbps"@,
        "hop_interval"@ != "password"@,
        "hop_interval"@ != "tls"@,
        "hop_interval"@ != "obfs"@,
        "hop_interval"@ != "tag"@,
        "hop_interval"@ != "server"@,
        "up_mbps"@ != "down_mbps"@,
        "up_mbps"@ != "password"@,
        "up_mbps"@ != "tls"@,
        "up_mbps"@ != "obfs"@,
        "up_mbps"@ != "tag"@,
        "up_mbps"@ != "server"@,
        "down_mbps"@ != "password"@,
        "down_mbps"@ != "tls"@,
        "down_mbps"@ != "obfs"@,
        "down_mbps"@ != "tag"@,
        "down_mbps"@ != "server"@,
        "password"@ != "tls"@,
        "password"@ != "obfs"@,
        "password"@ != "tag"@,
        "password"@ != "server"@,
        "tls"@ != "obfs"@,
        "tls"@ != "tag"@,
        "tls"@ != "server"@,
        "obfs"@ != "tag"@,
        "obfs"@ != "server"@,
        "tag"@ != "server"@,
{
    reveal_strlit("type");
    reveal_strlit("server_ports");
    reveal_strlit("hop_interval");
    reveal_strlit("up_mbps");
    reveal_strlit("down_mbps");
    reveal_strlit("password");
    reveal_strlit("tls");
    reveal_strlit("obfs");
    reveal_strlit("tag");
    reveal_strlit("server");
    assert("type"@.len() == 4);
    assert("server_ports"@.len() == 12);
    assert("hop_interval"@.len() == 12);
    assert("up_mbps"@.len() == 7);
    assert("down_mbps"@.len() == 9);
    assert("password"@.len() == 8);
    assert("tls"@.len() == 3);
    assert("obfs"@.len() == 4);
    assert("tag"@.len() == 3);
    assert("server"@.len() == 6);
    assert("type"@[0] != "obfs"@[0]);
    assert("server_ports"@[0] != "hop_interval"@[0]);
    assert("tls"@[1] != "tag"@[1]);
}

/// The members of TLS settings are told apart.
proof fn keys_of_tls()
    ensures
        "enabled"@ != "server_name"@,
        "enabled"@ != "insecure"@,
        "server_name"@ != "insecure"@,
{
    reveal_strlit("enabled");
    reveal_strlit("server_name");
    reveal_strlit("insecure");
    assert("enabled"@.len() == 7);
    assert("server_name"@.len() == 11);
    assert("insecure"@.len() == 8);
}

/// The members of a Shadowsocks outbound are told apart.
proof fn keys_of_ss()
    ensures
        "type"@ != "server_port"@,
        "type"@ != "method"@,
        "type"@ != "password"@,
        "type"@ != "detour"@,
        "type"@ != "udp_over_tcp"@,
        "type"@ != "tag"@,
        "type"@ != "server"@,
        "server_port"@ != "method"@,
        "server_port"@ != "password"@,
        "server_port"@ != "detour"@,
        "server_port"@ != "udp_over_tcp"@,
        "server_port"@ != "tag"@,
        "server_port"@ != "server"@,
        "method"@ != "password"@,
        "method"@ != "detour"@,
        "method"@ != "udp_over_tcp"@,
        "method"@ != "tag"@,
        "method"@ != "server"@,
        "password"@ != "detour"@,
        "password"@ != "udp_over_tcp"@,
        "password"@ != "tag"@,
        "password"@ != "server"@,
        "detour"@ != "udp_over_tcp"@,
        "detour"@ != "tag"@,
        "detour"@ != "server"@,
        "udp_over_tcp"@ != "tag"@,
        "udp_over_tcp"@ != "server"@,
        "tag"@ != "server"@,
{
    reveal_strlit("type");
    reveal_strlit("server_port");
    reveal_strlit("method");
    reveal_strlit("password");
    reveal_strlit("detour");
    reveal_strlit("udp_over_tcp");
    reveal_strlit("tag");
    reveal_strlit("server");
    assert("type"@.len() == 4);
    assert("server_port"@.len() == 11);
    assert("method"@.len() == 6);
    assert("password"@.len() == 8);
    assert("detour"@.len() == 6);
    assert("udp_over_tcp"@.len() == 12);
    assert("tag"@.len() == 3);
    assert("server"@.len() == 6);
    assert("method"@[0] != "detour"@[0]);
    assert("method"@[0] != "server"@[0]);
    assert("detour"@[0] != "server"@[0]);
}

/// The members of a ShadowTLS outbound are told apart.
proof fn keys_of_stls()
    ensures
        "type"@ != "server_port"@,
        "type"@ != "version"@,
        "type"@ != "password"@,
        "type"@ != "tls"@,
        "type"@ != "tag"@,
        "type"@ != "server"@,
        "server_port"@ != "version"@,
        "server_port"@ != "password"@,
        "server_port"@ != "tls"@,
        "server_port"@ != "tag"@,
        "server_port"@ != "server"@,
        "version"@ != "password"@,
        "version"@ != "tls"@,
        "version"@ != "tag"@,
        "version"@ != "server"@,
        "password"@ != "tls"@,
        "password"@ != "tag"@,
        "password"@ != "server"@,
        "tls"@ != "tag"@,
        "tls"@ != "server"@,
        "tag"@ != "server"@,
{
    reveal_strlit("type");
    reveal_strlit("server_port");
    reveal_strlit("version");
    reveal_strlit("password");
    reveal_strlit("tls");
    reveal_strlit("tag");
    reveal_strlit("server");
    assert("type"@.len() == 4);
    assert("server_port"@.len() == 11);
    assert("version"@.len() == 7);
    assert("password"@.len() == 8);
    assert("tls"@.len() == 3);
    assert("tag"@.len() == 3);
    assert("server"@.len() == 6);
    assert("tls"@[1] != "tag"@[1]);
}

/// The members of the routing are told apart.
proof fn keys_of_route()
    ensures
        "rules"@ != "final"@,
        "rules"@ != "auto_detect_interface"@,
        "rules"@ != "default_domain_resolver"@,
        "rules"@ != "find_process"@,
        "final"@ != "auto_detect_interface"@,
        "final"@ != "default_domain_resolver"@,
        "final"@ != "find_process"@,
        "auto_detect_interface"@ != "default_domain_resolver"@,
        "auto_detect_interface"@ != "find_process"@,
        "default_domain_resolver"@ != "find_process"@,
{
    reveal_strlit("rules");
    reveal_strlit("final");
    reveal_strlit("auto_detect_interface");
    reveal_strlit("default_domain_resolver");
    reveal_strlit("find_process");
    assert("rules"@.len() == 5);
    assert("final"@.len() == 5);
    assert("auto_detect_interface"@.len() == 21);
    assert("default_domain_resolver"@.len() == 23);
    assert("find_process"@.len() == 12);
    assert("rules"@[0] != "final"@[0]);
}

/// The members of rules are told apart.
proof fn keys_of_rules()
    ensures
        "type"@ != "mode"@,
        "type"@ != "rules"@,
        "type"@ != "action"@,
        "type"@ != "ip_cidr"@,
        "type"@ != "outbound"@,
        "type"@ != "ip_is_private"@,
        "type"@ != "domain_suffix"@,
        "type"@ != "process_name"@,
        "type"@ != "protocol"@,
        "type"@ != "port"@,
        "mode"@ != "rules"@,
        "mode"@ != "action"@,
        "mode"@ != "ip_cidr"@,
        "mode"@ != "outbound"@,
        "mode"@ != "ip_is_private"@,
        "mode"@ != "domain_suffix"@,
        "mode"@ != "process_name"@,
        "mode"@ != "protocol"@,
        "mode"@ != "port"@,
        "rules"@ != "action"@,
        "rules"@ != "ip_cidr"@,
        "rules"@ != "outbound"@,
        "rules"@ != "ip_is_private"@,
        "rules"@ != "domain_suffix"@,
        "rules"@ != "process_name"@,
        "rules"@ != "protocol"@,
        "rules"@ != "port"@,
        "action"@ != "ip_cidr"@,
        "action"@ != "outbound"@,
        "action"@ != "ip_is_private"@,
        "action"@ != "domain_suffix"@,
        "action"@ != "process_name"@,
        "action"@ != "protocol"@,
        "action"@ != "port"@,
        "ip_cidr"@ != "outbound"@,
        "ip_cidr"@ != "ip_is_private"@,
        "ip_cidr"@ != "domain_suffix"@,
        "ip_cidr"@ != "process_name"@,
        "ip_cidr"@ != "protocol"@,
        "ip_cidr"@ != "port"@,
        "outbound"@ != "ip_is_private"@,
        "outbound"@ != "domain_suffix"@,
        "outbound"@ != "process_name"@,
        "outbound"@ != "protocol"@,
        "outbound"@ != "port"@,
        "ip_is_private"@ != "domain_suffix"@,
        "ip_is_private"@ != "process_name"@,
        "ip_is_private"@ != "protocol"@,
        "ip_is_private"@ != "port"@,
        "domain_suffix"@ != "process_name"@,
        "domain_suffix"@ != "protocol"@,
        "domain_suffix"@ != "port"@,
        "process_name"@ != "protocol"@,
        "process_name"@ != "port"@,
        "protocol"@ != "port"@,
{
    reveal_strlit("type");
    reveal_strlit("mode");
    reveal_strlit("rules");
    reveal_strlit("action");
    reveal_strlit("ip_cidr");
    reveal_strlit("outbound");
    reveal_strlit("ip_is_private");
    reveal_strlit("domain_suffix");
    reveal_strlit("process_name");
    reveal_strlit("protocol");
    reveal_strlit("port");
    assert("type"@.len() == 4);
    assert("mode"@.len() == 4);
    assert("rules"@.len() == 5);
    assert("action"@.len() == 6);
    assert("ip_cidr"@.len() == 7);
    assert("outbound"@.len() == 8);
    assert("ip_is_private"@.len() == 13);
    assert("domain_suffix"@.len() == 13);
    assert("process_name"@.len() == 12);
    assert("protocol"@.len() == 8);
    assert("port"@.len() == 4);
    assert("type"@[0] != "mode"@[0]);
    assert("type"@[0] != "port"@[0]);
    assert("mode"@[0] != "port"@[0]);
    assert("outbound"@[0] != "protocol"@[0]);
    assert("ip_is_private"@[0] != "domain_suffix"@[0]);
}


/// The outbound that leads through the VPN, by the selected protocol.
pub open spec fn vpn_tag(c: Config) -> Seq<char> {
    if c.mode@ == "hysteria2"@ {
        "h2-out"@
    } else {
        "ss-out"@
    }
}

/// A configuration can be used unless Hysteria2 is to hop beyond the last port.
pub proof fn law_which_configurations_can_be_used(c: Config)
    ensures
        c.mode@ != "hysteria2"@ ==> c.wf(),
        c.mode@ == "hysteria2"@ ==> (c.wf() <==> c.h2_port <= 60536),
{
}

/// sing-box logs to its output, with times, and serves its statistics where the
/// application asks for them.
pub proof fn law_logging_and_statistics(c: Config, ips: Seq<Seq<char>>)
    ensures
        ({
            let log = vpn_config(c, ips).member("log"@);
            &&& log.member("disabled"@) == Json::Bool(false)
            &&& log.member("level"@) == Json::Str("info"@)
            &&& log.member("timestamp"@) == Json::Bool(true)
        }),
        ({
            let api = vpn_config(c, ips).member("experimental"@).member("clash_api"@);
            &&& api.member("external_controller"@) == Json::Str("127.0.0.1:9097"@)
            &&& api.member("secret"@) == Json::Str("dakal"@)
            &&& api.member("default_mode"@) == Json::Str("rule"@)
        }),
        has_only(
            vpn_config(c, ips),
            seq!["log"@, "experimental"@, "dns"@, "inbounds"@, "outbounds"@, "route"@],
        ),
{
    keys_of_root();
    keys_of_log();
    keys_of_clash();
    let all = seq!["log"@, "experimental"@, "dns"@, "inbounds"@, "outbounds"@, "route"@];
    assert(all[0] == "log"@ && all[1] == "experimental"@ && all[2] == "dns"@ && all[3]
        == "inbounds"@ && all[4] == "outbounds"@ && all[5] == "route"@);
}

/// Names are looked up by one DNS-over-HTTPS server, through the VPN.
pub proof fn law_names_are_looked_up_through_the_vpn(c: Config, ips: Seq<Seq<char>>)
    ensures
        ({
            let dns = vpn_config(c, ips).member("dns"@);
            &&& dns.member("servers"@) is Arr
            &&& dns.member("servers"@)->Arr_0.len() == 1
            &&& dns.member("final"@) == Json::Str("remote-doh"@)
            &&& dns.member("reverse_mapping"@) == Json::Bool(true)
            &&& dns.member("strategy"@) == Json::Str("ipv4_only"@)
        }),
        ({
            let server = vpn_config(c, ips).member("dns"@).member("servers"@)->Arr_0[0];
            &&& server.member("type"@) == Json::Str("https"@)
            &&& server.member("tag"@) == Json::Str("remote-doh"@)
            &&& server.member("server"@) == Json::Str("dns.google"@)
            &&& server.member("server_port"@) == Json::Int(443)
            &&& server.member("path"@) == Json::Str("/dns-query"@)
            &&& server.member("detour"@) == Json::Str(vpn_tag(c))
        }),
{
    keys_of_root();
    keys_of_dns();
    keys_of_dns_server();
}

/// There is one TUN interface. Its stack is the one that the user selected, and its
/// MTU the one that the user set, or 1360 where none is set.
pub proof fn law_the_interface_is_as_selected(c: Config, ips: Seq<Seq<char>>)
    ensures
        ({
            let inbounds = vpn_config(c, ips).member("inbounds"@);
            inbounds is Arr && inbounds->Arr_0.len() == 1
        }),
        ({
            let tun = vpn_config(c, ips).member("inbounds"@)->Arr_0[0];
            &&& tun.member("stack"@) == Json::Str(c.tun_stack@)
            &&& c.mtu is Some ==> tun.member("mtu"@) == Json::Int(c.mtu->0 as int)
            &&& c.mtu is None ==> tun.member("mtu"@) == Json::Int(1360)
            &&& tun.member("type"@) == Json::Str("tun"@)
            &&& tun.member("tag"@) == Json::Str("tun-in"@)
            &&& tun.member("address"@) == Json::Arr(seq![Json::Str("172.19.0.1/30"@)])
            &&& tun.member("auto_route"@) == Json::Bool(true)
            &&& tun.member("strict_route"@) == Json::Bool(true)
            &&& has_only(
                tun,
                seq![
                    "type"@,
                    "tag"@,
                    "address"@,
                    "mtu"@,
                    "auto_route"@,
                    "strict_route"@,
                    "stack"@,
                ],
            )
        }),
{
    keys_of_root();
    keys_of_tun();
    let all = seq![
        "type"@,
        "tag"@,
        "address"@,
        "mtu"@,
        "auto_route"@,
        "strict_route"@,
        "stack"@,
    ];
    assert(all[0] == "type"@ && all[1] == "tag"@ && all[2] == "address"@ && all[3] == "mtu"@
        && all[4] == "auto_route"@ && all[5] == "strict_route"@ && all[6] == "stack"@);
}

/// With Hysteria2 there are two outbounds: one through the VPN, with the server,
/// ports, speeds and credentials of the profile, and a direct one. Traffic is
/// obfuscated if and only if the profile says how.
pub proof fn law_hysteria2_outbounds_are_of_the_profile(c: Config, ips: Seq<Seq<char>>)
    requires
        c.mode@ == "hysteria2"@,
    ensures
        ({
            let outbounds = vpn_config(c, ips).member("outbounds"@);
            outbounds is Arr && outbounds->Arr_0.len() == 2
        }),
        ({
            let h2 = vpn_config(c, ips).member("outbounds"@)->Arr_0[0];
            &&& h2.member("type"@) == Json::Str("hysteria2"@)
            &&& h2.member("tag"@) == Json::Str("h2-out"@)
            &&& h2.member("server"@) == Json::Str(c.server_address@)
            &&& h2.member("server_ports"@) == Json::Arr(
                seq![
                    Json::Str(
                        decimal_of(c.h2_port as nat) + ":"@ + decimal_of((c.h2_port + 4999) as nat),
                    ),
                ],
            )
            &&& h2.member("hop_interval"@) == Json::Str("30s"@)
            &&& h2.member("up_mbps"@) == Json::Int(c.h2_up_mbps as int)
            &&& h2.member("down_mbps"@) == Json::Int(c.h2_down_mbps as int)
            &&& h2.member("password"@) == Json::Str("testuser1:"@ + c.h2_password@)
            &&& h2.member("tls"@).member("enabled"@) == Json::Bool(true)
            &&& h2.member("tls"@).member("server_name"@) == Json::Str(c.h2_sni@)
            &&& h2.member("tls"@).member("insecure"@) == Json::Bool(c.h2_insecure)
            &&& c.h2_obfs@.len() == 0 ==> h2.member("obfs"@) == Json::Null
            &&& c.h2_obfs@.len() > 0 ==> h2.member("obfs"@).member("type"@) == Json::Str(c.h2_obfs@)
            &&& c.h2_obfs@.len() > 0 ==> h2.member("obfs"@).member("password"@) == Json::Str(
                c.h2_obfs_password@,
            )
        }),
        ({
            let direct = vpn_config(c, ips).member("outbounds"@)->Arr_0[1];
            &&& direct.member("type"@) == Json::Str("direct"@)
            &&& direct.member("tag"@) == Json::Str("direct"@)
            &&& direct.member("server"@) == Json::Null
        }),
{
    keys_of_root();
    keys_of_h2();
    keys_of_tls();
}

/// With ShadowTLS there are three outbounds: Shadowsocks through the VPN by way of
/// ShadowTLS, ShadowTLS itself, and a direct one. Servers, ports and credentials are
/// those of the profile.
pub proof fn law_shadowtls_outbounds_are_of_the_profile(c: Config, ips: Seq<Seq<char>>)
    requires
        c.mode@ != "hysteria2"@,
    ensures
        ({
            let outbounds = vpn_config(c, ips).member("outbounds"@);
            outbounds is Arr && outbounds->Arr_0.len() == 3
        }),
        ({
            let ss = vpn_config(c, ips).member("outbounds"@)->Arr_0[0];
            &&& ss.member("type"@) == Json::Str("shadowsocks"@)
            &&& ss.member("tag"@) == Json::Str("ss-out"@)
            &&& ss.member("server"@) == Json::Str(c.server_address@)
            &&& ss.member("server_port"@) == Json::Int(c.ss_port as int)
            &&& ss.member("method"@) == Json::Str("2022-blake3-chacha20-poly1305"@)
            &&& ss.member("password"@) == Json::Str(c.ss_password@)
            &&& ss.member("detour"@) == Json::Str("shadowtls-out"@)
            &&& ss.member("udp_over_tcp"@).member("enabled"@) == Json::Bool(true)
        }),
        ({
            let stls = vpn_config(c, ips).member("outbounds"@)->Arr_0[1];
            &&& stls.member("type"@) == Json::Str("shadowtls"@)
            &&& stls.member("tag"@) == Json::Str("shadowtls-out"@)
            &&& stls.member("server"@) == Json::Str(c.server_address@)
            &&& stls.member("server_port"@) == Json::Int(c.stls_port as int)
            &&& stls.member("version"@) == Json::Int(3)
            &&& stls.member("password"@) == Json::Str(c.stls_password@)
            &&& stls.member("tls"@).member("enabled"@) == Json::Bool(true)
            &&& stls.member("tls"@).member("server_name"@) == Json::Str(c.stls_sni@)
            &&& stls.member("tls"@).member("insecure"@) == Json::Bool(false)
        }),
        ({
            let direct = vpn_config(c, ips).member("outbounds"@)->Arr_0[2];
            &&& direct.member("type"@) == Json::Str("direct"@)
            &&& direct.member("tag"@) == Json::Str("direct"@)
            &&& direct.member("server"@) == Json::Null
        }),
{
    keys_of_root();
    keys_of_ss();
    keys_of_stls();
    keys_of_tls();
}

/// The route rules of a configuration.
pub open spec fn rules_of(c: Config, ips: Seq<Seq<char>>) -> Seq<Json> {
    vpn_config(c, ips).member("route"@).member("rules"@)->Arr_0
}

/// The user checked the app `id`, and the split mode is on.
pub open spec fn tunnels_app(c: Config, id: Seq<char>) -> bool {
    c.split_mode@ == "wow"@ && exists|i: int|
        0 <= i < c.wow_apps@.len() && (#[trigger] c.wow_apps@[i])@ == id
}

/// The split mode is on, with the game's domains.
pub open spec fn tunnels_domains(c: Config) -> bool {
    c.split_mode@ == "wow"@ && c.wow_domains
}

/// 1 for a truth.
pub open spec fn count(b: bool) -> int {
    if b {
        1
    } else {
        0
    }
}

/// How many of the known apps are tunnelled.
pub open spec fn tunnelled_apps(c: Config) -> int {
    count(tunnels_app(c, "discord"@)) + count(tunnels_app(c, "chrome"@)) + count(
        tunnels_app(c, "telegram"@),
    )
}

proof fn lemma_checked(c: Config, id: Seq<char>)
    ensures
        c.split_mode@ == "wow"@ ==> c.checked(id) == tunnels_app(c, id),
{
    let all = c.wow_apps.deep_view();
    assert forall|i: int| 0 <= i < all.len() implies #[trigger] all[i] == c.wow_apps@[i]@ by {}
    if all.contains(id) {
        let i = choose|i: int| 0 <= i < all.len() && all[i] == id;
        assert(c.wow_apps@[i]@ == id);
    }
    if tunnels_app(c, id) {
        let i = choose|i: int| 0 <= i < c.wow_apps@.len() && (#[trigger] c.wow_apps@[i])@ == id;
        assert(all[i] == id);
    }
}

/// What no rule names goes through the VPN in full mode, and past it in the split
/// mode. sing-box looks up processes if and only if a rule names one.
pub proof fn law_the_rest_of_the_traffic(c: Config, ips: Seq<Seq<char>>)
    ensures
        ({
            let route = vpn_config(c, ips).member("route"@);
            &&& c.split_mode@ == "wow"@ ==> route.member("final"@) == Json::Str("direct"@)
            &&& c.split_mode@ != "wow"@ ==> route.member("final"@) == Json::Str(vpn_tag(c))
            &&& route.member("auto_detect_interface"@) == Json::Bool(true)
            &&& route.member("default_domain_resolver"@) == Json::Str("remote-doh"@)
            &&& route.member("find_process"@) == Json::Bool(tunnelled_apps(c) > 0)
            &&& route.member("rules"@) is Arr
        }),
{
    keys_of_root();
    keys_of_route();
    lemma_checked(c, "discord"@);
    lemma_checked(c, "chrome"@);
    lemma_checked(c, "telegram"@);
}

/// The rules of every mode: traffic is sniffed, DNS is hijacked, the server's
/// addresses and private ones bypass the VPN, and what would leak is rejected.
pub proof fn law_the_rules_of_every_mode(c: Config, ips: Seq<Seq<char>>)
    ensures
        rules_of(c, ips).len() == 5 + (if tunnels_domains(c) {
            24int
        } else {
            0
        }) + tunnelled_apps(c),
        rules_of(c, ips)[0].member("action"@) == Json::Str("sniff"@),
        ({
            let r = rules_of(c, ips)[1];
            &&& r.member("type"@) == Json::Str("logical"@)
            &&& r.member("mode"@) == Json::Str("or"@)
            &&& r.member("action"@) == Json::Str("hijack-dns"@)
            &&& r.member("rules"@) is Arr && r.member("rules"@)->Arr_0.len() == 2
            &&& r.member("rules"@)->Arr_0[0].member("protocol"@) == Json::Str("dns"@)
            &&& r.member("rules"@)->Arr_0[1].member("port"@) == Json::Int(53)
        }),
        ({
            let r = rules_of(c, ips)[2];
            &&& r.member("outbound"@) == Json::Str("direct"@)
            &&& r.member("ip_cidr"@) is Arr
            &&& r.member("ip_cidr"@)->Arr_0.len() == ips.len()
            &&& forall|i: int|
                0 <= i < ips.len() ==> #[trigger] r.member("ip_cidr"@)->Arr_0[i] == Json::Str(
                    ips[i] + "/32"@,
                )
        }),
        ({
            let r = rules_of(c, ips)[rules_of(c, ips).len() - 2];
            &&& r.member("ip_is_private"@) == Json::Bool(true)
            &&& r.member("action"@) == Json::Str("route"@)
            &&& r.member("outbound"@) == Json::Str("direct"@)
        }),
        ({
            let r = rules_of(c, ips)[rules_of(c, ips).len() - 1];
            &&& r.member("type"@) == Json::Str("logical"@)
            &&& r.member("mode"@) == Json::Str("or"@)
            &&& r.member("action"@) == Json::Str("reject"@)
            &&& r.member("rules"@) is Arr && r.member("rules"@)->Arr_0.len() == 2
            &&& r.member("rules"@)->Arr_0[0].member("port"@) == Json::Int(853)
            &&& r.member("rules"@)->Arr_0[1].member("protocol"@) == Json::Str("stun"@)
        }),
{
    keys_of_root();
    keys_of_route();
    keys_of_rules();
    lemma_checked(c, "discord"@);
    lemma_checked(c, "chrome"@);
    lemma_checked(c, "telegram"@);
}

/// The apps that the user checked, and no others, are sent through the VPN in the
/// split mode, by the names of their programs.
pub proof fn law_checked_apps_are_tunnelled(c: Config, ips: Seq<Seq<char>>)
    ensures
        tunnels_app(c, "telegram"@) ==> rules_of(c, ips)[3].member("process_name"@) == Json::Arr(
            seq![Json::Str("Telegram.exe"@)],
        ),
        tunnels_app(c, "chrome"@) ==> rules_of(c, ips)[3 + count(
            tunnels_app(c, "telegram"@),
        )].member("process_name"@) == Json::Arr(seq![Json::Str("chrome.exe"@)]),
        tunnels_app(c, "discord"@) ==> rules_of(c, ips)[2 + tunnelled_apps(c)].member(
            "process_name"@,
        ) == Json::Arr(seq![Json::Str("Discord.exe"@), Json::Str("Update.exe"@)]),
        forall|k: int|
            3 <= k < rules_of(c, ips).len() - 2 ==> (#[trigger] rules_of(c, ips)[k]).member(
                "outbound"@,
            ) == Json::Str(vpn_tag(c)),
{
    keys_of_root();
    keys_of_route();
    keys_of_rules();
    lemma_checked(c, "discord"@);
    lemma_checked(c, "chrome"@);
    lemma_checked(c, "telegram"@);
    crate::laws::law_split_mode_decides_what_is_tunnelled(c, ips);
    let rules = rules_of(c, ips);
    let split = crate::vpn_config::split_rules(c);
    assert(rules == crate::vpn_config::route_rules(c, ips));
    assert(rules.len() == 5 + split.len());
    assert forall|k: int| 3 <= k < rules.len() - 2 implies (#[trigger] rules[k]).member("outbound"@)
        == Json::Str(vpn_tag(c)) by {
        assert(rules[3 + (k - 3)] == split[k - 3]);
    }
    let telegram = seq!["Telegram.exe"@];
    let chrome = seq!["chrome.exe"@];
    let discord = seq!["Discord.exe"@, "Update.exe"@];
    assert(crate::json::text_items(telegram) =~= seq![Json::Str("Telegram.exe"@)]);
    assert(crate::json::text_items(chrome) =~= seq![Json::Str("chrome.exe"@)]);
    assert(crate::json::text_items(discord) =~= seq![
        Json::Str("Discord.exe"@),
        Json::Str("Update.exe"@),
    ]);
}

/// The domains that the game is served from.
pub open spec fn game_domains() -> Seq<Seq<char>> {
    seq![
        "battle.net"@,
        "blizzard.com"@,
        "worldofwarcraft.com"@,
        "wow.com"@,
        "battlenet.com"@,
        "akamaized.net"@,
        "akamaihd.net"@,
        "akadns.net"@,
        "akamai.net"@,
        "edgecastcdn.net"@,
        "edgecast.net"@,
        "llnw.net"@,
        "llnw.com"@,
        "limelight.net"@,
        "cloudfront.net"@,
        "fastly.net"@,
        "level3.com"@,
        "level3.net"@,
        "blizzardcdn.com"@,
        "blizzard.112.2o7.net"@,
        "2o7.net"@,
        "omtrdc.net"@,
        "connection.wow"@,
        "realmlist.wow"@,
    ]
}

/// The game's domains, and no others, are sent through the VPN in the split mode
/// where the user asked for them; the one that is listed last comes first.
pub proof fn law_game_domains_are_tunnelled(c: Config, ips: Seq<Seq<char>>, i: int)
    requires
        tunnels_domains(c),
        0 <= i < 24,
    ensures
        game_domains().len() == 24,
        rules_of(c, ips)[3 + tunnelled_apps(c) + 23 - i].member("domain_suffix"@) == Json::Arr(
            seq![Json::Str(game_domains()[i])],
        ),
{
    keys_of_root();
    keys_of_route();
    keys_of_rules();
    lemma_checked(c, "discord"@);
    lemma_checked(c, "chrome"@);
    lemma_checked(c, "telegram"@);
    let domains = crate::vpn_config::domain_rules(c);
    let apps = crate::vpn_config::app_rules(c);
    assert(crate::vpn_config::wow_domain_list() =~= game_domains());
    assert(apps.len() == tunnelled_apps(c));
    assert(domains.len() == 24);
    assert(crate::vpn_config::split_rules(c)[tunnelled_apps(c) + 23 - i] == domains[i]);
    assert(rules_of(c, ips)[3 + (tunnelled_apps(c) + 23 - i)] == domains[i]);
}

/// The general part of the configuration has no members but those that the laws above
/// speak of.
pub proof fn law_nothing_else_is_configured(c: Config, ips: Seq<Seq<char>>)
    ensures
        ({
            let v = vpn_config(c, ips).member("log"@);
            v is Obj && forall|key: Seq<char>| #[trigger]
                v->Obj_0.contains_key(key) ==> key == "disabled"@ || key == "level"@ || key == "timestamp"@
        }),
        ({
            let v = vpn_config(c, ips).member("experimental"@);
            v is Obj && forall|key: Seq<char>| #[trigger]
                v->Obj_0.contains_key(key) ==> key == "clash_api"@
        }),
        ({
            let v = vpn_config(c, ips).member("experimental"@).member("clash_api"@);
            v is Obj && forall|key: Seq<char>| #[trigger]
                v->Obj_0.contains_key(key) ==> key == "external_controller"@ || key == "secret"@ || key == "default_mode"@
        }),
        ({
            let v = vpn_config(c, ips).member("dns"@);
            v is Obj && forall|key: Seq<char>| #[trigger]
                v->Obj_0.contains_key(key) ==> key == "servers"@ || key == "final"@ || key == "reverse_mapping"@ || key == "strategy"@
        }),
        ({
            let v = vpn_config(c, ips).member("dns"@).member("servers"@)->Arr_0[0];
            v is Obj && forall|key: Seq<char>| #[trigger]
                v->Obj_0.contains_key(key) ==> key == "type"@ || key == "tag"@ || key == "server"@ || key == "server_port"@ || key == "path"@ || key == "detour"@
        }),
        ({
            let v = vpn_config(c, ips).member("route"@);
            v is Obj && forall|key: Seq<char>| #[trigger]
                v->Obj_0.contains_key(key) ==> key == "rules"@ || key == "final"@ || key == "auto_detect_interface"@ || key == "default_domain_resolver"@ || key == "find_process"@
        }),
        ({
            let v = rules_of(c, ips)[0];
            v is Obj && forall|key: Seq<char>| #[trigger]
                v->Obj_0.contains_key(key) ==> key == "action"@
        }),
        ({
            let v = rules_of(c, ips)[1];
            v is Obj && forall|key: Seq<char>| #[trigger]
                v->Obj_0.contains_key(key) ==> key == "type"@ || key == "mode"@ || key == "rules"@ || key == "action"@
        }),
        ({
            let v = rules_of(c, ips)[2];
            v is Obj && forall|key: Seq<char>| #[trigger]
                v->Obj_0.contains_key(key) ==> key == "ip_cidr"@ || key == "outbound"@
        }),
        ({
            let v = rules_of(c, ips)[rules_of(c, ips).len() - 2];
            v is Obj && forall|key: Seq<char>| #[trigger]
                v->Obj_0.contains_key(key) ==> key == "ip_is_private"@ || key == "action"@ || key == "outbound"@
        }),
        ({
            let v = rules_of(c, ips)[rules_of(c, ips).len() - 1];
            v is Obj && forall|key: Seq<char>| #[trigger]
                v->Obj_0.contains_key(key) ==> key == "type"@ || key == "mode"@ || key == "rules"@ || key == "action"@
        }),
{
    keys_of_root();
    keys_of_route();
    keys_of_dns();
    law_the_rules_of_every_mode(c, ips);
}

/// Hysteria2 outbounds have no members but those of the profile.
pub proof fn law_hysteria2_outbounds_hold_nothing_else(c: Config, ips: Seq<Seq<char>>)
    requires
        c.mode@ == "hysteria2"@,
    ensures
        ({
            let v = vpn_config(c, ips).member("outbounds"@)->Arr_0[0];
            v is Obj && forall|key: Seq<char>| #[trigger]
                v->Obj_0.contains_key(key) ==> key == "type"@ || key == "server_ports"@ || key == "hop_interval"@ || key == "up_mbps"@ || key == "down_mbps"@ || key == "password"@ || key == "tls"@ || key == "obfs"@ || key == "tag"@ || key == "server"@
        }),
        ({
            let v = vpn_config(c, ips).member("outbounds"@)->Arr_0[0].member("tls"@);
            v is Obj && forall|key: Seq<char>| #[trigger]
                v->Obj_0.contains_key(key) ==> key == "enabled"@ || key == "server_name"@ || key == "insecure"@
        }),
        ({
            let v = vpn_config(c, ips).member("outbounds"@)->Arr_0[1];
            v is Obj && forall|key: Seq<char>| #[trigger]
                v->Obj_0.contains_key(key) ==> key == "type"@ || key == "tag"@
        }),
{
    keys_of_root();
    keys_of_h2();
}

/// ShadowTLS outbounds have no members but those of the profile.
pub proof fn law_shadowtls_outbounds_hold_nothing_else(c: Config, ips: Seq<Seq<char>>)
    requires
        c.mode@ != "hysteria2"@,
    ensures
        ({
            let v = vpn_config(c, ips).member("outbounds"@)->Arr_0[0];
            v is Obj && forall|key: Seq<char>| #[trigger]
                v->Obj_0.contains_key(key) ==> key == "type"@ || key == "server_port"@ || key == "method"@ || key == "password"@ || key == "detour"@ || key == "udp_over_tcp"@ || key == "tag"@ || key == "server"@
        }),
        ({
            let v = vpn_config(c, ips).member("outbounds"@)->Arr_0[0].member("udp_over_tcp"@);
            v is Obj && forall|key: Seq<char>| #[trigger]
                v->Obj_0.contains_key(key) ==> key == "enabled"@
        }),
        ({
            let v = vpn_config(c, ips).member("outbounds"@)->Arr_0[1];
            v is Obj && forall|key: Seq<char>| #[trigger]
                v->Obj_0.contains_key(key) ==> key == "type"@ || key == "server_port"@ || key == "version"@ || key == "password"@ || key == "tls"@ || key == "tag"@ || key == "server"@
        }),
        ({
            let v = vpn_config(c, ips).member("outbounds"@)->Arr_0[1].member("tls"@);
            v is Obj && forall|key: Seq<char>| #[trigger]
                v->Obj_0.contains_key(key) ==> key == "enabled"@ || key == "server_name"@ || key == "insecure"@
        }),
        ({
            let v = vpn_config(c, ips).member("outbounds"@)->Arr_0[2];
            v is Obj && forall|key: Seq<char>| #[trigger]
                v->Obj_0.contains_key(key) ==> key == "type"@ || key == "tag"@
        }),
{
    keys_of_root();
    keys_of_ss();
    keys_of_stls();
}

}
