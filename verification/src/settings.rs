//! Profiles, presets and settings that the user chooses from.
use crate::json;
use crate::json::{json_of, text_items, Json};
use crate::laws::law_a_profile_names_server_and_protocol;
use crate::text;
use crate::text::has_suffix;
use vstd::prelude::*;
use vstd::string::*;

verus! {

// ── profiles ───────────────────────────────────────────────────────

/// The server of a profile whose name tells none.
pub const DEFAULT_SERVER: &'static str = "netherlands-1";

/// The server that a profile's name begins with.
pub open spec fn server_of(profile: Seq<char>) -> Seq<char> {
    if has_suffix(profile, "-h2"@) {
        profile.take(profile.len() - "-h2"@.len())
    } else if has_suffix(profile, "-stls"@) {
        profile.take(profile.len() - "-stls"@.len())
    } else {
        DEFAULT_SERVER@
    }
}

/// The protocol that a profile's name ends in.
pub open spec fn protocol_of(profile: Seq<char>) -> Seq<char> {
    if has_suffix(profile, "-h2"@) {
        "hysteria2"@
    } else {
        "shadowtls"@
    }
}

/// The ending of the profiles of a protocol, if there is such a protocol.
pub open spec fn ending_of(mode: Seq<char>) -> Option<Seq<char>> {
    if mode == "shadowtls"@ {
        Some("-stls"@)
    } else if mode == "hysteria2"@ {
        Some("-h2"@)
    } else {
        None
    }
}

/// The server that a profile's name begins with.
pub fn profile_server<'a>(profile: &'a str) -> (r: &'a str)
    ensures
        r@ == server_of(profile@),
{
    if let Some(head) = text::strip_suffix(profile, "-h2") {
        proof {
            assert(head@ =~= profile@.take(profile@.len() - "-h2"@.len()));
        }
        return head;
    }
    if let Some(head) = text::strip_suffix(profile, "-stls") {
        proof {
            assert(head@ =~= profile@.take(profile@.len() - "-stls"@.len()));
        }
        return head;
    }
    DEFAULT_SERVER
}

/// The protocol that a profile's name ends in.
pub fn profile_protocol(profile: &str) -> (r: &'static str)
    ensures
        r@ == protocol_of(profile@),
{
    if text::ends_with(profile, "-h2") {
        "hysteria2"
    } else {
        "shadowtls"
    }
}

/// A change of protocol.
pub struct ModeChange {
    /// The profile to save.
    pub profile: String,
    /// What the user is told.
    pub message: String,
}

/// What a change of the protocol of the profile `current` to `mode` is answered.
pub open spec fn answers_mode(
    current: Seq<char>,
    mode: Seq<char>,
    r: Result<ModeChange, String>,
) -> bool {
    match ending_of(mode) {
        Some(ending) => r matches Ok(c) && c.profile@ == server_of(current) + ending && c.message@
            == "Mode set to '"@ + mode + "'"@,
        None => r matches Err(e) && e@ == "Invalid mode"@,
    }
}

/// Keeps the server of the current profile and swaps its protocol.
pub fn set_mode(current: &str, mode: &str) -> (r: Result<ModeChange, String>)
    ensures
        answers_mode(current@, mode@, r),
{
    let ending = if text::same(mode, "shadowtls") {
        "-stls"
    } else if text::same(mode, "hysteria2") {
        "-h2"
    } else {
        return Err("Invalid mode".to_string());
    };
    let profile = profile_server(current).to_string().concat(ending);
    let message = "Mode set to '".to_string().concat(mode).concat("'");
    Ok(ModeChange { profile, message })
}

/// A change of protocol keeps the server, and the new profile is of that
/// protocol.
pub proof fn law_mode_change_keeps_the_server(current: Seq<char>, mode: Seq<char>)
    requires
        ending_of(mode) is Some,
    ensures
        server_of(server_of(current) + ending_of(mode)->0) == server_of(current),
        protocol_of(server_of(current) + ending_of(mode)->0) == mode,
{
    law_a_profile_names_server_and_protocol(server_of(current), mode);
}

/// Every selectable profile: each server with each protocol.
pub open spec fn profile_list() -> Seq<Seq<char>> {
    seq![
        "netherlands-1-h2"@,
        "netherlands-1-stls"@,
        "germany-3-h2"@,
        "germany-3-stls"@,
        "finland-1-h2"@,
        "finland-1-stls"@,
    ]
}

/// All selectable servers: location and instance number.
fn servers() -> (r: Vec<&'static str>)
    ensures
        r.deep_view() == seq!["netherlands-1"@, "germany-3"@, "finland-1"@],
{
    let r: Vec<&'static str> = vec!["netherlands-1", "germany-3", "finland-1"];
    proof {
        assert(r.deep_view() =~= seq!["netherlands-1"@, "germany-3"@, "finland-1"@]);
    }
    r
}

/// The profiles of these servers: each server with each protocol.
spec fn profiles_of(servers: Seq<Seq<char>>) -> Seq<Seq<char>>
    decreases servers.len(),
{
    if servers.len() == 0 {
        seq![]
    } else {
        profiles_of(servers.drop_last()) + seq![
            servers.last() + "-"@ + "h2"@,
            servers.last() + "-"@ + "stls"@,
        ]
    }
}

proof fn lemma_profiles()
    ensures
        profiles_of(seq!["netherlands-1"@, "germany-3"@, "finland-1"@]) == profile_list(),
{
    reveal_with_fuel(profiles_of, 4);
    reveal_strlit("netherlands-1");
    reveal_strlit("germany-3");
    reveal_strlit("finland-1");
    reveal_strlit("-");
    reveal_strlit("h2");
    reveal_strlit("stls");
    reveal_strlit("netherlands-1-h2");
    reveal_strlit("netherlands-1-stls");
    reveal_strlit("germany-3-h2");
    reveal_strlit("germany-3-stls");
    reveal_strlit("finland-1-h2");
    reveal_strlit("finland-1-stls");
    let all = seq!["netherlands-1"@, "germany-3"@, "finland-1"@];
    assert(all.drop_last() =~= seq!["netherlands-1"@, "germany-3"@]);
    assert(all.drop_last().drop_last() =~= seq!["netherlands-1"@]);
    assert(all.drop_last().drop_last().drop_last() =~= Seq::<Seq<char>>::empty());
    assert("netherlands-1"@ + "-"@ + "h2"@ =~= "netherlands-1-h2"@);
    assert("netherlands-1"@ + "-"@ + "stls"@ =~= "netherlands-1-stls"@);
    assert("germany-3"@ + "-"@ + "h2"@ =~= "germany-3-h2"@);
    assert("germany-3"@ + "-"@ + "stls"@ =~= "germany-3-stls"@);
    assert("finland-1"@ + "-"@ + "h2"@ =~= "finland-1-h2"@);
    assert("finland-1"@ + "-"@ + "stls"@ =~= "finland-1-stls"@);
    assert(profiles_of(all) =~= profile_list());
}

/// Every selectable profile.
pub fn list_profiles() -> (r: Vec<String>)
    ensures
        r.deep_view() == profile_list(),
{
    let all = servers();
    let mut r: Vec<String> = Vec::new();
    let mut i: usize = 0;
    proof {
        assert(all.deep_view().take(0) =~= Seq::<Seq<char>>::empty());
        assert(r.deep_view() =~= profiles_of(all.deep_view().take(0)));
    }
    while i < all.len()
        invariant
            i <= all.len(),
            r.deep_view() == profiles_of(all.deep_view().take(i as int)),
        decreases all.len() - i,
    {
        let ghost before = r.deep_view();
        r.push(all[i].to_string().concat("-").concat("h2"));
        r.push(all[i].to_string().concat("-").concat("stls"));
        proof {
            let server = all@[i as int]@;
            assert(all.deep_view()[i as int] == server);
            assert(all.deep_view().take(i + 1).drop_last() =~= all.deep_view().take(i as int));
            assert(r.deep_view() =~= before + seq![
                server + "-"@ + "h2"@,
                server + "-"@ + "stls"@,
            ]);
        }
        i = i + 1;
    }
    proof {
        assert(all.deep_view().take(all.len() as int) =~= all.deep_view());
        lemma_profiles();
    }
    r
}

// ── presets ────────────────────────────────────────────────────────

/// Upload and download speed of a preset, in Mbit/s.
pub open spec fn preset(name: Seq<char>) -> Option<(u32, u32)> {
    if name == "adsl"@ {
        Some((4, 16))
    } else if name == "4g"@ {
        Some((15, 30))
    } else if name == "5g"@ {
        Some((40, 80))
    } else if name == "max"@ {
        Some((80, 120))
    } else {
        None
    }
}

/// What a request for the preset `name` is answered.
pub open spec fn answers_preset(name: Seq<char>, r: Result<(u32, u32), String>) -> bool {
    match preset(name) {
        Some(p) => r matches Ok(q) && q == p,
        None => r matches Err(e) && e@ == "unknown preset: "@ + name,
    }
}

/// The speeds of a preset.
pub fn apply_h2_preset(name: &str) -> (r: Result<(u32, u32), String>)
    ensures
        answers_preset(name@, r),
{
    if text::same(name, "adsl") {
        Ok((4, 16))
    } else if text::same(name, "4g") {
        Ok((15, 30))
    } else if text::same(name, "5g") {
        Ok((40, 80))
    } else if text::same(name, "max") {
        Ok((80, 120))
    } else {
        Err("unknown preset: ".to_string().concat(name))
    }
}

/// A report of speeds.
pub open spec fn speeds_tree(up: u32, down: u32) -> Json {
    Json::object().with("up_mbps"@, Json::Int(up as int)).with(
        "down_mbps"@,
        Json::Int(down as int),
    )
}

/// A report of speeds.
pub fn get_h2_speeds(up: u32, down: u32) -> (r: serde_json::Value)
    ensures
        json_of(r) == speeds_tree(up, down),
{
    let v = json::with(json::object(), "up_mbps", json::number(up as u64));
    json::with(v, "down_mbps", json::number(down as u64))
}

// ── settings ───────────────────────────────────────────────────────

/// What the user asks for.
pub struct SettingsRequest {
    pub mtu: Option<u32>,
    pub split_mode: String,
    pub wow_apps: Option<Vec<String>>,
    pub wow_domains: Option<bool>,
    pub tun_stack: Option<String>,
}

/// What is to be saved, in this order, and what is refused after that.
pub struct SettingsPlan {
    pub split_mode: String,
    pub tun_stack: Option<String>,
    pub wow_apps: Option<Vec<String>>,
    pub wow_domains: Option<bool>,
    pub refused: Option<String>,
}

/// Why a request is refused before anything is saved.
pub open spec fn settings_error(q: SettingsRequest) -> Option<Seq<char>> {
    if q.mtu is Some && !(576 <= q.mtu->0 <= 9000) {
        Some("MTU must be between 576 and 9000"@)
    } else if q.split_mode@ != "full"@ && q.split_mode@ != "wow"@ {
        Some("Invalid split mode"@)
    } else if q.tun_stack is Some && q.tun_stack->0@ != "system"@ && q.tun_stack->0@ != "mixed"@
        && q.tun_stack->0@ != "gvisor"@ {
        Some("Invalid TUN stack"@)
    } else {
        None
    }
}

/// The apps that the split mode covers: all that are known, where none are named.
pub open spec fn chosen_apps(q: SettingsRequest) -> Seq<Seq<char>> {
    match q.wow_apps {
        Some(a) => a.deep_view(),
        None => seq!["discord"@, "chrome"@, "telegram"@],
    }
}

/// The split mode covers the game's domains.
pub open spec fn chosen_domains(q: SettingsRequest) -> bool {
    match q.wow_domains {
        Some(d) => d,
        None => true,
    }
}

/// The split mode would cover nothing.
pub open spec fn covers_nothing(q: SettingsRequest) -> bool {
    !chosen_domains(q) && chosen_apps(q).len() == 0
}

fn default_apps() -> (r: Vec<String>)
    ensures
        r.deep_view() == seq!["discord"@, "chrome"@, "telegram"@],
{
    let r: Vec<String> = vec![
        "discord".to_string(),
        "chrome".to_string(),
        "telegram".to_string(),
    ];
    proof {
        assert(r.deep_view() =~= seq!["discord"@, "chrome"@, "telegram"@]);
    }
    r
}

/// What a request of settings is answered.
pub open spec fn answers_settings(q: SettingsRequest, r: Result<SettingsPlan, String>) -> bool {
    match settings_error(q) {
        Some(e) => r matches Err(m) && m@ == e,
        None => r matches Ok(p) && {
            &&& p.split_mode@ == q.split_mode@
            &&& match q.tun_stack {
                Some(s) => p.tun_stack matches Some(t) && t@ == s@,
                None => p.tun_stack is None,
            }
            &&& if q.split_mode@ == "wow"@ {
                if covers_nothing(q) {
                    &&& p.wow_apps is None
                    &&& p.wow_domains is None
                    &&& p.refused matches Some(m) && m@
                        == "Select at least one option: WoW Domains, Discord, Chrome, or Telegram"@
                } else {
                    &&& p.wow_apps matches Some(a) && a.deep_view() == chosen_apps(q)
                    &&& p.wow_domains == Some(chosen_domains(q))
                    &&& p.refused is None
                }
            } else {
                &&& p.wow_apps is None
                &&& p.wow_domains == q.wow_domains
                &&& p.refused is None
            }
        },
    }
}

/// What a request of settings comes to.
pub fn update_settings(q: SettingsRequest) -> (r: Result<SettingsPlan, String>)
    ensures
        answers_settings(q, r),
{
    if let Some(m) = q.mtu {
        if m < 576 || m > 9000 {
            return Err("MTU must be between 576 and 9000".to_string());
        }
    }
    let wow = text::same(q.split_mode.as_str(), "wow");
    if !wow && !text::same(q.split_mode.as_str(), "full") {
        return Err("Invalid split mode".to_string());
    }
    if let Some(s) = &q.tun_stack {
        if !text::same(s.as_str(), "system") && !text::same(s.as_str(), "mixed") && !text::same(
            s.as_str(),
            "gvisor",
        ) {
            return Err("Invalid TUN stack".to_string());
        }
    }
    if !wow {
        return Ok(
            SettingsPlan {
                split_mode: q.split_mode,
                tun_stack: q.tun_stack,
                wow_apps: None,
                wow_domains: q.wow_domains,
                refused: None,
            },
        );
    }
    let apps = match q.wow_apps {
        Some(a) => a,
        None => default_apps(),
    };
    let use_domains = q.wow_domains.unwrap_or(true);
    proof {
        assert(apps.deep_view() == chosen_apps(q));
        assert(apps.deep_view().len() == apps@.len());
    }
    if !use_domains && apps.len() == 0 {
        return Ok(
            SettingsPlan {
                split_mode: q.split_mode,
                tun_stack: q.tun_stack,
                wow_apps: None,
                wow_domains: None,
                refused: Some(
                    "Select at least one option: WoW Domains, Discord, Chrome, or Telegram".to_string(),
                ),
            },
        );
    }
    Ok(
        SettingsPlan {
            split_mode: q.split_mode,
            tun_stack: q.tun_stack,
            wow_apps: Some(apps),
            wow_domains: Some(use_domains),
            refused: None,
        },
    )
}

/// A change of settings stops the tunnel and has the frontend bring it up again.
pub open spec fn needs_reconnect(reconnect: bool, was_running: bool) -> bool {
    reconnect && was_running
}

/// Whether a change of settings stops the tunnel and has the frontend bring it
/// up again.
pub fn reconnect_needed(reconnect: bool, was_running: bool) -> (r: bool)
    ensures
        r == needs_reconnect(reconnect, was_running),
{
    reconnect && was_running
}

/// A report of the split settings.
pub open spec fn split_tree(mode: Seq<char>, apps: Seq<Seq<char>>, domains: bool) -> Json {
    Json::object().with("split_mode"@, Json::Str(mode)).with(
        "wow_apps"@,
        Json::Arr(text_items(apps)),
    ).with("wow_domains"@, Json::Bool(domains))
}

/// A report of the split settings.
pub fn get_split_settings(split_mode: &str, wow_apps: &Vec<String>, wow_domains: bool) -> (r:
    serde_json::Value)
    ensures
        json_of(r) == split_tree(split_mode@, wow_apps.deep_view(), wow_domains),
{
    let v = json::with(json::object(), "split_mode", json::string(split_mode));
    let v = json::with(v, "wow_apps", json::strings(wow_apps));
    json::with(v, "wow_domains", json::boolean(wow_domains))
}

}
