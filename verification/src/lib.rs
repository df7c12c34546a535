//! Decision core of a desktop VPN client that drives a sing-box process.

pub mod binary;
pub mod classify;
pub mod config_laws;
pub mod dns;
pub mod events;
pub mod json;
pub mod launch;
pub mod laws;
pub mod lifecycle_laws;
pub mod manager;
pub mod ping;
pub mod report_laws;
pub mod settings;
pub mod startup;
pub mod status;
pub mod text;
pub mod text_laws;
pub mod traffic;
pub mod tray;
pub mod vpn_config;
