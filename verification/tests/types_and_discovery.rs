//! The playback enums' wire spellings, the numeric helpers, configuration
//! defaults, and the discovery logic.

use heos_core::config::Config;
use heos_core::discovery::{
    accept_reply, add_candidate, first_candidate_ip, parse_header, search_message,
    search_targets, DiscoveredDevice, SSDP_MULTICAST_ADDR, SSDP_PORT,
};
use heos_core::strutil::{i64_to_string, parse_i64, u64_to_string, u8_two_digits};
use heos_core::types::{MuteState, PlayState, RepeatMode, ShuffleMode};
use heos_core::{AVR_PORT, HEOS_PORT};

#[test]
fn play_state_spellings() {
    assert_eq!(PlayState::from_str("play"), PlayState::Play);
    assert_eq!(PlayState::from_str("pause"), PlayState::Pause);
    assert_eq!(PlayState::from_str("stop"), PlayState::Stop);
    assert_eq!(PlayState::from_str("other"), PlayState::Unknown);
    assert_eq!(PlayState::Play.as_str(), "play");
    assert_eq!(PlayState::Pause.as_str(), "pause");
    assert_eq!(PlayState::Stop.as_str(), "stop");
    assert_eq!(PlayState::Unknown.as_str(), "unknown");
}

#[test]
fn mute_and_shuffle_spellings() {
    assert_eq!(MuteState::from_str("on"), MuteState::On);
    assert_eq!(MuteState::from_str("off"), MuteState::Off);
    assert_eq!(MuteState::from_str("bogus"), MuteState::Off);
    assert_eq!(MuteState::On.as_str(), "on");
    assert_eq!(ShuffleMode::from_str("on"), ShuffleMode::On);
    assert_eq!(ShuffleMode::from_str("x"), ShuffleMode::Off);
    assert_eq!(ShuffleMode::On.toggle(), ShuffleMode::Off);
    assert_eq!(ShuffleMode::Off.toggle(), ShuffleMode::On);
}

#[test]
fn repeat_mode_cycle() {
    assert_eq!(RepeatMode::from_str("on_one"), RepeatMode::OnOne);
    assert_eq!(RepeatMode::from_str("on_all"), RepeatMode::OnAll);
    assert_eq!(RepeatMode::from_str("off"), RepeatMode::Off);
    assert_eq!(RepeatMode::from_str("junk"), RepeatMode::Off);
    assert_eq!(RepeatMode::Off.next(), RepeatMode::OnAll);
    assert_eq!(RepeatMode::OnAll.next(), RepeatMode::OnOne);
    assert_eq!(RepeatMode::OnOne.next(), RepeatMode::Off);
    let mut m = RepeatMode::Off;
    for _ in 0..3 {
        m = m.next();
    }
    assert_eq!(m, RepeatMode::Off);
}

#[test]
fn decimal_formatting() {
    assert_eq!(u64_to_string(0), "0");
    assert_eq!(u64_to_string(37), "37");
    assert_eq!(u64_to_string(18446744073709551615), "18446744073709551615");
    assert_eq!(i64_to_string(-5), "-5");
    assert_eq!(i64_to_string(0), "0");
    assert_eq!(i64_to_string(i64::MIN), "-9223372036854775808");
    assert_eq!(u8_two_digits(5), "05");
    assert_eq!(u8_two_digits(98), "98");
}

#[test]
fn decimal_parsing() {
    assert_eq!(parse_i64("42"), Some(42));
    assert_eq!(parse_i64("-42"), Some(-42));
    assert_eq!(parse_i64("+7"), Some(7));
    assert_eq!(parse_i64("0042"), Some(42));
    assert_eq!(parse_i64(""), None);
    assert_eq!(parse_i64("abc"), None);
    assert_eq!(parse_i64("4 2"), None);
    assert_eq!(parse_i64("9223372036854775807"), Some(i64::MAX));
    assert_eq!(parse_i64("9223372036854775808"), None);
    assert_eq!(parse_i64("-9223372036854775808"), Some(i64::MIN));
    assert_eq!(parse_i64("-9223372036854775809"), None);
}

#[test]
fn configuration_defaults() {
    let config = Config::default();
    assert_eq!(config.connection.host, None);
    assert_eq!(config.connection.discovery_timeout, 5);
    assert_eq!(config.connection.reconnect_delay, 3);
    assert_eq!(config.ui.volume_step, 5);
    assert_eq!(config.ui.refresh_rate, 250);
}

#[test]
fn well_known_ports() {
    assert_eq!(HEOS_PORT, 1255);
    assert_eq!(AVR_PORT, 23);
    assert_eq!(SSDP_PORT, 1900);
    assert_eq!(SSDP_MULTICAST_ADDR, "239.255.255.250");
}

#[test]
fn probe_messages_name_each_search_token() {
    let targets = search_targets();
    assert_eq!(
        targets,
        vec![
            "urn:schemas-denon-com:device:ACT-Denon:1",
            "urn:schemas-upnp-org:device:MediaRenderer:1",
            "ssdp:all",
        ]
    );
    let msg = search_message("ssdp:all");
    assert!(msg.starts_with("M-SEARCH * HTTP/1.1\r\n"));
    assert!(msg.contains("HOST: 239.255.255.250:1900\r\n"));
    assert!(msg.contains("MAN: \"ssdp:discover\"\r\n"));
    assert!(msg.contains("ST: ssdp:all\r\n"));
    assert!(msg.ends_with("\r\n\r\n"));
}

#[test]
fn reply_heuristic_is_case_insensitive() {
    assert!(accept_reply("SERVER: LinuxUPnP/1.0 DENON-Web/1.0"));
    assert!(accept_reply("x-user-agent: heos device"));
    assert!(accept_reply("ST: urn:schemas-denon-com:device:ACT-Denon:1"));
    assert!(accept_reply("brand: Marantz"));
    assert!(!accept_reply("SERVER: SomeOther/1.0 UPnP/1.0"));
}

#[test]
fn header_extraction_is_case_insensitive_and_trimmed() {
    let reply = "HTTP/1.1 200 OK\r\nCACHE-CONTROL: max-age=180\r\nLocation:  http://10.0.0.5:60006/upnp/desc.xml \r\nST: ssdp:all\r\n\r\n";
    assert_eq!(
        parse_header(reply, "LOCATION"),
        Some("http://10.0.0.5:60006/upnp/desc.xml".to_string())
    );
    assert_eq!(parse_header(reply, "st"), Some("ssdp:all".to_string()));
    assert_eq!(parse_header(reply, "USN"), None);
}

#[test]
fn candidates_deduplicate_by_address() {
    let mut devices: Vec<DiscoveredDevice> = Vec::new();
    add_candidate(&mut devices, "10.0.0.5".to_string(), "http://a/".to_string());
    add_candidate(&mut devices, "10.0.0.6".to_string(), String::new());
    add_candidate(&mut devices, "10.0.0.5".to_string(), "http://b/".to_string());
    assert_eq!(devices.len(), 2);
    assert_eq!(devices[0].ip, "10.0.0.5");
    assert_eq!(devices[0].location, "http://a/");
    assert_eq!(devices[1].ip, "10.0.0.6");
    assert_eq!(first_candidate_ip(&devices), Some("10.0.0.5".to_string()));
    let empty: Vec<DiscoveredDevice> = Vec::new();
    assert_eq!(first_candidate_ip(&empty), None);
}
