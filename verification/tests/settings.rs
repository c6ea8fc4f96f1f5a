use wifi_repeater::config::{
    set_config_value, BuildEnv, ConfigKey, RepeaterConfig, SetOutcome, StoredConfig, TextField,
};
use wifi_repeater::parse::{parse_bool, parse_ipv4, parse_u8};

fn set(cfg: &mut RepeaterConfig, line: &str) -> SetOutcome {
    let parts = wifi_repeater::command::split_command(line);
    set_config_value(&parts, cfg)
}

#[test]
fn defaults() {
    let c = RepeaterConfig::plain_defaults();
    assert_eq!(c.sta_ssid, "");
    assert!(!c.sta_use_static);
    assert_eq!(c.sta_static_ip, "192.168.10.2");
    assert_eq!(c.sta_gateway, "192.168.10.1");
    assert_eq!(c.sta_netmask, "255.255.255.0");
    assert_eq!(c.ap_ssid, "ESP32-C3-Repeater");
    assert_eq!(c.ap_password, "");
    assert_eq!(c.ap_channel, 1);
}

fn empty_env() -> BuildEnv<'static> {
    BuildEnv {
        sta_ssid: None,
        sta_pass: None,
        sta_use_static: None,
        sta_static_ip: None,
        sta_gateway: None,
        sta_netmask: None,
        ap_ssid: None,
        ap_pass: None,
        ap_channel: None,
    }
}

#[test]
fn build_env_overrides() {
    assert_eq!(RepeaterConfig::from_build_env(&empty_env()), RepeaterConfig::plain_defaults());
    let env = BuildEnv {
        sta_ssid: Some("home"),
        sta_use_static: Some("true"),
        ap_channel: Some("11"),
        ..empty_env()
    };
    let c = RepeaterConfig::from_build_env(&env);
    assert_eq!(c.sta_ssid, "home");
    assert!(c.sta_use_static);
    assert_eq!(c.ap_channel, 11);
    let odd = BuildEnv { sta_use_static: Some("TRUE"), ap_channel: Some("x"), ..empty_env() };
    let c = RepeaterConfig::from_build_env(&odd);
    assert!(!c.sta_use_static);
    assert_eq!(c.ap_channel, 1);
    let wide = BuildEnv { ap_channel: Some("200"), ..empty_env() };
    assert_eq!(RepeaterConfig::from_build_env(&wide).ap_channel, 200);
}

#[test]
fn load_prefers_stored() {
    let mut stored = RepeaterConfig::plain_defaults();
    stored.ap_channel = 6;
    let got = RepeaterConfig::load(StoredConfig::Found(stored.clone()), RepeaterConfig::plain_defaults());
    assert_eq!(got, stored);
    assert_eq!(RepeaterConfig::load(StoredConfig::Missing, RepeaterConfig::plain_defaults()), RepeaterConfig::plain_defaults());
    assert_eq!(RepeaterConfig::load(StoredConfig::Unreadable, RepeaterConfig::plain_defaults()), RepeaterConfig::plain_defaults());
}

#[test]
fn set_usage_and_unknown_key() {
    let mut c = RepeaterConfig::plain_defaults();
    assert_eq!(set(&mut c, "SET sta_ssid"), SetOutcome::Usage);
    assert_eq!(SetOutcome::Usage.message(""), "Usage: SET <key> <value>");
    assert_eq!(set(&mut c, "SET colour blue"), SetOutcome::UnknownKey);
    assert_eq!(SetOutcome::UnknownKey.message("colour"), "Unknown key: colour");
    assert_eq!(c, RepeaterConfig::plain_defaults());
}

#[test]
fn set_ssid_with_spaces_and_quotes() {
    let mut c = RepeaterConfig::plain_defaults();
    assert_eq!(set(&mut c, "SET sta_ssid \"My Home Net\""), SetOutcome::Updated(ConfigKey::StaSsid));
    assert_eq!(c.sta_ssid, "My Home Net");
    assert_eq!(SetOutcome::Updated(ConfigKey::StaSsid).message("sta_ssid"), "sta_ssid updated.");
}

#[test]
fn set_ssid_too_long() {
    let mut c = RepeaterConfig::plain_defaults();
    let long = format!("SET ap_ssid {}", "x".repeat(33));
    assert_eq!(set(&mut c, &long), SetOutcome::TooLong(TextField::ApSsid));
    assert_eq!(c.ap_ssid, "ESP32-C3-Repeater");
    let exact = format!("SET ap_ssid {}", "x".repeat(32));
    assert_eq!(set(&mut c, &exact), SetOutcome::Updated(ConfigKey::ApSsid));
    assert_eq!(
        SetOutcome::TooLong(TextField::ApSsid).message("ap_ssid"),
        "Error: AP SSID too long (max 32 chars)"
    );
    // 17 two-byte characters are 34 bytes.
    let wide = format!("SET sta_ssid {}", "é".repeat(17));
    assert_eq!(set(&mut c, &wide), SetOutcome::TooLong(TextField::StaSsid));
}

#[test]
fn set_sta_password_limit() {
    let mut c = RepeaterConfig::plain_defaults();
    let ok = format!("SET sta_pass {}", "p".repeat(64));
    assert_eq!(set(&mut c, &ok), SetOutcome::Updated(ConfigKey::StaPass));
    let bad = format!("SET sta_pass {}", "p".repeat(65));
    assert_eq!(set(&mut c, &bad), SetOutcome::TooLong(TextField::StaPassword));
    assert_eq!(c.sta_password, "p".repeat(64));
}

#[test]
fn set_sta_static() {
    let mut c = RepeaterConfig::plain_defaults();
    assert_eq!(set(&mut c, "SET sta_static true"), SetOutcome::Updated(ConfigKey::StaStatic));
    assert!(c.sta_use_static);
    assert_eq!(set(&mut c, "SET sta_static yes"), SetOutcome::NotBool);
    assert!(c.sta_use_static);
    assert_eq!(SetOutcome::NotBool.message("sta_static"), "Error: sta_static must be true or false");
    assert_eq!(set(&mut c, "SET sta_static \"false\""), SetOutcome::Updated(ConfigKey::StaStatic));
    assert!(!c.sta_use_static);
}

#[test]
fn set_addresses() {
    let mut c = RepeaterConfig::plain_defaults();
    assert_eq!(set(&mut c, "SET sta_ip 10.0.0.7"), SetOutcome::Updated(ConfigKey::StaIp));
    assert_eq!(c.sta_static_ip, "10.0.0.7");
    assert_eq!(set(&mut c, "SET sta_gw 10.0.0.1"), SetOutcome::Updated(ConfigKey::StaGw));
    assert_eq!(set(&mut c, "SET sta_nm 255.255.0.0"), SetOutcome::Updated(ConfigKey::StaNm));
    assert_eq!(c.sta_netmask, "255.255.0.0");
    assert_eq!(set(&mut c, "SET sta_ip 10.0.0.256"), SetOutcome::NotIpv4);
    assert_eq!(set(&mut c, "SET sta_gw 010.0.0.1"), SetOutcome::NotIpv4);
    assert_eq!(c.sta_static_ip, "10.0.0.7");
    assert_eq!(SetOutcome::NotIpv4.message("sta_ip"), "Error: Invalid IPv4 address format");
}

#[test]
fn set_ap_password_rules() {
    let mut c = RepeaterConfig::plain_defaults();
    assert_eq!(set(&mut c, "SET ap_pass short"), SetOutcome::BadApPassword);
    assert_eq!(set(&mut c, "SET ap_pass longenough"), SetOutcome::Updated(ConfigKey::ApPass));
    assert_eq!(c.ap_password, "longenough");
    assert_eq!(set(&mut c, "SET ap_pass \"\""), SetOutcome::Updated(ConfigKey::ApPass));
    assert_eq!(c.ap_password, "");
    let long = format!("SET ap_pass {}", "q".repeat(65));
    assert_eq!(set(&mut c, &long), SetOutcome::BadApPassword);
    assert_eq!(
        SetOutcome::BadApPassword.message("ap_pass"),
        "Error: AP password must be empty or between 8 and 64 chars."
    );
}

#[test]
fn set_ap_channel_rules() {
    let mut c = RepeaterConfig::plain_defaults();
    assert_eq!(set(&mut c, "SET ap_chan 13"), SetOutcome::Updated(ConfigKey::ApChan));
    assert_eq!(c.ap_channel, 13);
    assert_eq!(set(&mut c, "SET ap_chan 14"), SetOutcome::ChannelOutOfRange);
    assert_eq!(set(&mut c, "SET ap_chan 0"), SetOutcome::ChannelOutOfRange);
    assert_eq!(set(&mut c, "SET ap_chan six"), SetOutcome::NotChannel);
    assert_eq!(set(&mut c, "SET ap_chan 300"), SetOutcome::NotChannel);
    assert_eq!(c.ap_channel, 13);
    assert_eq!(set(&mut c, "SET ap_chan +6"), SetOutcome::Updated(ConfigKey::ApChan));
    assert_eq!(c.ap_channel, 6);
    assert_eq!(SetOutcome::ChannelOutOfRange.message("ap_chan"), "Error: Channel must be between 1 and 13");
    assert_eq!(SetOutcome::NotChannel.message("ap_chan"), "Error: Invalid channel number");
}

#[test]
fn key_names_round_trip() {
    for name in ["sta_ssid", "sta_pass", "sta_static", "sta_ip", "sta_gw", "sta_nm", "ap_ssid", "ap_pass", "ap_chan"] {
        let k = ConfigKey::from_name(name).unwrap();
        assert_eq!(k.name(), name);
    }
    assert_eq!(ConfigKey::from_name("STA_SSID"), None);
}

#[test]
fn parse_u8_like_std() {
    for s in ["0", "7", "+7", "007", "255", "256", "-1", "", "+", "1 ", "12a", "+-1", "99999"] {
        assert_eq!(parse_u8(s), s.parse::<u8>().ok(), "input {:?}", s);
    }
}

#[test]
fn parse_bool_like_std() {
    for s in ["true", "false", "True", "", "1", "truee"] {
        assert_eq!(parse_bool(s), s.parse::<bool>().ok(), "input {:?}", s);
    }
}

#[test]
fn parse_ipv4_cases() {
    let good: [(&str, [u8; 4]); 4] = [
        ("192.168.10.2", [192, 168, 10, 2]),
        ("0.0.0.0", [0, 0, 0, 0]),
        ("255.255.255.255", [255, 255, 255, 255]),
        ("10.0.0.1", [10, 0, 0, 1]),
    ];
    for (s, a) in good {
        assert_eq!(parse_ipv4(s), Some(a), "input {:?}", s);
    }
    let bad = [
        "1.2.3", "1.2.3.4.", ".1.2.3", "1..2.3", "01.2.3.4", "1.2.3.04", "256.1.1.1", "1.2.3.4 ",
        "a.b.c.d", "1.2.3.4.5", "", "1234.1.1.1", "+1.2.3.4", "1.2.3.-4", "00.1.1.1",
    ];
    for s in bad {
        assert_eq!(parse_ipv4(s), None, "input {:?}", s);
    }
}

#[test]
fn set_changes_only_the_named_setting() {
    let mut c = RepeaterConfig::plain_defaults();
    let before = c.clone();
    assert_eq!(set(&mut c, "SET sta_gw 10.1.1.1"), SetOutcome::Updated(ConfigKey::StaGw));
    let mut expected = before.clone();
    expected.sta_gateway = "10.1.1.1".to_string();
    assert_eq!(c, expected);
    let after_ok = c.clone();
    assert_eq!(set(&mut c, "SET sta_nm 300.0.0.0"), SetOutcome::NotIpv4);
    assert_eq!(c, after_ok);
}

#[test]
fn settings_changed_by_set_keep_plans_valid() {
    let mut c = RepeaterConfig::plain_defaults();
    for line in [
        "SET sta_ssid upstream",
        "SET sta_pass \"pass word\"",
        "SET ap_ssid \"My Repeater\"",
        "SET ap_pass secret-pass",
        "SET ap_chan 11",
        &format!("SET ap_ssid {}", "z".repeat(40)),
        "SET sta_ip 999.1.1.1",
    ] {
        set(&mut c, line);
        assert!(wifi_repeater::wifi::wifi_configuration(&c).is_ok(), "after {:?}", line);
        assert!(wifi_repeater::wifi::static_ip_plan(&c).is_ok(), "after {:?}", line);
    }
    assert_eq!(c.ap_ssid, "My Repeater");
}
