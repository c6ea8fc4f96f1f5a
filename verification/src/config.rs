//! The repeater's settings, their defaults, how a stored copy is chosen at
//! start-up, and the rules of the `SET <key> <value>` command.

use vstd::prelude::*;
use vstd::utf8::encode_utf8;
use crate::command::{unquote, unquote_spec};
use crate::parse::{parse_bool, parse_bool_spec, parse_ipv4, is_ipv4_text, parse_u8, parse_u8_spec, decimal_text, decimal_text_reads_back};
use crate::text::str_eq;

verus! {

/// Longest SSID, in bytes, that a Wi-Fi configuration holds.
pub const SSID_MAX_LEN: usize = 32;

/// Longest password, in bytes, that a Wi-Fi configuration holds.
pub const PASSWORD_MAX_LEN: usize = 64;

/// Shortest non-empty password of the repeater's own access point.
pub const AP_PASSWORD_MIN_LEN: usize = 8;

/// Lowest Wi-Fi channel the `SET ap_chan` command accepts.
pub const AP_CHANNEL_MIN: u8 = 1;

/// Highest Wi-Fi channel the `SET ap_chan` command accepts.
pub const AP_CHANNEL_MAX: u8 = 13;

/// The repeater's settings.
#[derive(Clone, Debug, PartialEq, Eq)]
pub struct RepeaterConfig {
    pub sta_ssid: String,
    pub sta_password: String,
    pub sta_use_static: bool,
    pub sta_static_ip: String,
    pub sta_gateway: String,
    pub sta_netmask: String,
    pub ap_ssid: String,
    pub ap_password: String,
    pub ap_channel: u8,
}

/// The settings as mathematical values.
pub struct ConfigModel {
    pub sta_ssid: Seq<char>,
    pub sta_password: Seq<char>,
    pub sta_use_static: bool,
    pub sta_static_ip: Seq<char>,
    pub sta_gateway: Seq<char>,
    pub sta_netmask: Seq<char>,
    pub ap_ssid: Seq<char>,
    pub ap_password: Seq<char>,
    pub ap_channel: u8,
}

impl View for RepeaterConfig {
    type V = ConfigModel;

    open spec fn view(&self) -> ConfigModel {
        ConfigModel {
            sta_ssid: self.sta_ssid@,
            sta_password: self.sta_password@,
            sta_use_static: self.sta_use_static,
            sta_static_ip: self.sta_static_ip@,
            sta_gateway: self.sta_gateway@,
            sta_netmask: self.sta_netmask@,
            ap_ssid: self.ap_ssid@,
            ap_password: self.ap_password@,
            ap_channel: self.ap_channel,
        }
    }
}

/// The settings used when neither the build nor the stored copy sets them.
pub open spec fn default_model() -> ConfigModel {
    ConfigModel {
        sta_ssid: ""@,
        sta_password: ""@,
        sta_use_static: false,
        sta_static_ip: "192.168.10.2"@,
        sta_gateway: "192.168.10.1"@,
        sta_netmask: "255.255.255.0"@,
        ap_ssid: "ESP32-C3-Repeater"@,
        ap_password: ""@,
        ap_channel: 1,
    }
}

impl RepeaterConfig {
    /// The fallback values that the build environment starts from; the
    /// defaults of the firmware are `RepeaterConfig::from_build_env`, which
    /// applies the `REPEATER_*` values set at build time to these.
    pub fn plain_defaults() -> (r: Self)
        ensures
            r@ == default_model(),
    {
        RepeaterConfig {
            sta_ssid: String::from_str(""),
            sta_password: String::from_str(""),
            sta_use_static: false,
            sta_static_ip: String::from_str("192.168.10.2"),
            sta_gateway: String::from_str("192.168.10.1"),
            sta_netmask: String::from_str("255.255.255.0"),
            ap_ssid: String::from_str("ESP32-C3-Repeater"),
            ap_password: String::from_str(""),
            ap_channel: 1,
        }
    }
}

/// Values that the build environment may set for the defaults
/// (`REPEATER_STA_SSID`, `REPEATER_STA_PASS`, `REPEATER_STA_USE_STATIC`,
/// `REPEATER_STA_STATIC_IP`, `REPEATER_STA_GATEWAY`, `REPEATER_STA_NETMASK`,
/// `REPEATER_AP_SSID`, `REPEATER_AP_PASS`, `REPEATER_AP_CHANNEL`).
pub struct BuildEnv<'a> {
    pub sta_ssid: Option<&'a str>,
    pub sta_pass: Option<&'a str>,
    pub sta_use_static: Option<&'a str>,
    pub sta_static_ip: Option<&'a str>,
    pub sta_gateway: Option<&'a str>,
    pub sta_netmask: Option<&'a str>,
    pub ap_ssid: Option<&'a str>,
    pub ap_pass: Option<&'a str>,
    pub ap_channel: Option<&'a str>,
}

/// A text setting of the build environment, or its fallback.
pub open spec fn env_text(v: Option<&str>, fallback: Seq<char>) -> Seq<char> {
    match v {
        Some(s) => s@,
        None => fallback,
    }
}

/// The defaults that a build environment gives: each set value replaces the
/// plain default; static addressing is on only for the value "true"; the
/// channel is the value read as a `u8`, or 1 when it does not read as one.
pub open spec fn env_model(env: BuildEnv) -> ConfigModel {
    let d = default_model();
    ConfigModel {
        sta_ssid: env_text(env.sta_ssid, d.sta_ssid),
        sta_password: env_text(env.sta_pass, d.sta_password),
        sta_use_static: match env.sta_use_static {
            Some(v) => v@ == "true"@,
            None => false,
        },
        sta_static_ip: env_text(env.sta_static_ip, d.sta_static_ip),
        sta_gateway: env_text(env.sta_gateway, d.sta_gateway),
        sta_netmask: env_text(env.sta_netmask, d.sta_netmask),
        ap_ssid: env_text(env.ap_ssid, d.ap_ssid),
        ap_password: env_text(env.ap_pass, d.ap_password),
        ap_channel: match env.ap_channel {
            Some(v) => match parse_u8_spec(v@) {
                Some(c) => c,
                None => 1,
            },
            None => 1,
        },
    }
}

/// What was found in persistent storage at start-up.
pub enum StoredConfig {
    /// No stored settings.
    Missing,
    /// Stored bytes that do not decode as settings.
    Unreadable,
    /// Stored settings.
    Found(RepeaterConfig),
}

fn env_string(v: Option<&str>, fallback: &str) -> (r: String)
    ensures
        r@ == env_text(v, fallback@),
{
    match v {
        Some(s) => String::from_str(s),
        None => String::from_str(fallback),
    }
}

impl RepeaterConfig {
    /// The defaults, with the values that the build environment sets.
    pub fn from_build_env(env: &BuildEnv) -> (r: RepeaterConfig)
        ensures
            r@ == env_model(*env),
    {
        let use_static = match env.sta_use_static {
            Some(v) => str_eq(v, "true"),
            None => false,
        };
        let channel = match env.ap_channel {
            Some(v) => match parse_u8(v) {
                Some(c) => c,
                None => 1,
            },
            None => 1,
        };
        RepeaterConfig {
            sta_ssid: env_string(env.sta_ssid, ""),
            sta_password: env_string(env.sta_pass, ""),
            sta_use_static: use_static,
            sta_static_ip: env_string(env.sta_static_ip, "192.168.10.2"),
            sta_gateway: env_string(env.sta_gateway, "192.168.10.1"),
            sta_netmask: env_string(env.sta_netmask, "255.255.255.0"),
            ap_ssid: env_string(env.ap_ssid, "ESP32-C3-Repeater"),
            ap_password: env_string(env.ap_pass, ""),
            ap_channel: channel,
        }
    }

    /// The settings to start with: the stored ones when they were found and
    /// decoded, else `defaults`.
    pub fn load(stored: StoredConfig, defaults: RepeaterConfig) -> (r: RepeaterConfig)
        ensures
            r@ == match stored {
                StoredConfig::Found(c) => c@,
                _ => defaults@,
            },
    {
        match stored {
            StoredConfig::Found(c) => c,
            _ => defaults,
        }
    }
}

/// The keys of the `SET` command.
#[derive(Clone, Copy, Debug, PartialEq, Eq, Structural)]
pub enum ConfigKey {
    StaSsid,
    StaPass,
    StaStatic,
    StaIp,
    StaGw,
    StaNm,
    ApSsid,
    ApPass,
    ApChan,
}

/// The text settings whose length is bounded.
#[derive(Clone, Copy, Debug, PartialEq, Eq, Structural)]
pub enum TextField {
    StaSsid,
    StaPassword,
    ApSsid,
}

/// What a `SET` command did.
#[derive(Clone, Copy, Debug, PartialEq, Eq, Structural)]
pub enum SetOutcome {
    /// Fewer than three parts: the usage is shown.
    Usage,
    /// The key names no setting.
    UnknownKey,
    /// The setting was changed.
    Updated(ConfigKey),
    /// The value is longer than the field holds.
    TooLong(TextField),
    /// `sta_static` takes "true" or "false".
    NotBool,
    /// The address is not a dotted-quad IPv4 address.
    NotIpv4,
    /// The access-point password is neither empty nor 8 to 64 bytes long.
    BadApPassword,
    /// The channel is a number outside 1 to 13.
    ChannelOutOfRange,
    /// The channel is not a number.
    NotChannel,
}

/// The key that a name written after `SET` stands for.
pub open spec fn config_key_of(name: Seq<char>) -> Option<ConfigKey> {
    if name == "sta_ssid"@ {
        Some(ConfigKey::StaSsid)
    } else if name == "sta_pass"@ {
        Some(ConfigKey::StaPass)
    } else if name == "sta_static"@ {
        Some(ConfigKey::StaStatic)
    } else if name == "sta_ip"@ {
        Some(ConfigKey::StaIp)
    } else if name == "sta_gw"@ {
        Some(ConfigKey::StaGw)
    } else if name == "sta_nm"@ {
        Some(ConfigKey::StaNm)
    } else if name == "ap_ssid"@ {
        Some(ConfigKey::ApSsid)
    } else if name == "ap_pass"@ {
        Some(ConfigKey::ApPass)
    } else if name == "ap_chan"@ {
        Some(ConfigKey::ApChan)
    } else {
        None
    }
}

/// The length in bytes that `str::len` reports for the characters `s`.
pub open spec fn byte_len(s: Seq<char>) -> usize {
    encode_utf8(s).len() as usize
}

/// A bounded text setting: kept when `v` is longer than `max` bytes.
pub open spec fn set_text(
    m: ConfigModel,
    updated: ConfigModel,
    v: Seq<char>,
    max: usize,
    key: ConfigKey,
    field: TextField,
) -> (ConfigModel, SetOutcome) {
    if byte_len(v) > max {
        (m, SetOutcome::TooLong(field))
    } else {
        (updated, SetOutcome::Updated(key))
    }
}

/// The channel after `SET ap_chan v` from channel `c`, and the outcome.
pub open spec fn set_channel_spec(c: u8, v: Seq<char>) -> (u8, SetOutcome) {
    match parse_u8_spec(v) {
        Some(n) => if AP_CHANNEL_MIN <= n && n <= AP_CHANNEL_MAX {
            (n, SetOutcome::Updated(ConfigKey::ApChan))
        } else {
            (c, SetOutcome::ChannelOutOfRange)
        },
        None => (c, SetOutcome::NotChannel),
    }
}

/// The effect of setting `key` to the (unquoted) value `v`.
pub open spec fn set_key(m: ConfigModel, key: ConfigKey, v: Seq<char>) -> (ConfigModel, SetOutcome) {
    match key {
        ConfigKey::StaSsid => set_text(m, ConfigModel { sta_ssid: v, ..m }, v, SSID_MAX_LEN, key, TextField::StaSsid),
        ConfigKey::StaPass => set_text(m, ConfigModel { sta_password: v, ..m }, v, PASSWORD_MAX_LEN, key, TextField::StaPassword),
        ConfigKey::ApSsid => set_text(m, ConfigModel { ap_ssid: v, ..m }, v, SSID_MAX_LEN, key, TextField::ApSsid),
        ConfigKey::StaStatic => match parse_bool_spec(v) {
            Some(b) => (ConfigModel { sta_use_static: b, ..m }, SetOutcome::Updated(key)),
            None => (m, SetOutcome::NotBool),
        },
        ConfigKey::StaIp => if is_ipv4_text(v) {
            (ConfigModel { sta_static_ip: v, ..m }, SetOutcome::Updated(key))
        } else {
            (m, SetOutcome::NotIpv4)
        },
        ConfigKey::StaGw => if is_ipv4_text(v) {
            (ConfigModel { sta_gateway: v, ..m }, SetOutcome::Updated(key))
        } else {
            (m, SetOutcome::NotIpv4)
        },
        ConfigKey::StaNm => if is_ipv4_text(v) {
            (ConfigModel { sta_netmask: v, ..m }, SetOutcome::Updated(key))
        } else {
            (m, SetOutcome::NotIpv4)
        },
        ConfigKey::ApPass => if v.len() != 0 && (byte_len(v) < AP_PASSWORD_MIN_LEN || byte_len(v) > PASSWORD_MAX_LEN) {
            (m, SetOutcome::BadApPassword)
        } else {
            (ConfigModel { ap_password: v, ..m }, SetOutcome::Updated(key))
        },
        ConfigKey::ApChan => {
            let (c, o) = set_channel_spec(m.ap_channel, v);
            (ConfigModel { ap_channel: c, ..m }, o)
        },
    }
}

/// The effect of `SET` with the command-line parts `parts` (the command,
/// the key and the value, which may be quoted).
pub open spec fn set_spec(m: ConfigModel, parts: Seq<Seq<char>>) -> (ConfigModel, SetOutcome) {
    if parts.len() < 3 {
        (m, SetOutcome::Usage)
    } else {
        match config_key_of(parts[1]) {
            None => (m, SetOutcome::UnknownKey),
            Some(key) => set_key(m, key, unquote_spec(parts[2])),
        }
    }
}

/// The characters of each part.
pub open spec fn parts_view(parts: Seq<&str>) -> Seq<Seq<char>> {
    parts.map_values(|p: &str| p@)
}

/// The name of a key, as written after `SET`.
pub open spec fn key_name(key: ConfigKey) -> Seq<char> {
    match key {
        ConfigKey::StaSsid => "sta_ssid"@,
        ConfigKey::StaPass => "sta_pass"@,
        ConfigKey::StaStatic => "sta_static"@,
        ConfigKey::StaIp => "sta_ip"@,
        ConfigKey::StaGw => "sta_gw"@,
        ConfigKey::StaNm => "sta_nm"@,
        ConfigKey::ApSsid => "ap_ssid"@,
        ConfigKey::ApPass => "ap_pass"@,
        ConfigKey::ApChan => "ap_chan"@,
    }
}

/// The line printed for an outcome; `key` is the key as it was written.
pub open spec fn outcome_text(o: SetOutcome, key: Seq<char>) -> Seq<char> {
    match o {
        SetOutcome::Usage => "Usage: SET <key> <value>"@,
        SetOutcome::UnknownKey => "Unknown key: "@ + key,
        SetOutcome::Updated(k) => key_name(k) + " updated."@,
        SetOutcome::TooLong(TextField::StaSsid) => "Error: STA SSID too long (max 32 chars)"@,
        SetOutcome::TooLong(TextField::StaPassword) => "Error: STA Password too long (max 64 chars)"@,
        SetOutcome::TooLong(TextField::ApSsid) => "Error: AP SSID too long (max 32 chars)"@,
        SetOutcome::NotBool => "Error: sta_static must be true or false"@,
        SetOutcome::NotIpv4 => "Error: Invalid IPv4 address format"@,
        SetOutcome::BadApPassword => "Error: AP password must be empty or between 8 and 64 chars."@,
        SetOutcome::ChannelOutOfRange => "Error: Channel must be between 1 and 13"@,
        SetOutcome::NotChannel => "Error: Invalid channel number"@,
    }
}

impl ConfigKey {
    /// The key that `name` stands for.
    pub fn from_name(name: &str) -> (r: Option<ConfigKey>)
        ensures
            r == config_key_of(name@),
    {
        if str_eq(name, "sta_ssid") {
            Some(ConfigKey::StaSsid)
        } else if str_eq(name, "sta_pass") {
            Some(ConfigKey::StaPass)
        } else if str_eq(name, "sta_static") {
            Some(ConfigKey::StaStatic)
        } else if str_eq(name, "sta_ip") {
            Some(ConfigKey::StaIp)
        } else if str_eq(name, "sta_gw") {
            Some(ConfigKey::StaGw)
        } else if str_eq(name, "sta_nm") {
            Some(ConfigKey::StaNm)
        } else if str_eq(name, "ap_ssid") {
            Some(ConfigKey::ApSsid)
        } else if str_eq(name, "ap_pass") {
            Some(ConfigKey::ApPass)
        } else if str_eq(name, "ap_chan") {
            Some(ConfigKey::ApChan)
        } else {
            None
        }
    }

    /// The key's name, as written after `SET`.
    pub fn name(&self) -> (r: &'static str)
        ensures
            r@ == key_name(*self),
    {
        match self {
            ConfigKey::StaSsid => "sta_ssid",
            ConfigKey::StaPass => "sta_pass",
            ConfigKey::StaStatic => "sta_static",
            ConfigKey::StaIp => "sta_ip",
            ConfigKey::StaGw => "sta_gw",
            ConfigKey::StaNm => "sta_nm",
            ConfigKey::ApSsid => "ap_ssid",
            ConfigKey::ApPass => "ap_pass",
            ConfigKey::ApChan => "ap_chan",
        }
    }
}

impl SetOutcome {
    /// The line that the command prints; `key` is the key as it was written.
    pub fn message(&self, key: &str) -> (r: String)
        ensures
            r@ == outcome_text(*self, key@),
    {
        match self {
            SetOutcome::Usage => String::from_str("Usage: SET <key> <value>"),
            SetOutcome::UnknownKey => String::from_str("Unknown key: ").concat(key),
            SetOutcome::Updated(k) => String::from_str(k.name()).concat(" updated."),
            SetOutcome::TooLong(TextField::StaSsid) => String::from_str(
                "Error: STA SSID too long (max 32 chars)",
            ),
            SetOutcome::TooLong(TextField::StaPassword) => String::from_str(
                "Error: STA Password too long (max 64 chars)",
            ),
            SetOutcome::TooLong(TextField::ApSsid) => String::from_str(
                "Error: AP SSID too long (max 32 chars)",
            ),
            SetOutcome::NotBool => String::from_str("Error: sta_static must be true or false"),
            SetOutcome::NotIpv4 => String::from_str("Error: Invalid IPv4 address format"),
            SetOutcome::BadApPassword => String::from_str(
                "Error: AP password must be empty or between 8 and 64 chars.",
            ),
            SetOutcome::ChannelOutOfRange => String::from_str(
                "Error: Channel must be between 1 and 13",
            ),
            SetOutcome::NotChannel => String::from_str("Error: Invalid channel number"),
        }
    }
}

/// Sets a bounded text setting to `value` unless it is longer than `max_len` bytes.
pub fn set_string(target: &mut String, value: String, max_len: usize) -> (ok: bool)
    ensures
        ok == (byte_len(value@) <= max_len),
        final(target)@ == if ok { value@ } else { old(target)@ },
{
    if value.as_str().len() > max_len {
        false
    } else {
        *target = value;
        true
    }
}

/// Sets `target` to the boolean that `value` spells, if it spells one.
pub fn set_bool(target: &mut bool, value: &str) -> (ok: bool)
    ensures
        ok == parse_bool_spec(value@) is Some,
        *final(target) == match parse_bool_spec(value@) {
            Some(b) => b,
            None => *old(target),
        },
{
    match parse_bool(value) {
        Some(b) => {
            *target = b;
            true
        },
        None => false,
    }
}

/// Sets `target` to `value` if it is a dotted-quad IPv4 address.
pub fn set_ipv4(target: &mut String, value: String) -> (ok: bool)
    ensures
        ok == is_ipv4_text(value@),
        final(target)@ == if ok { value@ } else { old(target)@ },
{
    if parse_ipv4(value.as_str()).is_some() {
        *target = value;
        true
    } else {
        false
    }
}

/// Sets the access-point password to `value` if it is empty or 8 to 64 bytes long.
pub fn set_ap_password(target: &mut String, value: String) -> (ok: bool)
    ensures
        ok == !(value@.len() != 0 && (byte_len(value@) < AP_PASSWORD_MIN_LEN || byte_len(value@)
            > PASSWORD_MAX_LEN)),
        final(target)@ == if ok { value@ } else { old(target)@ },
{
    let n = value.as_str().len();
    if !value.as_str().is_empty() && (n < AP_PASSWORD_MIN_LEN || n > PASSWORD_MAX_LEN) {
        false
    } else {
        *target = value;
        true
    }
}

/// Sets the access-point channel to the number `value` if it is 1 to 13.
pub fn set_ap_channel(target: &mut u8, value: &str) -> (r: SetOutcome)
    ensures
        (*final(target), r) == set_channel_spec(*old(target), value@),
{
    match parse_u8(value) {
        Some(channel) => {
            if AP_CHANNEL_MIN <= channel && channel <= AP_CHANNEL_MAX {
                *target = channel;
                SetOutcome::Updated(ConfigKey::ApChan)
            } else {
                SetOutcome::ChannelOutOfRange
            }
        },
        None => SetOutcome::NotChannel,
    }
}

fn text_outcome(ok: bool, key: ConfigKey, field: TextField) -> (r: SetOutcome)
    ensures
        r == if ok { SetOutcome::Updated(key) } else { SetOutcome::TooLong(field) },
{
    if ok {
        SetOutcome::Updated(key)
    } else {
        SetOutcome::TooLong(field)
    }
}

fn checked_outcome(ok: bool, key: ConfigKey, err: SetOutcome) -> (r: SetOutcome)
    ensures
        r == if ok { SetOutcome::Updated(key) } else { err },
{
    if ok {
        SetOutcome::Updated(key)
    } else {
        err
    }
}

/// Applies `SET <key> <value>` to the settings; `parts` is the split command
/// line.
pub fn set_config_value(parts: &[&str], cfg: &mut RepeaterConfig) -> (r: SetOutcome)
    ensures
        (final(cfg)@, r) == set_spec(old(cfg)@, parts_view(parts@)),
{
    let ghost pv = parts_view(parts@);
    if parts.len() < 3 {
        return SetOutcome::Usage;
    }
    assert(pv[1] == parts@[1]@ && pv[2] == parts@[2]@);
    let key = match ConfigKey::from_name(parts[1]) {
        Some(k) => k,
        None => {
            return SetOutcome::UnknownKey;
        },
    };
    let value = unquote(parts[2]);
    match key {
        ConfigKey::StaSsid => {
            let ok = set_string(&mut cfg.sta_ssid, value, SSID_MAX_LEN);
            text_outcome(ok, key, TextField::StaSsid)
        },
        ConfigKey::StaPass => {
            let ok = set_string(&mut cfg.sta_password, value, PASSWORD_MAX_LEN);
            text_outcome(ok, key, TextField::StaPassword)
        },
        ConfigKey::ApSsid => {
            let ok = set_string(&mut cfg.ap_ssid, value, SSID_MAX_LEN);
            text_outcome(ok, key, TextField::ApSsid)
        },
        ConfigKey::StaStatic => {
            let ok = set_bool(&mut cfg.sta_use_static, value.as_str());
            checked_outcome(ok, key, SetOutcome::NotBool)
        },
        ConfigKey::StaIp => {
            let ok = set_ipv4(&mut cfg.sta_static_ip, value);
            checked_outcome(ok, key, SetOutcome::NotIpv4)
        },
        ConfigKey::StaGw => {
            let ok = set_ipv4(&mut cfg.sta_gateway, value);
            checked_outcome(ok, key, SetOutcome::NotIpv4)
        },
        ConfigKey::StaNm => {
            let ok = set_ipv4(&mut cfg.sta_netmask, value);
            checked_outcome(ok, key, SetOutcome::NotIpv4)
        },
        ConfigKey::ApPass => {
            let ok = set_ap_password(&mut cfg.ap_password, value);
            checked_outcome(ok, key, SetOutcome::BadApPassword)
        },
        ConfigKey::ApChan => set_ap_channel(&mut cfg.ap_channel, value.as_str()),
    }
}

/// `n` equals `m` in every setting other than the one `k` names.
pub open spec fn same_except(m: ConfigModel, n: ConfigModel, k: ConfigKey) -> bool {
    &&& (k != ConfigKey::StaSsid ==> n.sta_ssid == m.sta_ssid)
    &&& (k != ConfigKey::StaPass ==> n.sta_password == m.sta_password)
    &&& (k != ConfigKey::StaStatic ==> n.sta_use_static == m.sta_use_static)
    &&& (k != ConfigKey::StaIp ==> n.sta_static_ip == m.sta_static_ip)
    &&& (k != ConfigKey::StaGw ==> n.sta_gateway == m.sta_gateway)
    &&& (k != ConfigKey::StaNm ==> n.sta_netmask == m.sta_netmask)
    &&& (k != ConfigKey::ApSsid ==> n.ap_ssid == m.ap_ssid)
    &&& (k != ConfigKey::ApPass ==> n.ap_password == m.ap_password)
    &&& (k != ConfigKey::ApChan ==> n.ap_channel == m.ap_channel)
}

/// The setting `k` of `n` holds what the value `v` writes.
pub open spec fn holds_value(n: ConfigModel, k: ConfigKey, v: Seq<char>) -> bool {
    match k {
        ConfigKey::StaSsid => n.sta_ssid == v,
        ConfigKey::StaPass => n.sta_password == v,
        ConfigKey::StaStatic => parse_bool_spec(v) == Some(n.sta_use_static),
        ConfigKey::StaIp => n.sta_static_ip == v,
        ConfigKey::StaGw => n.sta_gateway == v,
        ConfigKey::StaNm => n.sta_netmask == v,
        ConfigKey::ApSsid => n.ap_ssid == v,
        ConfigKey::ApPass => n.ap_password == v,
        ConfigKey::ApChan => parse_u8_spec(v) == Some(n.ap_channel),
    }
}

/// A `SET` that reports an error, or is not understood, leaves every setting
/// as it was; a `SET` that reports an update changes only the setting its
/// key names, which then holds the (unquoted) value, so a following `GET`
/// shows the value that was set.
pub proof fn set_changes_only_the_named_setting(m: ConfigModel, parts: Seq<Seq<char>>)
    ensures
        !(set_spec(m, parts).1 is Updated) ==> set_spec(m, parts).0 == m,
        set_spec(m, parts).1 matches SetOutcome::Updated(k) ==> {
            &&& parts.len() >= 3
            &&& config_key_of(parts[1]) == Some(k)
            &&& holds_value(set_spec(m, parts).0, k, unquote_spec(parts[2]))
            &&& same_except(m, set_spec(m, parts).0, k)
        },
{
}

/// Without values from the build environment the settings are the plain
/// defaults.
pub proof fn empty_build_env_gives_defaults(env: BuildEnv)
    requires
        env.sta_ssid is None,
        env.sta_pass is None,
        env.sta_use_static is None,
        env.sta_static_ip is None,
        env.sta_gateway is None,
        env.sta_netmask is None,
        env.ap_ssid is None,
        env.ap_pass is None,
        env.ap_channel is None,
    ensures
        env_model(env) == default_model(),
{
}

/// Every channel from 1 to 13 is accepted and every other number refused:
/// for a value that reads as the number `n`, `SET ap_chan` sets the channel
/// to `n` when 1 <= n <= 13, and otherwise reports the range and keeps the
/// old channel; a value that does not read as a number is refused.
pub proof fn channels_one_to_thirteen_are_accepted(old: u8, v: Seq<char>)
    ensures
        parse_u8_spec(v) matches Some(n) ==> (1 <= n && n <= 13 ==> set_channel_spec(old, v) == (
            n,
            SetOutcome::Updated(ConfigKey::ApChan),
        )),
        parse_u8_spec(v) matches Some(n) ==> (!(1 <= n && n <= 13) ==> set_channel_spec(old, v)
            == (old, SetOutcome::ChannelOutOfRange)),
        parse_u8_spec(v) is None ==> set_channel_spec(old, v) == (old, SetOutcome::NotChannel),
{
}

/// `SET ap_chan <c>`, with `c` from 1 to 13 written in decimal, sets the
/// channel to `c`, reports the update, and changes nothing else.
pub proof fn set_each_channel_by_number(m: ConfigModel, c: u8)
    requires
        1 <= c <= 13,
    ensures
        set_spec(m, seq!["SET"@, "ap_chan"@, decimal_text(c)]) == (
            ConfigModel { ap_channel: c, ..m },
            SetOutcome::Updated(ConfigKey::ApChan),
        ),
{
    decimal_text_reads_back(c);
    let parts = seq!["SET"@, "ap_chan"@, decimal_text(c)];
    assert(parts[1] == "ap_chan"@);
    assert(config_key_of(parts[1]) == Some(ConfigKey::ApChan)) by {
        reveal_strlit("ap_chan");
        reveal_strlit("sta_ssid");
        reveal_strlit("sta_pass");
        reveal_strlit("sta_static");
        reveal_strlit("sta_ip");
        reveal_strlit("sta_gw");
        reveal_strlit("sta_nm");
        reveal_strlit("ap_ssid");
        reveal_strlit("ap_pass");
        assert("ap_chan"@.len() == 7 && "sta_ssid"@.len() == 8 && "sta_pass"@.len() == 8);
        assert("sta_static"@.len() == 10 && "sta_ip"@.len() == 6 && "sta_gw"@.len() == 6);
        assert("sta_nm"@.len() == 6);
        assert("ap_chan"@[3] != "ap_ssid"@[3]);
        assert("ap_chan"@[3] != "ap_pass"@[3]);
    }
    assert(decimal_text(c)[0] != '"');
    assert(unquote_spec(parts[2]) == decimal_text(c));
}

/// Each default setting comes from its own build variable: a set variable is
/// taken verbatim (`REPEATER_STA_USE_STATIC` counts only as "true",
/// `REPEATER_AP_CHANNEL` only when it reads as a `u8`); an unset one leaves
/// the plain default, whatever the other variables hold.
pub proof fn build_env_fields_come_from_their_variables(env: BuildEnv)
    ensures
        env_model(env).sta_ssid == (match env.sta_ssid { Some(v) => v@, None => ""@ }),
        env_model(env).sta_password == (match env.sta_pass { Some(v) => v@, None => ""@ }),
        env_model(env).sta_use_static == (env.sta_use_static matches Some(v) && v@ == "true"@),
        env_model(env).sta_static_ip == (match env.sta_static_ip {
            Some(v) => v@,
            None => "192.168.10.2"@,
        }),
        env_model(env).sta_gateway == (match env.sta_gateway {
            Some(v) => v@,
            None => "192.168.10.1"@,
        }),
        env_model(env).sta_netmask == (match env.sta_netmask {
            Some(v) => v@,
            None => "255.255.255.0"@,
        }),
        env_model(env).ap_ssid == (match env.ap_ssid {
            Some(v) => v@,
            None => "ESP32-C3-Repeater"@,
        }),
        env_model(env).ap_password == (match env.ap_pass { Some(v) => v@, None => ""@ }),
        env_model(env).ap_channel == (match env.ap_channel {
            Some(v) => match parse_u8_spec(v@) {
                Some(c) => c,
                None => 1u8,
            },
            None => 1u8,
        }),
{
}

/// Two build environments that agree on a variable give the same value to
/// the setting that variable names: no setting reads another's variable.
pub proof fn build_env_fields_are_independent(e1: BuildEnv, e2: BuildEnv)
    ensures
        e1.sta_ssid == e2.sta_ssid ==> env_model(e1).sta_ssid == env_model(e2).sta_ssid,
        e1.sta_pass == e2.sta_pass ==> env_model(e1).sta_password == env_model(e2).sta_password,
        e1.sta_use_static == e2.sta_use_static ==> env_model(e1).sta_use_static == env_model(
            e2,
        ).sta_use_static,
        e1.sta_static_ip == e2.sta_static_ip ==> env_model(e1).sta_static_ip == env_model(
            e2,
        ).sta_static_ip,
        e1.sta_gateway == e2.sta_gateway ==> env_model(e1).sta_gateway == env_model(e2).sta_gateway,
        e1.sta_netmask == e2.sta_netmask ==> env_model(e1).sta_netmask == env_model(e2).sta_netmask,
        e1.ap_ssid == e2.ap_ssid ==> env_model(e1).ap_ssid == env_model(e2).ap_ssid,
        e1.ap_pass == e2.ap_pass ==> env_model(e1).ap_password == env_model(e2).ap_password,
        e1.ap_channel == e2.ap_channel ==> env_model(e1).ap_channel == env_model(e2).ap_channel,
{
}

/// The length rules of `SET`: an SSID is accepted exactly when its UTF-8
/// form is at most 32 bytes, the station password at most 64 bytes, and the
/// access-point password when it is empty or 8 to 64 bytes; an accepted value
/// is stored as given and a refused one leaves the settings unchanged. (The
/// value's UTF-8 length is taken to fit in `usize`, as any string's does.)
pub proof fn set_length_limits(m: ConfigModel, v: Seq<char>)
    requires
        encode_utf8(v).len() <= usize::MAX,
    ensures
        set_key(m, ConfigKey::StaSsid, v) == (if encode_utf8(v).len() <= 32 {
            (ConfigModel { sta_ssid: v, ..m }, SetOutcome::Updated(ConfigKey::StaSsid))
        } else {
            (m, SetOutcome::TooLong(TextField::StaSsid))
        }),
        set_key(m, ConfigKey::StaPass, v) == (if encode_utf8(v).len() <= 64 {
            (ConfigModel { sta_password: v, ..m }, SetOutcome::Updated(ConfigKey::StaPass))
        } else {
            (m, SetOutcome::TooLong(TextField::StaPassword))
        }),
        set_key(m, ConfigKey::ApSsid, v) == (if encode_utf8(v).len() <= 32 {
            (ConfigModel { ap_ssid: v, ..m }, SetOutcome::Updated(ConfigKey::ApSsid))
        } else {
            (m, SetOutcome::TooLong(TextField::ApSsid))
        }),
        set_key(m, ConfigKey::ApPass, v) == (if v.len() == 0 || (8 <= encode_utf8(v).len()
            && encode_utf8(v).len() <= 64) {
            (ConfigModel { ap_password: v, ..m }, SetOutcome::Updated(ConfigKey::ApPass))
        } else {
            (m, SetOutcome::BadApPassword)
        }),
{
}

/// Each key name written after `SET` names its own setting, and no other
/// word names one.
pub proof fn key_names_name_their_settings(name: Seq<char>)
    ensures
        config_key_of("sta_ssid"@) == Some(ConfigKey::StaSsid),
        config_key_of("sta_pass"@) == Some(ConfigKey::StaPass),
        config_key_of("sta_static"@) == Some(ConfigKey::StaStatic),
        config_key_of("sta_ip"@) == Some(ConfigKey::StaIp),
        config_key_of("sta_gw"@) == Some(ConfigKey::StaGw),
        config_key_of("sta_nm"@) == Some(ConfigKey::StaNm),
        config_key_of("ap_ssid"@) == Some(ConfigKey::ApSsid),
        config_key_of("ap_pass"@) == Some(ConfigKey::ApPass),
        config_key_of("ap_chan"@) == Some(ConfigKey::ApChan),
        config_key_of(name) matches Some(k) ==> name == key_name(k),
{
    reveal_strlit("sta_ssid");
    reveal_strlit("sta_pass");
    reveal_strlit("sta_static");
    reveal_strlit("sta_ip");
    reveal_strlit("sta_gw");
    reveal_strlit("sta_nm");
    reveal_strlit("ap_ssid");
    reveal_strlit("ap_pass");
    reveal_strlit("ap_chan");
    assert("sta_ssid"@.len() == 8 && "sta_pass"@.len() == 8 && "sta_static"@.len() == 10);
    assert("sta_ip"@.len() == 6 && "sta_gw"@.len() == 6 && "sta_nm"@.len() == 6);
    assert("ap_ssid"@.len() == 7 && "ap_pass"@.len() == 7 && "ap_chan"@.len() == 7);
    assert("sta_ssid"@[4] != "sta_pass"@[4]);
    assert("sta_ip"@[4] != "sta_gw"@[4] && "sta_ip"@[4] != "sta_nm"@[4] && "sta_gw"@[4]
        != "sta_nm"@[4]);
    assert("ap_ssid"@[3] != "ap_pass"@[3] && "ap_ssid"@[3] != "ap_chan"@[3] && "ap_pass"@[3]
        != "ap_chan"@[3]);
}

} // verus!
