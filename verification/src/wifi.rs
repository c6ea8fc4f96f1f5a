//! The Wi-Fi side of the repeater: the station and access-point
//! configuration built from the settings, the static addressing plan and the
//! DNS servers offered to the access point's clients.

use vstd::prelude::*;
use vstd::utf8::encode_utf8;
use embedded_svc::wifi::{AccessPointConfiguration, AuthMethod, ClientConfiguration, Configuration};
use crate::command::unquote_spec;
use crate::config::{default_model, set_spec, ConfigModel, RepeaterConfig, PASSWORD_MAX_LEN, SSID_MAX_LEN};
use crate::parse::{parse_ipv4, parse_ipv4_spec};

verus! {

/// Clients that the access point admits at once.
pub const MAX_AP_CONNECTIONS: u16 = 4;

/// The DNS server offered to access-point clients when the station gets its
/// address by DHCP, and the backup server of every interface: 1.1.1.1.
pub open spec fn fallback_dns_spec() -> Seq<u8> {
    seq![1u8, 1u8, 1u8, 1u8]
}

/// 1.1.1.1.
pub fn fallback_dns() -> (r: [u8; 4])
    ensures
        r@ == fallback_dns_spec(),
{
    let r: [u8; 4] = [1, 1, 1, 1];
    assert(r@ =~= fallback_dns_spec());
    r
}

/// `heapless::String<N>`, a string of at most `N` bytes; opaque here.
#[verifier::external_type_specification]
#[verifier::external_body]
pub struct ExHeaplessString<const N: usize>(heapless::String<N>);

/// `embedded_svc::wifi::Configuration`, the Wi-Fi driver configuration;
/// opaque here.
#[verifier::external_type_specification]
#[verifier::external_body]
pub struct ExConfiguration(Configuration);

/// The characters of an SSID-sized `heapless::String<32>`.
pub uninterp spec fn ssid_chars(s: heapless::String<32>) -> Seq<char>;

/// The characters of a password-sized `heapless::String<64>`.
pub uninterp spec fn password_chars(s: heapless::String<64>) -> Seq<char>;

/// The `embedded_svc` configuration with a station part (SSID, password, the
/// rest default) and an access-point part (SSID, password, channel, WPA2
/// Personal or open authentication, connection limit, the rest default).
pub uninterp spec fn mixed_configuration_of(
    sta_ssid: Seq<char>,
    sta_password: Seq<char>,
    ap_ssid: Seq<char>,
    ap_password: Seq<char>,
    channel: u8,
    wpa2: bool,
    max_connections: u16,
) -> Configuration;

/// How the access point authenticates its clients.
#[derive(Clone, Copy, Debug, PartialEq, Eq, Structural)]
pub enum ApAuth {
    Open,
    Wpa2Personal,
}

/// The field of the settings that does not fit the Wi-Fi configuration.
#[derive(Clone, Copy, Debug, PartialEq, Eq, Structural)]
pub enum WifiField {
    StaSsid,
    StaPassword,
    ApSsid,
    ApPassword,
}

/// Calls `heapless::String::<32>::try_from(&str)`; trusted to succeed exactly
/// when the UTF-8 form of `s` is at most 32 bytes long (heapless
/// `Vec::extend_from_slice` refuses a slice that does not fit) and then to
/// hold the characters of `s`.
#[verifier::external_body]
fn to_heapless_32(s: &str) -> (r: Option<heapless::String<32>>)
    ensures
        r is Some <==> encode_utf8(s@).len() <= 32,
        r matches Some(h) ==> ssid_chars(h) == s@,
{
    heapless::String::<32>::try_from(s).ok()
}

/// Calls `heapless::String::<64>::try_from(&str)`; trusted to succeed exactly
/// when the UTF-8 form of `s` is at most 64 bytes long and then to hold the
/// characters of `s`.
#[verifier::external_body]
fn to_heapless_64(s: &str) -> (r: Option<heapless::String<64>>)
    ensures
        r is Some <==> encode_utf8(s@).len() <= 64,
        r matches Some(h) ==> password_chars(h) == s@,
{
    heapless::String::<64>::try_from(s).ok()
}

/// Builds `embedded_svc::wifi::Configuration::Mixed` from a
/// `ClientConfiguration` and an `AccessPointConfiguration` with the given
/// fields, all others at their `Default` values. Trusted only to return
/// `mixed_configuration_of` of the arguments' contents (the struct literals
/// depend on nothing else); the fields of the result are not stated.
#[verifier::external_body]
fn mixed_configuration(
    sta_ssid: heapless::String<32>,
    sta_password: heapless::String<64>,
    ap_ssid: heapless::String<32>,
    ap_password: heapless::String<64>,
    channel: u8,
    auth: ApAuth,
    max_connections: u16,
) -> (c: Configuration)
    ensures
        c == mixed_configuration_of(
            ssid_chars(sta_ssid),
            password_chars(sta_password),
            ssid_chars(ap_ssid),
            password_chars(ap_password),
            channel,
            auth == ApAuth::Wpa2Personal,
            max_connections,
        ),
{
    let auth_method = match auth {
        ApAuth::Open => AuthMethod::None,
        ApAuth::Wpa2Personal => AuthMethod::WPA2Personal,
    };
    let sta = ClientConfiguration { ssid: sta_ssid, password: sta_password, ..Default::default() };
    let ap = AccessPointConfiguration {
        ssid: ap_ssid,
        password: ap_password,
        channel,
        auth_method,
        max_connections,
        ..Default::default()
    };
    Configuration::Mixed(sta, ap)
}

/// The access point is open when its password is empty, else WPA2 Personal.
pub fn ap_auth_method(password: &str) -> (a: ApAuth)
    ensures
        a == if password@.len() == 0 { ApAuth::Open } else { ApAuth::Wpa2Personal },
{
    if password.is_empty() {
        ApAuth::Open
    } else {
        ApAuth::Wpa2Personal
    }
}

/// The first field, in the order station SSID, station password,
/// access-point SSID, access-point password, whose UTF-8 form is longer
/// than the configuration holds.
pub open spec fn first_too_long(m: ConfigModel) -> Option<WifiField> {
    if encode_utf8(m.sta_ssid).len() > SSID_MAX_LEN {
        Some(WifiField::StaSsid)
    } else if encode_utf8(m.sta_password).len() > PASSWORD_MAX_LEN {
        Some(WifiField::StaPassword)
    } else if encode_utf8(m.ap_ssid).len() > SSID_MAX_LEN {
        Some(WifiField::ApSsid)
    } else if encode_utf8(m.ap_password).len() > PASSWORD_MAX_LEN {
        Some(WifiField::ApPassword)
    } else {
        None
    }
}

/// The station-and-access-point configuration for the settings `m`.
pub open spec fn wifi_configuration_spec(m: ConfigModel) -> Result<Configuration, WifiField> {
    match first_too_long(m) {
        Some(f) => Err(f),
        None => Ok(
            mixed_configuration_of(
                m.sta_ssid,
                m.sta_password,
                m.ap_ssid,
                m.ap_password,
                m.ap_channel,
                m.ap_password.len() != 0,
                MAX_AP_CONNECTIONS,
            ),
        ),
    }
}

/// The Wi-Fi configuration that the settings give: the station joins the
/// upstream network, the access point serves clients on the configured
/// channel; fails on the first text field that does not fit.
pub fn wifi_configuration(config: &RepeaterConfig) -> (r: Result<Configuration, WifiField>)
    ensures
        r == wifi_configuration_spec(config@),
{
    let sta_ssid = match to_heapless_32(config.sta_ssid.as_str()) {
        Some(h) => h,
        None => return Err(WifiField::StaSsid),
    };
    let sta_password = match to_heapless_64(config.sta_password.as_str()) {
        Some(h) => h,
        None => return Err(WifiField::StaPassword),
    };
    let ap_ssid = match to_heapless_32(config.ap_ssid.as_str()) {
        Some(h) => h,
        None => return Err(WifiField::ApSsid),
    };
    let ap_password = match to_heapless_64(config.ap_password.as_str()) {
        Some(h) => h,
        None => return Err(WifiField::ApPassword),
    };
    let auth = ap_auth_method(config.ap_password.as_str());
    Ok(
        mixed_configuration(
            sta_ssid,
            sta_password,
            ap_ssid,
            ap_password,
            config.ap_channel,
            auth,
            MAX_AP_CONNECTIONS,
        ),
    )
}

impl WifiField {
    /// The error text for a field that is too long.
    pub fn too_long_message(&self) -> (r: &'static str)
        ensures
            r@ == match *self {
                WifiField::StaSsid => "STA SSID too long"@,
                WifiField::StaPassword => "STA Password too long"@,
                WifiField::ApSsid => "AP SSID too long"@,
                WifiField::ApPassword => "AP Password too long"@,
            },
    {
        match self {
            WifiField::StaSsid => "STA SSID too long",
            WifiField::StaPassword => "STA Password too long",
            WifiField::ApSsid => "AP SSID too long",
            WifiField::ApPassword => "AP Password too long",
        }
    }
}

/// The station's fixed addressing.
pub struct StaticIpPlan {
    /// The station's address.
    pub ip: [u8; 4],
    /// The upstream gateway, also the DNS server of both interfaces and the
    /// one the access point's DHCP server offers.
    pub gateway: [u8; 4],
    /// The station's netmask.
    pub netmask: [u8; 4],
}

/// The address setting that does not read as an IPv4 address.
#[derive(Clone, Copy, Debug, PartialEq, Eq, Structural)]
pub enum StaticIpField {
    Ip,
    Gateway,
    Netmask,
}

/// The static addressing of the settings `m`, or the first address (in the
/// order address, gateway, netmask) that is not a dotted-quad IPv4 address.
pub open spec fn static_ip_plan_ok(m: ConfigModel, p: StaticIpPlan) -> bool {
    &&& parse_ipv4_spec(m.sta_static_ip) == Some(p.ip@)
    &&& parse_ipv4_spec(m.sta_gateway) == Some(p.gateway@)
    &&& parse_ipv4_spec(m.sta_netmask) == Some(p.netmask@)
}

/// Which address of the settings `m` fails first to read as IPv4.
pub open spec fn static_ip_error(m: ConfigModel) -> Option<StaticIpField> {
    if parse_ipv4_spec(m.sta_static_ip) is None {
        Some(StaticIpField::Ip)
    } else if parse_ipv4_spec(m.sta_gateway) is None {
        Some(StaticIpField::Gateway)
    } else if parse_ipv4_spec(m.sta_netmask) is None {
        Some(StaticIpField::Netmask)
    } else {
        None
    }
}

/// Reads the static address, gateway and netmask of the settings.
pub fn static_ip_plan(config: &RepeaterConfig) -> (r: Result<StaticIpPlan, StaticIpField>)
    ensures
        match static_ip_error(config@) {
            Some(f) => (r matches Err(e) && e == f),
            None => (r matches Ok(p) && static_ip_plan_ok(config@, p)),
        },
{
    let ip = match parse_ipv4(config.sta_static_ip.as_str()) {
        Some(a) => a,
        None => return Err(StaticIpField::Ip),
    };
    let gateway = match parse_ipv4(config.sta_gateway.as_str()) {
        Some(a) => a,
        None => return Err(StaticIpField::Gateway),
    };
    let netmask = match parse_ipv4(config.sta_netmask.as_str()) {
        Some(a) => a,
        None => return Err(StaticIpField::Netmask),
    };
    Ok(StaticIpPlan { ip, gateway, netmask })
}

/// The DNS servers of the access point when the station uses DHCP.
pub struct DnsPlan {
    /// The server the upstream network gave, or 1.1.1.1 when it gave none.
    pub upstream: [u8; 4],
    /// The server set on the access point and offered to its clients.
    pub offered: [u8; 4],
}

/// The DNS plan after the station is up: none with static addressing (the
/// gateway was set up with the address), else 1.1.1.1 offered to clients.
pub fn dns_plan(use_static: bool, sta_dns: Option<[u8; 4]>) -> (r: Option<DnsPlan>)
    ensures
        use_static ==> r is None,
        !use_static ==> (r matches Some(p) && p.offered@ == fallback_dns_spec() && p.upstream@
            == match sta_dns {
            Some(d) => d@,
            None => fallback_dns_spec(),
        }),
{
    if use_static {
        None
    } else {
        let upstream = match sta_dns {
            Some(d) => d,
            None => fallback_dns(),
        };
        Some(DnsPlan { upstream, offered: fallback_dns() })
    }
}

/// Settings that the Wi-Fi configuration accepts stay accepted after any
/// `SET`: the command refuses every SSID or password that would not fit.
/// (The value's UTF-8 length is taken to fit in `usize`, as the length of
/// any string in memory does.)
pub proof fn set_keeps_wifi_configuration_valid(m: ConfigModel, parts: Seq<Seq<char>>)
    requires
        first_too_long(m) is None,
        parts.len() >= 3 ==> encode_utf8(unquote_spec(parts[2])).len() <= usize::MAX,
    ensures
        first_too_long(set_spec(m, parts).0) is None,
        wifi_configuration_spec(set_spec(m, parts).0) is Ok,
{
}

/// The plain default settings give a valid Wi-Fi configuration.
pub proof fn default_settings_give_wifi_configuration()
    ensures
        first_too_long(default_model()) is None,
        wifi_configuration_spec(default_model()) is Ok,
{
    reveal_strlit("");
    reveal_strlit("ESP32-C3-Repeater");
    let e = ""@;
    let ssid = "ESP32-C3-Repeater"@;
    assert(e =~= Seq::<char>::empty());
    assert(encode_utf8(e) =~= Seq::<u8>::empty());
    assert(vstd::utf8::is_ascii_chars(ssid));
    vstd::utf8::is_ascii_chars_encode_utf8(ssid);
}

/// Address settings that all read as IPv4 addresses keep doing so after any
/// `SET`: the command refuses an address that does not, so the static
/// addressing plan can always be made from them.
pub proof fn set_keeps_static_addresses_valid(m: ConfigModel, parts: Seq<Seq<char>>)
    requires
        static_ip_error(m) is None,
    ensures
        static_ip_error(set_spec(m, parts).0) is None,
{
}

/// Checks of the access-point interface before NAPT is enabled.
pub const NETIF_UP_POLLS: u32 = 10;

/// Milliseconds between two checks of the access-point interface.
pub const NETIF_UP_POLL_MS: u64 = 500;

/// Seconds between two attempts to join the upstream network.
pub const CONNECT_RETRY_SECS: u64 = 5;

/// What to do after a check of whether the access-point interface is up.
#[derive(Clone, Copy, Debug, PartialEq, Eq, Structural)]
pub enum NaptWait {
    /// Enable NAPT now.
    EnableNow,
    /// Wait one poll interval, then check again.
    SleepThenCheck,
    /// Wait one poll interval, then enable NAPT without another check.
    SleepThenEnable,
}

/// After check number `check` (from 0): enable at once when the interface is
/// up; otherwise wait, and check again unless this was the last allowed check.
pub open spec fn napt_wait_spec(check: u32, netif_up: bool) -> NaptWait {
    if netif_up {
        NaptWait::EnableNow
    } else if check + 1 < NETIF_UP_POLLS {
        NaptWait::SleepThenCheck
    } else {
        NaptWait::SleepThenEnable
    }
}

/// The step of the wait for the access-point interface before NAPT is
/// enabled.
pub fn napt_wait_step(check: u32, netif_up: bool) -> (r: NaptWait)
    ensures
        r == napt_wait_spec(check, netif_up),
{
    if netif_up {
        NaptWait::EnableNow
    } else if check < NETIF_UP_POLLS - 1 {
        NaptWait::SleepThenCheck
    } else {
        NaptWait::SleepThenEnable
    }
}

/// The wait before NAPT is enabled is bounded: from the last allowed check
/// on, no step asks for another check, so NAPT is enabled after at most
/// `NETIF_UP_POLLS` checks and as many poll intervals, whether or not the
/// interface comes up.
pub proof fn napt_wait_is_bounded(check: u32, netif_up: bool)
    requires
        check + 1 >= NETIF_UP_POLLS,
    ensures
        napt_wait_spec(check, netif_up) != NaptWait::SleepThenCheck,
{
}

/// What to do after an attempt to join the upstream network.
#[derive(Clone, Copy, Debug, PartialEq, Eq, Structural)]
pub enum ConnectStep {
    /// Joined and got an address.
    Connected,
    /// Wait `CONNECT_RETRY_SECS` and try again; attempts never give up.
    RetryAfterDelay,
}

/// The step of the loop that joins the upstream network.
pub fn connect_step(attempt_succeeded: bool) -> (r: ConnectStep)
    ensures
        r == if attempt_succeeded { ConnectStep::Connected } else { ConnectStep::RetryAfterDelay },
{
    if attempt_succeeded {
        ConnectStep::Connected
    } else {
        ConnectStep::RetryAfterDelay
    }
}

/// The Wi-Fi configuration takes each of its fields from the matching
/// setting: it exists exactly when the SSIDs fit in 32 bytes and the
/// passwords in 64, and then the station gets the station SSID and password,
/// the access point its own SSID, password and channel, at most four
/// clients, and WPA2 Personal exactly when the access-point password is
/// non-empty (open otherwise), whatever the station password is.
pub proof fn wifi_configuration_fields_follow_settings(m: ConfigModel)
    ensures
        wifi_configuration_spec(m) is Ok <==> (encode_utf8(m.sta_ssid).len() <= 32 && encode_utf8(
            m.sta_password,
        ).len() <= 64 && encode_utf8(m.ap_ssid).len() <= 32 && encode_utf8(m.ap_password).len()
            <= 64),
        wifi_configuration_spec(m) matches Ok(c) ==> c == mixed_configuration_of(
            m.sta_ssid,
            m.sta_password,
            m.ap_ssid,
            m.ap_password,
            m.ap_channel,
            m.ap_password.len() > 0,
            4,
        ),
{
}

/// Two settings that differ only in the station password give access points
/// with the same authentication: an open access point stays open and a
/// protected one stays protected.
pub proof fn ap_security_ignores_station_password(m: ConfigModel, sta_password: Seq<char>)
    requires
        encode_utf8(sta_password).len() <= 64,
    ensures
        wifi_configuration_spec(m) matches Ok(c1) ==> (wifi_configuration_spec(
            ConfigModel { sta_password: sta_password, ..m },
        ) matches Ok(c2) && c2 == mixed_configuration_of(
            m.sta_ssid,
            sta_password,
            m.ap_ssid,
            m.ap_password,
            m.ap_channel,
            m.ap_password.len() > 0,
            4,
        )),
{
}

} // verus!
