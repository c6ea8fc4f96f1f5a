use embedded_svc::wifi::{AuthMethod, Configuration};
use wifi_repeater::config::RepeaterConfig;
use wifi_repeater::mss::{clamp_syn_mss, HTTP_FRIENDLY_MTU, MSS_CLAMP};
use wifi_repeater::wifi::{
    connect_step, napt_wait_step, ConnectStep, NaptWait, NETIF_UP_POLLS,
    ap_auth_method, dns_plan, fallback_dns, static_ip_plan, wifi_configuration, ApAuth,
    StaticIpField, WifiField, MAX_AP_CONNECTIONS,
};

fn sum16(data: &[u8]) -> u32 {
    let mut s: u32 = 0;
    let mut i = 0;
    while i + 1 < data.len() {
        s += ((data[i] as u32) << 8) | data[i + 1] as u32;
        i += 2;
    }
    if i < data.len() {
        s += (data[i] as u32) << 8;
    }
    while s > 0xffff {
        s = (s & 0xffff) + (s >> 16);
    }
    s
}

/// TCP checksum over the pseudo header and the segment of an IPv4 packet.
fn tcp_checksum_ok(p: &[u8]) -> bool {
    let ihl = ((p[0] & 0x0f) as usize) * 4;
    let seg = &p[ihl..];
    let mut pseudo = Vec::new();
    pseudo.extend_from_slice(&p[12..20]);
    pseudo.push(0);
    pseudo.push(6);
    pseudo.extend_from_slice(&(seg.len() as u16).to_be_bytes());
    pseudo.extend_from_slice(seg);
    sum16(&pseudo) == 0xffff
}

fn set_tcp_checksum(p: &mut [u8]) {
    let ihl = ((p[0] & 0x0f) as usize) * 4;
    p[ihl + 16] = 0;
    p[ihl + 17] = 0;
    let seg = p[ihl..].to_vec();
    let mut pseudo = Vec::new();
    pseudo.extend_from_slice(&p[12..20]);
    pseudo.push(0);
    pseudo.push(6);
    pseudo.extend_from_slice(&(seg.len() as u16).to_be_bytes());
    pseudo.extend_from_slice(&seg);
    let c = !(sum16(&pseudo) as u16);
    p[ihl + 16] = (c >> 8) as u8;
    p[ihl + 17] = c as u8;
}

/// An IPv4 TCP SYN with an MSS option, a NOP and a window-scale option.
fn syn_packet(mss: u16, flags: u8) -> Vec<u8> {
    let mut p = vec![
        0x45, 0, 0, 52, 0x12, 0x34, 0x40, 0, 64, 6, 0, 0, 192, 168, 4, 2, 93, 184, 216, 34,
    ];
    let tcp = [
        0xc0, 0x01, 0x00, 0x50, 0, 0, 0, 1, 0, 0, 0, 0, 0x80, flags, 0xff, 0xff, 0, 0, 0, 0,
        2, 4, (mss >> 8) as u8, mss as u8, 1, 3, 3, 7, 0, 0, 0, 0,
    ];
    p.extend_from_slice(&tcp);
    set_tcp_checksum(&mut p);
    p
}

#[test]
fn clamp_lowers_large_mss_and_keeps_checksum_valid() {
    let mut p = syn_packet(1460, 0x02);
    assert!(tcp_checksum_ok(&p));
    let before = p.clone();
    clamp_syn_mss(&mut p);
    let mss = ((p[20 + 22] as u16) << 8) | p[20 + 23] as u16;
    assert_eq!(mss, MSS_CLAMP);
    assert!(tcp_checksum_ok(&p));
    for j in 0..p.len() {
        if j != 42 && j != 43 && j != 36 && j != 37 {
            assert_eq!(p[j], before[j]);
        }
    }
    assert_eq!(MSS_CLAMP, HTTP_FRIENDLY_MTU - 40);
}

#[test]
fn clamp_is_idempotent_on_a_packet() {
    let mut p = syn_packet(9000, 0x12);
    clamp_syn_mss(&mut p);
    let once = p.clone();
    clamp_syn_mss(&mut p);
    assert_eq!(p, once);
}

#[test]
fn clamp_keeps_small_mss() {
    let mut p = syn_packet(536, 0x02);
    let before = p.clone();
    clamp_syn_mss(&mut p);
    assert_eq!(p, before);
}

#[test]
fn clamp_ignores_non_syn_and_non_tcp() {
    let mut p = syn_packet(1460, 0x10);
    let before = p.clone();
    clamp_syn_mss(&mut p);
    assert_eq!(p, before);
    let mut udp = syn_packet(1460, 0x02);
    udp[9] = 17;
    let before = udp.clone();
    clamp_syn_mss(&mut udp);
    assert_eq!(udp, before);
    let mut short = vec![0x45u8; 39];
    clamp_syn_mss(&mut short);
    assert_eq!(short, vec![0x45u8; 39]);
}

#[test]
fn clamp_after_nop_uses_word_formula() {
    // NOP, then MSS: the MSS value sits at an odd offset of the segment.
    let mut p = syn_packet(1460, 0x02);
    p[40] = 1;
    p[41] = 2;
    p[42] = 4;
    p[43] = (1460u16 >> 8) as u8;
    p[44] = (1460u16 & 0xff) as u8;
    set_tcp_checksum(&mut p);
    let hc = ((p[36] as u32) << 8) | p[37] as u32;
    clamp_syn_mss(&mut p);
    assert_eq!(((p[43] as u16) << 8) | p[44] as u16, MSS_CLAMP);
    let mut s = (!hc & 0xffff) + (!1460u32 & 0xffff) + MSS_CLAMP as u32;
    s = (s & 0xffff) + (s >> 16);
    s = (s & 0xffff) + (s >> 16);
    let c = !(s as u16);
    assert_eq!(((p[36] as u16) << 8) | p[37] as u16, c);
}

#[test]
fn clamp_stops_at_end_of_option_list() {
    let mut p = syn_packet(1460, 0x02);
    p[40] = 0; // end of options before the MSS option
    let before = p.clone();
    clamp_syn_mss(&mut p);
    assert_eq!(p, before);
}

#[test]
fn auth_method_follows_password() {
    assert_eq!(ap_auth_method(""), ApAuth::Open);
    assert_eq!(ap_auth_method("secret123"), ApAuth::Wpa2Personal);
}

#[test]
fn wifi_configuration_from_settings() {
    let mut c = RepeaterConfig::plain_defaults();
    c.sta_ssid = "upstream".to_string();
    c.sta_password = "pw".to_string();
    c.ap_password = "password1".to_string();
    c.ap_channel = 6;
    let conf = wifi_configuration(&c).unwrap();
    match conf {
        Configuration::Mixed(sta, ap) => {
            assert_eq!(sta.ssid.as_str(), "upstream");
            assert_eq!(sta.password.as_str(), "pw");
            assert_eq!(ap.ssid.as_str(), "ESP32-C3-Repeater");
            assert_eq!(ap.password.as_str(), "password1");
            assert_eq!(ap.channel, 6);
            assert_eq!(ap.auth_method, AuthMethod::WPA2Personal);
            assert_eq!(ap.max_connections, MAX_AP_CONNECTIONS);
        }
        _ => panic!("expected a mixed configuration"),
    }
    let open = wifi_configuration(&RepeaterConfig::plain_defaults()).unwrap();
    assert_eq!(open.as_ap_conf_ref().unwrap().auth_method, AuthMethod::None);
}

#[test]
fn wifi_configuration_reports_first_long_field() {
    let mut c = RepeaterConfig::plain_defaults();
    c.ap_password = "a".repeat(65);
    assert_eq!(wifi_configuration(&c), Err(WifiField::ApPassword));
    c.sta_ssid = "s".repeat(33);
    assert_eq!(wifi_configuration(&c), Err(WifiField::StaSsid));
    assert_eq!(WifiField::StaSsid.too_long_message(), "STA SSID too long");
}

#[test]
fn static_ip_plan_reads_addresses() {
    let c = RepeaterConfig::plain_defaults();
    let plan = static_ip_plan(&c).ok().unwrap();
    assert_eq!(plan.ip, [192, 168, 10, 2]);
    assert_eq!(plan.gateway, [192, 168, 10, 1]);
    assert_eq!(plan.netmask, [255, 255, 255, 0]);
    let mut bad = c.clone();
    bad.sta_gateway = "gateway".to_string();
    assert_eq!(static_ip_plan(&bad).err(), Some(StaticIpField::Gateway));
}

#[test]
fn dns_plan_depends_on_addressing() {
    assert!(dns_plan(true, Some([8, 8, 8, 8])).is_none());
    let p = dns_plan(false, Some([8, 8, 8, 8])).unwrap();
    assert_eq!(p.upstream, [8, 8, 8, 8]);
    assert_eq!(p.offered, [1, 1, 1, 1]);
    let q = dns_plan(false, None).unwrap();
    assert_eq!(q.upstream, fallback_dns());
}

#[test]
fn napt_wait_steps() {
    assert_eq!(napt_wait_step(0, true), NaptWait::EnableNow);
    assert_eq!(napt_wait_step(0, false), NaptWait::SleepThenCheck);
    assert_eq!(napt_wait_step(NETIF_UP_POLLS - 2, false), NaptWait::SleepThenCheck);
    assert_eq!(napt_wait_step(NETIF_UP_POLLS - 1, false), NaptWait::SleepThenEnable);
    // Never up: ten checks and ten waits, then NAPT is enabled.
    let mut checks = 0;
    let mut check = 0;
    loop {
        checks += 1;
        match napt_wait_step(check, false) {
            NaptWait::SleepThenCheck => check += 1,
            _ => break,
        }
    }
    assert_eq!(checks, NETIF_UP_POLLS);
}

#[test]
fn connect_retries_until_connected() {
    assert_eq!(connect_step(true), ConnectStep::Connected);
    assert_eq!(connect_step(false), ConnectStep::RetryAfterDelay);
}
