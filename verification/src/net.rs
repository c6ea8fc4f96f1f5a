//! The texts of the diagnostic commands: help, `CURL <host>` and `PING`.

use vstd::prelude::*;

verus! {

/// The lines that `HELP` prints.
pub fn help_lines() -> (r: Vec<&'static str>)
    ensures
        r@.len() == 4,
        r@[0]@ == "Commands: HELP, GET, SET <key> <val>, SAVE, RESTART, CURL <host>, PING"@,
        r@[1]@ == "Keys: sta_ssid, sta_pass, sta_static, sta_ip, sta_gw, sta_nm, ap_ssid, ap_pass, ap_chan"@,
        r@[2]@ == "PING: TCP connectivity test to 1.1.1.1, 8.8.8.8, example.com (port 80, no DNS)"@,
        r@[3]@ == "CURL <host>: Send HTTP GET request to the specified host"@,
{
    let mut r: Vec<&'static str> = Vec::new();
    r.push("Commands: HELP, GET, SET <key> <val>, SAVE, RESTART, CURL <host>, PING");
    r.push("Keys: sta_ssid, sta_pass, sta_static, sta_ip, sta_gw, sta_nm, ap_ssid, ap_pass, ap_chan");
    r.push("PING: TCP connectivity test to 1.1.1.1, 8.8.8.8, example.com (port 80, no DNS)");
    r.push("CURL <host>: Send HTTP GET request to the specified host");
    r
}

/// The line printed for a command that is not known.
pub fn unknown_command_text() -> (r: &'static str)
    ensures
        r@ == "Unknown command. Type HELP."@,
{
    "Unknown command. Type HELP."
}

/// The host that `CURL <host>` targets; `None` when it is missing and the
/// usage is to be shown.
pub fn curl_host<'a>(parts: &[&'a str]) -> (r: Option<&'a str>)
    ensures
        parts@.len() < 2 ==> r is None,
        parts@.len() >= 2 ==> r == Some(parts@[1]),
{
    if parts.len() < 2 {
        None
    } else {
        Some(parts[1])
    }
}

/// The address a `CURL` connection goes to: the host on port 80.
pub fn http_address(host: &str) -> (r: String)
    ensures
        r@ == host@ + ":80"@,
{
    String::from_str(host).concat(":80")
}

/// The HTTP request that `CURL` sends to `host`.
pub fn http_request(host: &str) -> (r: String)
    ensures
        r@ == "GET / HTTP/1.1\r\nHost: "@ + host@ + "\r\nConnection: close\r\n\r\n"@,
{
    String::from_str("GET / HTTP/1.1\r\nHost: ").concat(host).concat(
        "\r\nConnection: close\r\n\r\n",
    )
}

/// The `PING` targets: a socket address (an IP literal, so no DNS is used)
/// and a label for each.
pub fn ping_targets() -> (r: Vec<(&'static str, &'static str)>)
    ensures
        r@.len() == 3,
        r@[0].0@ == "1.1.1.1:80"@ && r@[0].1@ == "Cloudflare"@,
        r@[1].0@ == "8.8.8.8:80"@ && r@[1].1@ == "Google"@,
        r@[2].0@ == "93.184.216.34:80"@ && r@[2].1@ == "example.com"@,
{
    let mut r: Vec<(&'static str, &'static str)> = Vec::new();
    r.push(("1.1.1.1:80", "Cloudflare"));
    r.push(("8.8.8.8:80", "Google"));
    r.push(("93.184.216.34:80", "example.com"));
    r
}

} // verus!
