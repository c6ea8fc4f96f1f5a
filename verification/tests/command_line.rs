use wifi_repeater::command::{parse_command, split_command, unquote, command_from_upper, Command};
use wifi_repeater::input::{
    append_char, classify_byte, erase_last_char, handle_input_byte, print_prompt, submit_line,
    InputAction, InputEvent, ReconnectTimer, RECONNECT_CHECK_TICKS,
};
use wifi_repeater::net::{curl_host, help_lines, http_address, http_request, ping_targets, unknown_command_text};
use wifi_repeater::text::{trim, trim_end, trim_start, is_whitespace, str_eq};

#[test]
fn split_command_three_parts() {
    assert_eq!(split_command("SET sta_ssid \"My Net\""), vec!["SET", "sta_ssid", "\"My Net\""]);
}

#[test]
fn split_command_keeps_rest_of_line() {
    assert_eq!(split_command("a  b   c d  e"), vec!["a", "b", "c d  e"]);
}

#[test]
fn split_command_single_word() {
    assert_eq!(split_command("HELP"), vec!["HELP"]);
}

#[test]
fn split_command_two_words() {
    assert_eq!(split_command("CURL example.com"), vec!["CURL", "example.com"]);
}

#[test]
fn split_command_empty_line() {
    assert!(split_command("").is_empty());
}

#[test]
fn split_command_tab_separator() {
    assert_eq!(split_command("SET\tap_chan\t6"), vec!["SET", "ap_chan", "6"]);
}

#[test]
fn split_command_leading_space_gives_empty_word() {
    assert_eq!(split_command(" x"), vec!["", "x"]);
}

#[test]
fn unquote_cases() {
    assert_eq!(unquote("\"My Net\""), "My Net");
    assert_eq!(unquote("\"\""), "");
    assert_eq!(unquote("\""), "\"");
    assert_eq!(unquote("plain"), "plain");
    assert_eq!(unquote("\"half"), "\"half");
    assert_eq!(unquote("\"ü\""), "ü");
}

#[test]
fn commands_are_case_insensitive() {
    assert_eq!(parse_command(&["help"]), Command::Help);
    assert_eq!(parse_command(&["Get"]), Command::Get);
    assert_eq!(parse_command(&["set", "a", "b"]), Command::SetValue);
    assert_eq!(parse_command(&["SAVE"]), Command::Save);
    assert_eq!(parse_command(&["restart"]), Command::Restart);
    assert_eq!(parse_command(&["curl", "x"]), Command::Curl);
    assert_eq!(parse_command(&["pInG"]), Command::Ping);
    assert_eq!(parse_command(&["status"]), Command::Unknown);
}

#[test]
fn command_from_upper_is_exact() {
    assert_eq!(command_from_upper("PING"), Command::Ping);
    assert_eq!(command_from_upper("ping"), Command::Unknown);
    assert_eq!(command_from_upper("PINGS"), Command::Unknown);
}

#[test]
fn trimming() {
    assert_eq!(trim("  a b \t\r\n"), "a b");
    assert_eq!(trim_start("\u{3000} x "), "x ");
    assert_eq!(trim_end(" x\u{a0}"), " x");
    assert_eq!(trim("   "), "");
    assert!(is_whitespace('\u{2028}'));
    assert!(!is_whitespace('x'));
    assert!(str_eq("abc", "abc"));
    assert!(!str_eq("abc", "abd"));
}

#[test]
fn input_bytes_are_classified() {
    assert_eq!(classify_byte(b'\n'), InputAction::Submit);
    assert_eq!(classify_byte(b'\r'), InputAction::Submit);
    assert_eq!(classify_byte(8), InputAction::Erase);
    assert_eq!(classify_byte(127), InputAction::Erase);
    assert_eq!(classify_byte(b'a'), InputAction::Append('a'));
    assert_eq!(classify_byte(0xe9), InputAction::Append('\u{e9}'));
}

fn feed(line: &mut String, bytes: &[u8]) -> Vec<InputEvent> {
    bytes.iter().map(|b| handle_input_byte(*b, line)).collect()
}

#[test]
fn typing_and_submitting_a_line() {
    let mut line = String::new();
    feed(&mut line, b"  set ap_chan 6  ");
    assert_eq!(line, "  set ap_chan 6  ");
    match handle_input_byte(b'\r', &mut line) {
        InputEvent::Submitted(Some(parts)) => assert_eq!(parts, vec!["set", "ap_chan", "6"]),
        _ => panic!("expected a submitted line"),
    }
    assert_eq!(line, "");
}

#[test]
fn blank_line_submits_nothing() {
    let mut line = String::from(" \t ");
    match handle_input_byte(b'\n', &mut line) {
        InputEvent::Submitted(None) => {}
        _ => panic!("expected no parts"),
    }
    assert_eq!(line, "");
}

#[test]
fn backspace_erases_last_char() {
    let mut line = String::new();
    feed(&mut line, b"pinx");
    match handle_input_byte(8, &mut line) {
        InputEvent::Erased(true) => {}
        _ => panic!("expected an erase"),
    }
    feed(&mut line, b"g");
    assert_eq!(line, "ping");
    let mut empty = String::new();
    match handle_input_byte(127, &mut empty) {
        InputEvent::Erased(false) => {}
        _ => panic!("expected nothing to erase"),
    }
}

#[test]
fn append_then_erase_restores_line() {
    let mut line = String::from("abc");
    append_char('z', &mut line);
    assert_eq!(line, "abcz");
    assert!(erase_last_char(&mut line));
    assert_eq!(line, "abc");
}

#[test]
fn submit_line_clears() {
    let mut line = String::from(" GET ");
    assert_eq!(submit_line(&mut line), Some(vec!["GET".to_string()]));
    assert_eq!(line, "");
}

#[test]
fn prompt_text() {
    assert_eq!(print_prompt(), "> ");
}

#[test]
fn reconnect_check_every_hundred_idle_polls() {
    let mut timer = ReconnectTimer::new();
    for _ in 0..(RECONNECT_CHECK_TICKS - 1) {
        assert!(!timer.poll_reconnect());
    }
    assert!(timer.poll_reconnect());
    assert_eq!(timer.idle_ticks(), 0);
    for _ in 0..50 {
        assert!(!timer.poll_reconnect());
    }
    timer.reset();
    for _ in 0..99 {
        assert!(!timer.poll_reconnect());
    }
    assert!(timer.poll_reconnect());
}

#[test]
fn help_and_messages() {
    let lines = help_lines();
    assert_eq!(lines.len(), 4);
    assert_eq!(lines[0], "Commands: HELP, GET, SET <key> <val>, SAVE, RESTART, CURL <host>, PING");
    assert_eq!(unknown_command_text(), "Unknown command. Type HELP.");
}

#[test]
fn curl_texts() {
    assert_eq!(curl_host(&["CURL"]), None);
    assert_eq!(curl_host(&["CURL", "example.com"]), Some("example.com"));
    assert_eq!(http_address("10.0.0.1"), "10.0.0.1:80");
    assert_eq!(
        http_request("example.com"),
        "GET / HTTP/1.1\r\nHost: example.com\r\nConnection: close\r\n\r\n"
    );
}

#[test]
fn ping_target_list() {
    assert_eq!(
        ping_targets(),
        vec![("1.1.1.1:80", "Cloudflare"), ("8.8.8.8:80", "Google"), ("93.184.216.34:80", "example.com")]
    );
}

#[test]
fn split_structure_trailing_space() {
    assert_eq!(split_command("a b "), vec!["a", "b"]);
    assert_eq!(split_command("a  "), vec!["a"]);
    assert_eq!(split_command("a b c "), vec!["a", "b", "c "]);
}
