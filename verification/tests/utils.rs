use hop::text::{chars_of, decimal, is_blank};
use hop::utils::{
    confirm_prompt, is_affirmative, is_valid_ip, is_valid_server_name, open_browser, Platform,
};

#[test]
fn test_is_valid_ip() {
    assert!(is_valid_ip("192.168.1.1"));
    assert!(is_valid_ip("10.0.0.1"));
    assert!(is_valid_ip("255.255.255.255"));
    assert!(!is_valid_ip("256.1.1.1"));
    assert!(!is_valid_ip("192.168.1"));
    assert!(!is_valid_ip("192.168.1.1.1"));
    assert!(!is_valid_ip("not.an.ip.address"));
}

#[test]
fn test_is_valid_server_name() {
    assert!(is_valid_server_name("server1"));
    assert!(is_valid_server_name("test-server"));
    assert!(is_valid_server_name("test_server"));
    assert!(is_valid_server_name("Server123"));
    assert!(!is_valid_server_name(""));
    assert!(!is_valid_server_name("server with spaces"));
    assert!(!is_valid_server_name("server@special"));
}

#[test]
fn ip_parts_are_read_like_u8_literals() {
    assert!(is_valid_ip("0.0.0.0"));
    assert!(is_valid_ip("001.002.003.004"));
    assert!(is_valid_ip("+1.2.3.4"));
    assert!(is_valid_ip("0000000255.1.1.1"));
    assert!(!is_valid_ip(""));
    assert!(!is_valid_ip("..."));
    assert!(!is_valid_ip("1.2.3."));
    assert!(!is_valid_ip(".1.2.3"));
    assert!(!is_valid_ip("1..2.3"));
    assert!(!is_valid_ip("-1.2.3.4"));
    assert!(!is_valid_ip("+.2.3.4"));
    assert!(!is_valid_ip("++1.2.3.4"));
    assert!(!is_valid_ip("1.2.3.4 "));
    assert!(!is_valid_ip(" 1.2.3.4"));
    assert!(!is_valid_ip("1.2.3.256"));
    assert!(!is_valid_ip("1.2.3.99999999999999999999999999"));
    assert!(!is_valid_ip("1.2.3.4a"));
    assert!(!is_valid_ip("١.2.3.4"));
}

#[test]
fn ip_check_agrees_with_the_standard_parser() {
    let samples = [
        "1.2.3.4", "1.2.3", "255.255.255.255", "256.0.0.0", "+0.+0.+0.+0", "00.00.00.00", "a.b.c.d",
        "1.2.3.4.5", "", ".", "1.2.3.-4", "1.2.3.+", "300.1.1.1", "1.2.3.0255",
    ];
    for sample in samples {
        let parts: Vec<&str> = sample.split('.').collect();
        let expected = parts.len() == 4 && parts.iter().all(|part| part.parse::<u8>().is_ok());
        assert_eq!(is_valid_ip(sample), expected, "{:?}", sample);
    }
}

#[test]
fn server_names_may_hold_letters_of_any_script() {
    assert!(is_valid_server_name("sërver"));
    assert!(is_valid_server_name("服务器"));
    assert!(is_valid_server_name("-"));
    assert!(is_valid_server_name("_"));
    assert!(!is_valid_server_name("a.b"));
    assert!(!is_valid_server_name(" "));
    assert!(!is_valid_server_name("tab\t"));
}

#[test]
fn answers_that_mean_yes() {
    assert!(is_affirmative("y"));
    assert!(is_affirmative("yes"));
    assert!(is_affirmative("Y"));
    assert!(is_affirmative("YES"));
    assert!(is_affirmative("  yes \n"));
    assert!(is_affirmative("\tYeS\r\n"));
    assert!(!is_affirmative(""));
    assert!(!is_affirmative("n"));
    assert!(!is_affirmative("no"));
    assert!(!is_affirmative("yes please"));
    assert!(!is_affirmative("y e s"));
    assert!(!is_affirmative("yess"));
}

#[test]
fn confirmation_prompt() {
    assert_eq!(confirm_prompt("Remove server 'a'?"), "Remove server 'a'? [y/N]: ");
}

#[test]
fn browser_commands_by_platform() {
    let command = open_browser(Platform::Linux, "http://x/y").unwrap();
    assert_eq!(command.program, "xdg-open");
    assert_eq!(command.args, vec!["http://x/y"]);
    let command = open_browser(Platform::MacOs, "http://x/y").unwrap();
    assert_eq!(command.program, "open");
    assert_eq!(command.args, vec!["http://x/y"]);
    let command = open_browser(Platform::Windows, "http://x/y").unwrap();
    assert_eq!(command.program, "cmd");
    assert_eq!(command.args, vec!["/C", "start", "http://x/y"]);
    assert!(open_browser(Platform::Other, "http://x/y").is_none());
}

#[test]
fn blank_texts() {
    assert!(is_blank(""));
    assert!(is_blank(" \t\r\n"));
    assert!(is_blank("\u{2003}\u{00a0}"));
    assert!(!is_blank(" x "));
    assert!(!is_blank("{}"));
}

#[test]
fn blank_agrees_with_trim() {
    for sample in ["", " ", "a", " a", "a ", "\n\n", "\u{3000}", "\u{200b}", "_"] {
        assert_eq!(is_blank(sample), sample.trim().is_empty(), "{:?}", sample);
    }
}

#[test]
fn characters_of_a_text() {
    assert_eq!(chars_of("héllo"), vec!['h', 'é', 'l', 'l', 'o']);
    assert!(chars_of("").is_empty());
}

#[test]
fn decimal_numbers() {
    assert_eq!(decimal(0), "0");
    assert_eq!(decimal(7), "7");
    assert_eq!(decimal(10), "10");
    assert_eq!(decimal(255), "255");
    assert_eq!(decimal(-1), "-1");
    assert_eq!(decimal(-120), "-120");
    assert_eq!(decimal(i32::MAX), "2147483647");
    assert_eq!(decimal(i32::MIN), "-2147483648");
    for n in [-1000, -99, -10, -9, 1, 9, 99, 100, 101, 65535] {
        assert_eq!(decimal(n), format!("{}", n));
    }
}
