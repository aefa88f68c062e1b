//! The Windows provider logic: UTF-16 buffers, the display-name error
//! dispatch and the packed version integer.

use whoami::windows::{computer, hostname, platform, realname, username};
use whoami::{DesktopEnv, Platform};

fn wide(s: &str) -> Vec<u16> {
    s.encode_utf16().collect()
}

#[test]
fn username_drops_the_trailing_nul() {
    let mut buffer = wide("Bob");
    buffer.push(0);
    assert_eq!(username(&buffer), "Bob");
    assert_eq!(username(&Vec::new()), "");
}

#[test]
fn realname_follows_the_error_code() {
    assert_eq!(realname(0xEA, &wide("Robert Tables"), "bob"), Some("Robert Tables".to_string()));
    assert_eq!(realname(0x54B, &wide("ignored"), "bob"), Some("Unknown".to_string()));
    assert_eq!(realname(0x534, &wide("ignored"), "bob"), Some("bob".to_string()));
    assert_eq!(realname(0x57, &wide("ignored"), "bob"), None);
}

#[test]
fn computer_and_hostname_decode_the_buffer() {
    assert_eq!(computer(&wide("host.example.com")), "host.example.com");
    assert_eq!(hostname(&wide("HOST")), "HOST");
}

#[test]
fn unpaired_surrogates_become_replacement_characters() {
    assert_eq!(hostname(&vec![0xD800]), "\u{FFFD}");
    assert_eq!(hostname(&vec![0xDC00, 0x41]), "\u{FFFD}A");
}

#[test]
fn surrogate_pairs_decode_to_one_character() {
    assert_eq!(hostname(&vec![0xD83D, 0xDE00]), "\u{1F600}");
}

#[test]
fn version_bits_decode_to_release_names() {
    assert_eq!(whoami::windows::os(5), Some("Windows XP".to_string()));
    assert_eq!(whoami::windows::os(6), Some("Windows Vista".to_string()));
    assert_eq!(whoami::windows::os(6 | (1 << 8)), Some("Windows 7".to_string()));
    assert_eq!(whoami::windows::os(6 | (2 << 8) | (9200 << 16)), Some("Windows 10".to_string()));
    assert_eq!(whoami::windows::os(6 | (2 << 8) | (9100 << 16)), Some("Windows 8".to_string()));
    assert_eq!(whoami::windows::os(6 | (3 << 8)), Some("Windows 8".to_string()));
    assert_eq!(whoami::windows::os(10), Some("Windows Unknown".to_string()));
}

#[test]
fn fixed_environment_and_platform() {
    assert_eq!(whoami::windows::env(), DesktopEnv::Windows);
    assert_eq!(platform(), Platform::Windows);
}
