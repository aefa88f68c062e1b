//! The browser provider logic: user-agent parsing.

use whoami::wasm::{computer, hostname, platform, realname, username};
use whoami::{DesktopEnv, Platform};

const CHROME_LINUX: &str = "Mozilla/5.0 (X11; Linux x86_64) AppleWebKit/537.36 \
                            (KHTML, like Gecko) Chrome/91.0.4472.114 Safari/537.36";
const FIREFOX_WINDOWS: &str = "Mozilla/5.0 (Windows NT 10.0; Win64; x64; rv:109.0) \
                               Gecko/20100101 Firefox/115.0";
const SAFARI_MAC: &str = "Mozilla/5.0 (Macintosh; Intel Mac OS X 10_15_7) \
                          AppleWebKit/605.1.15 (KHTML, like Gecko) Version/16.1 Safari/605.1.15";

#[test]
fn fixed_placeholders() {
    assert_eq!(username(), "anonymous");
    assert_eq!(realname(), "Anonymous");
    assert_eq!(hostname(), "localhost");
    assert_eq!(whoami::wasm::env(), DesktopEnv::Wasm);
}

#[test]
fn computer_reads_the_last_product_token() {
    assert_eq!(computer(CHROME_LINUX), "Chrome");
    assert_eq!(computer(FIREFOX_WINDOWS), "Firefox");
    assert_eq!(computer(SAFARI_MAC), "Safari");
    assert_eq!(computer("nothing recognizable"), "Unknown Browser");
}

#[test]
fn os_reads_the_system_block() {
    assert_eq!(whoami::wasm::os(FIREFOX_WINDOWS), Some("Windows 10".to_string()));
    assert_eq!(whoami::wasm::os(CHROME_LINUX), Some("Unknown Linux".to_string()));
    assert_eq!(whoami::wasm::os(SAFARI_MAC), Some("Mac OS X 10.15.7".to_string()));
    assert_eq!(whoami::wasm::os("no parenthesized block"), None);
    assert_eq!(whoami::wasm::os("Browser/1.0 (HaikuOS BeOS)"), Some("HaikuOS BeOS".to_string()));
}

#[test]
fn platform_reads_the_system_block() {
    assert_eq!(platform(FIREFOX_WINDOWS), Platform::Windows);
    assert_eq!(platform(CHROME_LINUX), Platform::Linux);
    assert_eq!(platform(SAFARI_MAC), Platform::Mac);
    assert_eq!(platform("bare"), Platform::Unknown("Unknown".to_string()));
    assert_eq!(platform("Browser/1.0 (SerenityOS)"), Platform::Unknown("SerenityOS".to_string()));
}
