//! The convenience fallback chain and the fallible layer, over hand-built
//! provider reports.

use whoami::{
    account, arch, desktop_env, devicename, devicename_os, distro, fallible, hostname, platform,
    realname, username, username_os, Arch, DesktopEnv, Error, NativeString, Os, Platform,
};

fn ns(bytes: &[u8]) -> NativeString {
    NativeString { bytes: bytes.to_vec() }
}

fn base_os() -> Os {
    Os {
        account: Ok(ns(b"alice@example.com")),
        username: Ok(ns(b"alice")),
        realname: Ok(ns(b"Alice Liddell")),
        devicename: Ok(ns(b"Looking Glass")),
        hostname: Ok(ns(b"WONDERLAND")),
        distro: Ok("Fedora Linux 39".to_string()),
        desktop_env: DesktopEnv::Gnome,
        platform: Platform::Linux,
        arch: Ok(Arch::X64),
        langs: Ok("en_US.UTF-8".to_string()),
    }
}

#[test]
fn username_decodes_the_report() {
    assert_eq!(username(&base_os()), "alice");
}

#[test]
fn username_defaults_on_failure() {
    let mut os = base_os();
    os.username = Err(Error::Unavailable);
    assert_eq!(username(&os), "unknown");
}

#[test]
fn username_defaults_on_invalid_bytes() {
    let mut os = base_os();
    os.username = Ok(ns(&[0xFF, 0xFE]));
    assert_eq!(username(&os), "unknown");
}

#[test]
fn realname_prefers_the_report() {
    assert_eq!(realname(&base_os()), "Alice Liddell");
}

#[test]
fn realname_falls_back_to_username_when_empty() {
    let mut os = base_os();
    os.realname = Ok(ns(b""));
    assert_eq!(realname(&os), "alice");
}

#[test]
fn realname_falls_back_to_username_on_failure() {
    let mut os = base_os();
    os.realname = Err(Error::Unavailable);
    assert_eq!(realname(&os), "alice");
}

#[test]
fn realname_exhausted_chain_hits_the_fixed_default() {
    let mut os = base_os();
    os.realname = Ok(ns(b""));
    os.username = Err(Error::Unavailable);
    assert_eq!(realname(&os), "unknown");
}

#[test]
fn hostname_is_lowercased_at_the_public_boundary() {
    assert_eq!(hostname(&base_os()), "wonderland");
}

#[test]
fn hostname_defaults_to_localhost() {
    let mut os = base_os();
    os.hostname = Err(Error::Unavailable);
    assert_eq!(hostname(&os), "localhost");
}

#[test]
fn hostname_is_invariant_under_relowercasing() {
    let h = hostname(&base_os());
    assert_eq!(h.to_lowercase(), h);
    // An unchanged report gives the same answer again.
    assert_eq!(hostname(&base_os()), h);
}

#[test]
fn devicename_prefers_the_report() {
    assert_eq!(devicename(&base_os()), "Looking Glass");
}

#[test]
fn devicename_falls_back_to_hostname_when_empty() {
    let mut os = base_os();
    os.devicename = Ok(ns(b""));
    assert_eq!(devicename(&os), hostname(&os));
    assert_eq!(devicename(&os), "wonderland");
}

#[test]
fn devicename_falls_back_to_hostname_on_failure() {
    let mut os = base_os();
    os.devicename = Err(Error::Unavailable);
    assert_eq!(devicename(&os), hostname(&os));
}

#[test]
fn distro_passes_the_label_through() {
    assert_eq!(distro(&base_os()), "Fedora Linux 39");
}

#[test]
fn distro_synthesizes_unknown_platform_label() {
    let mut os = base_os();
    os.distro = Err(Error::Unavailable);
    assert_eq!(distro(&os), "Unknown Linux");
}

#[test]
fn distro_synthesizes_for_unknown_platform_too() {
    let mut os = base_os();
    os.distro = Err(Error::Unavailable);
    os.platform = Platform::Unknown("Daku".to_string());
    assert_eq!(distro(&os), "Unknown Unknown: Daku");
}

#[test]
fn desktop_env_and_platform_pass_through() {
    let os = base_os();
    assert_eq!(desktop_env(&os), DesktopEnv::Gnome);
    assert_eq!(platform(&os), Platform::Linux);
}

#[test]
fn arch_passes_through() {
    assert_eq!(arch(&base_os()), Arch::X64);
}

#[test]
fn account_is_strict() {
    assert_eq!(account(&base_os()), Ok("alice@example.com".to_string()));
    let mut os = base_os();
    os.account = Ok(ns(&[0x80]));
    assert_eq!(account(&os), Err(Error::InvalidData));
    os.account = Err(Error::Unavailable);
    assert_eq!(account(&os), Err(Error::Unavailable));
}

#[test]
fn native_variants_hand_the_bytes_back() {
    let os = base_os();
    assert_eq!(username_os(&os).unwrap().bytes, b"alice".to_vec());
    assert_eq!(devicename_os(&os).unwrap().bytes, b"Looking Glass".to_vec());
    let mut failed = base_os();
    failed.username = Err(Error::Unavailable);
    assert_eq!(username_os(&failed).unwrap_err(), Error::Unavailable);
}

#[test]
fn fallible_layer_reports_each_error() {
    let mut os = base_os();
    os.username = Ok(ns(&[0xC3, 0x28]));
    assert_eq!(fallible::username(&os), Err(Error::InvalidData));
    os.username = Err(Error::Unavailable);
    assert_eq!(fallible::username(&os), Err(Error::Unavailable));
    os.username = Ok(ns(b"alice"));
    assert_eq!(fallible::username(&os), Ok("alice".to_string()));
}

#[test]
fn fallible_hostname_preserves_case() {
    let os = base_os();
    assert_eq!(fallible::hostname(&os), Ok("WONDERLAND".to_string()));
}

#[test]
fn fallible_empty_fields_are_success() {
    let mut os = base_os();
    os.realname = Ok(ns(b""));
    assert_eq!(fallible::realname(&os), Ok(String::new()));
    os.devicename = Ok(ns(b""));
    assert_eq!(fallible::devicename(&os), Ok(String::new()));
}

#[test]
fn fallible_distro_passes_errors_untouched() {
    let mut os = base_os();
    os.distro = Err(Error::Unavailable);
    assert_eq!(fallible::distro(&os), Err(Error::Unavailable));
}
