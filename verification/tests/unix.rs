//! The POSIX provider logic: passwd fields, fancified fallbacks, the
//! release and machine-info file readers, and session matching.

use whoami::unix::{
    desktop_env, devicename, distro, fancy_fallback, getpwuid, hostname, platform, realname,
    realname_os, username, username_os, PassWd,
};
use whoami::{DesktopEnv, NativeString, Platform};

fn pw(name: &[u8], gecos: &[u8]) -> PassWd {
    PassWd {
        pw_name: NativeString { bytes: name.to_vec() },
        pw_gecos: NativeString { bytes: gecos.to_vec() },
    }
}

#[test]
fn username_reads_the_login_field() {
    let record = pw(b"alice", b"Alice Liddell");
    assert_eq!(username(&record), "alice");
    assert_eq!(username_os(&record).bytes, b"alice".to_vec());
}

#[test]
fn realname_reads_the_gecos_field() {
    let record = pw(b"alice", b"Alice Liddell");
    assert_eq!(realname(&record), "Alice Liddell");
    assert_eq!(realname_os(&record).bytes, b"Alice Liddell".to_vec());
}

#[test]
fn empty_gecos_fancifies_the_login_name() {
    let record = pw(b"alice", b"");
    assert_eq!(realname(&record), "Alice");
}

#[test]
fn getpwuid_distinguishes_the_fields() {
    let record = pw(b"alice", b"Alice Liddell");
    assert_eq!(getpwuid(&record, false).unwrap().bytes, b"alice".to_vec());
    assert_eq!(getpwuid(&record, true).unwrap().bytes, b"Alice Liddell".to_vec());
    let unset = pw(b"alice", b"");
    assert_eq!(getpwuid(&unset, true).unwrap_err().bytes, b"alice".to_vec());
}

#[test]
fn fancy_fallback_capitalizes_after_breaks() {
    assert_eq!(fancy_fallback(Err("foo-bar_baz.qux".to_string())), "Foo Bar Baz Qux");
    assert_eq!(fancy_fallback(Ok("shared words")), "Shared words".to_string());
    assert_eq!(fancy_fallback(Err(String::new())), "");
}

#[test]
fn hostname_decodes_the_buffer() {
    let raw = NativeString { bytes: b"MyBox".to_vec() };
    assert_eq!(hostname(&raw), "MyBox");
}

#[test]
fn devicename_reads_pretty_hostname() {
    let info = "DEPLOYMENT=production\nPRETTY_HOSTNAME=\"Looking Glass\"\n".to_string();
    assert_eq!(devicename(Some(&info), "myhost"), "Looking Glass");
}

#[test]
fn devicename_fancifies_the_hostname_otherwise() {
    let info = "DEPLOYMENT=production\n".to_string();
    assert_eq!(devicename(Some(&info), "my-host"), "My Host");
    assert_eq!(devicename(None, "myhost"), "Myhost");
}

#[test]
fn distro_prefers_pretty_name() {
    let text = "NAME=\"Fedora\"\nPRETTY_NAME=\"Fedora Linux 39 (Workstation Edition)\"\n";
    assert_eq!(distro(text), Some("Fedora Linux 39 (Workstation Edition)".to_string()));
}

#[test]
fn distro_falls_back_to_name() {
    let text = "ID=fedora\nNAME=\"Fedora\"\nVERSION_ID=39\n";
    assert_eq!(distro(text), Some("Fedora".to_string()));
}

#[test]
fn distro_with_neither_key_is_nothing() {
    assert_eq!(distro("ID=fedora\nVERSION_ID=39\n"), None);
}

#[test]
fn desktop_env_matches_case_insensitively() {
    assert_eq!(desktop_env(Some("gnome-xorg".to_string())), DesktopEnv::Gnome);
    assert_eq!(desktop_env(Some("LXDE".to_string())), DesktopEnv::Lxde);
    assert_eq!(desktop_env(Some("openbox".to_string())), DesktopEnv::Openbox);
    assert_eq!(desktop_env(Some("i3".to_string())), DesktopEnv::I3);
    assert_eq!(desktop_env(Some("ubuntu".to_string())), DesktopEnv::Ubuntu);
    assert_eq!(desktop_env(Some("plasma5".to_string())), DesktopEnv::Kde);
}

#[test]
fn desktop_env_keeps_unmatched_sessions() {
    assert_eq!(
        desktop_env(Some("sway-session".to_string())),
        DesktopEnv::Unknown("sway-session".to_string())
    );
    assert_eq!(desktop_env(None), DesktopEnv::Unknown("Unknown".to_string()));
}

#[test]
fn platform_is_linux() {
    assert_eq!(platform(), Platform::Linux);
}
