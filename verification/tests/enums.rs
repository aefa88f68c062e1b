//! The descriptive enums: widths and renderings.

use whoami::{Arch, DesktopEnv, Error, Platform, Width};

#[test]
fn unknown_arch_has_no_width() {
    assert_eq!(Arch::Unknown("foo".to_string()).width(), Err(Error::UnknownArch));
}

#[test]
fn table_architectures_have_widths() {
    assert_eq!(Arch::X64.width(), Ok(Width::Bits64));
    assert_eq!(Arch::I686.width(), Ok(Width::Bits32));
    assert_eq!(Arch::Arm64.width(), Ok(Width::Bits64));
    assert_eq!(Arch::ArmV7.width(), Ok(Width::Bits32));
    assert_eq!(Arch::Wasm32.width(), Ok(Width::Bits32));
    assert_eq!(Arch::Wasm64.width(), Ok(Width::Bits64));
    assert_eq!(Arch::Sparc.width(), Ok(Width::Bits32));
    assert_eq!(Arch::Sparc64.width(), Ok(Width::Bits64));
}

#[test]
fn arch_renders_its_label() {
    assert_eq!(Arch::X64.display(), "x86_64");
    assert_eq!(Arch::MipsEl.display(), "mipsel");
    assert_eq!(Arch::Unknown("quantum".to_string()).display(), "Unknown: quantum");
}

#[test]
fn platform_renders_its_label() {
    assert_eq!(Platform::Linux.display(), "Linux");
    assert_eq!(Platform::Mac.display(), "macOS");
    assert_eq!(Platform::Bsd.display(), "BSD");
    assert_eq!(Platform::Illumos.display(), "illumos");
    assert_eq!(Platform::Nintendo3ds.display(), "Nintendo 3DS");
    assert_eq!(Platform::Unknown("Haiku".to_string()).display(), "Unknown: Haiku");
}

#[test]
fn desktop_env_renders_its_label() {
    assert_eq!(DesktopEnv::Gnome.display(), "gnome");
    assert_eq!(DesktopEnv::Kde.display(), "kde");
    assert_eq!(DesktopEnv::Aqua.display(), "aqua");
    assert_eq!(DesktopEnv::Unknown("sway".to_string()).display(), "Unknown: sway");
}
