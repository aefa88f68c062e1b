//! The placeholder providers and the WASI environment provider.

use whoami::{fake, Arch, DesktopEnv, Platform};
use whoami::os::{daku, wasi};

#[test]
fn fake_provider_is_all_placeholders() {
    assert_eq!(fake::lang(), vec!["en-US".to_string()]);
    assert_eq!(fake::username(), Ok("anonymous".to_string()));
    assert_eq!(fake::realname(), Ok("Anonymous".to_string()));
    assert_eq!(fake::devicename(), Ok("Unknown".to_string()));
    assert_eq!(fake::hostname(), Ok("localhost".to_string()));
    assert_eq!(fake::distro(), Ok("Emulated".to_string()));
    assert_eq!(fake::username_os().unwrap().bytes, b"anonymous".to_vec());
    assert_eq!(fake::realname_os().unwrap().bytes, b"Anonymous".to_vec());
    assert_eq!(fake::devicename_os().unwrap().bytes, b"Unknown".to_vec());
    assert_eq!(fake::distro_os().unwrap().bytes, b"Emulated".to_vec());
    assert_eq!(fake::desktop_env(), DesktopEnv::Unknown("WebAssembly".to_string()));
    assert_eq!(fake::platform(), Platform::Unknown("Unknown".to_string()));
    assert_eq!(fake::arch(true), Arch::Wasm64);
    assert_eq!(fake::arch(false), Arch::Wasm32);
}

#[test]
fn daku_provider_is_all_placeholders() {
    assert_eq!(daku::lang(), vec!["en/US".to_string()]);
    assert_eq!(daku::langs(), Ok("en/US".to_string()));
    assert_eq!(daku::username().unwrap().bytes, b"anonymous".to_vec());
    assert_eq!(daku::realname().unwrap().bytes, b"Anonymous".to_vec());
    assert_eq!(daku::devicename().unwrap().bytes, b"Unknown".to_vec());
    assert_eq!(daku::hostname(), Ok("localhost".to_string()));
    assert_eq!(daku::distro(), Ok("Emulated".to_string()));
    assert_eq!(daku::desktop_env(), DesktopEnv::Unknown("Unknown Daku".to_string()));
    assert_eq!(daku::platform(), Platform::Unknown("Daku".to_string()));
    assert_eq!(daku::arch(false), Arch::Wasm32);
}

#[test]
fn wasi_defaults_apply_when_the_runtime_reports_nothing() {
    assert_eq!(wasi::username_from(None), "anonymous");
    assert_eq!(wasi::realname_from(None), "Anonymous");
    assert_eq!(wasi::devicename_from(None), "Unknown");
    assert_eq!(wasi::hostname_from(None), "localhost");
    assert_eq!(wasi::lang_from(None), vec!["en_US".to_string()]);
}

#[test]
fn wasi_values_pass_through_when_reported() {
    assert_eq!(wasi::username_from(Some("bob".to_string())), "bob");
    assert_eq!(wasi::hostname_from(Some("mybox".to_string())), "mybox");
    assert_eq!(
        wasi::lang_from(Some("en_US;fr_FR".to_string())),
        vec!["en_US".to_string(), "fr_FR".to_string()]
    );
}

#[test]
fn wasi_queries_answer_from_the_environment() {
    // Whatever this environment holds, the defaulting keeps the answers
    // from ever being absent.
    let _ = wasi::username();
    let _ = wasi::realname();
    let _ = wasi::devicename();
    let _ = wasi::hostname();
    assert!(wasi::lang().len() >= 1);
}

#[test]
fn wasi_fixed_facts() {
    assert_eq!(wasi::distro(), Ok("Unknown WASI".to_string()));
    assert_eq!(
        wasi::desktop_env(Some("sway".to_string())),
        DesktopEnv::Unknown("sway".to_string())
    );
    assert_eq!(wasi::desktop_env(None), DesktopEnv::Unknown("Unknown WASI".to_string()));
    assert_eq!(wasi::platform(), Platform::Unknown("WASI".to_string()));
    assert_eq!(wasi::arch(true), Arch::Wasm64);
}
