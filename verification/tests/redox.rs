//! The Redox provider logic: passwd rows, uname rows and the single-line
//! files.

use whoami::os::redox::{
    desktop_env, distro, hostname, lang, passwd, platform, realname, redox_version, username,
    Passwd, Uname,
};
use whoami::{Arch, DesktopEnv, Error, Platform};

const ROW: &str = "bob;1000;998;Bob Bobberson;/home/bob;/bin/ion";

#[test]
fn passwd_columns_split_on_semicolons() {
    let record = Passwd(ROW.to_string());
    assert_eq!(record.column(0), Some("bob".to_string()));
    assert_eq!(record.column(5), Some("/bin/ion".to_string()));
    assert_eq!(record.column(6), None);
    assert_eq!(record.username(), Some("bob".to_string()));
    assert_eq!(record.uid(), Some(1000));
    assert_eq!(record.gid(), Some(998));
    assert_eq!(record.fullname(), Some("Bob Bobberson".to_string()));
}

#[test]
fn malformed_ids_parse_to_nothing() {
    let record = Passwd("bob;10x0;998".to_string());
    assert_eq!(record.uid(), None);
    assert_eq!(record.gid(), Some(998));
}

#[test]
fn passwd_search_finds_the_matching_row() {
    let file = "root;0;0;Root;/root;/bin/ion\nbob;1000;998;Bob Bobberson;/home/bob;/bin/ion\n";
    let found = passwd(file, 1000, 998).unwrap();
    assert_eq!(found.username(), Some("bob".to_string()));
    assert_eq!(passwd(file, 1000, 999).unwrap_err(), Error::Unavailable);
}

#[test]
fn passwd_helpers_default_to_empty() {
    let record = Passwd(ROW.to_string());
    assert_eq!(username(&record), "bob");
    assert_eq!(realname(&record), "Bob Bobberson");
    let short = Passwd("bob;1000;998".to_string());
    assert_eq!(realname(&short), "");
}

#[test]
fn uname_rows_read_by_line() {
    let report = Uname("Redox\nhost\n0.8.0\n2023\nx86_64\n".to_string());
    assert_eq!(report.row(1), Some("host".to_string()));
    assert_eq!(report.kernel_name(), Some("Redox".to_string()));
    assert_eq!(report.kernel_release(), Some("0.8.0".to_string()));
    assert_eq!(report.machine_arch(), Some(Arch::Unknown("x86_64".to_string())));
    let short = Uname("Redox\n".to_string());
    assert_eq!(short.kernel_release(), None);
    assert_eq!(short.machine_arch(), None);
}

#[test]
fn single_line_files_read_their_first_line() {
    assert_eq!(redox_version("0.8.0\n"), "0.8.0");
    assert_eq!(redox_version(""), "");
    assert_eq!(hostname("myredox\n"), "myredox");
}

#[test]
fn distro_composes_the_label() {
    assert_eq!(distro("0.8.0"), "Redox 0.8.0");
}

#[test]
fn fixed_provider_facts() {
    assert_eq!(lang(), vec!["en-US".to_string()]);
    assert_eq!(desktop_env(), DesktopEnv::Orbital);
    assert_eq!(platform(), Platform::Redox);
}
