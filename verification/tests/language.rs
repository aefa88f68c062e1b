//! The locale parser, the canonical tables and their round trips.

use whoami::{langs, parse_locale, Arch, Country, DesktopEnv, Error, Language, NativeString, Os,
    Platform};

fn os_with_langs(raw: Result<String, Error>) -> Os {
    Os {
        account: Err(Error::Unavailable),
        username: Ok(NativeString { bytes: b"alice".to_vec() }),
        realname: Ok(NativeString { bytes: b"".to_vec() }),
        devicename: Ok(NativeString { bytes: b"".to_vec() }),
        hostname: Ok(NativeString { bytes: b"localhost".to_vec() }),
        distro: Err(Error::Unavailable),
        desktop_env: DesktopEnv::Unknown("Unknown".to_string()),
        platform: Platform::Linux,
        arch: Ok(Arch::X64),
        langs: raw,
    }
}

#[test]
fn ranked_locale_string_parses_in_order() {
    let parsed = parse_locale("en_US.UTF-8;fr_FR.UTF-8;C");
    assert_eq!(parsed.len(), 2);
    assert_eq!(parsed[0], Language::En(Country::Us));
    assert_eq!(parsed[1], Language::Fr(Country::Fr));
    assert_eq!(parsed[0].display(), "en/US");
    assert_eq!(parsed[1].display(), "fr/FR");
}

#[test]
fn empty_locale_string_parses_to_nothing() {
    assert_eq!(parse_locale(""), Vec::<Language>::new());
}

#[test]
fn posix_c_locale_contributes_nothing() {
    assert_eq!(parse_locale("C"), Vec::<Language>::new());
    let parsed = parse_locale("C;en");
    assert_eq!(parsed, vec![Language::En(Country::Any)]);
    assert_eq!(parsed[0].display(), "en");
}

#[test]
fn dash_separator_and_encoding_suffix_normalize() {
    let parsed = parse_locale("pt-BR.ISO-8859-1");
    assert_eq!(parsed, vec![Language::Pt(Country::Br)]);
}

#[test]
fn unrecognized_codes_keep_their_token() {
    let parsed = parse_locale("xx_YY.UTF-8");
    assert_eq!(parsed, vec![Language::Other("xx/YY".to_string())]);
    assert_eq!(parsed[0].display(), "xx/YY");
    assert_eq!(parsed[0].region(), Country::Any);
}

#[test]
fn langs_parses_the_report() {
    let os = os_with_langs(Ok("de_DE.UTF-8".to_string()));
    let parsed = langs(&os).unwrap();
    assert_eq!(parsed.len(), 1);
    assert_eq!(parsed[0], Language::De(Country::De));
    assert_eq!(parsed[0].display(), "de/DE");
    assert_eq!(parsed[0].region(), Country::De);
}

#[test]
fn langs_surfaces_provider_failure() {
    let os = os_with_langs(Err(Error::Unavailable));
    assert_eq!(langs(&os).unwrap_err(), Error::Unavailable);
}

#[test]
fn country_codes_round_trip() {
    let countries = vec![
        Country::Us,
        Country::Gb,
        Country::Ca,
        Country::Au,
        Country::De,
        Country::At,
        Country::Ch,
        Country::Fr,
        Country::Be,
        Country::Es,
        Country::Mx,
        Country::It,
        Country::Pt,
        Country::Br,
        Country::Ru,
        Country::Cn,
        Country::Tw,
        Country::Jp,
        Country::Kr,
        Country::Nl,
        Country::Pl,
        Country::Se,
        Country::Tr,
    ];
    for c in countries {
        let (a, b) = c.code().unwrap();
        assert_eq!(Country::from_code(a, b), Some(c));
    }
    assert_eq!(Country::Any.code(), None);
    assert_eq!(Country::from_code('Z', 'Z'), None);
}

#[test]
fn language_rendering_round_trips() {
    let values = vec![
        Language::En(Country::Any),
        Language::En(Country::Gb),
        Language::De(Country::At),
        Language::Es(Country::Mx),
        Language::Fr(Country::Ca),
        Language::It(Country::It),
        Language::Pt(Country::Pt),
        Language::Ru(Country::Ru),
        Language::Zh(Country::Tw),
        Language::Ja(Country::Jp),
        Language::Ko(Country::Kr),
        Language::Nl(Country::Be),
        Language::Pl(Country::Pl),
        Language::Sv(Country::Se),
        Language::Tr(Country::Tr),
    ];
    for l in values {
        let shown = l.display();
        assert_eq!(parse_locale(&shown), vec![l.clone()]);
    }
}
