//! The provider logic for POSIX-like systems.
//!
//! On these systems the raw facts come from the passwd database (login
//! name and GECOS full-name field), a fixed-size `gethostname` buffer,
//! `/etc/machine-info` and `/etc/os-release`, and the `DESKTOP_SESSION`
//! environment variable.  Fetching those is plain I/O and stays with the
//! caller; everything that decides — which field wins, how a fallback is
//! fancified, how a release file is read — is here, verified.

use vstd::prelude::*;
use vstd::utf8::{decode_utf8, encode_utf8, valid_utf8};

use crate::conversions::{ascii_upper, to_ascii_uppercase, upper_chars_of};
use crate::desktop_env::DesktopEnv;
use crate::os::NativeString;
use crate::platform::Platform;
use crate::text::{chars_eq_str, contains_seq, contains_sub, split_chars, split_seq, trim_char,
    trim_char_seq};

verus! {

/// The two passwd-database fields this provider reads: the login name and
/// the GECOS (full name) field, both as native byte strings.
#[derive(Debug)]
pub struct PassWd {
    pub pw_name: NativeString,
    pub pw_gecos: NativeString,
}

/// Pick a field from a passwd record: the GECOS full name when `real` is
/// asked for and the record has one, the login name otherwise — as an
/// error when it stands in for a missing real name, so that the caller
/// can fancify it.
pub fn getpwuid(pw: &PassWd, real_name: bool) -> (r: Result<NativeString, NativeString>)
    ensures
        r is Ok <==> (!real_name || pw.pw_gecos@.len() > 0),
        real_name && pw.pw_gecos@.len() > 0 ==> r->Ok_0@ == pw.pw_gecos@,
        !real_name ==> r->Ok_0@ == pw.pw_name@,
        r is Err ==> r->Err_0@ == pw.pw_name@,
{
    if real_name {
        if pw.pw_gecos.is_empty() {
            Err(pw.pw_name.duplicate())
        } else {
            Ok(pw.pw_gecos.duplicate())
        }
    } else {
        Ok(pw.pw_name.duplicate())
    }
}

/// The user's login name in its native form.
pub fn username_os(pw: &PassWd) -> (r: NativeString)
    ensures
        r@ == pw.pw_name@,
{
    pw.pw_name.duplicate()
}

/// The user's login name as text, decoded lossily.
pub fn username(pw: &PassWd) -> (r: String)
    ensures
        valid_utf8(pw.pw_name@) ==> r@ == decode_utf8(pw.pw_name@),
{
    crate::conversions::decode_bytes_lossy(&pw.pw_name.bytes)
}

/// The capitalized form of a fallback name: `.`, `-` and `_` become
/// spaces, and the character after each such break — and the first — is
/// uppercased.
pub open spec fn fancify(s: Seq<char>, cap: bool) -> Seq<char>
    decreases s.len(),
{
    if s.len() == 0 {
        Seq::<char>::empty()
    } else {
        let c = s[0];
        if c == '.' || c == '-' || c == '_' {
            seq![' '] + fancify(s.drop_first(), true)
        } else if cap {
            upper_chars_of(c) + fancify(s.drop_first(), false)
        } else {
            seq![c] + fancify(s.drop_first(), false)
        }
    }
}

/// Keep a name that was found, or fancify the fallback that stands in for
/// it.
pub fn fancy_fallback(result: Result<&str, String>) -> (r: String)
    ensures
        r@ == fancify(
            match result {
                Ok(a) => a@,
                Err(b) => b@,
            },
            true,
        ),
{
    let ghost s: Seq<char> = match &result {
        Ok(a) => a@,
        Err(b) => b@,
    };
    let v: Vec<char> = match result {
        Ok(a) => crate::conversions::chars_vec(a),
        Err(ref b) => crate::conversions::chars_vec(b.as_str()),
    };
    let mut out = String::new();
    let mut cap = true;
    let mut i: usize = 0;
    proof {
        assert(v@.skip(0) =~= v@);
    }
    while i < v.len()
        invariant
            v@ == s,
            0 <= i <= v@.len(),
            fancify(s, true) == out@ + fancify(s.skip(i as int), cap),
        decreases v@.len() - i,
    {
        let ghost tail = s.skip(i as int);
        proof {
            assert(tail[0] == s[i as int]);
            assert(tail.drop_first() =~= s.skip(i as int + 1));
        }
        let c = v[i];
        if c == '.' || c == '-' || c == '_' {
            crate::conversions::push_char(&mut out, ' ');
            cap = true;
            proof {
                assert(out@ + fancify(s.skip(i as int + 1), true) =~= fancify(s, true));
            }
        } else if cap {
            let u = crate::conversions::char_to_uppercase(c);
            let us = crate::conversions::string_from_chars(&u);
            out.append(us.as_str());
            cap = false;
            proof {
                assert(out@ + fancify(s.skip(i as int + 1), false) =~= fancify(s, true));
            }
        } else {
            crate::conversions::push_char(&mut out, c);
            proof {
                assert(out@ + fancify(s.skip(i as int + 1), false) =~= fancify(s, true));
            }
        }
        i = i + 1;
    }
    proof {
        assert(s.skip(s.len() as int) =~= Seq::<char>::empty());
    }
    out
}

/// Keep a native name that was found, or fancify the fallback, staying in
/// native form.
pub fn fancy_fallback_os(result: Result<NativeString, NativeString>) -> (r: NativeString)
    ensures
        result is Ok ==> r@ == result->Ok_0@,
        result is Err && valid_utf8(result->Err_0@) ==> r@ == encode_utf8(
            fancify(decode_utf8(result->Err_0@), true),
        ),
{
    match result {
        Ok(success) => success,
        Err(fallback) => {
            let cs = crate::conversions::decode_bytes_lossy(&fallback.bytes);
            let fancied = fancy_fallback(Err(cs));
            NativeString::from_text(fancied.as_str())
        },
    }
}

/// The user's real name in its native form: the GECOS field, or the
/// fancified login name when no real name is on record.
pub fn realname_os(pw: &PassWd) -> (r: NativeString)
    ensures
        pw.pw_gecos@.len() > 0 ==> r@ == pw.pw_gecos@,
        pw.pw_gecos@.len() == 0 && valid_utf8(pw.pw_name@) ==> r@ == encode_utf8(
            fancify(decode_utf8(pw.pw_name@), true),
        ),
{
    fancy_fallback_os(getpwuid(pw, true))
}

/// The user's real name as text, decoded lossily.
pub fn realname(pw: &PassWd) -> (r: String)
    ensures
        pw.pw_gecos@.len() > 0 && valid_utf8(pw.pw_gecos@) ==> r@ == decode_utf8(pw.pw_gecos@),
        pw.pw_gecos@.len() == 0 && valid_utf8(pw.pw_name@) ==> r@ == fancify(
            decode_utf8(pw.pw_name@),
            true,
        ),
{
    let ns = realname_os(pw);
    proof {
        if pw.pw_gecos@.len() == 0 && valid_utf8(pw.pw_name@) {
            vstd::utf8::encode_utf8_valid_utf8(fancify(decode_utf8(pw.pw_name@), true));
            vstd::utf8::encode_utf8_decode_utf8(fancify(decode_utf8(pw.pw_name@), true));
        }
    }
    crate::conversions::decode_bytes_lossy(&ns.bytes)
}

/// The device's hostname as text, decoded lossily from the fixed-size
/// buffer the OS filled.
pub fn hostname(raw: &NativeString) -> (r: String)
    ensures
        valid_utf8(raw@) ==> r@ == decode_utf8(raw@),
{
    crate::conversions::decode_bytes_lossy(&raw.bytes)
}

/// The value a `/etc/machine-info` line assigns, when its key is
/// `PRETTY_HOSTNAME`: the text between the first and second `=` with
/// every surrounding quote removed.
pub open spec fn pretty_hostname_value(line: Seq<char>) -> Option<Seq<char>> {
    let parts = split_seq(line, '=');
    if parts[0] == "PRETTY_HOSTNAME"@ && parts.len() >= 2 {
        Some(trim_char_seq(parts[1], '"'))
    } else {
        None
    }
}

/// The first `PRETTY_HOSTNAME` value among the rows of a machine-info
/// file.
pub open spec fn first_pretty_hostname(rows: Seq<Seq<char>>) -> Option<Seq<char>>
    decreases rows.len(),
{
    if rows.len() == 0 {
        None
    } else {
        match pretty_hostname_value(rows[0]) {
            Some(v) => Some(v),
            None => first_pretty_hostname(rows.drop_first()),
        }
    }
}

/// The device name: the `PRETTY_HOSTNAME` entry of `/etc/machine-info`
/// when the file was readable and has one, else the fancified hostname.
pub fn devicename(machine_info: Option<&String>, hostname: &str) -> (r: String)
    ensures
        match machine_info {
            Some(text) => match first_pretty_hostname(split_seq(text@, '\n')) {
                Some(v) => r@ == v,
                None => r@ == fancify(hostname@, true),
            },
            None => r@ == fancify(hostname@, true),
        },
{
    if let Some(text) = machine_info {
        let tv = crate::conversions::chars_vec(text.as_str());
        let rows = split_chars(&tv, '\n');
        let ghost all = split_seq(text@, '\n');
        let mut i: usize = 0;
        proof {
            assert(all.skip(0) =~~= all);
        }
        while i < rows.len()
            invariant
                machine_info == Some(text),
                tv@ == text@,
                rows.deep_view() == all,
                all == split_seq(text@, '\n'),
                0 <= i <= all.len(),
                first_pretty_hostname(all) == first_pretty_hostname(all.skip(i as int)),
            decreases all.len() - i,
        {
            let row = &rows[i];
            proof {
                assert(row@ =~= all[i as int]);
                assert(all.skip(i as int)[0] == all[i as int]);
                assert(all.skip(i as int).drop_first() =~= all.skip(i as int + 1));
            }
            let parts = split_chars(row, '=');
            proof {
                crate::text::lemma_split_seq_len(row@, '=');
                assert(parts.deep_view() == split_seq(all[i as int], '='));
                assert(parts@[0]@ =~= parts.deep_view()[0]);
                if parts@.len() >= 2 {
                    assert(parts@[1]@ =~= parts.deep_view()[1]);
                }
            }
            if chars_eq_str(&parts[0], "PRETTY_HOSTNAME") && parts.len() >= 2 {
                let trimmed = trim_char(&parts[1], '"');
                proof {
                    assert(pretty_hostname_value(all[i as int]) == Some(
                        trim_char_seq(split_seq(all[i as int], '=')[1], '"'),
                    ));
                    assert(trimmed@ == trim_char_seq(split_seq(all[i as int], '=')[1], '"'));
                    assert(all.skip(i as int).len() > 0);
                    assert(first_pretty_hostname(all.skip(i as int)) == Some(trimmed@));
                    assert(first_pretty_hostname(all) == Some(trimmed@));
                }
                return crate::conversions::string_from_chars(&trimmed);
            }
            proof {
                assert(pretty_hostname_value(all[i as int]) is None);
            }
            i = i + 1;
        }
        proof {
            assert(all.skip(all.len() as int) =~~= Seq::<Seq<char>>::empty());
        }
        fancy_fallback(Err(String::from_str(hostname)))
    } else {
        fancy_fallback(Err(String::from_str(hostname)))
    }
}

/// The key of a `key=value` line: what stands before the first `=`.
pub open spec fn kv_key(line: Seq<char>) -> Seq<char> {
    split_seq(line, '=')[0]
}

/// The first value of a `key=value` line, when the line has a `=` at all.
pub open spec fn kv_value(line: Seq<char>) -> Option<Seq<char>> {
    let parts = split_seq(line, '=');
    if parts.len() >= 2 {
        Some(parts[1])
    } else {
        None
    }
}

/// How an os-release file reads, walking its rows with the last `NAME`
/// seen so far in hand: the first `PRETTY_NAME` value wins; otherwise the
/// last `NAME` value; a bare `PRETTY_NAME` or `NAME` key without any
/// value abandons the scan with nothing.
pub open spec fn distro_scan(rows: Seq<Seq<char>>, fallback: Option<Seq<char>>) -> Option<
    Seq<char>,
>
    decreases rows.len(),
{
    if rows.len() == 0 {
        fallback
    } else {
        let line = rows[0];
        if kv_key(line) == "PRETTY_NAME"@ {
            match kv_value(line) {
                None => None,
                Some(v) => Some(trim_char_seq(v, '"')),
            }
        } else if kv_key(line) == "NAME"@ {
            match kv_value(line) {
                None => None,
                Some(v) => distro_scan(rows.drop_first(), Some(trim_char_seq(v, '"'))),
            }
        } else {
            distro_scan(rows.drop_first(), fallback)
        }
    }
}

/// The distribution label in an os-release file: its `PRETTY_NAME` entry,
/// else its `NAME` entry, unquoted; `None` when the file names neither.
pub fn distro(os_release: &str) -> (r: Option<String>)
    ensures
        match r {
            Some(s) => distro_scan(split_seq(os_release@, '\n'), None) == Some(s@),
            None => distro_scan(split_seq(os_release@, '\n'), None) is None,
        },
{
    let tv = crate::conversions::chars_vec(os_release);
    let rows = split_chars(&tv, '\n');
    let ghost all = split_seq(os_release@, '\n');
    let mut fallback: Option<String> = None;
    let ghost mut fb: Option<Seq<char>> = None;
    let mut i: usize = 0;
    proof {
        assert(all.skip(0) =~~= all);
    }
    while i < rows.len()
        invariant
            tv@ == os_release@,
            rows.deep_view() == all,
            all == split_seq(os_release@, '\n'),
            0 <= i <= all.len(),
            distro_scan(all, None) == distro_scan(all.skip(i as int), fb),
            match fallback {
                Some(fs) => fb == Some(fs@),
                None => fb is None,
            },
        decreases all.len() - i,
    {
        let row = &rows[i];
        proof {
            assert(row@ =~= all[i as int]);
            assert(all.skip(i as int)[0] == all[i as int]);
            assert(all.skip(i as int).drop_first() =~= all.skip(i as int + 1));
        }
        let parts = split_chars(row, '=');
        proof {
            crate::text::lemma_split_seq_len(row@, '=');
            assert(parts.deep_view() == split_seq(all[i as int], '='));
            assert(parts@[0]@ =~= parts.deep_view()[0]);
            if parts@.len() >= 2 {
                assert(parts@[1]@ =~= parts.deep_view()[1]);
            }
        }
        if chars_eq_str(&parts[0], "PRETTY_NAME") {
            proof {
                assert(kv_key(all[i as int]) == "PRETTY_NAME"@);
            }
            if parts.len() >= 2 {
                let trimmed = trim_char(&parts[1], '"');
                proof {
                    assert(kv_value(all[i as int]) == Some(split_seq(all[i as int], '=')[1]));
                    assert(trimmed@ == trim_char_seq(split_seq(all[i as int], '=')[1], '"'));
                }
                return Some(crate::conversions::string_from_chars(&trimmed));
            } else {
                proof {
                    assert(kv_value(all[i as int]) is None);
                }
                return None;
            }
        } else if chars_eq_str(&parts[0], "NAME") {
            proof {
                assert(kv_key(all[i as int]) == "NAME"@);
            }
            if parts.len() >= 2 {
                let trimmed = trim_char(&parts[1], '"');
                proof {
                    assert(kv_value(all[i as int]) == Some(split_seq(all[i as int], '=')[1]));
                    assert(trimmed@ == trim_char_seq(split_seq(all[i as int], '=')[1], '"'));
                }
                fallback = Some(crate::conversions::string_from_chars(&trimmed));
                proof {
                    fb = Some(trim_char_seq(split_seq(all[i as int], '=')[1], '"'));
                }
            } else {
                proof {
                    assert(kv_value(all[i as int]) is None);
                }
                return None;
            }
        } else {
            proof {
                assert(kv_key(all[i as int]) != "PRETTY_NAME"@);
                assert(kv_key(all[i as int]) != "NAME"@);
            }
        }
        i = i + 1;
    }
    proof {
        assert(all.skip(all.len() as int) =~~= Seq::<Seq<char>>::empty());
    }
    fallback
}

/// Which desktop environment a `DESKTOP_SESSION` value names, matching
/// ASCII case-insensitively against the known identifiers in priority
/// order; an unmatched value is kept as [`DesktopEnv::Unknown`], and an
/// unset variable reads as unknown too.
pub fn desktop_env(session: Option<String>) -> (r: DesktopEnv)
    ensures
        match session {
            None => r matches DesktopEnv::Unknown(u) && u@ == "Unknown"@,
            Some(env) => {
                let up = ascii_upper(env@);
                if contains_seq(up, "GNOME"@) {
                    r == DesktopEnv::Gnome
                } else if contains_seq(up, "LXDE"@) {
                    r == DesktopEnv::Lxde
                } else if contains_seq(up, "OPENBOX"@) {
                    r == DesktopEnv::Openbox
                } else if contains_seq(up, "I3"@) {
                    r == DesktopEnv::I3
                } else if contains_seq(up, "UBUNTU"@) {
                    r == DesktopEnv::Ubuntu
                } else if contains_seq(up, "PLASMA5"@) {
                    r == DesktopEnv::Kde
                } else {
                    r matches DesktopEnv::Unknown(u) && u@ == env@
                }
            },
        },
{
    match session {
        Some(env_orig) => {
            let up_string = to_ascii_uppercase(env_orig.as_str());
            let up = crate::conversions::chars_vec(up_string.as_str());
            if contains_sub(&up, &crate::conversions::chars_vec("GNOME")) {
                DesktopEnv::Gnome
            } else if contains_sub(&up, &crate::conversions::chars_vec("LXDE")) {
                DesktopEnv::Lxde
            } else if contains_sub(&up, &crate::conversions::chars_vec("OPENBOX")) {
                DesktopEnv::Openbox
            } else if contains_sub(&up, &crate::conversions::chars_vec("I3")) {
                DesktopEnv::I3
            } else if contains_sub(&up, &crate::conversions::chars_vec("UBUNTU")) {
                DesktopEnv::Ubuntu
            } else if contains_sub(&up, &crate::conversions::chars_vec("PLASMA5")) {
                DesktopEnv::Kde
            } else {
                DesktopEnv::Unknown(env_orig)
            }
        },
        None => DesktopEnv::Unknown(String::from_str("Unknown")),
    }
}

/// The platform this provider serves.
pub fn platform() -> (r: Platform)
    ensures
        r == Platform::Linux,
{
    Platform::Linux
}

} // verus!
