//! The provider for Redox OS.
//!
//! On Redox the passwd database is a semicolon-separated text file, the
//! kernel identifies itself through a uname text, and hostname and
//! release are single-line files.  Reading those files is I/O and stays
//! with the caller; the record parsing, the search for the calling user's
//! row and the label composition are here, verified.  Only the two
//! effective-id system calls go through trusted wrappers.

use vstd::prelude::*;

use crate::arch::Arch;
use crate::conversions::{chars_vec, string_from_chars};
use crate::desktop_env::DesktopEnv;
use crate::error::Error;
use crate::platform::Platform;
use crate::text::{all_digits, digits_value, lines_chars, lines_seq, split_chars, split_seq};

verus! {

/// Relies on `syscall::geteuid` (the `redox_syscall` crate): asks the
/// kernel for the caller's effective user id; what comes back depends on
/// the process, so nothing is promised.
#[verifier::external_body]
fn sys_geteuid() -> (r: Option<usize>) {
    syscall::geteuid().ok()
}

/// Relies on `syscall::getegid` (the `redox_syscall` crate): asks the
/// kernel for the caller's effective group id; what comes back depends on
/// the process, so nothing is promised.
#[verifier::external_body]
fn sys_getegid() -> (r: Option<usize>) {
    syscall::getegid().ok()
}

/// The caller's effective user id, or [`Error::Unavailable`] when the
/// kernel call failed.
pub fn euid() -> Result<usize, Error> {
    match sys_geteuid() {
        Some(u) => Ok(u),
        None => Err(Error::Unavailable),
    }
}

/// The caller's effective group id, or [`Error::Unavailable`] when the
/// kernel call failed.
pub fn egid() -> Result<usize, Error> {
    match sys_getegid() {
        Some(g) => Ok(g),
        None => Err(Error::Unavailable),
    }
}

/// The `n`-th semicolon-separated column of a record line.
pub open spec fn col_of(line: Seq<char>, n: int) -> Option<Seq<char>> {
    let parts = split_seq(line, ';');
    if 0 <= n < parts.len() {
        Some(parts[n])
    } else {
        None
    }
}

/// The numeric value of the `n`-th column, when that column is a nonempty
/// string of digits whose value fits in `usize`.
pub open spec fn num_of(line: Seq<char>, n: int) -> Option<int> {
    match col_of(line, n) {
        None => None,
        Some(t) => if t.len() > 0 && all_digits(t) && digits_value(t) <= usize::MAX {
            Some(digits_value(t))
        } else {
            None
        },
    }
}

/// One row of the Redox passwd file:
/// `login;uid;gid;fullname;home;shell`.
#[derive(Debug)]
pub struct Passwd(pub String);

impl Passwd {
    /// The `number`-th semicolon-separated column of this row.
    pub fn column(&self, number: usize) -> (r: Option<String>)
        ensures
            match r {
                Some(s) => col_of(self.0@, number as int) == Some(s@),
                None => col_of(self.0@, number as int) is None,
            },
    {
        let v = chars_vec(self.0.as_str());
        let parts = split_chars(&v, ';');
        if number < parts.len() {
            let piece = string_from_chars(&parts[number]);
            proof {
                assert(piece@ =~= split_seq(self.0@, ';')[number as int]);
            }
            Some(piece)
        } else {
            None
        }
    }

    /// The login name: column zero.
    pub fn username(&self) -> (r: Option<String>)
        ensures
            match r {
                Some(s) => col_of(self.0@, 0) == Some(s@),
                None => col_of(self.0@, 0) is None,
            },
    {
        self.column(0)
    }

    /// The user id: column one, parsed as a number.
    pub fn uid(&self) -> (r: Option<usize>)
        ensures
            match r {
                Some(u) => num_of(self.0@, 1) == Some(u as int),
                None => num_of(self.0@, 1) is None,
            },
    {
        match self.column(1) {
            Some(s) => {
                let v = chars_vec(s.as_str());
                crate::text::parse_usize(&v)
            },
            None => None,
        }
    }

    /// The group id: column two, parsed as a number.
    pub fn gid(&self) -> (r: Option<usize>)
        ensures
            match r {
                Some(g) => num_of(self.0@, 2) == Some(g as int),
                None => num_of(self.0@, 2) is None,
            },
    {
        match self.column(2) {
            Some(s) => {
                let v = chars_vec(s.as_str());
                crate::text::parse_usize(&v)
            },
            None => None,
        }
    }

    /// The full (real) name: column three.
    pub fn fullname(&self) -> (r: Option<String>)
        ensures
            match r {
                Some(s) => col_of(self.0@, 3) == Some(s@),
                None => col_of(self.0@, 3) is None,
            },
    {
        self.column(3)
    }
}

/// Whether a passwd row names the given effective user and group.
pub open spec fn passwd_matches(line: Seq<char>, uid: int, gid: int) -> bool {
    num_of(line, 1) == Some(uid) && num_of(line, 2) == Some(gid)
}

/// The first row among `rows` that names the given user and group.
pub open spec fn first_passwd_match(rows: Seq<Seq<char>>, uid: int, gid: int) -> Option<Seq<char>>
    decreases rows.len(),
{
    if rows.len() == 0 {
        None
    } else if passwd_matches(rows[0], uid, gid) {
        Some(rows[0])
    } else {
        first_passwd_match(rows.drop_first(), uid, gid)
    }
}

/// The calling user's row of the passwd file: the first line whose uid
/// and gid columns name the given ids, or [`Error::Unavailable`] when no
/// line does.
pub fn passwd(passwd_file: &str, euid: usize, egid: usize) -> (r: Result<Passwd, Error>)
    ensures
        match r {
            Ok(p) => first_passwd_match(lines_seq(passwd_file@), euid as int, egid as int)
                == Some(p.0@),
            Err(e) => first_passwd_match(lines_seq(passwd_file@), euid as int, egid as int)
                is None && e == Error::Unavailable,
        },
{
    let v = chars_vec(passwd_file);
    let rows = lines_chars(&v);
    let ghost all = lines_seq(passwd_file@);
    let mut i: usize = 0;
    proof {
        assert(all.skip(0) =~~= all);
    }
    while i < rows.len()
        invariant
            rows.deep_view() == all,
            all == lines_seq(passwd_file@),
            0 <= i <= all.len(),
            first_passwd_match(all, euid as int, egid as int) == first_passwd_match(
                all.skip(i as int),
                euid as int,
                egid as int,
            ),
        decreases all.len() - i,
    {
        let row = &rows[i];
        proof {
            assert(row@ =~= all[i as int]);
            assert(all.skip(i as int)[0] == all[i as int]);
            assert(all.skip(i as int).drop_first() =~= all.skip(i as int + 1));
        }
        let candidate = Passwd(string_from_chars(row));
        let uid_matches = match candidate.uid() {
            Some(u) => u == euid,
            None => false,
        };
        let gid_matches = match candidate.gid() {
            Some(g) => g == egid,
            None => false,
        };
        if uid_matches && gid_matches {
            proof {
                assert(passwd_matches(all[i as int], euid as int, egid as int));
            }
            return Ok(candidate);
        }
        proof {
            assert(!passwd_matches(all[i as int], euid as int, egid as int));
        }
        i = i + 1;
    }
    proof {
        assert(all.skip(all.len() as int) =~~= Seq::<Seq<char>>::empty());
    }
    Err(Error::Unavailable)
}

/// The login name of a passwd row, or empty when the row has no such
/// column.
pub fn username(p: &Passwd) -> (r: String)
    ensures
        match col_of(p.0@, 0) {
            Some(t) => r@ == t,
            None => r@ == Seq::<char>::empty(),
        },
{
    match p.username() {
        Some(s) => s,
        None => String::new(),
    }
}

/// The full name of a passwd row, or empty when the row has no such
/// column.
pub fn realname(p: &Passwd) -> (r: String)
    ensures
        match col_of(p.0@, 3) {
            Some(t) => r@ == t,
            None => r@ == Seq::<char>::empty(),
        },
{
    match p.fullname() {
        Some(s) => s,
        None => String::new(),
    }
}

/// The kernel's self-description, one fact per line.
#[derive(Debug)]
pub struct Uname(pub String);

impl Uname {
    /// The `number`-th line of the uname text.
    pub fn row(&self, number: usize) -> (r: Option<String>)
        ensures
            match r {
                Some(s) => number < lines_seq(self.0@).len() && lines_seq(self.0@)[number as int]
                    == s@,
                None => number >= lines_seq(self.0@).len(),
            },
    {
        let v = chars_vec(self.0.as_str());
        let rows = lines_chars(&v);
        if number < rows.len() {
            let piece = string_from_chars(&rows[number]);
            proof {
                assert(piece@ =~= lines_seq(self.0@)[number as int]);
            }
            Some(piece)
        } else {
            None
        }
    }

    /// The kernel's name: the first line.
    pub fn kernel_name(&self) -> (r: Option<String>)
        ensures
            match r {
                Some(s) => 0 < lines_seq(self.0@).len() && lines_seq(self.0@)[0] == s@,
                None => lines_seq(self.0@).len() == 0,
            },
    {
        self.row(0)
    }

    /// The kernel's release: the third line.
    pub fn kernel_release(&self) -> (r: Option<String>)
        ensures
            match r {
                Some(s) => 2 < lines_seq(self.0@).len() && lines_seq(self.0@)[2] == s@,
                None => lines_seq(self.0@).len() <= 2,
            },
    {
        self.row(2)
    }

    /// The machine architecture: the fifth line, kept as an unknown
    /// architecture since the kernel's name for it is free-form.
    pub fn machine_arch(&self) -> (r: Option<Arch>)
        ensures
            match r {
                Some(a) => 4 < lines_seq(self.0@).len() && (a matches Arch::Unknown(s) && s@
                    == lines_seq(self.0@)[4]),
                None => lines_seq(self.0@).len() <= 4,
            },
    {
        match self.row(4) {
            Some(s) => Some(Arch::Unknown(s)),
            None => None,
        }
    }
}

/// The release label: the first line of the release file, or empty when
/// the file has none.
pub fn redox_version(release_file: &str) -> (r: String)
    ensures
        lines_seq(release_file@).len() > 0 ==> r@ == lines_seq(release_file@)[0],
        lines_seq(release_file@).len() == 0 ==> r@ == Seq::<char>::empty(),
{
    let v = chars_vec(release_file);
    let rows = lines_chars(&v);
    if rows.len() > 0 {
        let piece = string_from_chars(&rows[0]);
        proof {
            assert(piece@ =~= lines_seq(release_file@)[0]);
        }
        piece
    } else {
        String::new()
    }
}

/// The hostname: the first line of the hostname file, or empty when the
/// file has none.
pub fn hostname(hostname_file: &str) -> (r: String)
    ensures
        lines_seq(hostname_file@).len() > 0 ==> r@ == lines_seq(hostname_file@)[0],
        lines_seq(hostname_file@).len() == 0 ==> r@ == Seq::<char>::empty(),
{
    let v = chars_vec(hostname_file);
    let rows = lines_chars(&v);
    if rows.len() > 0 {
        let piece = string_from_chars(&rows[0]);
        proof {
            assert(piece@ =~= lines_seq(hostname_file@)[0]);
        }
        piece
    } else {
        String::new()
    }
}

/// The distribution label: `"Redox "` followed by the release label.
pub fn distro(version: &str) -> (r: String)
    ensures
        r@ == "Redox "@ + version@,
{
    let mut out = String::from_str("Redox ");
    out.append(version);
    out
}

/// The fixed language list: American English.
pub fn lang() -> (r: Vec<String>)
    ensures
        r@.len() == 1,
        r@[0]@ == "en-US"@,
{
    let mut out: Vec<String> = Vec::new();
    out.push(String::from_str("en-US"));
    out
}

/// The desktop environment this provider serves.
pub fn desktop_env() -> (r: DesktopEnv)
    ensures
        r == DesktopEnv::Orbital,
{
    DesktopEnv::Orbital
}

/// The platform this provider serves.
pub fn platform() -> (r: Platform)
    ensures
        r == Platform::Redox,
{
    Platform::Redox
}

} // verus!
