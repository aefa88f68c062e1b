//! Structured languages and regions, and the locale-string parser.
//!
//! A locale string such as `en_US.UTF-8;fr_FR.UTF-8;C` ranks the user's
//! preferred locales, most preferred first.  [`parse_locale`] decomposes it:
//! the string is split at `;`, each token is truncated at its first `.`
//! (dropping encoding suffixes), `_` and `-` are normalized to `/`, the
//! POSIX pseudo-locale `C` is dropped entirely, and what remains is matched
//! against the canonical tables below.  A token outside the tables becomes
//! an opaque [`Language::Other`] value that still renders its original
//! text, so no signal is ever discarded.

use vstd::prelude::*;

use crate::conversions::{chars_vec, push_char, string_from_chars};
use crate::text::{
    chars_eq_str, find_char, lemma_first_index_of, prefix_until, split_chars, split_seq,
};

verus! {

/// An ISO 3166-1 alpha-2 region, or [`Country::Any`] when no region was
/// given.
#[derive(Clone, Copy, Debug, PartialEq, Eq, Structural)]
pub enum Country {
    Any,
    Us,
    Gb,
    Ca,
    Au,
    De,
    At,
    Ch,
    Fr,
    Be,
    Es,
    Mx,
    It,
    Pt,
    Br,
    Ru,
    Cn,
    Tw,
    Jp,
    Kr,
    Nl,
    Pl,
    Se,
    Tr,
}

/// An ISO 639-1 language from the canonical table, together with its
/// region, or an opaque [`Language::Other`] token outside the table.
#[derive(Clone, Debug, PartialEq, Eq)]
pub enum Language {
    En(Country),
    De(Country),
    Es(Country),
    Fr(Country),
    It(Country),
    Pt(Country),
    Ru(Country),
    Zh(Country),
    Ja(Country),
    Ko(Country),
    Nl(Country),
    Pl(Country),
    Sv(Country),
    Tr(Country),
    Other(String),
}

/// The two-letter upper-case code of each region; [`Country::Any`] has
/// none.
pub open spec fn country_code(c: Country) -> Option<(char, char)> {
    match c {
        Country::Any => None,
        Country::Us => Some(('U', 'S')),
        Country::Gb => Some(('G', 'B')),
        Country::Ca => Some(('C', 'A')),
        Country::Au => Some(('A', 'U')),
        Country::De => Some(('D', 'E')),
        Country::At => Some(('A', 'T')),
        Country::Ch => Some(('C', 'H')),
        Country::Fr => Some(('F', 'R')),
        Country::Be => Some(('B', 'E')),
        Country::Es => Some(('E', 'S')),
        Country::Mx => Some(('M', 'X')),
        Country::It => Some(('I', 'T')),
        Country::Pt => Some(('P', 'T')),
        Country::Br => Some(('B', 'R')),
        Country::Ru => Some(('R', 'U')),
        Country::Cn => Some(('C', 'N')),
        Country::Tw => Some(('T', 'W')),
        Country::Jp => Some(('J', 'P')),
        Country::Kr => Some(('K', 'R')),
        Country::Nl => Some(('N', 'L')),
        Country::Pl => Some(('P', 'L')),
        Country::Se => Some(('S', 'E')),
        Country::Tr => Some(('T', 'R')),
    }
}

/// The region whose two-letter code is `(a, b)`, if it is in the table.
pub open spec fn country_of_code(a: char, b: char) -> Option<Country> {
    match (a, b) {
        ('U', 'S') => Some(Country::Us),
        ('G', 'B') => Some(Country::Gb),
        ('C', 'A') => Some(Country::Ca),
        ('A', 'U') => Some(Country::Au),
        ('D', 'E') => Some(Country::De),
        ('A', 'T') => Some(Country::At),
        ('C', 'H') => Some(Country::Ch),
        ('F', 'R') => Some(Country::Fr),
        ('B', 'E') => Some(Country::Be),
        ('E', 'S') => Some(Country::Es),
        ('M', 'X') => Some(Country::Mx),
        ('I', 'T') => Some(Country::It),
        ('P', 'T') => Some(Country::Pt),
        ('B', 'R') => Some(Country::Br),
        ('R', 'U') => Some(Country::Ru),
        ('C', 'N') => Some(Country::Cn),
        ('T', 'W') => Some(Country::Tw),
        ('J', 'P') => Some(Country::Jp),
        ('K', 'R') => Some(Country::Kr),
        ('N', 'L') => Some(Country::Nl),
        ('P', 'L') => Some(Country::Pl),
        ('S', 'E') => Some(Country::Se),
        ('T', 'R') => Some(Country::Tr),
        _ => None,
    }
}

/// The two-letter lower-case code of each language in the canonical table;
/// an [`Language::Other`] value has none.
pub open spec fn lang_code(l: Language) -> Option<(char, char)> {
    match l {
        Language::En(_) => Some(('e', 'n')),
        Language::De(_) => Some(('d', 'e')),
        Language::Es(_) => Some(('e', 's')),
        Language::Fr(_) => Some(('f', 'r')),
        Language::It(_) => Some(('i', 't')),
        Language::Pt(_) => Some(('p', 't')),
        Language::Ru(_) => Some(('r', 'u')),
        Language::Zh(_) => Some(('z', 'h')),
        Language::Ja(_) => Some(('j', 'a')),
        Language::Ko(_) => Some(('k', 'o')),
        Language::Nl(_) => Some(('n', 'l')),
        Language::Pl(_) => Some(('p', 'l')),
        Language::Sv(_) => Some(('s', 'v')),
        Language::Tr(_) => Some(('t', 'r')),
        Language::Other(_) => None,
    }
}

/// The language whose two-letter code is `(a, b)`, carrying the region
/// `r`, if the code is in the table.
pub open spec fn lang_of_code(a: char, b: char, r: Country) -> Option<Language> {
    match (a, b) {
        ('e', 'n') => Some(Language::En(r)),
        ('d', 'e') => Some(Language::De(r)),
        ('e', 's') => Some(Language::Es(r)),
        ('f', 'r') => Some(Language::Fr(r)),
        ('i', 't') => Some(Language::It(r)),
        ('p', 't') => Some(Language::Pt(r)),
        ('r', 'u') => Some(Language::Ru(r)),
        ('z', 'h') => Some(Language::Zh(r)),
        ('j', 'a') => Some(Language::Ja(r)),
        ('k', 'o') => Some(Language::Ko(r)),
        ('n', 'l') => Some(Language::Nl(r)),
        ('p', 'l') => Some(Language::Pl(r)),
        ('s', 'v') => Some(Language::Sv(r)),
        ('t', 'r') => Some(Language::Tr(r)),
        _ => None,
    }
}

impl Country {
    /// The region whose code is `(a, b)`, if it is in the table.
    pub fn from_code(a: char, b: char) -> (r: Option<Country>)
        ensures
            r == country_of_code(a, b),
    {
        match (a, b) {
            ('U', 'S') => Some(Country::Us),
            ('G', 'B') => Some(Country::Gb),
            ('C', 'A') => Some(Country::Ca),
            ('A', 'U') => Some(Country::Au),
            ('D', 'E') => Some(Country::De),
            ('A', 'T') => Some(Country::At),
            ('C', 'H') => Some(Country::Ch),
            ('F', 'R') => Some(Country::Fr),
            ('B', 'E') => Some(Country::Be),
            ('E', 'S') => Some(Country::Es),
            ('M', 'X') => Some(Country::Mx),
            ('I', 'T') => Some(Country::It),
            ('P', 'T') => Some(Country::Pt),
            ('B', 'R') => Some(Country::Br),
            ('R', 'U') => Some(Country::Ru),
            ('C', 'N') => Some(Country::Cn),
            ('T', 'W') => Some(Country::Tw),
            ('J', 'P') => Some(Country::Jp),
            ('K', 'R') => Some(Country::Kr),
            ('N', 'L') => Some(Country::Nl),
            ('P', 'L') => Some(Country::Pl),
            ('S', 'E') => Some(Country::Se),
            ('T', 'R') => Some(Country::Tr),
            _ => None,
        }
    }

    /// The two-letter code of this region, if it has one.
    pub fn code(&self) -> (r: Option<(char, char)>)
        ensures
            r == country_code(*self),
    {
        match self {
            Country::Any => None,
            Country::Us => Some(('U', 'S')),
            Country::Gb => Some(('G', 'B')),
            Country::Ca => Some(('C', 'A')),
            Country::Au => Some(('A', 'U')),
            Country::De => Some(('D', 'E')),
            Country::At => Some(('A', 'T')),
            Country::Ch => Some(('C', 'H')),
            Country::Fr => Some(('F', 'R')),
            Country::Be => Some(('B', 'E')),
            Country::Es => Some(('E', 'S')),
            Country::Mx => Some(('M', 'X')),
            Country::It => Some(('I', 'T')),
            Country::Pt => Some(('P', 'T')),
            Country::Br => Some(('B', 'R')),
            Country::Ru => Some(('R', 'U')),
            Country::Cn => Some(('C', 'N')),
            Country::Tw => Some(('T', 'W')),
            Country::Jp => Some(('J', 'P')),
            Country::Kr => Some(('K', 'R')),
            Country::Nl => Some(('N', 'L')),
            Country::Pl => Some(('P', 'L')),
            Country::Se => Some(('S', 'E')),
            Country::Tr => Some(('T', 'R')),
        }
    }
}

/// Rendering a region's code and looking it up again recovers the same
/// region, for every region that has a code.
pub proof fn lemma_country_round_trip(c: Country)
    requires
        !(c is Any),
    ensures
        country_code(c) is Some,
        ({
            let (a, b) = country_code(c)->0;
            country_of_code(a, b) == Some(c)
        }),
{
}

impl Language {
    /// The region this language value carries; [`Language::Other`] carries
    /// none.
    pub open spec fn region_spec(self) -> Country {
        match self {
            Language::En(c) => c,
            Language::De(c) => c,
            Language::Es(c) => c,
            Language::Fr(c) => c,
            Language::It(c) => c,
            Language::Pt(c) => c,
            Language::Ru(c) => c,
            Language::Zh(c) => c,
            Language::Ja(c) => c,
            Language::Ko(c) => c,
            Language::Nl(c) => c,
            Language::Pl(c) => c,
            Language::Sv(c) => c,
            Language::Tr(c) => c,
            Language::Other(_) => Country::Any,
        }
    }

    /// The region of this language value.
    pub fn region(&self) -> (r: Country)
        ensures
            r == self.region_spec(),
    {
        match self {
            Language::En(c) => *c,
            Language::De(c) => *c,
            Language::Es(c) => *c,
            Language::Fr(c) => *c,
            Language::It(c) => *c,
            Language::Pt(c) => *c,
            Language::Ru(c) => *c,
            Language::Zh(c) => *c,
            Language::Ja(c) => *c,
            Language::Ko(c) => *c,
            Language::Nl(c) => *c,
            Language::Pl(c) => *c,
            Language::Sv(c) => *c,
            Language::Tr(c) => *c,
            Language::Other(_) => Country::Any,
        }
    }

    /// How a language renders: a table language shows its code, then `/`
    /// and the region code when a region is present; an
    /// [`Language::Other`] value shows its original token.
    pub open spec fn display_spec(self) -> Seq<char> {
        match self {
            Language::Other(s) => s@,
            _ => {
                let (a, b) = lang_code(self)->0;
                match country_code(self.region_spec()) {
                    None => seq![a, b],
                    Some((x, y)) => seq![a, b, '/', x, y],
                }
            },
        }
    }

    /// Render the language, as `display_spec` states.
    pub fn display(&self) -> (r: String)
        ensures
            r@ == self.display_spec(),
    {
        match self {
            Language::Other(s) => {
                let mut out = String::new();
                out.append(s.as_str());
                out
            },
            _ => {
                let (a, b) = match self {
                    Language::En(_) => ('e', 'n'),
                    Language::De(_) => ('d', 'e'),
                    Language::Es(_) => ('e', 's'),
                    Language::Fr(_) => ('f', 'r'),
                    Language::It(_) => ('i', 't'),
                    Language::Pt(_) => ('p', 't'),
                    Language::Ru(_) => ('r', 'u'),
                    Language::Zh(_) => ('z', 'h'),
                    Language::Ja(_) => ('j', 'a'),
                    Language::Ko(_) => ('k', 'o'),
                    Language::Nl(_) => ('n', 'l'),
                    Language::Pl(_) => ('p', 'l'),
                    Language::Sv(_) => ('s', 'v'),
                    Language::Tr(_) => ('t', 'r'),
                    Language::Other(_) => (' ', ' '),
                };
                let mut out = String::new();
                push_char(&mut out, a);
                push_char(&mut out, b);
                let region = self.region();
                match region.code() {
                    None => {
                        proof {
                            assert(out@ =~= seq![a, b]);
                        }
                        out
                    },
                    Some((x, y)) => {
                        push_char(&mut out, '/');
                        push_char(&mut out, x);
                        push_char(&mut out, y);
                        proof {
                            assert(out@ =~= seq![a, b, '/', x, y]);
                        }
                        out
                    },
                }
            },
        }
    }
}

/// The structured reading of one normalized token: a bare two-letter
/// language code, or a language code, `/`, and a region code, all from the
/// canonical tables.
pub open spec fn parse_token(tok: Seq<char>) -> Option<Language> {
    if tok.len() == 2 {
        lang_of_code(tok[0], tok[1], Country::Any)
    } else if tok.len() == 5 && tok[2] == '/' {
        match country_of_code(tok[3], tok[4]) {
            None => None,
            Some(c) => lang_of_code(tok[0], tok[1], c),
        }
    } else {
        None
    }
}

/// What a parsed entry must be for a normalized token: its structured
/// reading when the token has one, else an [`Language::Other`] holding
/// exactly the token.
pub open spec fn lang_matches(l: Language, tok: Seq<char>) -> bool {
    match parse_token(tok) {
        Some(m) => l == m,
        None => match l {
            Language::Other(s) => s@ == tok,
            _ => false,
        },
    }
}

/// Rendering a table language and parsing the result recovers the same
/// value.
pub proof fn lemma_language_round_trip(l: Language)
    requires
        !(l is Other),
    ensures
        parse_token(l.display_spec()) == Some(l),
{
    let c = l.region_spec();
    if !(c is Any) {
        lemma_country_round_trip(c);
    }
}

/// One token of the raw locale string, normalized: truncated at the first
/// `.`, with `_` and `-` replaced by `/`.
pub open spec fn normalize_token(t: Seq<char>) -> Seq<char> {
    prefix_until(t, '.').map_values(
        |c: char|
            if c == '_' || c == '-' {
                '/'
            } else {
                c
            },
    )
}

/// The normalized tokens of a list of raw tokens, without the POSIX `C`
/// pseudo-locale.
pub open spec fn kept_tokens(parts: Seq<Seq<char>>) -> Seq<Seq<char>> {
    parts.map_values(|t: Seq<char>| normalize_token(t)).filter(|t: Seq<char>| t != "C"@)
}

/// The normalized, kept tokens of a raw locale string, in order of
/// preference.  The empty string has none.
pub open spec fn locale_tokens(s: Seq<char>) -> Seq<Seq<char>> {
    if s.len() == 0 {
        Seq::<Seq<char>>::empty()
    } else {
        kept_tokens(split_seq(s, ';'))
    }
}

/// Normalize one raw token.
fn normalize_token_exec(t: &Vec<char>) -> (r: Vec<char>)
    ensures
        r@ == normalize_token(t@),
{
    let cut: usize = match find_char(t, '.') {
        Some(i) => i,
        None => t.len(),
    };
    let mut out: Vec<char> = Vec::new();
    let mut j: usize = 0;
    proof {
        lemma_first_index_of(t@, '.');
        assert(cut as int <= t@.len());
        assert(prefix_until(t@, '.') =~= t@.take(cut as int));
    }
    while j < cut
        invariant
            cut as int <= t@.len(),
            0 <= j <= cut,
            out@ == t@.take(cut as int).map_values(
                |c: char|
                    if c == '_' || c == '-' {
                        '/'
                    } else {
                        c
                    },
            ).take(j as int),
        decreases cut - j,
    {
        let c = t[j];
        if c == '_' || c == '-' {
            out.push('/');
        } else {
            out.push(c);
        }
        j = j + 1;
        proof {
            assert(out@ =~= t@.take(cut as int).map_values(
                |c: char|
                    if c == '_' || c == '-' {
                        '/'
                    } else {
                        c
                    },
            ).take(j as int));
        }
    }
    proof {
        let m = t@.take(cut as int).map_values(
            |c: char|
                if c == '_' || c == '-' {
                    '/'
                } else {
                    c
                },
        );
        assert(m.take(cut as int) =~= m);
        assert(out@ =~= normalize_token(t@));
    }
    out
}

/// The structured entry for one normalized token.
fn language_of_token(norm: &Vec<char>) -> (r: Language)
    ensures
        lang_matches(r, norm@),
{
    if norm.len() == 2 {
        let found = match (norm[0], norm[1]) {
            ('e', 'n') => Some(Language::En(Country::Any)),
            ('d', 'e') => Some(Language::De(Country::Any)),
            ('e', 's') => Some(Language::Es(Country::Any)),
            ('f', 'r') => Some(Language::Fr(Country::Any)),
            ('i', 't') => Some(Language::It(Country::Any)),
            ('p', 't') => Some(Language::Pt(Country::Any)),
            ('r', 'u') => Some(Language::Ru(Country::Any)),
            ('z', 'h') => Some(Language::Zh(Country::Any)),
            ('j', 'a') => Some(Language::Ja(Country::Any)),
            ('k', 'o') => Some(Language::Ko(Country::Any)),
            ('n', 'l') => Some(Language::Nl(Country::Any)),
            ('p', 'l') => Some(Language::Pl(Country::Any)),
            ('s', 'v') => Some(Language::Sv(Country::Any)),
            ('t', 'r') => Some(Language::Tr(Country::Any)),
            _ => None,
        };
        if let Some(l) = found {
            return l;
        }
    } else if norm.len() == 5 {
        if norm[2] == '/' {
            if let Some(region) = Country::from_code(norm[3], norm[4]) {
                let found = match (norm[0], norm[1]) {
                    ('e', 'n') => Some(Language::En(region)),
                    ('d', 'e') => Some(Language::De(region)),
                    ('e', 's') => Some(Language::Es(region)),
                    ('f', 'r') => Some(Language::Fr(region)),
                    ('i', 't') => Some(Language::It(region)),
                    ('p', 't') => Some(Language::Pt(region)),
                    ('r', 'u') => Some(Language::Ru(region)),
                    ('z', 'h') => Some(Language::Zh(region)),
                    ('j', 'a') => Some(Language::Ja(region)),
                    ('k', 'o') => Some(Language::Ko(region)),
                    ('n', 'l') => Some(Language::Nl(region)),
                    ('p', 'l') => Some(Language::Pl(region)),
                    ('s', 'v') => Some(Language::Sv(region)),
                    ('t', 'r') => Some(Language::Tr(region)),
                    _ => None,
                };
                if let Some(l) = found {
                    return l;
                }
            }
        }
    }
    Language::Other(string_from_chars(norm))
}

/// Parse a raw locale string into its ranked entries.
///
/// The result has one entry per kept token of the input, in order: the
/// structured language for tokens the canonical tables cover, and an
/// [`Language::Other`] carrying the normalized token otherwise.  An empty
/// input yields no entries, and the `C` pseudo-locale contributes none.
pub fn parse_locale(raw: &str) -> (r: Vec<Language>)
    ensures
        r@.len() == locale_tokens(raw@).len(),
        forall|i: int|
            0 <= i < r@.len() ==> lang_matches(#[trigger] r@[i], locale_tokens(raw@)[i]),
{
    let mut out: Vec<Language> = Vec::new();
    if raw.unicode_len() == 0 {
        return out;
    }
    let rv = chars_vec(raw);
    let toks = split_chars(&rv, ';');
    let ghost parts = split_seq(raw@, ';');
    let mut i: usize = 0;
    proof {
        assert(parts.take(0) =~~= Seq::<Seq<char>>::empty());
        reveal(Seq::filter);
        assert(kept_tokens(parts.take(0)) =~~= Seq::<Seq<char>>::empty());
    }
    while i < toks.len()
        invariant
            rv@ == raw@,
            raw@.len() > 0,
            toks.deep_view() == parts,
            parts == split_seq(raw@, ';'),
            0 <= i <= parts.len(),
            out@.len() == kept_tokens(parts.take(i as int)).len(),
            forall|j: int|
                0 <= j < out@.len() ==> lang_matches(
                    #[trigger] out@[j],
                    kept_tokens(parts.take(i as int))[j],
                ),
        decreases parts.len() - i,
    {
        let tok = &toks[i];
        proof {
            assert(tok@ =~= parts[i as int]);
        }
        let norm = normalize_token_exec(tok);
        let ghost prev = kept_tokens(parts.take(i as int));
        proof {
            assert(parts.take(i as int + 1) =~~= parts.take(i as int).push(parts[i as int]));
            assert(parts.take(i as int).push(parts[i as int]).map_values(
                |t: Seq<char>| normalize_token(t),
            ) =~~= parts.take(i as int).map_values(|t: Seq<char>| normalize_token(t)).push(
                normalize_token(parts[i as int]),
            ));
            Seq::lemma_filter_push(
                parts.take(i as int).map_values(|t: Seq<char>| normalize_token(t)),
                normalize_token(parts[i as int]),
                |t: Seq<char>| t != "C"@,
            );
        }
        if chars_eq_str(&norm, "C") {
            proof {
                assert(kept_tokens(parts.take(i as int + 1)) =~~= prev);
            }
        } else {
            let entry = language_of_token(&norm);
            out.push(entry);
            proof {
                assert(kept_tokens(parts.take(i as int + 1)) =~~= prev.push(norm@));
            }
        }
        i = i + 1;
    }
    proof {
        assert(parts.take(parts.len() as int) =~~= parts);
    }
    out
}

} // verus!
