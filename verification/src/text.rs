//! Verified building blocks for working with character sequences: search,
//! splitting, trimming and digit parsing.
//!
//! Every executable function here carries an exact contract over the
//! mathematical form of its input (`Seq<char>`), so the parsers built on
//! top of them can state what they return rather than how they work.

use vstd::prelude::*;

verus! {

/// The index of the first occurrence of `c` in `s`, if any.
pub open spec fn first_index_of(s: Seq<char>, c: char) -> Option<int>
    decreases s.len(),
{
    if s.len() == 0 {
        None
    } else if s[0] == c {
        Some(0int)
    } else {
        match first_index_of(s.drop_first(), c) {
            None => None,
            Some(i) => Some(i + 1),
        }
    }
}

/// What `first_index_of` returns: the position of `c`, before which `c`
/// does not occur, or `None` when `c` does not occur at all.
pub proof fn lemma_first_index_of(s: Seq<char>, c: char)
    ensures
        match first_index_of(s, c) {
            Some(i) => 0 <= i < s.len() && s[i] == c && forall|j: int| 0 <= j < i ==> s[j] != c,
            None => forall|j: int| 0 <= j < s.len() ==> s[j] != c,
        },
    decreases s.len(),
{
    if s.len() == 0 {
    } else if s[0] == c {
    } else {
        let d = s.drop_first();
        lemma_first_index_of(d, c);
        match first_index_of(s, c) {
            Some(i) => {
                assert forall|j: int| 0 <= j < i implies s[j] != c by {
                    if j > 0 {
                        assert(d[j - 1] != c);
                        assert(s[j] == d[j - 1]);
                    }
                }
            },
            None => {
                assert forall|j: int| 0 <= j < s.len() implies s[j] != c by {
                    if j > 0 {
                        assert(d[j - 1] != c);
                        assert(s[j] == d[j - 1]);
                    }
                }
            },
        }
    }
}

/// A position with the first-occurrence properties is what
/// `first_index_of` returns.
pub proof fn lemma_first_index_of_is(s: Seq<char>, c: char, i: int)
    requires
        0 <= i < s.len(),
        s[i] == c,
        forall|j: int| 0 <= j < i ==> s[j] != c,
    ensures
        first_index_of(s, c) == Some(i),
    decreases i,
{
    if i == 0 {
    } else {
        lemma_first_index_of_is(s.drop_first(), c, i - 1);
    }
}

/// When `c` occurs nowhere in `s`, `first_index_of` returns `None`.
pub proof fn lemma_first_index_of_none(s: Seq<char>, c: char)
    requires
        forall|j: int| 0 <= j < s.len() ==> s[j] != c,
    ensures
        first_index_of(s, c) is None,
    decreases s.len(),
{
    if s.len() == 0 {
    } else {
        lemma_first_index_of_none(s.drop_first(), c);
    }
}

/// The index of the last occurrence of `c` in `s`, if any.
pub open spec fn last_index_of(s: Seq<char>, c: char) -> Option<int>
    decreases s.len(),
{
    if s.len() == 0 {
        None
    } else if s[s.len() - 1] == c {
        Some(s.len() - 1)
    } else {
        last_index_of(s.drop_last(), c)
    }
}

/// A position with the last-occurrence properties is what `last_index_of`
/// returns.
pub proof fn lemma_last_index_of_is(s: Seq<char>, c: char, i: int)
    requires
        0 <= i < s.len(),
        s[i] == c,
        forall|j: int| i < j < s.len() ==> s[j] != c,
    ensures
        last_index_of(s, c) == Some(i),
    decreases s.len(),
{
    if i == s.len() - 1 {
    } else {
        let d = s.drop_last();
        assert(d[i] == s[i]);
        assert forall|j: int| i < j < d.len() implies d[j] != c by {
            assert(d[j] == s[j]);
        }
        lemma_last_index_of_is(d, c, i);
    }
}

/// When `c` occurs nowhere in `s`, `last_index_of` returns `None`.
pub proof fn lemma_last_index_of_none(s: Seq<char>, c: char)
    requires
        forall|j: int| 0 <= j < s.len() ==> s[j] != c,
    ensures
        last_index_of(s, c) is None,
    decreases s.len(),
{
    if s.len() == 0 {
    } else {
        let d = s.drop_last();
        assert forall|j: int| 0 <= j < d.len() implies d[j] != c by {
            assert(d[j] == s[j]);
        }
        lemma_last_index_of_none(d, c);
    }
}

/// The index of the first run of `h` equal to `n`, if any.
pub open spec fn first_match_of(h: Seq<char>, n: Seq<char>) -> Option<int>
    decreases h.len(),
{
    if n.len() == 0 {
        Some(0int)
    } else if h.len() < n.len() {
        None
    } else if h.subrange(0, n.len() as int) == n {
        Some(0int)
    } else {
        match first_match_of(h.drop_first(), n) {
            None => None,
            Some(i) => Some(i + 1),
        }
    }
}

/// A position with the first-run properties is what `first_match_of`
/// returns.
pub proof fn lemma_first_match_of_is(h: Seq<char>, n: Seq<char>, i: int)
    requires
        0 <= i,
        i + n.len() <= h.len(),
        h.subrange(i, i + n.len()) == n,
        forall|j: int| 0 <= j < i ==> #[trigger] h.subrange(j, j + n.len()) != n,
    ensures
        first_match_of(h, n) == Some(i),
    decreases i,
{
    if n.len() == 0 {
        if i > 0 {
            assert(h.subrange(0int, 0int + n.len() as int) =~= n);
            assert(false);
        }
    } else if i == 0 {
    } else {
        assert(h.subrange(0int, 0int + n.len() as int) != n);
        assert(h.subrange(0, n.len() as int) =~= h.subrange(0int, 0int + n.len() as int));
        let d = h.drop_first();
        assert(d.subrange(i - 1, i - 1 + n.len()) =~= h.subrange(i, i + n.len()));
        assert forall|j: int| 0 <= j < i - 1 implies #[trigger] d.subrange(j, j + n.len())
            != n by {
            assert(h.subrange(j + 1, j + 1 + n.len()) != n);
            assert(d.subrange(j, j + n.len()) =~= h.subrange(j + 1, j + 1 + n.len()));
        }
        lemma_first_match_of_is(d, n, i - 1);
    }
}

/// When `n` occurs nowhere in `h`, `first_match_of` returns `None`.
pub proof fn lemma_first_match_of_none(h: Seq<char>, n: Seq<char>)
    requires
        n.len() > 0,
        forall|j: int| 0 <= j <= h.len() - n.len() ==> #[trigger] h.subrange(j, j + n.len()) != n,
    ensures
        first_match_of(h, n) is None,
    decreases h.len(),
{
    if h.len() < n.len() {
    } else {
        assert(h.subrange(0int, 0int + n.len() as int) != n);
        assert(h.subrange(0, n.len() as int) =~= h.subrange(0int, 0int + n.len() as int));
        let d = h.drop_first();
        assert forall|j: int| 0 <= j <= d.len() - n.len() implies #[trigger] d.subrange(
            j,
            j + n.len(),
        ) != n by {
            assert(h.subrange(j + 1, j + 1 + n.len()) != n);
            assert(d.subrange(j, j + n.len()) =~= h.subrange(j + 1, j + 1 + n.len()));
        }
        lemma_first_match_of_none(d, n);
    }
}

/// Whether `s` begins with `p`.
pub open spec fn starts_with_seq(s: Seq<char>, p: Seq<char>) -> bool {
    s.len() >= p.len() && s.subrange(0, p.len() as int) == p
}

/// Whether `v` begins with the characters of `p`.
pub fn starts_with_chars(v: &Vec<char>, p: &Vec<char>) -> (r: bool)
    ensures
        r == starts_with_seq(v@, p@),
{
    if v.len() < p.len() {
        return false;
    }
    let mut k: usize = 0;
    while k < p.len()
        invariant
            p@.len() <= v@.len(),
            0 <= k <= p@.len(),
            forall|j: int| 0 <= j < k ==> v@[j] == p@[j],
        decreases p@.len() - k,
    {
        if v[k] != p[k] {
            proof {
                assert(v@.subrange(0, p@.len() as int)[k as int] == v@[k as int]);
            }
            return false;
        }
        k = k + 1;
    }
    proof {
        assert(v@.subrange(0, p@.len() as int) =~= p@);
    }
    true
}

/// The prefix of `s` up to (not including) the first occurrence of `c`;
/// all of `s` when `c` does not occur.
pub open spec fn prefix_until(s: Seq<char>, c: char) -> Seq<char> {
    match first_index_of(s, c) {
        None => s,
        Some(i) => s.take(i),
    }
}

/// `s` split at every occurrence of `sep`.  The result has one entry more
/// than `s` has separators; splitting the empty sequence gives one empty
/// entry.
pub open spec fn split_seq(s: Seq<char>, sep: char) -> Seq<Seq<char>>
    decreases s.len(),
{
    if s.len() == 0 {
        seq![Seq::<char>::empty()]
    } else if s[0] == sep {
        seq![Seq::<char>::empty()] + split_seq(s.drop_first(), sep)
    } else {
        let rest = split_seq(s.drop_first(), sep);
        seq![seq![s[0]] + rest[0]] + rest.drop_first()
    }
}

/// A split is never empty.
pub proof fn lemma_split_seq_len(s: Seq<char>, sep: char)
    ensures
        split_seq(s, sep).len() >= 1,
    decreases s.len(),
{
    if s.len() == 0 {
    } else {
        lemma_split_seq_len(s.drop_first(), sep);
    }
}

/// Splitting a sequence without the separator gives that sequence back as
/// the only entry.
pub proof fn lemma_split_no_sep(s: Seq<char>, sep: char)
    requires
        forall|j: int| 0 <= j < s.len() ==> s[j] != sep,
    ensures
        split_seq(s, sep) == seq![s],
    decreases s.len(),
{
    if s.len() == 0 {
        assert(s =~= Seq::<char>::empty());
        assert(split_seq(s, sep) =~~= seq![s]);
    } else {
        let d = s.drop_first();
        assert forall|j: int| 0 <= j < d.len() implies #[trigger] d[j] != sep by {
            assert(d[j] == s[j + 1]);
        }
        lemma_split_no_sep(d, sep);
        let rest = split_seq(d, sep);
        assert(rest[0] == d);
        assert(seq![s[0]] + d =~= s);
        assert(rest.drop_first() =~~= Seq::<Seq<char>>::empty());
        assert(split_seq(s, sep) =~~= seq![s]);
    }
}

/// Splitting at the first separator: the entry before it, then the split
/// of what follows it.
pub proof fn lemma_split_at_first(s: Seq<char>, sep: char, i: int)
    requires
        0 <= i < s.len(),
        s[i] == sep,
        forall|j: int| 0 <= j < i ==> s[j] != sep,
    ensures
        split_seq(s, sep) == seq![s.take(i)] + split_seq(s.skip(i + 1), sep),
    decreases i,
{
    if i == 0 {
        assert(s.take(0) =~= Seq::<char>::empty());
        assert(s.skip(1) =~= s.drop_first());
        assert(split_seq(s, sep) =~~= seq![s.take(0)] + split_seq(s.skip(1), sep));
    } else {
        let d = s.drop_first();
        assert(d[i - 1] == s[i]);
        assert forall|j: int| 0 <= j < i - 1 implies #[trigger] d[j] != sep by {
            assert(d[j] == s[j + 1]);
        }
        lemma_split_at_first(d, sep, i - 1);
        let rest = split_seq(d, sep);
        assert(rest == seq![d.take(i - 1)] + split_seq(d.skip(i), sep));
        lemma_split_seq_len(d.skip(i), sep);
        assert(rest[0] == d.take(i - 1));
        assert(seq![s[0]] + d.take(i - 1) =~= s.take(i));
        assert(rest.drop_first() =~~= split_seq(d.skip(i), sep));
        assert(d.skip(i) =~= s.skip(i + 1));
        assert(split_seq(s, sep) =~~= seq![s.take(i)] + split_seq(s.skip(i + 1), sep));
    }
}

/// True when `n` occurs as a contiguous run inside `h`.
pub open spec fn contains_seq(h: Seq<char>, n: Seq<char>) -> bool {
    exists|i: int| 0 <= i <= h.len() - n.len() && #[trigger] h.subrange(i, i + n.len()) == n
}

/// Copy of the characters of `v` between `a` (inclusive) and `b`
/// (exclusive).
pub fn subvec(v: &Vec<char>, a: usize, b: usize) -> (r: Vec<char>)
    requires
        a <= b <= v@.len(),
    ensures
        r@ == v@.subrange(a as int, b as int),
{
    let mut out: Vec<char> = Vec::new();
    let mut i: usize = a;
    while i < b
        invariant
            a <= i <= b <= v@.len(),
            out@ == v@.subrange(a as int, i as int),
        decreases b - i,
    {
        out.push(v[i]);
        i = i + 1;
        proof {
            assert(out@ =~= v@.subrange(a as int, i as int));
        }
    }
    out
}

/// Whether a character vector holds exactly the characters of `s`.
pub fn chars_eq_str(v: &Vec<char>, s: &str) -> (r: bool)
    ensures
        r == (v@ == s@),
{
    let n = s.unicode_len();
    if v.len() != n {
        return false;
    }
    let mut i: usize = 0;
    while i < n
        invariant
            n == s@.len(),
            v@.len() == n,
            0 <= i <= n,
            forall|j: int| 0 <= j < i ==> v@[j] == s@[j],
        decreases n - i,
    {
        if v[i] != s.get_char(i) {
            return false;
        }
        i = i + 1;
    }
    proof {
        assert(v@ =~= s@);
    }
    true
}

/// The index of the first occurrence of `c` in `v`, if any.
pub fn find_char(v: &Vec<char>, c: char) -> (r: Option<usize>)
    ensures
        match r {
            Some(i) => i < v@.len() && first_index_of(v@, c) == Some(i as int),
            None => first_index_of(v@, c) is None,
        },
{
    let mut i: usize = 0;
    while i < v.len()
        invariant
            0 <= i <= v@.len(),
            forall|j: int| 0 <= j < i ==> v@[j] != c,
        decreases v@.len() - i,
    {
        if v[i] == c {
            proof {
                lemma_first_index_of_is(v@, c, i as int);
            }
            return Some(i);
        }
        i = i + 1;
    }
    proof {
        lemma_first_index_of_none(v@, c);
    }
    None
}

/// The index of the last occurrence of `c` in `v`, if any.
pub fn rfind_char(v: &Vec<char>, c: char) -> (r: Option<usize>)
    ensures
        match r {
            Some(i) => i < v@.len() && last_index_of(v@, c) == Some(i as int),
            None => last_index_of(v@, c) is None,
        },
{
    let mut i: usize = v.len();
    while i > 0
        invariant
            0 <= i <= v@.len(),
            forall|j: int| i <= j < v@.len() ==> v@[j] != c,
        decreases i,
    {
        i = i - 1;
        if v[i] == c {
            proof {
                lemma_last_index_of_is(v@, c, i as int);
            }
            return Some(i);
        }
    }
    proof {
        lemma_last_index_of_none(v@, c);
    }
    None
}

/// The index of the first run of `h` equal to `n`, if any.
pub fn find_sub(h: &Vec<char>, n: &Vec<char>) -> (r: Option<usize>)
    ensures
        match r {
            Some(i) => {
                &&& first_match_of(h@, n@) == Some(i as int)
                &&& i + n@.len() <= h@.len()
                &&& h@.subrange(i as int, i as int + n@.len()) == n@
                &&& forall|j: int| 0 <= j < i ==> #[trigger] h@.subrange(j, j + n@.len()) != n@
            },
            None => !contains_seq(h@, n@) && first_match_of(h@, n@) is None,
        },
{
    if n.len() > h.len() {
        proof {
            if n@.len() > 0 {
                assert forall|j: int| 0 <= j <= h@.len() - n@.len() implies #[trigger] h@.subrange(
                    j,
                    j + n@.len(),
                ) != n@ by {}
                lemma_first_match_of_none(h@, n@);
            }
        }
        return None;
    }
    if n.len() == 0 {
        proof {
            assert(h@.subrange(0, 0) =~= n@);
        }
        return Some(0);
    }
    let last = h.len() - n.len();
    let mut i: usize = 0;
    while i <= last
        invariant
            1 <= n@.len() <= h@.len(),
            h@.len() <= usize::MAX,
            last == h@.len() - n@.len(),
            0 <= i <= last + 1,
            forall|j: int| 0 <= j < i ==> #[trigger] h@.subrange(j, j + n@.len()) != n@,
        decreases last - i + 1,
    {
        let mut k: usize = 0;
        let mut matched = true;
        proof {
            assert(h@.subrange(i as int, i as int) =~= n@.take(0));
        }
        while k < n.len() && matched
            invariant
                n@.len() <= h@.len(),
                h@.len() <= usize::MAX,
                i + n@.len() <= h@.len(),
                0 <= k <= n@.len(),
                matched == (h@.subrange(i as int, i as int + k as int) == n@.take(k as int)),
            decreases n@.len() - k,
    {
            if h[i + k] != n[k] {
                matched = false;
                proof {
                    assert(h@.subrange(i as int, i as int + k as int + 1)[k as int] == h@[i as int
                        + k as int]);
                    assert(n@.take(k as int + 1)[k as int] == n@[k as int]);
                }
            } else {
                proof {
                    assert(h@.subrange(i as int, i as int + k as int + 1) =~= n@.take(
                        k as int + 1,
                    ));
                }
            }
            k = k + 1;
        }
        if matched {
            proof {
                assert(k == n@.len());
                assert(n@.take(n@.len() as int) =~= n@);
                lemma_first_match_of_is(h@, n@, i as int);
            }
            return Some(i);
        }
        proof {
            if h@.subrange(i as int, i as int + n@.len() as int) == n@ {
                assert(h@.subrange(i as int, i as int + k as int) =~= h@.subrange(
                    i as int,
                    i as int + n@.len() as int,
                ).take(k as int));
                assert(n@.take(k as int) =~= n@.take(k as int));
                assert(h@.subrange(i as int, i as int + k as int) == n@.take(k as int));
                assert(false);
            }
        }
        i = i + 1;
    }
    proof {
        assert forall|j: int| 0 <= j <= h@.len() - n@.len() implies #[trigger] h@.subrange(
            j,
            j + n@.len(),
        ) != n@ by {}
        lemma_first_match_of_none(h@, n@);
    }
    None
}

/// Whether `n` occurs inside `h`.
pub fn contains_sub(h: &Vec<char>, n: &Vec<char>) -> (r: bool)
    ensures
        r == contains_seq(h@, n@),
{
    match find_sub(h, n) {
        Some(i) => {
            proof {
                assert(0 <= i as int <= h@.len() - n@.len() && h@.subrange(
                    i as int,
                    i as int + n@.len(),
                ) == n@);
            }
            true
        },
        None => false,
    }
}

/// Count of copies of `c` at the start of `s`.
pub open spec fn count_leading(s: Seq<char>, c: char) -> int
    decreases s.len(),
{
    if s.len() == 0 {
        0
    } else if s[0] == c {
        1 + count_leading(s.drop_first(), c)
    } else {
        0
    }
}

/// Count of copies of `c` at the end of `s`.
pub open spec fn count_trailing(s: Seq<char>, c: char) -> int
    decreases s.len(),
{
    if s.len() == 0 {
        0
    } else if s[s.len() - 1] == c {
        1 + count_trailing(s.drop_last(), c)
    } else {
        0
    }
}

/// `s` with every leading and trailing copy of `c` removed.
pub open spec fn trim_char_seq(s: Seq<char>, c: char) -> Seq<char> {
    if count_leading(s, c) == s.len() {
        Seq::<char>::empty()
    } else {
        s.subrange(count_leading(s, c), s.len() - count_trailing(s, c))
    }
}

/// Properties of `count_leading`.
pub proof fn lemma_count_leading(s: Seq<char>, c: char)
    ensures
        0 <= count_leading(s, c) <= s.len(),
        forall|j: int| 0 <= j < count_leading(s, c) ==> s[j] == c,
        count_leading(s, c) < s.len() ==> s[count_leading(s, c)] != c,
    decreases s.len(),
{
    if s.len() == 0 {
    } else if s[0] == c {
        let d = s.drop_first();
        lemma_count_leading(d, c);
        assert forall|j: int| 0 <= j < count_leading(s, c) implies s[j] == c by {
            if j > 0 {
                assert(d[j - 1] == c);
                assert(s[j] == d[j - 1]);
            }
        }
        if count_leading(s, c) < s.len() {
            assert(s[count_leading(s, c)] == d[count_leading(d, c)]);
        }
    } else {
    }
}

/// Properties of `count_trailing`.
pub proof fn lemma_count_trailing(s: Seq<char>, c: char)
    ensures
        0 <= count_trailing(s, c) <= s.len(),
        forall|j: int| s.len() - count_trailing(s, c) <= j < s.len() ==> s[j] == c,
        count_trailing(s, c) < s.len() ==> s[s.len() - 1 - count_trailing(s, c)] != c,
    decreases s.len(),
{
    if s.len() == 0 {
    } else if s[s.len() - 1] == c {
        let d = s.drop_last();
        lemma_count_trailing(d, c);
        assert forall|j: int| s.len() - count_trailing(s, c) <= j < s.len() implies s[j] == c by {
            if j < s.len() - 1 {
                assert(d[j] == c);
                assert(s[j] == d[j]);
            }
        }
        if count_trailing(s, c) < s.len() {
            assert(s[s.len() - 1 - count_trailing(s, c)] == d[d.len() - 1 - count_trailing(d, c)]);
        }
    } else {
    }
}

/// `v` with every leading and trailing copy of `c` removed.
pub fn trim_char(v: &Vec<char>, c: char) -> (r: Vec<char>)
    ensures
        r@ == trim_char_seq(v@, c),
{
    proof {
        lemma_count_leading(v@, c);
        lemma_count_trailing(v@, c);
    }
    let mut a: usize = 0;
    while a < v.len() && v[a] == c
        invariant
            0 <= a <= v@.len(),
            forall|j: int| 0 <= j < a ==> v@[j] == c,
        decreases v@.len() - a,
    {
        a = a + 1;
    }
    if a == v.len() {
        proof {
            if count_leading(v@, c) < v@.len() {
                assert(v@[count_leading(v@, c)] != c);
                assert(false);
            }
        }
        return Vec::new();
    }
    proof {
        let cl = count_leading(v@, c);
        if cl < a {
            assert(v@[cl] == c);
            assert(false);
        }
        if a < cl {
            assert(v@[a as int] == c);
            assert(false);
        }
    }
    let mut b: usize = v.len();
    while b > 0 && v[b - 1] == c
        invariant
            0 <= b <= v@.len(),
            forall|j: int| b <= j < v@.len() ==> v@[j] == c,
        decreases b,
    {
        b = b - 1;
    }
    proof {
        let ct = count_trailing(v@, c);
        assert(b > 0);
        assert(v@[b - 1] != c);
        if v@.len() - ct < b {
            assert(v@[b - 1] == c);
            assert(false);
        }
        if b < v@.len() - ct {
            assert(v@[v@.len() - 1 - ct] != c);
            assert(b <= v@.len() - 1 - ct);
            assert(v@[v@.len() - 1 - ct] == c);
            assert(false);
        }
    }
    subvec(v, a, b)
}

/// True for the ten ASCII decimal digits.
pub open spec fn is_digit(c: char) -> bool {
    48 <= (c as u32) && (c as u32) <= 57
}

/// True when every character of `s` is an ASCII decimal digit.
pub open spec fn all_digits(s: Seq<char>) -> bool {
    forall|i: int| 0 <= i < s.len() ==> is_digit(#[trigger] s[i])
}

/// The numeric value of one ASCII digit.
pub open spec fn digit_val(c: char) -> int {
    (c as u32) - 48
}

/// The number written in decimal by `s`, read left to right.
pub open spec fn digits_value(s: Seq<char>) -> int
    decreases s.len(),
{
    if s.len() == 0 {
        0
    } else {
        digits_value(s.drop_last()) * 10 + digit_val(s.last())
    }
}

/// A digit string's value is never negative.
pub proof fn lemma_digits_value_nonneg(s: Seq<char>)
    requires
        all_digits(s),
    ensures
        digits_value(s) >= 0,
    decreases s.len(),
{
    if s.len() == 0 {
    } else {
        assert(all_digits(s.drop_last()));
        lemma_digits_value_nonneg(s.drop_last());
    }
}

/// A prefix of a digit string never has a larger value than the whole.
pub proof fn lemma_digits_value_take_le(s: Seq<char>, i: int)
    requires
        all_digits(s),
        0 <= i <= s.len(),
    ensures
        digits_value(s.take(i)) <= digits_value(s),
    decreases s.len() - i,
{
    if i == s.len() {
        assert(s.take(i) =~= s);
    } else {
        lemma_digits_value_take_le(s, i + 1);
        let t = s.take(i + 1);
        assert(t.drop_last() =~= s.take(i));
        assert(all_digits(s.take(i)));
        lemma_digits_value_nonneg(s.take(i));
        assert(digits_value(t) == digits_value(s.take(i)) * 10 + digit_val(s[i]));
        assert(digit_val(s[i]) >= 0);
        assert(digits_value(s.take(i)) * 10 >= digits_value(s.take(i))) by (nonlinear_arith)
            requires
                digits_value(s.take(i)) >= 0,
        ;
    }
}

/// Parse an unsigned decimal integer.  Succeeds exactly on nonempty strings
/// of ASCII digits whose value fits in `usize`, and then returns that
/// value.
pub fn parse_usize(v: &Vec<char>) -> (r: Option<usize>)
    ensures
        r is Some <==> (v@.len() > 0 && all_digits(v@) && digits_value(v@) <= usize::MAX),
        r is Some ==> r->0 as int == digits_value(v@),
{
    if v.len() == 0 {
        return None;
    }
    let mut acc: usize = 0;
    let mut i: usize = 0;
    while i < v.len()
        invariant
            0 < v@.len(),
            0 <= i <= v@.len(),
            all_digits(v@.take(i as int)),
            acc as int == digits_value(v@.take(i as int)),
        decreases v@.len() - i,
    {
        let c = v[i];
        let u = c as u32;
        if u < 48 || u > 57 {
            proof {
                assert(!is_digit(v@[i as int]));
                assert(!all_digits(v@));
            }
            return None;
        }
        let d = (u - 48) as usize;
        let next = match acc.checked_mul(10) {
            Some(m) => m.checked_add(d),
            None => None,
        };
        proof {
            assert(is_digit(v@[i as int]));
            assert forall|j: int| 0 <= j < i + 1 implies is_digit(
                #[trigger] v@.take(i as int + 1)[j],
            ) by {
                assert(v@.take(i as int + 1)[j] == v@[j]);
                if j < i {
                    assert(is_digit(v@.take(i as int)[j]));
                    assert(v@.take(i as int)[j] == v@[j]);
                }
            }
            assert(v@.take(i as int + 1).drop_last() =~= v@.take(i as int));
            assert(digits_value(v@.take(i as int + 1)) == acc as int * 10 + d as int);
        }
        match next {
            Some(m) => {
                acc = m;
            },
            None => {
                proof {
                    assert(digits_value(v@.take(i as int + 1)) > usize::MAX);
                    if all_digits(v@) {
                        lemma_digits_value_take_le(v@, i as int + 1);
                        assert(digits_value(v@) > usize::MAX);
                    }
                }
                return None;
            },
        }
        i = i + 1;
    }
    proof {
        assert(v@.take(v@.len() as int) =~= v@);
    }
    Some(acc)
}

/// `s` split at every occurrence of `sep`.
pub fn split_chars(v: &Vec<char>, sep: char) -> (r: Vec<Vec<char>>)
    ensures
        r.deep_view() == split_seq(v@, sep),
{
    let mut out: Vec<Vec<char>> = Vec::new();
    let mut start: usize = 0;
    proof {
        assert(v@.skip(0) =~= v@);
        assert(out.deep_view() + split_seq(v@.skip(0), sep) =~~= split_seq(v@, sep));
    }
    loop
        invariant_except_break
            0 <= start <= v@.len(),
            split_seq(v@, sep) == out.deep_view() + split_seq(v@.skip(start as int), sep),
        ensures
            out.deep_view() == split_seq(v@, sep),
        decreases v@.len() - start,
    {
        let mut i: usize = start;
        while i < v.len() && v[i] != sep
            invariant
                start <= i <= v@.len(),
                forall|j: int| start <= j < i ==> v@[j] != sep,
            decreases v@.len() - i,
        {
            i = i + 1;
        }
        let seg = subvec(v, start, i);
        let ghost old_dv = out.deep_view();
        let ghost tail = v@.skip(start as int);
        out.push(seg);
        proof {
            assert(out.deep_view() =~~= old_dv.push(seg@));
            assert(seg@ =~= tail.take(i as int - start as int));
        }
        if i == v.len() {
            proof {
                assert forall|j: int| 0 <= j < tail.len() implies #[trigger] tail[j] != sep by {
                    assert(tail[j] == v@[start as int + j]);
                }
                lemma_split_no_sep(tail, sep);
                assert(seg@ =~= tail);
                assert(out.deep_view() =~~= old_dv + seq![tail]);
                assert(out.deep_view() =~~= split_seq(v@, sep));
            }
            break ;
        }
        proof {
            assert(tail[i as int - start as int] == v@[i as int]);
            assert forall|j: int| 0 <= j < i as int - start as int implies #[trigger] tail[j]
                != sep by {
                assert(tail[j] == v@[start as int + j]);
            }
            lemma_split_at_first(tail, sep, i as int - start as int);
            assert(tail.skip(i as int - start as int + 1) =~= v@.skip(i as int + 1));
            assert(split_seq(tail.skip(i as int - start as int + 1), sep) == split_seq(
                v@.skip(i as int + 1),
                sep,
            ));
            assert(old_dv + (seq![seg@] + split_seq(v@.skip(i as int + 1), sep)) =~~= (old_dv.push(
                seg@,
            )) + split_seq(v@.skip(i as int + 1), sep));
        }
        start = i + 1;
    }
    out
}

/// `strip_cr(t)` is `t` without one trailing carriage return.
pub open spec fn strip_cr(t: Seq<char>) -> Seq<char> {
    if t.len() > 0 && t[t.len() - 1] == '\r' {
        t.drop_last()
    } else {
        t
    }
}

/// The lines of `s`: split at every newline, with one final line ending
/// tolerated and a trailing carriage return stripped from each line.  The
/// empty sequence has no lines.
pub open spec fn lines_seq(s: Seq<char>) -> Seq<Seq<char>> {
    if s.len() == 0 {
        Seq::<Seq<char>>::empty()
    } else {
        let raw = split_seq(s, '\n');
        let rows = if s[s.len() - 1] == '\n' {
            raw.drop_last()
        } else {
            raw
        };
        rows.map_values(|t: Seq<char>| strip_cr(t))
    }
}

/// The lines of `v`, as `lines_seq` states them.
pub fn lines_chars(v: &Vec<char>) -> (r: Vec<Vec<char>>)
    ensures
        r.deep_view() == lines_seq(v@),
{
    if v.len() == 0 {
        return Vec::new();
    }
    let mut rows = split_chars(v, '\n');
    proof {
        lemma_split_seq_len(v@, '\n');
    }
    if v[v.len() - 1] == '\n' {
        let ghost before = rows.deep_view();
        rows.pop();
        proof {
            assert(rows.deep_view() =~~= before.drop_last());
        }
    }
    let ghost rows_dv = rows.deep_view();
    let mut out: Vec<Vec<char>> = Vec::new();
    let mut i: usize = 0;
    while i < rows.len()
        invariant
            rows_dv == rows.deep_view(),
            0 <= i <= rows@.len(),
            out.deep_view() == rows_dv.take(i as int).map_values(|t: Seq<char>| strip_cr(t)),
        decreases rows@.len() - i,
    {
        let row = &rows[i];
        let ghost old_out = out.deep_view();
        proof {
            assert(rows_dv[i as int] =~= row@);
        }
        if row.len() > 0 && row[row.len() - 1] == '\r' {
            let stripped = subvec(row, 0, row.len() - 1);
            proof {
                assert(stripped@ =~= strip_cr(rows_dv[i as int]));
            }
            out.push(stripped);
            proof {
                assert(out.deep_view() =~~= old_out.push(strip_cr(rows_dv[i as int])));
            }
        } else {
            let copy = subvec(row, 0, row.len());
            proof {
                assert(copy@ =~= strip_cr(rows_dv[i as int]));
            }
            out.push(copy);
            proof {
                assert(out.deep_view() =~~= old_out.push(strip_cr(rows_dv[i as int])));
            }
        }
        i = i + 1;
        proof {
            assert(out.deep_view() =~~= rows_dv.take(i as int).map_values(
                |t: Seq<char>| strip_cr(t),
            ));
        }
    }
    proof {
        assert(rows_dv.take(rows_dv.len() as int) =~~= rows_dv);
        assert(out.deep_view() =~~= lines_seq(v@));
    }
    out
}

} // verus!
