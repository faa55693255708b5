//! Character-level text helpers: Unicode whitespace trimming, ASCII case
//! folding, prefix and substring tests, all over the `Seq<char>` view of `str`.
use vstd::prelude::*;

verus! {

/// The Unicode `White_Space` property, as `char::is_whitespace` decides it.
pub open spec fn is_ws(c: char) -> bool {
    let u = c as u32;
    ||| 0x09 <= u <= 0x0d
    ||| u == 0x20
    ||| u == 0x85
    ||| u == 0xa0
    ||| u == 0x1680
    ||| 0x2000 <= u <= 0x200a
    ||| u == 0x2028
    ||| u == 0x2029
    ||| u == 0x202f
    ||| u == 0x205f
    ||| u == 0x3000
}

/// `s` with leading and trailing whitespace removed.
pub open spec fn trim_seq(s: Seq<char>) -> Seq<char>
    decreases s.len(),
{
    if s.len() == 0 {
        s
    } else if is_ws(s[0]) {
        trim_seq(s.drop_first())
    } else if is_ws(s.last()) {
        trim_seq(s.drop_last())
    } else {
        s
    }
}

/// The code of `c` after ASCII lower-casing (`A`..`Z` become `a`..`z`).
pub open spec fn lower_code(c: char) -> u32 {
    let u = c as u32;
    if 65 <= u <= 90 {
        (u + 32) as u32
    } else {
        u
    }
}

/// `s.to_ascii_lowercase() == w`.
pub open spec fn lower_eq(s: Seq<char>, w: Seq<char>) -> bool {
    &&& s.len() == w.len()
    &&& forall|i: int| 0 <= i < s.len() ==> lower_code(#[trigger] s[i]) == w[i] as u32
}

/// `s.eq_ignore_ascii_case(w)`.
pub open spec fn eq_ignore_case(s: Seq<char>, w: Seq<char>) -> bool {
    &&& s.len() == w.len()
    &&& forall|i: int| 0 <= i < s.len() ==> lower_code(#[trigger] s[i]) == lower_code(w[i])
}

/// `p` is a prefix of `s`.
pub open spec fn has_prefix(s: Seq<char>, p: Seq<char>) -> bool {
    p.len() <= s.len() && s.subrange(0, p.len() as int) == p
}

/// `p` occurs in `s` starting at `k`.
pub open spec fn occurs_at(s: Seq<char>, p: Seq<char>, k: int) -> bool {
    0 <= k && k + p.len() <= s.len() && s.subrange(k, k + p.len()) == p
}

/// `p` occurs somewhere in `s`.
pub open spec fn has_sub(s: Seq<char>, p: Seq<char>) -> bool {
    exists|k: int| occurs_at(s, p, k)
}

/// `p` occurs in `s` after ASCII lower-casing `s` (`p` taken as it is).
pub open spec fn lower_occurs_at(s: Seq<char>, p: Seq<char>, k: int) -> bool {
    &&& 0 <= k
    &&& k + p.len() <= s.len()
    &&& forall|i: int| 0 <= i < p.len() ==> lower_code(#[trigger] s[k + i]) == p[i] as u32
}

/// `s.to_ascii_lowercase().contains(p)`.
pub open spec fn lower_has_sub(s: Seq<char>, p: Seq<char>) -> bool {
    exists|k: int| lower_occurs_at(s, p, k)
}

/// The character view of an optional string.
pub open spec fn opt_view(o: Option<String>) -> Option<Seq<char>> {
    match o {
        Some(s) => Some(s@),
        None => None,
    }
}

/// `s` contains the character `c`.
pub open spec fn has_char(s: Seq<char>, c: char) -> bool {
    exists|i: int| 0 <= i < s.len() && s[i] == c
}

pub fn is_ws_char(c: char) -> (r: bool)
    ensures
        r == is_ws(c),
{
    let u = c as u32;
    (0x09 <= u && u <= 0x0d) || u == 0x20 || u == 0x85 || u == 0xa0 || u == 0x1680 || (0x2000
        <= u && u <= 0x200a) || u == 0x2028 || u == 0x2029 || u == 0x202f || u == 0x205f || u
        == 0x3000
}

fn lower_code_of(c: char) -> (r: u32)
    ensures
        r == lower_code(c),
{
    let u = c as u32;
    if 65 <= u && u <= 90 {
        u + 32
    } else {
        u
    }
}

/// Trimming twice trims nothing more.
pub proof fn trim_is_idempotent(s: Seq<char>)
    ensures
        trim_seq(trim_seq(s)) == trim_seq(s),
        trim_seq(s).len() > 0 ==> !is_ws(trim_seq(s)[0]) && !is_ws(trim_seq(s).last()),
    decreases s.len(),
{
    if s.len() == 0 {
    } else if is_ws(s[0]) {
        trim_is_idempotent(s.drop_first());
    } else if is_ws(s.last()) {
        trim_is_idempotent(s.drop_last());
    }
}

proof fn lemma_trim(s: Seq<char>, i: int, j: int)
    requires
        0 <= i <= j <= s.len(),
        i < j || (i == s.len() && j == s.len()),
        forall|k: int| 0 <= k < i ==> is_ws(#[trigger] s[k]),
        forall|k: int| j <= k < s.len() ==> is_ws(#[trigger] s[k]),
        i < j ==> !is_ws(s[i]) && !is_ws(s[j - 1]),
    ensures
        trim_seq(s) == s.subrange(i, j),
    decreases s.len(),
{
    if s.len() == 0 {
        assert(s.subrange(i, j) =~= s);
    } else if is_ws(s[0]) {
        let t = s.drop_first();
        if i < j {
            assert forall|k: int| 0 <= k < i - 1 implies is_ws(#[trigger] t[k]) by {
                assert(t[k] == s[k + 1]);
            }
            assert forall|k: int| j - 1 <= k < t.len() implies is_ws(#[trigger] t[k]) by {
                assert(t[k] == s[k + 1]);
            }
            lemma_trim(t, i - 1, j - 1);
            assert(t.subrange(i - 1, j - 1) =~= s.subrange(i, j));
        } else {
            assert forall|k: int| 0 <= k < t.len() implies is_ws(#[trigger] t[k]) by {
                assert(t[k] == s[k + 1]);
            }
            lemma_trim(t, t.len() as int, t.len() as int);
            assert(t.subrange(t.len() as int, t.len() as int) =~= s.subrange(i, j));
        }
    } else if is_ws(s.last()) {
        let t = s.drop_last();
        assert(i == 0);
        assert(j < s.len());
        assert forall|k: int| j <= k < t.len() implies is_ws(#[trigger] t[k]) by {
            assert(t[k] == s[k]);
        }
        lemma_trim(t, i, j);
        assert(t.subrange(i, j) =~= s.subrange(i, j));
    } else {
        assert(i == 0);
        assert(j == s.len());
        assert(s.subrange(i, j) =~= s);
    }
}

/// The character bounds `[i, j)` of `s` with surrounding whitespace removed.
fn trim_bounds(s: &str) -> (r: (usize, usize))
    ensures
        r.0 <= r.1 <= s@.len(),
        trim_seq(s@) == s@.subrange(r.0 as int, r.1 as int),
{
    let n = s.unicode_len();
    let mut i: usize = 0;
    while i < n && is_ws_char(s.get_char(i))
        invariant
            n == s@.len(),
            i <= n,
            forall|k: int| 0 <= k < i ==> is_ws(#[trigger] s@[k]),
        decreases n - i,
    {
        i = i + 1;
    }
    if i == n {
        proof {
            lemma_trim(s@, n as int, n as int);
        }
        return (n, n);
    }
    let mut j: usize = n;
    while j > i + 1 && is_ws_char(s.get_char(j - 1))
        invariant
            n == s@.len(),
            i < n,
            i + 1 <= j <= n,
            forall|k: int| j <= k < n ==> is_ws(#[trigger] s@[k]),
        decreases j,
    {
        j = j - 1;
    }
    proof {
        lemma_trim(s@, i as int, j as int);
    }
    (i, j)
}

/// `str::trim`.
pub fn trim_str(s: &str) -> (r: &str)
    ensures
        r@ == trim_seq(s@),
{
    let (i, j) = trim_bounds(s);
    s.substring_char(i, j)
}

/// Whether `s` is empty or whitespace only, i.e. trims to nothing.
pub fn is_blank(s: &str) -> (r: bool)
    ensures
        r == (trim_seq(s@).len() == 0),
{
    let (i, j) = trim_bounds(s);
    i == j
}

/// `s == w` on the character views.
pub fn str_eq(s: &str, w: &str) -> (r: bool)
    ensures
        r == (s@ == w@),
{
    let n = s.unicode_len();
    let m = w.unicode_len();
    if n != m {
        return false;
    }
    let mut i: usize = 0;
    while i < n
        invariant
            n == s@.len(),
            m == w@.len(),
            n == m,
            i <= n,
            forall|k: int| 0 <= k < i ==> s@[k] == w@[k],
        decreases n - i,
    {
        if s.get_char(i) != w.get_char(i) {
            return false;
        }
        i = i + 1;
    }
    assert(s@ =~= w@);
    true
}

/// `s.to_ascii_lowercase() == w`.
pub fn lower_eq_str(s: &str, w: &str) -> (r: bool)
    ensures
        r == lower_eq(s@, w@),
{
    let n = s.unicode_len();
    let m = w.unicode_len();
    if n != m {
        return false;
    }
    let mut i: usize = 0;
    while i < n
        invariant
            n == s@.len(),
            m == w@.len(),
            n == m,
            i <= n,
            forall|k: int| 0 <= k < i ==> lower_code(#[trigger] s@[k]) == w@[k] as u32,
        decreases n - i,
    {
        if lower_code_of(s.get_char(i)) != w.get_char(i) as u32 {
            return false;
        }
        i = i + 1;
    }
    true
}

/// `s.eq_ignore_ascii_case(w)`.
pub fn eq_ignore_case_str(s: &str, w: &str) -> (r: bool)
    ensures
        r == eq_ignore_case(s@, w@),
{
    let n = s.unicode_len();
    let m = w.unicode_len();
    if n != m {
        return false;
    }
    let mut i: usize = 0;
    while i < n
        invariant
            n == s@.len(),
            m == w@.len(),
            n == m,
            i <= n,
            forall|k: int| 0 <= k < i ==> lower_code(#[trigger] s@[k]) == lower_code(w@[k]),
        decreases n - i,
    {
        if lower_code_of(s.get_char(i)) != lower_code_of(w.get_char(i)) {
            return false;
        }
        i = i + 1;
    }
    true
}

/// Whether `p` matches `s` at character offset `k`, after lower-casing `s`
/// when `fold` is set.
fn matches_at(s: &str, p: &str, k: usize, fold: bool) -> (r: bool)
    ensures
        fold ==> r == lower_occurs_at(s@, p@, k as int),
        !fold ==> r == occurs_at(s@, p@, k as int),
{
    let n = s.unicode_len();
    let m = p.unicode_len();
    if k > n || m > n - k {
        return false;
    }
    let mut i: usize = 0;
    while i < m
        invariant
            n == s@.len(),
            m == p@.len(),
            k + m <= n,
            i <= m,
            fold ==> forall|t: int| 0 <= t < i ==> lower_code(#[trigger] s@[k + t]) == p@[t] as u32,
            !fold ==> forall|t: int| 0 <= t < i ==> #[trigger] s@[k + t] == p@[t],
        decreases m - i,
    {
        let c = s.get_char(k + i);
        let d = p.get_char(i);
        if fold {
            if lower_code_of(c) != d as u32 {
                return false;
            }
        } else {
            if c != d {
                return false;
            }
        }
        i = i + 1;
    }
    if !fold {
        assert(s@.subrange(k as int, k + m) =~= p@) by {
            assert forall|t: int| 0 <= t < m implies s@.subrange(k as int, k + m)[t] == p@[t] by {
                assert(s@[k + t] == p@[t]);
            }
        }
    }
    true
}

/// `s.starts_with(p)`.
pub fn starts_with(s: &str, p: &str) -> (r: bool)
    ensures
        r == has_prefix(s@, p@),
{
    let r = matches_at(s, p, 0, false);
    proof {
        if has_prefix(s@, p@) {
            assert(s@.subrange(0, p@.len() as int) == p@);
        }
    }
    r
}

/// Searches `s` (lower-cased when `fold`) for `p`.
fn find_sub(s: &str, p: &str, fold: bool) -> (r: bool)
    ensures
        fold ==> r == lower_has_sub(s@, p@),
        !fold ==> r == has_sub(s@, p@),
{
    let n = s.unicode_len();
    let mut k: usize = 0;
    while k < n
        invariant
            n == s@.len(),
            k <= n,
            fold ==> forall|t: int| 0 <= t < k ==> !lower_occurs_at(s@, p@, t),
            !fold ==> forall|t: int| 0 <= t < k ==> !occurs_at(s@, p@, t),
        decreases n - k,
    {
        if matches_at(s, p, k, fold) {
            return true;
        }
        k = k + 1;
    }
    if matches_at(s, p, n, fold) {
        return true;
    }
    proof {
        if fold {
            assert forall|t: int| !lower_occurs_at(s@, p@, t) by {
                if 0 <= t < n {
                } else if t == n {
                } else {
                }
            }
        } else {
            assert forall|t: int| !occurs_at(s@, p@, t) by {
                if 0 <= t < n {
                } else if t == n {
                } else {
                }
            }
        }
    }
    false
}

/// `s.contains(p)`.
pub fn contains_str(s: &str, p: &str) -> (r: bool)
    ensures
        r == has_sub(s@, p@),
{
    find_sub(s, p, false)
}

/// `s.to_ascii_lowercase().contains(p)`.
pub fn lower_contains(s: &str, p: &str) -> (r: bool)
    ensures
        r == lower_has_sub(s@, p@),
{
    find_sub(s, p, true)
}

/// `s.contains(c)` for a single character.
pub fn contains_char(s: &str, c: char) -> (r: bool)
    ensures
        r == has_char(s@, c),
{
    let n = s.unicode_len();
    let mut i: usize = 0;
    while i < n
        invariant
            n == s@.len(),
            i <= n,
            forall|k: int| 0 <= k < i ==> s@[k] != c,
        decreases n - i,
    {
        if s.get_char(i) == c {
            return true;
        }
        i = i + 1;
    }
    false
}

} // verus!
