//! Character-level string helpers with their specifications.

use vstd::prelude::*;

verus! {

/// Whether `c` has the Unicode `White_Space` property.
pub uninterp spec fn is_white_space(c: char) -> bool;

/// The Unicode lowercase mapping of a string.
pub uninterp spec fn lowercase(s: Seq<char>) -> Seq<char>;

/// Whether `c` is an ASCII character.
pub open spec fn is_ascii_char(c: char) -> bool {
    (c as u32) < 128
}

/// The ASCII lowercase of a character: `A`-`Z` become `a`-`z`; every other
/// character stays.
pub open spec fn ascii_lower(c: char) -> char {
    if 'A' <= c <= 'Z' {
        ((c as u32) + 32) as char
    } else {
        c
    }
}

/// `char::is_whitespace`: the result is the `White_Space` property of `c`,
/// which the contract names without spelling out the Unicode table. Within
/// ASCII that property holds exactly of the space and of the controls
/// U+0009 to U+000D (tab, line feed, vertical tab, form feed, carriage
/// return).
#[verifier::external_body]
pub(crate) fn char_is_whitespace(c: char) -> (b: bool)
    ensures
        b == is_white_space(c),
        is_ascii_char(c) ==> (b <==> (c == ' ' || ('\u{9}' <= c <= '\u{D}'))),
{
    c.is_whitespace()
}

/// `str::to_lowercase`: the contract names the Unicode lowercase mapping of
/// the argument without spelling it out. Of an all-ASCII string, that
/// mapping lowers `A`-`Z` and keeps every other character.
#[verifier::external_body]
pub(crate) fn to_lowercase(s: &str) -> (r: String)
    ensures
        r@ == lowercase(s@),
        (forall|i: int| 0 <= i < s@.len() ==> is_ascii_char(#[trigger] s@[i])) ==> r@ == s@.map_values(
            |c: char| ascii_lower(c),
        ),
{
    s.to_lowercase()
}

/// The characters of `s`, in order.
pub fn chars_of(s: &str) -> (v: Vec<char>)
    ensures
        v@ == s@,
{
    let mut v: Vec<char> = Vec::new();
    for c in it: s.chars()
        invariant
            v@ == it.seq().take(it.index() as int),
            it.seq() == s@,
    {
        v.push(c);
    }
    v
}

} // verus!

verus! {

/// `p` is a prefix of `s`.
pub open spec fn has_prefix(s: Seq<char>, p: Seq<char>) -> bool {
    p.len() <= s.len() && s.subrange(0, p.len() as int) == p
}

/// `p` is a suffix of `s`.
pub open spec fn has_suffix(s: Seq<char>, p: Seq<char>) -> bool {
    p.len() <= s.len() && s.subrange(s.len() - p.len(), s.len() as int) == p
}

/// `p` occurs somewhere inside `s`.
pub open spec fn has_infix(s: Seq<char>, p: Seq<char>) -> bool {
    exists|i: int| 0 <= i && i + p.len() <= s.len() && #[trigger] s.subrange(i, i + p.len()) == p
}

/// Whether `p` occurs in `s` starting at position `at`.
pub fn occurs_at(s: &Vec<char>, p: &Vec<char>, at: usize) -> (r: bool)
    ensures
        r == (at + p@.len() <= s@.len() && s@.subrange(at as int, at + p@.len()) == p@),
{
    if p.len() > s.len() || at > s.len() - p.len() {
        return false;
    }
    let mut k: usize = 0;
    while k < p.len()
        invariant
            at + p.len() <= s.len(),
            k <= p@.len(),
            forall|j: int| 0 <= j < k ==> s@[at + j] == p@[j],
        decreases p@.len() - k,
    {
        if s[at + k] != p[k] {
            assert(s@.subrange(at as int, at + p@.len())[k as int] != p@[k as int]);
            return false;
        }
        k = k + 1;
    }
    assert(s@.subrange(at as int, at + p@.len()) =~= p@);
    true
}

/// `str::starts_with` for a string pattern.
pub fn str_starts_with(s: &str, p: &str) -> (r: bool)
    ensures
        r == has_prefix(s@, p@),
{
    let sv = chars_of(s);
    let pv = chars_of(p);
    occurs_at(&sv, &pv, 0)
}

/// `str::ends_with` for a string pattern.
pub fn str_ends_with(s: &str, p: &str) -> (r: bool)
    ensures
        r == has_suffix(s@, p@),
{
    let sv = chars_of(s);
    let pv = chars_of(p);
    if pv.len() > sv.len() {
        return false;
    }
    occurs_at(&sv, &pv, sv.len() - pv.len())
}

/// `str::contains` for a string pattern.
pub fn str_contains(s: &str, p: &str) -> (r: bool)
    ensures
        r == has_infix(s@, p@),
{
    let sv = chars_of(s);
    let pv = chars_of(p);
    if pv.len() > sv.len() {
        return false;
    }
    if pv.len() == 0 {
        assert(s@.subrange(0int, 0int + p@.len()) =~= p@);
        return true;
    }
    let bound = sv.len() - pv.len() + 1;
    let mut i: usize = 0;
    while i < bound
        invariant
            bound == sv@.len() - pv@.len() + 1,
            sv@ == s@,
            pv@ == p@,
            i <= bound,
            forall|j: int| 0 <= j < i ==> #[trigger] s@.subrange(j, j + p@.len()) != p@,
        decreases bound - i,
    {
        if occurs_at(&sv, &pv, i) {
            return true;
        }
        i = i + 1;
    }
    false
}

/// Whether two strings hold the same characters.
pub fn str_eq(a: &str, b: &str) -> (r: bool)
    ensures
        r == (a@ == b@),
{
    let av = chars_of(a);
    let bv = chars_of(b);
    if av.len() != bv.len() {
        return false;
    }
    let r = occurs_at(&av, &bv, 0);
    proof {
        if r {
            assert(a@ =~= a@.subrange(0, b@.len() as int));
        } else {
            if a@ == b@ {
                assert(a@.subrange(0, b@.len() as int) =~= b@);
            }
        }
    }
    r
}

} // verus!

verus! {

/// The characters of `s` from position `from` up to (not including) `to`,
/// as an owned string.
pub fn substring(s: &str, from: usize, to: usize) -> (r: String)
    requires
        from <= to <= s@.len(),
    ensures
        r@ == s@.subrange(from as int, to as int),
{
    String::from_str(s.substring_char(from, to))
}

/// Position of the first `c` in `s` at or after `i`; `s.len()` when there is none.
pub open spec fn find_from(s: Seq<char>, c: char, i: int) -> int
    decreases s.len() - i,
{
    if 0 <= i < s.len() {
        if s[i] == c {
            i
        } else {
            find_from(s, c, i + 1)
        }
    } else {
        s.len() as int
    }
}

/// Position of the last `c` in `s` before `j`, if any.
pub open spec fn rfind_before(s: Seq<char>, c: char, j: int) -> Option<int>
    decreases j,
{
    if 0 < j <= s.len() {
        if s[j - 1] == c {
            Some(j - 1)
        } else {
            rfind_before(s, c, j - 1)
        }
    } else {
        None
    }
}

/// End of the run of non-whitespace characters that starts at `i`.
pub open spec fn scan_non_ws(s: Seq<char>, i: int) -> int
    decreases s.len() - i,
{
    if 0 <= i < s.len() && !is_white_space(s[i]) {
        scan_non_ws(s, i + 1)
    } else {
        i
    }
}

/// Position of the first non-whitespace character at or after `i`.
pub open spec fn skip_ws(s: Seq<char>, i: int) -> int
    decreases s.len() - i,
{
    if 0 <= i < s.len() && is_white_space(s[i]) {
        skip_ws(s, i + 1)
    } else {
        i
    }
}

/// End of `s[..j]` once its trailing whitespace is dropped.
pub open spec fn drop_trailing_ws(s: Seq<char>, j: int) -> int
    decreases j,
{
    if 0 < j <= s.len() && is_white_space(s[j - 1]) {
        drop_trailing_ws(s, j - 1)
    } else {
        j
    }
}

/// `s` without leading and trailing whitespace (`str::trim`).
pub open spec fn trim(s: Seq<char>) -> Seq<char> {
    let a = skip_ws(s, 0);
    let e = drop_trailing_ws(s, s.len() as int);
    if a < e {
        s.subrange(a, e)
    } else {
        Seq::empty()
    }
}

/// `find_from` is the first position at or after `i` that holds `c`.
pub proof fn lemma_find_from_first(s: Seq<char>, c: char, i: int, k: int)
    requires
        0 <= i <= k < s.len(),
        s[k] == c,
        forall|m: int| i <= m < k ==> s[m] != c,
    ensures
        find_from(s, c, i) == k,
    decreases k - i,
{
    if i < k {
        lemma_find_from_first(s, c, i + 1, k);
    }
}

/// Position of the first `c` in `v` at or after `i` (`v.len()` if none).
pub fn find_char_from(v: &Vec<char>, c: char, i: usize) -> (r: usize)
    requires
        i <= v@.len(),
    ensures
        r == find_from(v@, c, i as int),
        i <= r <= v@.len(),
{
    let mut k = i;
    while k < v.len() && v[k] != c
        invariant
            i <= k <= v@.len(),
            find_from(v@, c, i as int) == find_from(v@, c, k as int),
        decreases v@.len() - k,
    {
        k = k + 1;
    }
    k
}

/// Position of the last `c` in `v[..j]`, if any.
pub fn rfind_char_before(v: &Vec<char>, c: char, j: usize) -> (r: Option<usize>)
    requires
        j <= v@.len(),
    ensures
        r matches Some(k) ==> k < j && rfind_before(v@, c, j as int) == Some(k as int),
        r is None ==> rfind_before(v@, c, j as int) is None,
{
    let mut k = j;
    while k > 0 && v[k - 1] != c
        invariant
            k <= j <= v@.len(),
            rfind_before(v@, c, j as int) == rfind_before(v@, c, k as int),
        decreases k,
    {
        k = k - 1;
    }
    if k == 0 {
        None
    } else {
        Some(k - 1)
    }
}

/// `str::trim`: `s` without leading and trailing whitespace.
pub fn trim_str(s: &str) -> (r: String)
    ensures
        r@ == trim(s@),
{
    let v = chars_of(s);
    let mut a: usize = 0;
    while a < v.len() && char_is_whitespace(v[a])
        invariant
            a <= v@.len(),
            v@ == s@,
            skip_ws(s@, 0) == skip_ws(s@, a as int),
        decreases v@.len() - a,
    {
        a = a + 1;
    }
    let mut e: usize = v.len();
    while e > 0 && char_is_whitespace(v[e - 1])
        invariant
            e <= v@.len(),
            v@ == s@,
            drop_trailing_ws(s@, s@.len() as int) == drop_trailing_ws(s@, e as int),
        decreases e,
    {
        e = e - 1;
    }
    if a < e {
        substring(s, a, e)
    } else {
        String::new()
    }
}

/// End of the run of non-whitespace characters of `v` starting at `i`.
pub fn scan_non_ws_from(v: &Vec<char>, i: usize) -> (r: usize)
    requires
        i <= v@.len(),
    ensures
        r == scan_non_ws(v@, i as int),
        i <= r <= v@.len(),
{
    let mut k = i;
    while k < v.len() && !char_is_whitespace(v[k])
        invariant
            i <= k <= v@.len(),
            scan_non_ws(v@, i as int) == scan_non_ws(v@, k as int),
        decreases v@.len() - k,
    {
        k = k + 1;
    }
    k
}

} // verus!

verus! {

/// `s` with every trailing repetition of `p` removed (`str::trim_end_matches`).
pub open spec fn strip_suffixes(s: Seq<char>, p: Seq<char>) -> Seq<char>
    decreases s.len(),
{
    if p.len() > 0 && has_suffix(s, p) {
        strip_suffixes(s.subrange(0, s.len() - p.len()), p)
    } else {
        s
    }
}

/// `s` with every leading repetition of `p` removed (`str::trim_start_matches`).
pub open spec fn strip_prefixes(s: Seq<char>, p: Seq<char>) -> Seq<char>
    decreases s.len(),
{
    if p.len() > 0 && has_prefix(s, p) {
        strip_prefixes(s.subrange(p.len() as int, s.len() as int), p)
    } else {
        s
    }
}

/// `str::trim_end_matches` for a string pattern.
pub fn trim_end_matches_str(s: &str, p: &str) -> (r: String)
    ensures
        r@ == strip_suffixes(s@, p@),
{
    let v = chars_of(s);
    let pv = chars_of(p);
    assert(s@.subrange(0, s@.len() as int) =~= s@);
    if pv.len() == 0 {
        return substring(s, 0, v.len());
    }
    let mut e = v.len();
    while e >= pv.len() && occurs_at(&v, &pv, e - pv.len())
        invariant
            e <= v@.len(),
            v@ == s@,
            pv@ == p@,
            pv@.len() > 0,
            strip_suffixes(s@.subrange(0, e as int), p@) == strip_suffixes(s@, p@),
        decreases e,
    {
        let ghost w = s@.subrange(0, e as int);
        assert(w.subrange(w.len() - p@.len(), w.len() as int) =~= s@.subrange(
            e - p@.len(),
            e as int,
        ));
        assert(w.subrange(0, w.len() - p@.len()) =~= s@.subrange(0, e - p@.len()));
        e = e - pv.len();
    }
    proof {
        let w = s@.subrange(0, e as int);
        if e >= pv@.len() {
            assert(w.subrange(w.len() - p@.len(), w.len() as int) =~= s@.subrange(
                e - p@.len(),
                e as int,
            ));
        }
    }
    substring(s, 0, e)
}

/// `str::trim_start_matches` for a string pattern.
pub fn trim_start_matches_str(s: &str, p: &str) -> (r: String)
    ensures
        r@ == strip_prefixes(s@, p@),
{
    let v = chars_of(s);
    let pv = chars_of(p);
    assert(s@.subrange(0, s@.len() as int) =~= s@);
    if pv.len() == 0 {
        return substring(s, 0, v.len());
    }
    let mut a: usize = 0;
    while pv.len() <= v.len() - a && occurs_at(&v, &pv, a)
        invariant
            a <= v@.len(),
            v@ == s@,
            pv@ == p@,
            pv@.len() > 0,
            strip_prefixes(s@.subrange(a as int, s@.len() as int), p@) == strip_prefixes(s@, p@),
        decreases v@.len() - a,
    {
        let ghost w = s@.subrange(a as int, s@.len() as int);
        assert(w.subrange(0, p@.len() as int) =~= s@.subrange(a as int, a + p@.len()));
        assert(w.subrange(p@.len() as int, w.len() as int) =~= s@.subrange(
            a + p@.len(),
            s@.len() as int,
        ));
        a = a + pv.len();
    }
    proof {
        let w = s@.subrange(a as int, s@.len() as int);
        if pv@.len() <= v@.len() - a {
            assert(w.subrange(0, p@.len() as int) =~= s@.subrange(a as int, a + p@.len()));
        }
    }
    substring(s, a, v.len())
}

/// `str::strip_prefix` for a string pattern.
pub fn strip_prefix_str(s: &str, p: &str) -> (r: Option<String>)
    ensures
        r matches Some(rest) ==> has_prefix(s@, p@) && rest@ == s@.subrange(
            p@.len() as int,
            s@.len() as int,
        ),
        r is None ==> !has_prefix(s@, p@),
{
    let v = chars_of(s);
    let pv = chars_of(p);
    if occurs_at(&v, &pv, 0) {
        Some(substring(s, pv.len(), v.len()))
    } else {
        None
    }
}

/// Owned copy of a string slice followed by another.
pub fn concat2(a: &str, b: &str) -> (r: String)
    ensures
        r@ == a@ + b@,
{
    let mut t = String::from_str(a);
    t.append(b);
    t
}

/// Owned copy of three string slices in a row.
pub fn concat3(a: &str, b: &str, c: &str) -> (r: String)
    ensures
        r@ == a@ + b@ + c@,
{
    let mut t = String::from_str(a);
    t.append(b);
    t.append(c);
    t
}

} // verus!
