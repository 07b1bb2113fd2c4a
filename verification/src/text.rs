//! Character-level text helpers shared by the configuration parsers and the
//! transcript filters: Unicode-whitespace trimming, ASCII case folding and
//! literal comparison, all stated over the `Seq<char>` view of a string.

use vstd::prelude::*;
use vstd::string::*;

verus! {

/// The Unicode `White_Space` property, which is what `char::is_whitespace` tests.
pub open spec fn is_white_space(c: char) -> bool {
    let u = c as u32;
    ||| 0x09 <= u <= 0x0D
    ||| u == 0x20
    ||| u == 0x85
    ||| u == 0xA0
    ||| u == 0x1680
    ||| 0x2000 <= u <= 0x200A
    ||| u == 0x2028
    ||| u == 0x2029
    ||| u == 0x202F
    ||| u == 0x205F
    ||| u == 0x3000
}

/// ASCII punctuation, as `char::is_ascii_punctuation` defines it.
pub open spec fn is_ascii_punct(c: char) -> bool {
    let u = c as u32;
    ||| 0x21 <= u <= 0x2F
    ||| 0x3A <= u <= 0x40
    ||| 0x5B <= u <= 0x60
    ||| 0x7B <= u <= 0x7E
}

/// The full-width punctuation that transcripts are padded with: `。、，！？…：；`.
pub open spec fn is_cjk_filler(c: char) -> bool {
    let u = c as u32;
    ||| u == 0x3002
    ||| u == 0x3001
    ||| u == 0xFF0C
    ||| u == 0xFF01
    ||| u == 0xFF1F
    ||| u == 0x2026
    ||| u == 0xFF1A
    ||| u == 0xFF1B
}

/// Which characters a trim removes from both ends.
#[derive(Clone, Copy, PartialEq, Eq, Debug)]
pub enum TrimClass {
    /// Unicode whitespace only (`str::trim`).
    Space,
    /// Whitespace, ASCII punctuation and full-width filler punctuation.
    SpaceAndPunct,
}

pub open spec fn in_class(k: TrimClass, c: char) -> bool {
    match k {
        TrimClass::Space => is_white_space(c),
        TrimClass::SpaceAndPunct => is_white_space(c) || is_ascii_punct(c) || is_cjk_filler(c),
    }
}

/// `s` without its leading characters of class `k`.
pub open spec fn strip_front(s: Seq<char>, k: TrimClass) -> Seq<char>
    decreases s.len(),
{
    if s.len() > 0 && in_class(k, s[0]) {
        strip_front(s.drop_first(), k)
    } else {
        s
    }
}

/// `s` without its trailing characters of class `k`.
pub open spec fn strip_back(s: Seq<char>, k: TrimClass) -> Seq<char>
    decreases s.len(),
{
    if s.len() > 0 && in_class(k, s.last()) {
        strip_back(s.drop_last(), k)
    } else {
        s
    }
}

/// `s` without leading and trailing characters of class `k`.
pub open spec fn trim_by(s: Seq<char>, k: TrimClass) -> Seq<char> {
    strip_back(strip_front(s, k), k)
}

/// What `str::trim` returns.
pub open spec fn trimmed(s: Seq<char>) -> Seq<char> {
    trim_by(s, TrimClass::Space)
}

/// True when nothing but whitespace is in `s` (`s.trim().is_empty()`).
pub open spec fn is_blank(s: Seq<char>) -> bool {
    trimmed(s).len() == 0
}

/// ASCII lower-casing of one character: `A`..`Z` become `a`..`z`.
pub open spec fn ascii_lower(c: char) -> char {
    if 'A' <= c && c <= 'Z' {
        ((c as u32) + 32) as char
    } else {
        c
    }
}

pub open spec fn ascii_lower_seq(s: Seq<char>) -> Seq<char> {
    Seq::new(s.len(), |i: int| ascii_lower(s[i]))
}

pub open spec fn all_ascii(s: Seq<char>) -> bool {
    forall|i: int| 0 <= i < s.len() ==> (#[trigger] s[i] as u32) < 128
}

/// Only the letters `a`..`z`.
pub open spec fn is_lower_word(s: Seq<char>) -> bool {
    forall|i: int| 0 <= i < s.len() ==> 'a' <= #[trigger] s[i] && s[i] <= 'z'
}

/// Name for the result of `str::to_lowercase` (Unicode lower-casing).
pub uninterp spec fn unicode_lowercase(s: Seq<char>) -> Seq<char>;

/// Lower-cases `s` with `str::to_lowercase`.
/// The contract claims that the result is a function of `s` alone and that on an
/// all-ASCII string it is the ASCII lower-casing of it (the Unicode lower-case
/// mapping of `A`..`Z` is `a`..`z` and every other ASCII character maps to itself).
/// What it does to other characters is left unsaid.
#[verifier::external_body]
pub fn to_lowercase(s: &str) -> (r: String)
    ensures
        r@ == unicode_lowercase(s@),
        all_ascii(s@) ==> r@ == ascii_lower_seq(s@),
{
    s.to_lowercase()
}

pub fn is_white_space_char(c: char) -> (b: bool)
    ensures
        b == is_white_space(c),
{
    let u = c as u32;
    (0x09 <= u && u <= 0x0D) || u == 0x20 || u == 0x85 || u == 0xA0 || u == 0x1680 || (0x2000
        <= u && u <= 0x200A) || u == 0x2028 || u == 0x2029 || u == 0x202F || u == 0x205F || u
        == 0x3000
}

pub fn in_class_char(k: TrimClass, c: char) -> (b: bool)
    ensures
        b == in_class(k, c),
{
    let ws = is_white_space_char(c);
    match k {
        TrimClass::Space => ws,
        TrimClass::SpaceAndPunct => {
            let u = c as u32;
            let punct = (0x21 <= u && u <= 0x2F) || (0x3A <= u && u <= 0x40) || (0x5B <= u && u
                <= 0x60) || (0x7B <= u && u <= 0x7E);
            let filler = u == 0x3002 || u == 0x3001 || u == 0xFF0C || u == 0xFF01 || u == 0xFF1F
                || u == 0x2026 || u == 0xFF1A || u == 0xFF1B;
            ws || punct || filler
        },
    }
}

/// The characters of `s`, in order.
pub fn chars_of(s: &str) -> (v: Vec<char>)
    ensures
        v@ == s@,
{
    let mut v: Vec<char> = Vec::new();
    for c in it: s.chars()
        invariant
            v@ == it.seq().take(it.index() as int),
            it.seq() == s@,
    {
        v.push(c);
    }
    v
}

proof fn lemma_strip_front_skip(s: Seq<char>, k: TrimClass, i: int)
    requires
        0 <= i <= s.len(),
        forall|j: int| 0 <= j < i ==> in_class(k, #[trigger] s[j]),
    ensures
        strip_front(s, k) == strip_front(s.subrange(i, s.len() as int), k),
    decreases i,
{
    if i > 0 {
        assert(s.drop_first().subrange(i - 1, s.drop_first().len() as int) =~= s.subrange(
            i,
            s.len() as int,
        ));
        lemma_strip_front_skip(s.drop_first(), k, i - 1);
    } else {
        assert(s.subrange(0, s.len() as int) =~= s);
    }
}

proof fn lemma_strip_back_skip(s: Seq<char>, k: TrimClass, j: int)
    requires
        0 <= j <= s.len(),
        forall|m: int| j <= m < s.len() ==> in_class(k, #[trigger] s[m]),
    ensures
        strip_back(s, k) == strip_back(s.subrange(0, j), k),
    decreases s.len() - j,
{
    if j < s.len() {
        assert(s.drop_last().subrange(0, j) =~= s.subrange(0, j));
        lemma_strip_back_skip(s.drop_last(), k, j);
    } else {
        assert(s.subrange(0, s.len() as int) =~= s);
    }
}

/// The bounds `(a, b)` such that `s[a..b]` is `s` trimmed by class `k`.
pub fn trim_bounds(v: &Vec<char>, k: TrimClass) -> (r: (usize, usize))
    ensures
        r.0 <= r.1 <= v@.len(),
        v@.subrange(r.0 as int, r.1 as int) == trim_by(v@, k),
{
    let n = v.len();
    let mut a: usize = 0;
    while a < n && in_class_char(k, v[a])
        invariant
            a <= n == v@.len(),
            forall|j: int| 0 <= j < a ==> in_class(k, #[trigger] v@[j]),
        decreases n - a,
    {
        a = a + 1;
    }
    proof {
        lemma_strip_front_skip(v@, k, a as int);
        let t = v@.subrange(a as int, n as int);
        if t.len() > 0 {
            assert(t[0] == v@[a as int]);
        }
        assert(strip_front(t, k) == t);
    }
    let ghost t = v@.subrange(a as int, n as int);
    let mut b: usize = n;
    while b > a && in_class_char(k, v[b - 1])
        invariant
            a <= b <= n == v@.len(),
            t == v@.subrange(a as int, n as int),
            forall|m: int| b <= m < n ==> in_class(k, #[trigger] v@[m]),
        decreases b,
    {
        b = b - 1;
    }
    proof {
        assert forall|m: int| (b - a) <= m < t.len() implies in_class(k, #[trigger] t[m]) by {
            assert(t[m] == v@[m + a]);
        }
        lemma_strip_back_skip(t, k, (b - a) as int);
        let u = t.subrange(0, (b - a) as int);
        assert(u =~= v@.subrange(a as int, b as int));
        if u.len() > 0 {
            assert(u.last() == v@[b - 1]);
        }
        assert(strip_back(u, k) == u);
    }
    (a, b)
}

/// `s` with leading and trailing characters of class `k` removed.
pub fn trim_class(s: &str, k: TrimClass) -> (r: String)
    ensures
        r@ == trim_by(s@, k),
        all_ascii(s@) ==> all_ascii(r@),
{
    let v = chars_of(s);
    let (a, b) = trim_bounds(&v, k);
    let piece = s.substring_char(a, b);
    proof {
        if all_ascii(s@) {
            assert forall|i: int| 0 <= i < piece@.len() implies (#[trigger] piece@[i] as u32)
                < 128 by {
                assert(piece@[i] == s@[a + i]);
            }
        }
    }
    String::from_str(piece)
}

/// `s.trim()`, as an owned string.
pub fn trim(s: &str) -> (r: String)
    ensures
        r@ == trimmed(s@),
        all_ascii(s@) ==> all_ascii(r@),
{
    trim_class(s, TrimClass::Space)
}

/// `s.trim().is_empty()`.
pub fn blank(s: &str) -> (b: bool)
    ensures
        b == is_blank(s@),
{
    let v = chars_of(s);
    let (a, b) = trim_bounds(&v, TrimClass::Space);
    a == b
}

/// Whether two strings hold the same characters.
pub fn same_text(a: &str, b: &str) -> (r: bool)
    ensures
        r == (a@ == b@),
{
    let va = chars_of(a);
    let vb = chars_of(b);
    if va.len() != vb.len() {
        return false;
    }
    let mut i: usize = 0;
    while i < va.len()
        invariant
            va@ == a@,
            vb@ == b@,
            va@.len() == vb@.len(),
            i <= va@.len(),
            forall|j: int| 0 <= j < i ==> va@[j] == vb@[j],
        decreases va@.len() - i,
    {
        if va[i] != vb[i] {
            return false;
        }
        i = i + 1;
    }
    assert(va@ =~= vb@);
    true
}

pub fn ascii_lower_char(c: char) -> (r: char)
    ensures
        r == ascii_lower(c),
{
    if 'A' <= c && c <= 'Z' {
        let u: u8 = (c as u8) + 32;
        u as char
    } else {
        c
    }
}

/// `a.eq_ignore_ascii_case(b)`: equal once ASCII letters are folded to lower case.
pub fn eq_ignore_ascii_case(a: &str, b: &str) -> (r: bool)
    ensures
        r == (ascii_lower_seq(a@) == ascii_lower_seq(b@)),
{
    let va = chars_of(a);
    let vb = chars_of(b);
    if va.len() != vb.len() {
        proof {
            assert(ascii_lower_seq(a@).len() != ascii_lower_seq(b@).len());
        }
        return false;
    }
    let mut i: usize = 0;
    while i < va.len()
        invariant
            va@ == a@,
            vb@ == b@,
            va@.len() == vb@.len(),
            i <= va@.len(),
            forall|j: int| 0 <= j < i ==> ascii_lower(va@[j]) == ascii_lower(vb@[j]),
        decreases va@.len() - i,
    {
        if ascii_lower_char(va[i]) != ascii_lower_char(vb[i]) {
            proof {
                assert(ascii_lower_seq(a@)[i as int] != ascii_lower_seq(b@)[i as int]);
            }
            return false;
        }
        i = i + 1;
    }
    assert(ascii_lower_seq(a@) =~= ascii_lower_seq(b@));
    true
}

/// `s.trim_end_matches(c)`: `s` without its trailing copies of `c`.
pub open spec fn strip_trailing(s: Seq<char>, c: char) -> Seq<char>
    decreases s.len(),
{
    if s.len() > 0 && s.last() == c {
        strip_trailing(s.drop_last(), c)
    } else {
        s
    }
}

pub fn trim_end_char(s: &str, c: char) -> (r: String)
    ensures
        r@ == strip_trailing(s@, c),
{
    let v = chars_of(s);
    let mut b: usize = v.len();
    assert(v@.subrange(0, b as int) =~= v@);
    while b > 0 && v[b - 1] == c
        invariant
            b <= v@.len(),
            v@ == s@,
            strip_trailing(s@, c) == strip_trailing(v@.subrange(0, b as int), c),
        decreases b,
    {
        proof {
            let u = v@.subrange(0, b as int);
            assert(u.drop_last() =~= v@.subrange(0, b - 1));
        }
        b = b - 1;
    }
    let piece = s.substring_char(0, b);
    String::from_str(piece)
}

/// `a` followed by `b`.
pub fn join2(a: &str, b: &str) -> (r: String)
    ensures
        r@ == a@ + b@,
{
    let mut r = String::from_str(a);
    r.append(b);
    r
}

/// `a`, `b` and `c`, one after the other.
pub fn join3(a: &str, b: &str, c: &str) -> (r: String)
    ensures
        r@ == a@ + b@ + c@,
{
    let mut r = String::from_str(a);
    r.append(b);
    r.append(c);
    r
}

/// `Some(s)` unless `s` is blank, the filter `Some(s).filter(|p| !p.trim().is_empty())`.
pub fn non_blank(s: &str) -> (r: Option<String>)
    ensures
        is_blank(s@) ==> r is None,
        !is_blank(s@) ==> r is Some && r->0@ == s@,
{
    if blank(s) {
        None
    } else {
        Some(String::from_str(s))
    }
}

proof fn lemma_class_ascii_lower(k: TrimClass, c: char)
    ensures
        in_class(k, ascii_lower(c)) == in_class(k, c),
{
}

proof fn lemma_strip_front_lower(s: Seq<char>, k: TrimClass)
    ensures
        strip_front(ascii_lower_seq(s), k) == ascii_lower_seq(strip_front(s, k)),
    decreases s.len(),
{
    if s.len() > 0 {
        lemma_class_ascii_lower(k, s[0]);
        assert(ascii_lower_seq(s).drop_first() =~= ascii_lower_seq(s.drop_first()));
        lemma_strip_front_lower(s.drop_first(), k);
    }
}

proof fn lemma_strip_back_lower(s: Seq<char>, k: TrimClass)
    ensures
        strip_back(ascii_lower_seq(s), k) == ascii_lower_seq(strip_back(s, k)),
    decreases s.len(),
{
    if s.len() > 0 {
        lemma_class_ascii_lower(k, s.last());
        assert(ascii_lower_seq(s).drop_last() =~= ascii_lower_seq(s.drop_last()));
        lemma_strip_back_lower(s.drop_last(), k);
    }
}

/// Trimming and ASCII lower-casing commute.
pub proof fn lemma_trim_lower_commute(s: Seq<char>, k: TrimClass)
    ensures
        trim_by(ascii_lower_seq(s), k) == ascii_lower_seq(trim_by(s, k)),
{
    lemma_strip_front_lower(s, k);
    lemma_strip_back_lower(strip_front(s, k), k);
}

proof fn lemma_strip_front_shape(s: Seq<char>, k: TrimClass)
    ensures
        strip_front(s, k).len() == 0 || !in_class(k, strip_front(s, k)[0]),
        strip_front(strip_front(s, k), k) == strip_front(s, k),
    decreases s.len(),
{
    if s.len() > 0 && in_class(k, s[0]) {
        lemma_strip_front_shape(s.drop_first(), k);
    }
}

proof fn lemma_strip_back_shape(s: Seq<char>, k: TrimClass)
    ensures
        strip_back(s, k).len() <= s.len(),
        strip_back(s, k) == s.take(strip_back(s, k).len() as int),
        strip_back(s, k).len() == 0 || !in_class(k, strip_back(s, k).last()),
    decreases s.len(),
{
    if s.len() > 0 && in_class(k, s.last()) {
        lemma_strip_back_shape(s.drop_last(), k);
        let b = strip_back(s.drop_last(), k);
        assert(s.drop_last().take(b.len() as int) =~= s.take(b.len() as int));
    } else {
        assert(s.take(s.len() as int) =~= s);
    }
}

/// ASCII lower-casing keeps a string ASCII and is idempotent.
pub proof fn lemma_ascii_lower_idempotent(s: Seq<char>)
    requires
        all_ascii(s),
    ensures
        all_ascii(ascii_lower_seq(s)),
        ascii_lower_seq(ascii_lower_seq(s)) == ascii_lower_seq(s),
{
    let l = ascii_lower_seq(s);
    assert forall|i: int| 0 <= i < l.len() implies (#[trigger] l[i] as u32) < 128
        && ascii_lower(l[i]) == l[i] by {
        assert((s[i] as u32) < 128);
    }
    assert(ascii_lower_seq(l) =~= l);
}

/// A word of lower-case letters is its own trim and its own ASCII lower-casing.
pub proof fn lemma_lower_word_fixed(s: Seq<char>)
    requires
        is_lower_word(s),
    ensures
        trimmed(s) == s,
        all_ascii(s),
        ascii_lower_seq(s) == s,
{
    if s.len() > 0 {
        assert(!in_class(TrimClass::Space, s[0]));
        assert(strip_front(s, TrimClass::Space) == s);
        assert(!in_class(TrimClass::Space, s.last()));
        assert(strip_back(s, TrimClass::Space) == s);
    }
    assert forall|i: int| 0 <= i < s.len() implies (#[trigger] s[i] as u32) < 128 by {
        assert('a' <= s[i] && s[i] <= 'z');
    }
    assert(ascii_lower_seq(s) =~= s);
}

/// Trimming twice is trimming once.
pub proof fn lemma_trim_idempotent(s: Seq<char>, k: TrimClass)
    ensures
        trim_by(trim_by(s, k), k) == trim_by(s, k),
{
    let f = strip_front(s, k);
    let b = strip_back(f, k);
    lemma_strip_front_shape(s, k);
    lemma_strip_back_shape(f, k);
    if b.len() > 0 {
        assert(b[0] == f[0]);
    }
    assert(strip_front(b, k) == b);
    lemma_strip_back_shape(b, k);
    if b.len() > 0 {
        assert(strip_back(b, k) == b);
    }
}

} // verus!
