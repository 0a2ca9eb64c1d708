//! Character-level string operations with exact specifications.
//!
//! Every operation here works on the characters of a string (`Seq<char>`),
//! and its specification says what it returns in terms of those characters.
use vstd::prelude::*;

verus! {

// ---------------------------------------------------------------------------
// Names for what std computes through Unicode tables
// ---------------------------------------------------------------------------

/// Whether every character of a text is ASCII.
pub open spec fn is_ascii_text(s: Seq<char>) -> bool {
    forall|i: int| 0 <= i < s.len() ==> (#[trigger] s[i] as u32) < 128
}

/// A text with `A`..`Z` mapped to `a`..`z` and every other character kept.
pub open spec fn ascii_lowered(s: Seq<char>) -> Seq<char> {
    s.map_values(|c: char| ascii_lower(c))
}

/// The result of `str::to_lowercase` on a text that is not all ASCII.
pub uninterp spec fn unicode_lowercase(s: Seq<char>) -> Seq<char>;

/// The result of `str::to_lowercase`: on ASCII text, `A`..`Z` become
/// `a`..`z`; on other text, the Unicode lowercase mapping (named, not
/// restated).
pub open spec fn lowercase(s: Seq<char>) -> Seq<char> {
    if is_ascii_text(s) {
        ascii_lowered(s)
    } else {
        unicode_lowercase(s)
    }
}

/// Whether `char::is_whitespace` holds of a character that is not ASCII.
pub uninterp spec fn unicode_white_space(c: char) -> bool;

/// Whether `char::is_whitespace` holds of a character: for ASCII, the space
/// and the characters U+0009 to U+000D; else the Unicode `White_Space`
/// property (named, not restated).
pub open spec fn is_white_space(c: char) -> bool {
    if (c as u32) < 128 {
        c == ' ' || ('\t' <= c && c <= '\r')
    } else {
        unicode_white_space(c)
    }
}

/// Whether `char::is_alphanumeric` holds of a character that is not ASCII.
pub uninterp spec fn unicode_alphanumeric(c: char) -> bool;

/// Whether `char::is_alphanumeric` holds of a character: for ASCII, the
/// letters and digits; else the Unicode `Alphabetic` or `Numeric` property
/// (named, not restated).
pub open spec fn is_alphanumeric(c: char) -> bool {
    if (c as u32) < 128 {
        ('0' <= c && c <= '9') || ('a' <= c && c <= 'z') || ('A' <= c && c <= 'Z')
    } else {
        unicode_alphanumeric(c)
    }
}

/// `str::to_lowercase`: on ASCII text it maps `A`..`Z` to `a`..`z` and
/// keeps every other character (as the documentation of `to_lowercase` and
/// `to_ascii_lowercase` show); the contract names its result on any text
/// `unicode_lowercase(s@)`, whose Unicode case tables are not restated.
#[verifier::external_body]
pub fn to_lowercase(s: &str) -> (r: String)
    ensures
        r@ == unicode_lowercase(s@),
        is_ascii_text(s@) ==> r@ == ascii_lowered(s@),
{
    s.to_lowercase()
}

/// `char::is_whitespace`: true of the space and of U+0009 to U+000D and
/// false of the other ASCII characters (the ASCII branch of its source);
/// the contract names its result `unicode_white_space(c)`, the Unicode
/// `White_Space` property, which is not restated.
#[verifier::external_body]
pub fn char_is_whitespace(c: char) -> (b: bool)
    ensures
        b == unicode_white_space(c),
        (c as u32) < 128 ==> b == (c == ' ' || ('\t' <= c && c <= '\r')),
{
    c.is_whitespace()
}

/// `char::is_alphanumeric`: on ASCII characters true exactly of letters and
/// digits (as documented through `is_alphabetic` and `is_numeric`); the
/// contract names its result `unicode_alphanumeric(c)`, the Unicode
/// `Alphabetic` or `Numeric` property, which is not restated.
#[verifier::external_body]
pub fn char_is_alphanumeric(c: char) -> (b: bool)
    ensures
        b == unicode_alphanumeric(c),
        (c as u32) < 128 ==> b == (('0' <= c && c <= '9') || ('a' <= c && c <= 'z') || ('A' <= c
            && c <= 'Z')),
{
    c.is_alphanumeric()
}

/// `String::push`: appends one character.
#[verifier::external_body]
pub(crate) fn push_char(s: &mut String, c: char)
    ensures
        final(s)@ == old(s)@.push(c),
{
    s.push(c);
}

// ---------------------------------------------------------------------------
// Conversions between strings and character vectors
// ---------------------------------------------------------------------------

/// The characters of a string slice, in order.
pub fn chars_of(s: &str) -> (v: Vec<char>)
    ensures
        v@ == s@,
{
    let mut v: Vec<char> = Vec::new();
    for c in it: s.chars()
        invariant
            v@ == it.seq().take(it.index() as int),
            it.seq() == s@,
    {
        v.push(c);
    }
    v
}

/// Builds a `String` from a sequence of characters.
pub fn string_of(v: &Vec<char>) -> (s: String)
    ensures
        s@ == v@,
{
    let mut s = String::new();
    let mut i: usize = 0;
    while i < v.len()
        invariant
            i <= v.len(),
            s@ == v@.take(i as int),
        decreases v.len() - i,
    {
        push_char(&mut s, v[i]);
        i = i + 1;
        assert(v@.take(i as int) == v@.take(i - 1).push(v@[i - 1]));
    }
    assert(v@.take(v.len() as int) == v@);
    s
}

/// A copy of a string with the same characters.
pub fn copy_string(s: &String) -> (r: String)
    ensures
        r@ == s@,
{
    s.clone()
}

/// A `String` with the characters of a string slice.
pub fn owned(s: &str) -> (r: String)
    ensures
        r@ == s@,
{
    s.to_owned()
}

/// Appends the characters of `t` to `v`.
pub fn extend_chars(v: &mut Vec<char>, t: &Vec<char>)
    ensures
        final(v)@ == old(v)@ + t@,
{
    let mut i: usize = 0;
    while i < t.len()
        invariant
            i <= t.len(),
            v@ == old(v)@ + t@.take(i as int),
        decreases t.len() - i,
    {
        v.push(t[i]);
        i = i + 1;
        assert(t@.take(i as int) == t@.take(i - 1).push(t@[i - 1]));
    }
    assert(t@.take(t.len() as int) == t@);
}

/// Appends the characters of a string slice to `v`.
pub fn extend_str(v: &mut Vec<char>, t: &str)
    ensures
        final(v)@ == old(v)@ + t@,
{
    let tc = chars_of(t);
    extend_chars(v, &tc);
}

/// Whether two character vectors are equal.
pub fn chars_eq(a: &Vec<char>, b: &Vec<char>) -> (r: bool)
    ensures
        r == (a@ == b@),
{
    if a.len() != b.len() {
        return false;
    }
    let mut i: usize = 0;
    while i < a.len()
        invariant
            i <= a.len(),
            a.len() == b.len(),
            forall|j: int| 0 <= j < i ==> a@[j] == b@[j],
        decreases a.len() - i,
    {
        if a[i] != b[i] {
            return false;
        }
        i = i + 1;
    }
    assert(a@ =~= b@);
    true
}

/// Whether two strings have the same characters.
pub fn str_eq(a: &str, b: &str) -> (r: bool)
    ensures
        r == (a@ == b@),
{
    let ac = chars_of(a);
    let bc = chars_of(b);
    chars_eq(&ac, &bc)
}


// ---------------------------------------------------------------------------
// Removing and replacing characters
// ---------------------------------------------------------------------------

/// `s` with every occurrence of `c` taken out (what `str::replace(c, "")` gives).
pub open spec fn without(s: Seq<char>, c: char) -> Seq<char>
    decreases s.len(),
{
    if s.len() == 0 {
        s
    } else if s.last() == c {
        without(s.drop_last(), c)
    } else {
        without(s.drop_last(), c).push(s.last())
    }
}

/// `without(s, c)` holds no `c`.
pub proof fn lemma_without_excludes(s: Seq<char>, c: char)
    ensures
        forall|i: int| 0 <= i < without(s, c).len() ==> without(s, c)[i] != c,
    decreases s.len(),
{
    if s.len() > 0 {
        lemma_without_excludes(s.drop_last(), c);
        let w = without(s.drop_last(), c);
        assert forall|i: int| 0 <= i < without(s, c).len() implies without(s, c)[i] != c by {
            if s.last() != c && i == w.len() {
            } else {
                assert(without(s, c)[i] == w[i]);
            }
        }
    }
}

/// Removing `c` from `s + t` removes it from each part.
pub proof fn lemma_without_add(s: Seq<char>, t: Seq<char>, c: char)
    ensures
        without(s + t, c) == without(s, c) + without(t, c),
    decreases t.len(),
{
    if t.len() == 0 {
        assert(s + t =~= s);
        assert(without(s, c) + without(t, c) =~= without(s, c));
    } else {
        lemma_without_add(s, t.drop_last(), c);
        assert((s + t).drop_last() =~= s + t.drop_last());
        assert((s + t).last() == t.last());
        if t.last() != c {
            assert(without(s, c) + without(t.drop_last(), c).push(t.last()) =~= (without(s, c)
                + without(t.drop_last(), c)).push(t.last()));
        }
    }
}

/// Whether a text is ASCII with no upper-case letter.
pub open spec fn lowered_ascii(s: Seq<char>) -> bool {
    forall|i: int| 0 <= i < s.len() ==> (#[trigger] s[i] as u32) < 128 && !('A' <= s[i] && s[i] <= 'Z')
}

/// Removing a character keeps a text ASCII without upper case.
pub proof fn lemma_without_lowered(s: Seq<char>, c: char)
    requires
        lowered_ascii(s),
    ensures
        lowered_ascii(without(s, c)),
    decreases s.len(),
{
    if s.len() > 0 {
        lemma_without_lowered(s.drop_last(), c);
        let w = without(s.drop_last(), c);
        assert forall|i: int| 0 <= i < without(s, c).len() implies (#[trigger] without(s, c)[i] as u32) < 128
            && !('A' <= without(s, c)[i] && without(s, c)[i] <= 'Z') by {
            if s.last() != c && i == w.len() {
                assert(without(s, c)[i] == s[s.len() - 1]);
            } else {
                assert(without(s, c)[i] == w[i]);
            }
        }
    }
}

/// Lower-casing ASCII text gives ASCII text without upper case, and
/// lower-casing that again changes nothing.
pub proof fn lemma_ascii_lowered(s: Seq<char>)
    requires
        is_ascii_text(s),
    ensures
        lowered_ascii(lowercase(s)),
        lowercase(lowercase(s)) == lowercase(s),
{
    let l = ascii_lowered(s);
    assert forall|i: int| 0 <= i < l.len() implies (#[trigger] l[i] as u32) < 128 && !('A' <= l[i] && l[i] <= 'Z') by {
        assert(l[i] == ascii_lower(s[i]));
        assert((s[i] as u32) < 128);
    }
    assert(is_ascii_text(l));
    assert(ascii_lowered(l) =~= l);
}

/// Lower-casing ASCII text without upper case changes nothing.
pub proof fn lemma_lowered_fixed(s: Seq<char>)
    requires
        lowered_ascii(s),
    ensures
        lowercase(s) == s,
{
    assert(is_ascii_text(s));
    assert(ascii_lowered(s) =~= s);
}

/// Removing a character that does not occur changes nothing.
pub proof fn lemma_without_absent(s: Seq<char>, c: char)
    requires
        forall|i: int| 0 <= i < s.len() ==> s[i] != c,
    ensures
        without(s, c) == s,
    decreases s.len(),
{
    if s.len() > 0 {
        lemma_without_absent(s.drop_last(), c);
        assert(s.drop_last().push(s.last()) =~= s);
    }
}

/// The characters of `v` with every `c` removed.
pub fn remove_char(v: &Vec<char>, c: char) -> (r: Vec<char>)
    ensures
        r@ == without(v@, c),
{
    let mut r: Vec<char> = Vec::new();
    let mut i: usize = 0;
    while i < v.len()
        invariant
            i <= v.len(),
            r@ == without(v@.take(i as int), c),
        decreases v.len() - i,
    {
        assert(v@.take(i + 1).drop_last() =~= v@.take(i as int));
        if v[i] != c {
            r.push(v[i]);
        }
        i = i + 1;
    }
    assert(v@.take(v.len() as int) =~= v@);
    r
}

/// `s` with every non-overlapping occurrence of `pat`, found from the left,
/// replaced by `rep` (what `str::replace(pat, rep)` gives for a non-empty `pat`).
pub open spec fn replaced(s: Seq<char>, pat: Seq<char>, rep: Seq<char>) -> Seq<char>
    decreases s.len(),
{
    if pat.len() == 0 || s.len() < pat.len() {
        s
    } else if s.take(pat.len() as int) == pat {
        rep + replaced(s.skip(pat.len() as int), pat, rep)
    } else {
        seq![s[0]] + replaced(s.skip(1), pat, rep)
    }
}

/// Replacing a text that does not occur changes nothing.
pub proof fn lemma_replaced_absent(s: Seq<char>, pat: Seq<char>, rep: Seq<char>)
    requires
        !contains_seq(s, pat),
    ensures
        replaced(s, pat, rep) == s,
    decreases s.len(),
{
    if !(pat.len() == 0 || s.len() < pat.len()) {
        if s.take(pat.len() as int) == pat {
            assert(s.subrange(0, pat.len() as int) =~= s.take(pat.len() as int));
            assert(occurs_at(s, pat, 0));
        } else {
            let t = s.skip(1);
            assert forall|i: int| !occurs_at(t, pat, i) by {
                if occurs_at(t, pat, i) {
                    assert(t.subrange(i, i + pat.len()) =~= s.subrange(i + 1, i + 1 + pat.len()));
                    assert(occurs_at(s, pat, i + 1));
                }
            }
            lemma_replaced_absent(t, pat, rep);
            assert(seq![s[0]] + t =~= s);
        }
    }
}

/// Whether `pat` occurs in `s` at position `i`.
pub open spec fn occurs_at(s: Seq<char>, pat: Seq<char>, i: int) -> bool {
    0 <= i && i + pat.len() <= s.len() && s.subrange(i, i + pat.len()) == pat
}

/// Whether `pat` occurs in `v` at position `i`.
pub fn matches_at(v: &Vec<char>, pat: &Vec<char>, i: usize) -> (r: bool)
    ensures
        r == occurs_at(v@, pat@, i as int),
{
    if i > v.len() || pat.len() > v.len() - i {
        return false;
    }
    let mut k: usize = 0;
    while k < pat.len()
        invariant
            k <= pat.len(),
            i + pat.len() <= v.len(),
            forall|j: int| 0 <= j < k ==> v@[i + j] == pat@[j],
        decreases pat.len() - k,
    {
        if v[i + k] != pat[k] {
            return false;
        }
        k = k + 1;
    }
    assert(v@.subrange(i as int, i + pat.len()) =~= pat@);
    true
}

/// The characters of `v` with each occurrence of `pat` replaced by `rep`.
pub fn replace_all(v: &Vec<char>, pat: &Vec<char>, rep: &Vec<char>) -> (r: Vec<char>)
    requires
        pat.len() > 0,
    ensures
        r@ == replaced(v@, pat@, rep@),
{
    let mut r: Vec<char> = Vec::new();
    let mut i: usize = 0;
    assert(v@.skip(0) =~= v@);
    assert(r@ + replaced(v@, pat@, rep@) =~= replaced(v@, pat@, rep@));
    while i < v.len()
        invariant
            i <= v.len(),
            pat.len() > 0,
            r@ + replaced(v@.skip(i as int), pat@, rep@) == replaced(v@, pat@, rep@),
        decreases v.len() - i,
    {
        let ghost rest = v@.skip(i as int);
        let ghost r0 = r@;
        if matches_at(v, pat, i) {
            assert(rest.take(pat.len() as int) =~= v@.subrange(i as int, i + pat.len()));
            assert(rest.skip(pat.len() as int) =~= v@.skip(i + pat.len()));
            let ghost tail = replaced(v@.skip(i + pat.len()), pat@, rep@);
            assert(replaced(rest, pat@, rep@) == rep@ + tail);
            extend_chars(&mut r, rep);
            assert(r@ + tail =~= r0 + (rep@ + tail));
            i = i + pat.len();
        } else {
            let ghost tail = replaced(v@.skip(i + 1), pat@, rep@);
            proof {
                assert(rest.skip(1) =~= v@.skip(i + 1));
                if rest.len() >= pat.len() {
                    assert(rest.take(pat.len() as int) =~= v@.subrange(i as int, i + pat.len()));
                    assert(rest.take(pat.len() as int) != pat@);
                    assert(replaced(rest, pat@, rep@) == seq![rest[0]] + tail);
                } else {
                    assert(rest.skip(1).len() < pat.len());
                    assert(tail == rest.skip(1));
                    assert(rest =~= seq![rest[0]] + rest.skip(1));
                }
                assert(replaced(rest, pat@, rep@) == seq![v@[i as int]] + tail);
            }
            r.push(v[i]);
            assert(r@ + tail =~= r0 + (seq![v@[i as int]] + tail));
            i = i + 1;
        }
    }
    assert(v@.skip(v.len() as int) =~= Seq::<char>::empty());
    assert(r@ + Seq::<char>::empty() =~= r@);
    r
}

/// `s` with each occurrence of `pat` replaced by `rep`; `s` itself when
/// `pat` is empty.
pub fn replace_str(s: &str, pat: &str, rep: &str) -> (r: String)
    ensures
        r@ == replaced(s@, pat@, rep@),
{
    let v = chars_of(s);
    let p = chars_of(pat);
    if p.len() == 0 {
        return owned(s);
    }
    let w = chars_of(rep);
    let out = replace_all(&v, &p, &w);
    string_of(&out)
}

// ---------------------------------------------------------------------------
// Searching
// ---------------------------------------------------------------------------

/// Whether `t` occurs somewhere in `s` (what `str::contains(t)` answers).
pub open spec fn contains_seq(s: Seq<char>, t: Seq<char>) -> bool {
    exists|i: int| #[trigger] occurs_at(s, t, i)
}

/// Whether `t` occurs in `v`.
pub fn contains_chars(v: &Vec<char>, t: &Vec<char>) -> (r: bool)
    ensures
        r == contains_seq(v@, t@),
{
    if t.len() > v.len() {
        assert forall|i: int| !occurs_at(v@, t@, i) by {}
        return false;
    }
    let n: usize = v.len() - t.len();
    let mut i: usize = 0;
    loop
        invariant
            t.len() <= v.len(),
            n == v.len() - t.len(),
            i <= n,
            forall|j: int| 0 <= j < i ==> !occurs_at(v@, t@, j),
        decreases n - i,
    {
        if matches_at(v, t, i) {
            return true;
        }
        if i == n {
            assert forall|j: int| !occurs_at(v@, t@, j) by {
                if 0 <= j < i {
                }
            }
            return false;
        }
        i = i + 1;
    }
}

/// Whether `s` begins with `t`.
pub open spec fn starts_with(s: Seq<char>, t: Seq<char>) -> bool {
    t.len() <= s.len() && s.take(t.len() as int) == t
}

/// The position of the first `c` in `s`, if any.
pub open spec fn first_pos(s: Seq<char>, c: char) -> Option<int>
    decreases s.len(),
{
    if s.len() == 0 {
        None
    } else {
        match first_pos(s.drop_last(), c) {
            Some(i) => Some(i),
            None => if s.last() == c {
                Some(s.len() - 1)
            } else {
                None
            },
        }
    }
}

/// `first_pos` is the least position holding `c`.
pub proof fn lemma_first_pos(s: Seq<char>, c: char)
    ensures
        first_pos(s, c) matches Some(i) ==> 0 <= i < s.len() && s[i] == c && forall|j: int|
            0 <= j < i ==> s[j] != c,
        first_pos(s, c) is None ==> forall|j: int| 0 <= j < s.len() ==> s[j] != c,
    decreases s.len(),
{
    if s.len() > 0 {
        lemma_first_pos(s.drop_last(), c);
        assert forall|j: int| 0 <= j < s.len() - 1 implies s.drop_last()[j] == s[j] by {}
    }
}

/// The position of the first `c` in `v`.
pub fn find_char(v: &Vec<char>, c: char) -> (r: Option<usize>)
    ensures
        r matches Some(i) ==> first_pos(v@, c) == Some(i as int),
        r is None ==> first_pos(v@, c) is None,
{
    let mut i: usize = 0;
    while i < v.len()
        invariant
            i <= v.len(),
            first_pos(v@.take(i as int), c) is None,
        decreases v.len() - i,
    {
        assert(v@.take(i + 1).drop_last() =~= v@.take(i as int));
        if v[i] == c {
            proof {
                lemma_first_pos_take(v@, c, i + 1);
            }
            return Some(i);
        }
        i = i + 1;
    }
    assert(v@.take(v.len() as int) =~= v@);
    None
}

/// A first position found in a prefix is the first position in the whole.
pub proof fn lemma_first_pos_take(s: Seq<char>, c: char, n: int)
    requires
        0 <= n <= s.len(),
        first_pos(s.take(n), c) is Some,
    ensures
        first_pos(s, c) == first_pos(s.take(n), c),
    decreases s.len(),
{
    if n < s.len() {
        assert(s.drop_last().take(n) =~= s.take(n));
        lemma_first_pos_take(s.drop_last(), c, n);
    } else {
        assert(s.take(n) =~= s);
    }
}

// ---------------------------------------------------------------------------
// Trimming
// ---------------------------------------------------------------------------

/// `s` without its leading white space.
pub open spec fn trim_start(s: Seq<char>) -> Seq<char>
    decreases s.len(),
{
    if s.len() > 0 && is_white_space(s[0]) {
        trim_start(s.drop_first())
    } else {
        s
    }
}

/// `s` without its trailing white space.
pub open spec fn trim_end(s: Seq<char>) -> Seq<char>
    decreases s.len(),
{
    if s.len() > 0 && is_white_space(s.last()) {
        trim_end(s.drop_last())
    } else {
        s
    }
}

/// Trimming the start of two ASCII texts equal ignoring ASCII case gives
/// two ASCII texts equal ignoring ASCII case.
pub proof fn lemma_trim_start_ci(a: Seq<char>, b: Seq<char>)
    requires
        is_ascii_text(a),
        is_ascii_text(b),
        eq_ascii_ci(a, b),
    ensures
        is_ascii_text(trim_start(a)),
        is_ascii_text(trim_start(b)),
        eq_ascii_ci(trim_start(a), trim_start(b)),
    decreases a.len(),
{
    if a.len() > 0 {
        assert(ascii_lower(a[0]) == ascii_lower(b[0]));
        assert((a[0] as u32) < 128 && (b[0] as u32) < 128);
        assert(is_white_space(a[0]) == is_white_space(b[0]));
        if is_white_space(a[0]) {
            let a1 = a.drop_first();
            let b1 = b.drop_first();
            assert forall|i: int| 0 <= i < a1.len() implies ascii_lower(a1[i]) == ascii_lower(b1[i]) by {
                assert(a1[i] == a[i + 1] && b1[i] == b[i + 1]);
            }
            assert forall|i: int| 0 <= i < a1.len() implies (#[trigger] a1[i] as u32) < 128 by {
                assert(a1[i] == a[i + 1]);
            }
            assert forall|i: int| 0 <= i < b1.len() implies (#[trigger] b1[i] as u32) < 128 by {
                assert(b1[i] == b[i + 1]);
            }
            lemma_trim_start_ci(a1, b1);
        }
    }
}

/// Trimming the end of two ASCII texts equal ignoring ASCII case gives two
/// ASCII texts equal ignoring ASCII case.
pub proof fn lemma_trim_end_ci(a: Seq<char>, b: Seq<char>)
    requires
        is_ascii_text(a),
        is_ascii_text(b),
        eq_ascii_ci(a, b),
    ensures
        is_ascii_text(trim_end(a)),
        is_ascii_text(trim_end(b)),
        eq_ascii_ci(trim_end(a), trim_end(b)),
    decreases a.len(),
{
    if a.len() > 0 {
        let n = a.len() - 1;
        assert(ascii_lower(a[n]) == ascii_lower(b[n]));
        assert((a[n] as u32) < 128 && (b[n] as u32) < 128);
        assert(is_white_space(a.last()) == is_white_space(b.last()));
        if is_white_space(a.last()) {
            let a1 = a.drop_last();
            let b1 = b.drop_last();
            assert forall|i: int| 0 <= i < a1.len() implies ascii_lower(a1[i]) == ascii_lower(b1[i]) by {
                assert(a1[i] == a[i] && b1[i] == b[i]);
            }
            assert forall|i: int| 0 <= i < a1.len() implies (#[trigger] a1[i] as u32) < 128 by {
                assert(a1[i] == a[i]);
            }
            assert forall|i: int| 0 <= i < b1.len() implies (#[trigger] b1[i] as u32) < 128 by {
                assert(b1[i] == b[i]);
            }
            lemma_trim_end_ci(a1, b1);
        }
    }
}

/// `s` without leading and trailing white space (what `str::trim` gives).
pub open spec fn trimmed(s: Seq<char>) -> Seq<char> {
    trim_end(trim_start(s))
}

/// The characters of `v` without leading and trailing white space.
pub fn trim_chars(v: &Vec<char>) -> (r: Vec<char>)
    ensures
        r@ == trimmed(v@),
{
    let mut a: usize = 0;
    assert(v@.skip(0) =~= v@);
    while a < v.len() && char_is_whitespace(v[a])
        invariant
            a <= v.len(),
            trim_start(v@) == trim_start(v@.skip(a as int)),
        decreases v.len() - a,
    {
        assert(v@.skip(a as int).drop_first() =~= v@.skip(a + 1));
        a = a + 1;
    }
    let ghost ts = v@.skip(a as int);
    assert(trim_start(v@) == ts);
    let mut b: usize = v.len();
    while b > a && char_is_whitespace(v[b - 1])
        invariant
            a <= b <= v.len(),
            ts == v@.skip(a as int),
            trim_end(ts) == trim_end(v@.subrange(a as int, b as int)),
        decreases b,
    {
        assert(v@.subrange(a as int, b as int).drop_last() =~= v@.subrange(a as int, b - 1));
        b = b - 1;
    }
    proof {
        if b == v.len() {
            assert(v@.subrange(a as int, b as int) =~= ts);
        }
    }
    let mut r: Vec<char> = Vec::new();
    let mut k: usize = a;
    while k < b
        invariant
            a <= k <= b,
            b <= v.len(),
            r@ == v@.subrange(a as int, k as int),
        decreases b - k,
    {
        r.push(v[k]);
        k = k + 1;
        assert(r@ =~= v@.subrange(a as int, k as int));
    }
    r
}

// ---------------------------------------------------------------------------
// ASCII case
// ---------------------------------------------------------------------------

/// A character with `A`..`Z` mapped to `a`..`z` (what `char::to_ascii_lowercase` gives).
pub open spec fn ascii_lower(c: char) -> char {
    if 'A' <= c && c <= 'Z' {
        ((c as u32) + 32) as char
    } else {
        c
    }
}

/// Whether two strings match ignoring ASCII case (what `str::eq_ignore_ascii_case` answers).
pub open spec fn eq_ascii_ci(a: Seq<char>, b: Seq<char>) -> bool {
    a.len() == b.len() && forall|i: int| 0 <= i < a.len() ==> ascii_lower(a[i]) == ascii_lower(b[i])
}

/// `ascii_lower` computed.
pub fn lower_ascii_char(c: char) -> (r: char)
    ensures
        r == ascii_lower(c),
{
    if 'A' <= c && c <= 'Z' {
        let u: u8 = c as u8;
        let l: u8 = u + 32;
        l as char
    } else {
        c
    }
}

/// Whether two character vectors match ignoring ASCII case.
pub fn eq_ignore_ascii_case_chars(a: &Vec<char>, b: &Vec<char>) -> (r: bool)
    ensures
        r == eq_ascii_ci(a@, b@),
{
    if a.len() != b.len() {
        return false;
    }
    let mut i: usize = 0;
    while i < a.len()
        invariant
            i <= a.len(),
            a.len() == b.len(),
            forall|j: int| 0 <= j < i ==> ascii_lower(a@[j]) == ascii_lower(b@[j]),
        decreases a.len() - i,
    {
        if lower_ascii_char(a[i]) != lower_ascii_char(b[i]) {
            return false;
        }
        i = i + 1;
    }
    true
}


// ---------------------------------------------------------------------------
// Splitting
// ---------------------------------------------------------------------------

/// The pieces of `s` between occurrences of `c` (what `str::split(c)` yields):
/// one more piece than there are occurrences, empty pieces kept.
pub open spec fn split_on(s: Seq<char>, c: char) -> Seq<Seq<char>>
    decreases s.len(),
{
    if s.len() == 0 {
        seq![Seq::<char>::empty()]
    } else {
        let r = split_on(s.drop_last(), c);
        if s.last() == c {
            r.push(Seq::<char>::empty())
        } else {
            r.update(r.len() - 1, r.last().push(s.last()))
        }
    }
}

/// `split_on` always yields at least one piece.
pub proof fn lemma_split_on_nonempty(s: Seq<char>, c: char)
    ensures
        split_on(s, c).len() >= 1,
    decreases s.len(),
{
    if s.len() > 0 {
        lemma_split_on_nonempty(s.drop_last(), c);
    }
}

/// The pieces of `v` between occurrences of `c`.
pub fn split_chars(v: &Vec<char>, c: char) -> (r: Vec<Vec<char>>)
    ensures
        r@.len() == split_on(v@, c).len(),
        forall|k: int| 0 <= k < r@.len() ==> #[trigger] r@[k]@ == split_on(v@, c)[k],
{
    let mut r: Vec<Vec<char>> = Vec::new();
    let mut cur: Vec<char> = Vec::new();
    let mut i: usize = 0;
    while i < v.len()
        invariant
            i <= v.len(),
            split_on(v@.take(i as int), c).len() == r@.len() + 1,
            forall|k: int| 0 <= k < r@.len() ==> #[trigger] r@[k]@ == split_on(v@.take(i as int), c)[k],
            cur@ == split_on(v@.take(i as int), c).last(),
        decreases v.len() - i,
    {
        proof {
            lemma_split_on_nonempty(v@.take(i as int), c);
        }
        assert(v@.take(i + 1).drop_last() =~= v@.take(i as int));
        if v[i] == c {
            let done = cur;
            r.push(done);
            cur = Vec::new();
        } else {
            cur.push(v[i]);
        }
        i = i + 1;
    }
    assert(v@.take(v.len() as int) =~= v@);
    r.push(cur);
    r
}

/// The part of `s` before its first `c` (the first piece of `split_on(s, c)`).
pub open spec fn before_first(s: Seq<char>, c: char) -> Seq<char> {
    match first_pos(s, c) {
        Some(i) => s.take(i),
        None => s,
    }
}

/// A split yields a single piece exactly when the separator does not occur.
pub proof fn lemma_split_single(s: Seq<char>, c: char)
    ensures
        split_on(s, c).len() == 1 <==> first_pos(s, c) is None,
    decreases s.len(),
{
    if s.len() > 0 {
        lemma_split_single(s.drop_last(), c);
        lemma_split_on_nonempty(s.drop_last(), c);
    }
}

/// The first piece of a split is the part before the first separator.
pub proof fn lemma_split_first(s: Seq<char>, c: char)
    ensures
        split_on(s, c)[0] == before_first(s, c),
    decreases s.len(),
{
    lemma_split_on_nonempty(s, c);
    if s.len() > 0 {
        lemma_split_first(s.drop_last(), c);
        lemma_split_on_nonempty(s.drop_last(), c);
        lemma_split_single(s.drop_last(), c);
        lemma_first_pos(s.drop_last(), c);
        lemma_first_pos(s, c);
        match first_pos(s.drop_last(), c) {
            Some(i) => {
                assert(s.drop_last().take(i) =~= s.take(i));
            },
            None => {
                assert(s.drop_last().push(s.last()) =~= s);
                if s.last() == c {
                    assert(s.drop_last() =~= s.take(s.len() - 1));
                }
            },
        }
    }
}

// ---------------------------------------------------------------------------
// Decimal numerals
// ---------------------------------------------------------------------------

/// The ASCII digit for a value below ten.
pub open spec fn digit_char(d: nat) -> char {
    ((d + 48) as u8) as char
}

/// The decimal numeral of a natural number, without leading zeros.
pub open spec fn decimal(n: nat) -> Seq<char>
    decreases n,
{
    if n < 10 {
        seq![digit_char(n)]
    } else {
        decimal(n / 10).push(digit_char(n % 10))
    }
}

/// The decimal numeral of an integer, with a leading `-` when negative
/// (what `to_string` gives for the integer types).
pub open spec fn signed_decimal(i: int) -> Seq<char> {
    if i < 0 {
        seq!['-'] + decimal((-i) as nat)
    } else {
        decimal(i as nat)
    }
}

/// The decimal numeral of `n`.
pub fn u64_to_decimal(n: u64) -> (r: Vec<char>)
    ensures
        r@ == decimal(n as nat),
    decreases n,
{
    if n < 10 {
        let d: u8 = n as u8;
        let ch: char = (d + 48) as char;
        let mut r: Vec<char> = Vec::new();
        r.push(ch);
        assert(r@ =~= seq![digit_char(n as nat)]);
        r
    } else {
        let mut r = u64_to_decimal(n / 10);
        let d: u8 = (n % 10) as u8;
        let ch: char = (d + 48) as char;
        r.push(ch);
        r
    }
}

/// The decimal numeral of `n`, as a `String`.
pub fn usize_to_string(n: usize) -> (r: String)
    ensures
        r@ == decimal(n as nat),
{
    let v = u64_to_decimal(n as u64);
    string_of(&v)
}

/// The decimal numeral of `n`, as a `String` (what `i32::to_string` gives).
pub fn i32_to_string(n: i32) -> (r: String)
    ensures
        r@ == signed_decimal(n as int),
{
    if n < 0 {
        let m: i64 = -(n as i64);
        let mut v: Vec<char> = Vec::new();
        v.push('-');
        let d = u64_to_decimal(m as u64);
        extend_chars(&mut v, &d);
        assert(v@ =~= seq!['-'] + decimal((-(n as int)) as nat));
        string_of(&v)
    } else {
        let d = u64_to_decimal(n as u64);
        string_of(&d)
    }
}

// ---------------------------------------------------------------------------
// Reading decimal numerals
// ---------------------------------------------------------------------------

/// Whether `c` is an ASCII digit.
pub open spec fn is_digit(c: char) -> bool {
    '0' <= c && c <= '9'
}

/// Whether `s` is a non-empty run of ASCII digits.
pub open spec fn all_digits(s: Seq<char>) -> bool {
    s.len() > 0 && forall|i: int| 0 <= i < s.len() ==> is_digit(#[trigger] s[i])
}

/// The value of a run of ASCII digits.
pub open spec fn digits_value(s: Seq<char>) -> nat
    decreases s.len(),
{
    if s.len() == 0 {
        0
    } else {
        digits_value(s.drop_last()) * 10 + ((s.last() as u32) - 48) as nat
    }
}

/// The value of `s` read as a bounded count: `Some` exactly when `s` is a
/// non-empty run of ASCII digits whose value is at most `max`.
pub open spec fn bounded_count(s: Seq<char>, max: nat) -> Option<nat> {
    if all_digits(s) && digits_value(s) <= max {
        Some(digits_value(s))
    } else {
        None
    }
}

/// Reads `v` as a bounded count.
pub fn read_bounded_count(v: &Vec<char>, max: u32) -> (r: Option<u32>)
    ensures
        r matches Some(n) ==> bounded_count(v@, max as nat) == Some(n as nat),
        r is None ==> bounded_count(v@, max as nat) is None,
{
    if v.len() == 0 {
        return None;
    }
    let mut acc: u64 = 0;
    let mut i: usize = 0;
    while i < v.len()
        invariant
            i <= v.len(),
            v.len() > 0,
            acc <= max,
            forall|j: int| 0 <= j < i ==> is_digit(#[trigger] v@[j]),
            acc as nat == digits_value(v@.take(i as int)),
        decreases v.len() - i,
    {
        let c = v[i];
        assert(v@.take(i + 1).drop_last() =~= v@.take(i as int));
        if !('0' <= c && c <= '9') {
            return None;
        }
        let d: u64 = ((c as u32) - 48) as u64;
        let next: u64 = acc * 10 + d;
        if next > max as u64 {
            proof {
                lemma_digits_bound_prefix(v@, i + 1);
                assert(v@.take(i + 1).len() == i + 1);
            }
            return None;
        }
        acc = next;
        i = i + 1;
    }
    assert(v@.take(v.len() as int) =~= v@);
    Some(acc as u32)
}

/// The value of a run of digits is at least the value of any prefix.
proof fn lemma_digits_bound_prefix(s: Seq<char>, n: int)
    requires
        0 <= n <= s.len(),
        forall|i: int| 0 <= i < n ==> is_digit(#[trigger] s[i]),
    ensures
        all_digits(s) ==> digits_value(s) >= digits_value(s.take(n)),
    decreases s.len() - n,
{
    if n < s.len() && all_digits(s) {
        lemma_digits_bound_prefix(s, n + 1);
        assert(s.take(n + 1).drop_last() =~= s.take(n));
    } else if n == s.len() {
        assert(s.take(n) =~= s);
    }
}

/// The integer `s` denotes, read as `str::parse::<i32>` reads it: an optional
/// `+` or `-` followed by a non-empty run of ASCII digits.
pub open spec fn signed_value(s: Seq<char>) -> Option<int> {
    if s.len() > 0 && s[0] == '-' {
        if all_digits(s.drop_first()) {
            Some(-(digits_value(s.drop_first()) as int))
        } else {
            None
        }
    } else if s.len() > 0 && s[0] == '+' {
        if all_digits(s.drop_first()) {
            Some(digits_value(s.drop_first()) as int)
        } else {
            None
        }
    } else if all_digits(s) {
        Some(digits_value(s) as int)
    } else {
        None
    }
}

/// The `i32` that `str::parse::<i32>` gives for `s`, if any.
pub open spec fn parsed_i32(s: Seq<char>) -> Option<i32> {
    match signed_value(s) {
        Some(v) => if i32::MIN <= v && v <= i32::MAX {
            Some(v as i32)
        } else {
            None
        },
        None => None,
    }
}

/// Parses `v` as an `i32`.
pub fn parse_i32_chars(v: &Vec<char>) -> (r: Option<i32>)
    ensures
        r == parsed_i32(v@),
{
    let neg = v.len() > 0 && v[0] == '-';
    let signed = v.len() > 0 && (v[0] == '-' || v[0] == '+');
    let mut body: Vec<char> = Vec::new();
    let mut k: usize = if signed { 1 } else { 0 };
    let start: usize = k;
    while k < v.len()
        invariant
            start <= k <= v.len(),
            start <= 1,
            start == 1 ==> v.len() > 0,
            body@ == v@.subrange(start as int, k as int),
        decreases v.len() - k,
    {
        body.push(v[k]);
        k = k + 1;
        assert(body@ =~= v@.subrange(start as int, k as int));
    }
    if signed {
        assert(body@ =~= v@.drop_first());
    } else {
        assert(body@ =~= v@);
    }
    let limit: u32 = if neg { 2147483648 } else { 2147483647 };
    match read_bounded_count(&body, limit) {
        Some(n) => {
            if neg {
                let m: i64 = -(n as i64);
                Some(m as i32)
            } else {
                Some(n as i32)
            }
        },
        None => {
            None
        },
    }
}

/// Parses a string as an `i32`.
pub fn parse_i32(s: &str) -> (r: Option<i32>)
    ensures
        r == parsed_i32(s@),
{
    let v = chars_of(s);
    parse_i32_chars(&v)
}

} // verus!
