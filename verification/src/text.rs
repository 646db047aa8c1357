//! Plain string utilities: whitespace trimming and simple scanning.

use vstd::prelude::*;
use vstd::string::StrSliceExecFns;
use vstd::string::StringExecFns;

verus! {

/// A character the library treats as whitespace: the Unicode `White_Space`
/// set, the same set `str::trim` strips.
pub open spec fn is_space(c: char) -> bool {
    let u = c as u32;
    ||| u == 0x20
    ||| (0x09 <= u && u <= 0x0d)
    ||| u == 0x85
    ||| u == 0xa0
    ||| u == 0x1680
    ||| (0x2000 <= u && u <= 0x200a)
    ||| u == 0x2028
    ||| u == 0x2029
    ||| u == 0x202f
    ||| u == 0x205f
    ||| u == 0x3000
}

fn is_space_char(c: char) -> (b: bool)
    ensures
        b == is_space(c),
{
    let u = c as u32;
    u == 0x20 || (0x09 <= u && u <= 0x0d) || u == 0x85 || u == 0xa0 || u == 0x1680 || (0x2000 <= u
        && u <= 0x200a) || u == 0x2028 || u == 0x2029 || u == 0x202f || u == 0x205f || u == 0x3000
}

/// `s` with leading whitespace removed.
pub open spec fn trim_front(s: Seq<char>) -> Seq<char>
    decreases s.len(),
{
    if s.len() > 0 && is_space(s[0]) {
        trim_front(s.subrange(1, s.len() as int))
    } else {
        s
    }
}

/// `s` with trailing whitespace removed.
pub open spec fn trim_back(s: Seq<char>) -> Seq<char>
    decreases s.len(),
{
    if s.len() > 0 && is_space(s[s.len() - 1]) {
        trim_back(s.subrange(0, s.len() - 1))
    } else {
        s
    }
}

/// `s` with both leading and trailing whitespace removed.
pub open spec fn spec_trim(s: Seq<char>) -> Seq<char> {
    trim_back(trim_front(s))
}

proof fn lemma_trim_front_at(s: Seq<char>, lo: int)
    requires
        0 <= lo <= s.len(),
        forall|i: int| 0 <= i < lo ==> is_space(s[i]),
        lo < s.len() ==> !is_space(s[lo]),
    ensures
        trim_front(s) == s.subrange(lo, s.len() as int),
    decreases lo,
{
    if lo == 0 {
        assert(s.subrange(0, s.len() as int) =~= s);
    } else {
        let t = s.subrange(1, s.len() as int);
        lemma_trim_front_at(t, lo - 1);
        assert(t.subrange(lo - 1, t.len() as int) =~= s.subrange(lo, s.len() as int));
    }
}

proof fn lemma_trim_back_at(s: Seq<char>, hi: int)
    requires
        0 <= hi <= s.len(),
        forall|i: int| hi <= i < s.len() ==> is_space(s[i]),
        hi > 0 ==> !is_space(s[hi - 1]),
    ensures
        trim_back(s) == s.subrange(0, hi),
    decreases s.len(),
{
    if hi == s.len() {
        if s.len() > 0 && is_space(s[s.len() - 1]) {
            assert(!is_space(s[hi - 1]));
            assert(false);
        }
        assert(s.subrange(0, s.len() as int) =~= s);
    } else {
        let t = s.subrange(0, s.len() - 1);
        lemma_trim_back_at(t, hi);
        assert(t.subrange(0, hi) =~= s.subrange(0, hi));
    }
}

/// Copy of `s` with leading and trailing whitespace removed.
pub fn trim_str(s: &str) -> (r: String)
    ensures
        r@ == spec_trim(s@),
{
    let n = s.unicode_len();
    let mut lo: usize = 0;
    while lo < n && is_space_char(s.get_char(lo))
        invariant
            n == s@.len(),
            0 <= lo <= n,
            forall|i: int| 0 <= i < lo ==> is_space(s@[i]),
        decreases n - lo,
    {
        lo = lo + 1;
    }
    let mut hi: usize = n;
    while hi > lo && is_space_char(s.get_char(hi - 1))
        invariant
            n == s@.len(),
            0 <= lo <= hi <= n,
            forall|i: int| 0 <= i < lo ==> is_space(s@[i]),
            forall|i: int| hi <= i < n ==> is_space(s@[i]),
        decreases hi,
    {
        hi = hi - 1;
    }
    proof {
        lemma_trim_front_at(s@, lo as int);
        let t = s@.subrange(lo as int, n as int);
        lemma_trim_back_at(t, hi - lo);
        assert(t.subrange(0, hi - lo) =~= s@.subrange(lo as int, hi as int));
    }
    let r = s.substring_char(lo, hi);
    r.to_owned()
}

/// Whether the string begins with the four characters `http`.
pub open spec fn starts_with_http(s: Seq<char>) -> bool {
    s.len() >= 4 && s[0] == 'h' && s[1] == 't' && s[2] == 't' && s[3] == 'p'
}

/// Whether `s` begins with the literal prefix `http`.
pub fn has_http_prefix(s: &str) -> (b: bool)
    ensures
        b == starts_with_http(s@),
{
    let n = s.unicode_len();
    n >= 4 && s.get_char(0) == 'h' && s.get_char(1) == 't' && s.get_char(2) == 't' && s.get_char(3)
        == 'p'
}

/// Whether the string contains the character `c`.
pub open spec fn has_char(s: Seq<char>, c: char) -> bool {
    exists|i: int| 0 <= i < s.len() && s[i] == c
}

/// The characters after the last occurrence of `c` in `s` (all of `s`
/// when `c` does not occur).
pub open spec fn after_last(s: Seq<char>, c: char) -> Seq<char>
    decreases s.len(),
{
    if s.len() == 0 {
        s
    } else if s[s.len() - 1] == c {
        Seq::empty()
    } else {
        after_last(s.subrange(0, s.len() - 1), c).push(s[s.len() - 1])
    }
}

/// The characters of `s` before its first question mark (all of `s` if it
/// has none).
pub open spec fn before_query(s: Seq<char>) -> Seq<char>
    decreases s.len(),
{
    if s.len() == 0 {
        s
    } else if s[0] == '?' {
        Seq::empty()
    } else {
        seq![s[0]] + before_query(s.subrange(1, s.len() as int))
    }
}

/// The last path segment a URL's extension is read from: the URL cut at
/// its first question mark, then cut after its last slash.
pub open spec fn last_segment(url: Seq<char>) -> Seq<char> {
    after_last(before_query(url), '/')
}

/// The file extension inferred from a URL: the text after the last dot of
/// the URL's last path segment, the query string stripped first; `dflt`
/// when that segment has no dot.
pub open spec fn ext_for(url: Seq<char>, dflt: Seq<char>) -> Seq<char> {
    if has_char(last_segment(url), '.') {
        after_last(last_segment(url), '.')
    } else {
        dflt
    }
}

proof fn lemma_after_last_at(s: Seq<char>, c: char, d: int)
    requires
        0 <= d < s.len(),
        s[d] == c,
        forall|i: int| d < i < s.len() ==> s[i] != c,
    ensures
        after_last(s, c) == s.subrange(d + 1, s.len() as int),
    decreases s.len(),
{
    if d == s.len() - 1 {
        assert(s.subrange(d + 1, s.len() as int) =~= Seq::<char>::empty());
    } else {
        let t = s.subrange(0, s.len() - 1);
        lemma_after_last_at(t, c, d);
        assert(t.subrange(d + 1, t.len() as int).push(s[s.len() - 1]) =~= s.subrange(
            d + 1,
            s.len() as int,
        ));
    }
}

proof fn lemma_after_last_none(s: Seq<char>, c: char)
    requires
        forall|i: int| 0 <= i < s.len() ==> s[i] != c,
    ensures
        after_last(s, c) == s,
    decreases s.len(),
{
    if s.len() > 0 {
        let t = s.subrange(0, s.len() - 1);
        lemma_after_last_none(t, c);
        assert(t.push(s[s.len() - 1]) =~= s);
    }
}

proof fn lemma_before_query_at(s: Seq<char>, q: int)
    requires
        0 <= q <= s.len(),
        forall|i: int| 0 <= i < q ==> s[i] != '?',
        q < s.len() ==> s[q] == '?',
    ensures
        before_query(s) == s.subrange(0, q),
    decreases s.len(),
{
    if s.len() == 0 {
        assert(s.subrange(0, 0) =~= s);
    } else if s[0] == '?' {
        assert(s.subrange(0, q) =~= Seq::<char>::empty());
    } else {
        let t = s.subrange(1, s.len() as int);
        lemma_before_query_at(t, q - 1);
        assert(seq![s[0]] + t.subrange(0, q - 1) =~= s.subrange(0, q));
    }
}

/// The file extension for a URL, per `ext_for`: the text after the last
/// dot of the URL's last path segment, the query stripped first, or
/// `dflt` when that segment holds no dot.
pub fn infer_extension(url: &str, dflt: &str) -> (r: String)
    ensures
        r@ == ext_for(url@, dflt@),
{
    let n = url.unicode_len();
    let mut k: usize = 0;
    while k < n && url.get_char(k) != '?'
        invariant
            n == url@.len(),
            0 <= k <= n,
            forall|i: int| 0 <= i < k ==> url@[i] != '?',
        decreases n - k,
    {
        k = k + 1;
    }
    proof {
        lemma_before_query_at(url@, k as int);
    }
    let mut start: usize = k;
    while start > 0 && url.get_char(start - 1) != '/'
        invariant
            n == url@.len(),
            0 <= start <= k <= n,
            forall|i: int| start <= i < k ==> url@[i] != '/',
        decreases start,
    {
        start = start - 1;
    }
    proof {
        let q = url@.subrange(0, k as int);
        if start > 0 {
            assert(q[start - 1] == '/');
            lemma_after_last_at(q, '/', start - 1);
        } else {
            lemma_after_last_none(q, '/');
        }
        assert(q.subrange(start as int, k as int) =~= url@.subrange(start as int, k as int));
        assert(last_segment(url@) == url@.subrange(start as int, k as int));
    }
    let mut j: usize = k;
    while j > start && url.get_char(j - 1) != '.'
        invariant
            n == url@.len(),
            start <= j <= k <= n,
            forall|i: int| j <= i < k ==> url@[i] != '.',
        decreases j,
    {
        j = j - 1;
    }
    let ghost segment = url@.subrange(start as int, k as int);
    if j == start {
        proof {
            assert forall|i: int| 0 <= i < segment.len() implies segment[i] != '.' by {
                assert(segment[i] == url@[start + i]);
            }
            assert(!has_char(segment, '.'));
        }
        return dflt.to_owned();
    }
    proof {
        assert(segment[j - 1 - start] == url@[j - 1]);
        assert(has_char(segment, '.'));
        lemma_after_last_at(segment, '.', j - 1 - start);
        assert(segment.subrange(j - start, segment.len() as int) =~= url@.subrange(
            j as int,
            k as int,
        ));
    }
    let r = url.substring_char(j, k);
    r.to_owned()
}

} // verus!
