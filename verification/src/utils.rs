//! String machinery shared by the whole crate: pattern matching, placeholder
//! substitution, trimming and key=value parsing, all specified over `Seq<char>`.

use vstd::prelude::*;
use vstd::string::*;

verus! {

/// `pat` occurs in `s` starting at position `i`.
pub open spec fn match_at(s: Seq<char>, pat: Seq<char>, i: int) -> bool {
    0 <= i && i + pat.len() <= s.len() && s.subrange(i, i + pat.len()) == pat
}

/// Left-to-right, non-overlapping replacement of every occurrence of `pat`
/// by `rep`; an empty pattern leaves the string unchanged.
pub open spec fn subst_all(s: Seq<char>, pat: Seq<char>, rep: Seq<char>) -> Seq<char>
    decreases s.len(),
{
    if pat.len() == 0 || s.len() < pat.len() {
        s
    } else if s.subrange(0, pat.len() as int) == pat {
        rep + subst_all(s.skip(pat.len() as int), pat, rep)
    } else {
        seq![s[0]] + subst_all(s.skip(1), pat, rep)
    }
}

/// The two strings hold the same characters.
pub fn str_eq(a: &str, b: &str) -> (r: bool)
    ensures
        r == (a@ == b@),
{
    let a_len = a.unicode_len();
    let b_len = b.unicode_len();
    if a_len != b_len {
        return false;
    }
    let mut i: usize = 0;
    while i < a_len
        invariant
            i <= a_len,
            a_len == a@.len(),
            a_len == b@.len(),
            forall|j: int| 0 <= j < i ==> a@[j] == b@[j],
        decreases a_len - i,
    {
        if a.get_char(i) != b.get_char(i) {
            return false;
        }
        i = i + 1;
    }
    proof {
        assert(a@ =~= b@);
    }
    true
}

/// Whether `pat` occurs in `s` at position `i`.
fn match_at_exec(s: &str, pat: &str, i: usize) -> (r: bool)
    requires
        i + pat@.len() <= s@.len(),
        s@.len() <= usize::MAX,
    ensures
        r == match_at(s@, pat@, i as int),
{
    let pat_len = pat.unicode_len();
    let mut j: usize = 0;
    while j < pat_len
        invariant
            j <= pat_len,
            pat_len == pat@.len(),
            i + pat@.len() <= s@.len(),
            s@.len() <= usize::MAX,
            forall|k: int| 0 <= k < j ==> s@[i + k] == pat@[k],
        decreases pat_len - j,
    {
        if s.get_char(i + j) != pat.get_char(j) {
            proof {
                assert(s@.subrange(i as int, i + pat@.len())[j as int] == s@[i + j]);
            }
            return false;
        }
        j = j + 1;
    }
    proof {
        assert(s@.subrange(i as int, i + pat@.len()) =~= pat@);
    }
    true
}

/// Replaces every occurrence of `pat` in `s` by `rep`, scanning left to right
/// without overlap, exactly as `subst_all` describes.
pub fn replace_all(s: &str, pat: &str, rep: &str) -> (r: String)
    ensures
        r@ == subst_all(s@, pat@, rep@),
{
    let s_len = s.unicode_len();
    let pat_len = pat.unicode_len();
    if pat_len == 0 {
        return String::from_str(s);
    }
    let mut res = String::new();
    let mut i: usize = 0;
    proof {
        assert(s@.skip(0) =~= s@);
    }
    while i < s_len
        invariant
            i <= s_len,
            s_len == s@.len(),
            pat_len == pat@.len(),
            pat_len > 0,
            res@ + subst_all(s@.skip(i as int), pat@, rep@) == subst_all(s@, pat@, rep@),
        decreases s_len - i,
    {
        let ghost tail = s@.skip(i as int);
        if s_len - i >= pat_len && match_at_exec(s, pat, i) {
            res.append(rep);
            proof {
                assert(tail.subrange(0, pat@.len() as int) =~= s@.subrange(
                    i as int,
                    i + pat@.len(),
                ));
                assert(tail.skip(pat@.len() as int) =~= s@.skip(i + pat@.len()));
            }
            i = i + pat_len;
        } else {
            let c = s.substring_char(i, i + 1);
            res.append(c);
            proof {
                assert(c@ =~= seq![s@[i as int]]);
                assert(tail[0] == s@[i as int]);
                if s@.len() - i >= pat@.len() {
                    // no match at i, so the head character is copied
                    assert(tail.subrange(0, pat@.len() as int) =~= s@.subrange(
                        i as int,
                        i + pat@.len(),
                    ));
                    assert(tail.skip(1) =~= s@.skip(i + 1));
                    assert(subst_all(tail, pat@, rep@) == seq![tail[0]] + subst_all(
                        s@.skip(i + 1),
                        pat@,
                        rep@,
                    ));
                } else {
                    // the tail is shorter than the pattern: copied verbatim
                    assert(subst_all(tail, pat@, rep@) == tail);
                    assert(subst_all(s@.skip(i + 1), pat@, rep@) == s@.skip(i + 1));
                    assert(seq![tail[0]] + s@.skip(i + 1) =~= tail);
                }
            }
            i = i + 1;
        }
    }
    proof {
        assert(s@.skip(s@.len() as int) =~= Seq::<char>::empty());
        assert(subst_all(Seq::<char>::empty(), pat@, rep@) == Seq::<char>::empty());
        assert(res@ + Seq::<char>::empty() =~= res@);
    }
    res
}

/// Occurrences of `pat` in `s.skip(k)` are occurrences in `s`, shifted by `k`.
proof fn lemma_match_shift(s: Seq<char>, pat: Seq<char>, k: int, j: int)
    requires
        0 <= k <= s.len(),
        0 <= j,
    ensures
        match_at(s.skip(k), pat, j) <==> match_at(s, pat, j + k),
{
    if match_at(s.skip(k), pat, j) {
        assert(s.subrange(j + k, j + k + pat.len()) =~= s.skip(k).subrange(j, j + pat.len()));
    }
    if match_at(s, pat, j + k) {
        assert(s.skip(k).subrange(j, j + pat.len()) =~= s.subrange(j + k, j + k + pat.len()));
    }
}

/// A string without any occurrence of the pattern is left unchanged.
pub proof fn lemma_subst_none(s: Seq<char>, pat: Seq<char>, rep: Seq<char>)
    requires
        pat.len() > 0,
        forall|j: int| !match_at(s, pat, j),
    ensures
        subst_all(s, pat, rep) == s,
    decreases s.len(),
{
    if s.len() < pat.len() {
    } else {
        assert(!match_at(s, pat, 0));
        assert(s.subrange(0, pat.len() as int) != pat);
        assert forall|j: int| !match_at(s.skip(1), pat, j) by {
            if j >= 0 {
                lemma_match_shift(s, pat, 1, j);
            }
        }
        lemma_subst_none(s.skip(1), pat, rep);
        assert(seq![s[0]] + s.skip(1) =~= s);
    }
}

/// Substituting into a string that holds the pattern exactly once replaces
/// that one occurrence and alters nothing else.
pub proof fn lemma_subst_single(pre: Seq<char>, pat: Seq<char>, post: Seq<char>, rep: Seq<char>)
    requires
        pat.len() > 0,
        forall|j: int| match_at(pre + pat + post, pat, j) ==> j == pre.len(),
    ensures
        subst_all(pre + pat + post, pat, rep) == pre + rep + post,
    decreases pre.len(),
{
    let s = pre + pat + post;
    if pre.len() == 0 {
        assert(s.subrange(0, pat.len() as int) =~= pat);
        assert(s.skip(pat.len() as int) =~= post);
        assert forall|j: int| !match_at(post, pat, j) by {
            if j >= 0 {
                lemma_match_shift(s, pat, pat.len() as int, j);
            }
        }
        lemma_subst_none(post, pat, rep);
        assert(rep + post =~= pre + rep + post);
    } else {
        assert(!match_at(s, pat, 0));
        assert(s.subrange(0, pat.len() as int) != pat);
        assert(s.len() >= pat.len());
        let s1 = pre.skip(1) + pat + post;
        assert(s.skip(1) =~= s1);
        assert forall|j: int| match_at(s1, pat, j) implies j == pre.skip(1).len() by {
            lemma_match_shift(s, pat, 1, j);
        }
        lemma_subst_single(pre.skip(1), pat, post, rep);
        assert(subst_all(s, pat, rep) == seq![s[0]] + (pre.skip(1) + rep + post));
        assert(seq![s[0]] + (pre.skip(1) + rep + post) =~= pre + rep + post);
    }
}

/// `s` without the prefix `pre`, when it starts with it.
pub fn strip_prefix_str(s: &str, pre: &str) -> (r: Option<String>)
    ensures
        match r {
            Some(rest) => match_at(s@, pre@, 0) && rest@ == s@.skip(pre@.len() as int),
            None => !match_at(s@, pre@, 0),
        },
{
    let s_len = s.unicode_len();
    let pre_len = pre.unicode_len();
    if pre_len > s_len {
        return None;
    }
    if match_at_exec(s, pre, 0) {
        let rest = String::from_str(s.substring_char(pre_len, s_len));
        proof {
            assert(rest@ =~= s@.skip(pre@.len() as int));
        }
        Some(rest)
    } else {
        None
    }
}

/// The whitespace characters that trimming removes.
pub open spec fn is_space(c: char) -> bool {
    c == ' ' || c == '\t' || c == '\r' || c == '\n'
}

/// Index of the first occurrence of `c` in `s`, or `s.len()` if there is none.
pub open spec fn first_at(s: Seq<char>, c: char) -> int
    decreases s.len(),
{
    if s.len() == 0 {
        0
    } else if s[0] == c {
        0
    } else {
        1 + first_at(s.skip(1), c)
    }
}

pub proof fn lemma_first_at(s: Seq<char>, c: char)
    ensures
        0 <= first_at(s, c) <= s.len(),
        forall|j: int| 0 <= j < first_at(s, c) ==> s[j] != c,
        first_at(s, c) < s.len() ==> s[first_at(s, c)] == c,
    decreases s.len(),
{
    if s.len() == 0 || s[0] == c {
    } else {
        lemma_first_at(s.skip(1), c);
        assert(forall|j: int| 1 <= j < s.len() ==> s[j] == s.skip(1)[j - 1]);
    }
}

/// Any index with the first-occurrence properties is `first_at`.
pub proof fn lemma_first_at_unique(s: Seq<char>, c: char, k: int)
    requires
        0 <= k <= s.len(),
        forall|j: int| 0 <= j < k ==> s[j] != c,
        k < s.len() ==> s[k] == c,
    ensures
        first_at(s, c) == k,
{
    lemma_first_at(s, c);
}

/// First position at or after `from` holding `c`, or the length of `s`.
pub fn find_char(s: &str, from: usize, c: char) -> (r: usize)
    requires
        from <= s@.len(),
    ensures
        from <= r <= s@.len(),
        r - from == first_at(s@.skip(from as int), c),
{
    let s_len = s.unicode_len();
    let mut i: usize = from;
    while i < s_len
        invariant
            from <= i <= s_len,
            s_len == s@.len(),
            forall|j: int| from <= j < i ==> s@[j] != c,
        decreases s_len - i,
    {
        if s.get_char(i) == c {
            proof {
                let t = s@.skip(from as int);
                assert(forall|j: int| 0 <= j < i - from ==> t[j] == s@[j + from]);
                lemma_first_at_unique(t, c, i - from);
            }
            return i;
        }
        i = i + 1;
    }
    proof {
        let t = s@.skip(from as int);
        assert(forall|j: int| 0 <= j < t.len() ==> t[j] == s@[j + from]);
        lemma_first_at_unique(t, c, s@.len() - from);
    }
    s_len
}

/// `s` without leading whitespace.
pub open spec fn trim_start_spec(s: Seq<char>) -> Seq<char>
    decreases s.len(),
{
    if s.len() > 0 && is_space(s[0]) {
        trim_start_spec(s.skip(1))
    } else {
        s
    }
}

/// `s` without trailing whitespace.
pub open spec fn trim_end_spec(s: Seq<char>) -> Seq<char>
    decreases s.len(),
{
    if s.len() > 0 && is_space(s.last()) {
        trim_end_spec(s.drop_last())
    } else {
        s
    }
}

/// `s` without leading or trailing whitespace.
pub open spec fn trim_spec(s: Seq<char>) -> Seq<char> {
    trim_end_spec(trim_start_spec(s))
}

proof fn lemma_trim_start_at(s: Seq<char>, a: int)
    requires
        0 <= a <= s.len(),
        forall|j: int| 0 <= j < a ==> is_space(s[j]),
        a < s.len() ==> !is_space(s[a]),
    ensures
        trim_start_spec(s) == s.skip(a),
    decreases a,
{
    if a == 0 {
        assert(s.skip(0) =~= s);
    } else {
        assert(is_space(s[0]));
        lemma_trim_start_at(s.skip(1), a - 1);
        assert(s.skip(1).skip(a - 1) =~= s.skip(a));
    }
}

proof fn lemma_trim_end_at(s: Seq<char>, m: int)
    requires
        0 <= m <= s.len(),
        forall|j: int| m <= j < s.len() ==> is_space(s[j]),
        m > 0 ==> !is_space(s[m - 1]),
    ensures
        trim_end_spec(s) == s.take(m),
    decreases s.len() - m,
{
    if m == s.len() {
        if s.len() > 0 {
            assert(!is_space(s.last()));
        }
        assert(s.take(m) =~= s);
    } else {
        assert(is_space(s.last()));
        lemma_trim_end_at(s.drop_last(), m);
        assert(s.drop_last().take(m) =~= s.take(m));
    }
}

/// `s` with surrounding whitespace removed, exactly as `trim_spec` describes.
pub fn trimmed(s: &str) -> (r: String)
    ensures
        r@ == trim_spec(s@),
{
    let s_len = s.unicode_len();
    let mut a: usize = 0;
    while a < s_len && is_space_char(s.get_char(a))
        invariant
            a <= s_len,
            s_len == s@.len(),
            forall|j: int| 0 <= j < a ==> is_space(s@[j]),
        decreases s_len - a,
    {
        a = a + 1;
    }
    let mut b: usize = s_len;
    while b > a && is_space_char(s.get_char(b - 1))
        invariant
            a <= b <= s_len,
            s_len == s@.len(),
            forall|j: int| b <= j < s_len ==> is_space(s@[j]),
            a < s_len ==> !is_space(s@[a as int]),
        decreases b,
    {
        b = b - 1;
    }
    let r = String::from_str(s.substring_char(a, b));
    proof {
        lemma_trim_start_at(s@, a as int);
        let t = s@.skip(a as int);
        assert(forall|j: int| 0 <= j < t.len() ==> t[j] == s@[j + a]);
        if b == a {
            // everything after `a` is whitespace, or the string is all spaces
            lemma_trim_end_at(t, 0);
        } else {
            lemma_trim_end_at(t, b - a);
        }
        assert(t.take(b - a) =~= s@.subrange(a as int, b as int));
    }
    r
}

/// `s` without leading copies of `c`.
pub open spec fn trim_char_start_spec(s: Seq<char>, c: char) -> Seq<char>
    decreases s.len(),
{
    if s.len() > 0 && s[0] == c {
        trim_char_start_spec(s.skip(1), c)
    } else {
        s
    }
}

/// `s` without trailing copies of `c`.
pub open spec fn trim_char_end_spec(s: Seq<char>, c: char) -> Seq<char>
    decreases s.len(),
{
    if s.len() > 0 && s.last() == c {
        trim_char_end_spec(s.drop_last(), c)
    } else {
        s
    }
}

/// `s` without leading or trailing copies of `c`.
pub open spec fn trim_char_spec(s: Seq<char>, c: char) -> Seq<char> {
    trim_char_end_spec(trim_char_start_spec(s, c), c)
}

proof fn lemma_trim_char_start_at(s: Seq<char>, c: char, a: int)
    requires
        0 <= a <= s.len(),
        forall|j: int| 0 <= j < a ==> s[j] == c,
        a < s.len() ==> s[a] != c,
    ensures
        trim_char_start_spec(s, c) == s.skip(a),
    decreases a,
{
    if a == 0 {
        assert(s.skip(0) =~= s);
    } else {
        lemma_trim_char_start_at(s.skip(1), c, a - 1);
        assert(s.skip(1).skip(a - 1) =~= s.skip(a));
    }
}

proof fn lemma_trim_char_end_at(s: Seq<char>, c: char, m: int)
    requires
        0 <= m <= s.len(),
        forall|j: int| m <= j < s.len() ==> s[j] == c,
        m > 0 ==> s[m - 1] != c,
    ensures
        trim_char_end_spec(s, c) == s.take(m),
    decreases s.len() - m,
{
    if m == s.len() {
        assert(s.take(m) =~= s);
    } else {
        lemma_trim_char_end_at(s.drop_last(), c, m);
        assert(s.drop_last().take(m) =~= s.take(m));
    }
}

/// `s` with every leading and trailing `c` removed.
pub fn trim_matches(s: &str, c: char) -> (r: String)
    ensures
        r@ == trim_char_spec(s@, c),
{
    let s_len = s.unicode_len();
    let mut a: usize = 0;
    while a < s_len && s.get_char(a) == c
        invariant
            a <= s_len,
            s_len == s@.len(),
            forall|j: int| 0 <= j < a ==> s@[j] == c,
        decreases s_len - a,
    {
        a = a + 1;
    }
    let mut b: usize = s_len;
    while b > a && s.get_char(b - 1) == c
        invariant
            a <= b <= s_len,
            s_len == s@.len(),
            forall|j: int| b <= j < s_len ==> s@[j] == c,
            a < s_len ==> s@[a as int] != c,
        decreases b,
    {
        b = b - 1;
    }
    let r = String::from_str(s.substring_char(a, b));
    proof {
        lemma_trim_char_start_at(s@, c, a as int);
        let t = s@.skip(a as int);
        assert(forall|j: int| 0 <= j < t.len() ==> t[j] == s@[j + a]);
        if b == a {
            lemma_trim_char_end_at(t, c, 0);
        } else {
            lemma_trim_char_end_at(t, c, b - a);
        }
        assert(t.take(b - a) =~= s@.subrange(a as int, b as int));
    }
    r
}

/// `s` split at every newline; the newline characters themselves are dropped.
pub open spec fn lines_of(s: Seq<char>) -> Seq<Seq<char>>
    decreases s.len(),
{
    let i = first_at(s, '\n');
    if 0 <= i < s.len() {
        seq![s.subrange(0, i)] + lines_of(s.skip(i + 1))
    } else {
        seq![s]
    }
}

/// Unfolds `lines_of` one line at a time.
pub proof fn lemma_lines_step(s: Seq<char>)
    ensures
        lines_of(s).len() >= 1,
        lines_of(s)[0] == s.subrange(0, first_at(s, '\n')),
        first_at(s, '\n') < s.len() ==> lines_of(s).drop_first() == lines_of(
            s.skip(first_at(s, '\n') + 1),
        ),
        first_at(s, '\n') >= s.len() ==> lines_of(s) == seq![s],
{
    lemma_first_at(s, '\n');
    let i = first_at(s, '\n');
    if 0 <= i < s.len() {
        assert((seq![s.subrange(0, i)] + lines_of(s.skip(i + 1))).drop_first() =~= lines_of(
            s.skip(i + 1),
        ));
    } else {
        assert(s.subrange(0, i) =~= s);
    }
}

/// Some line of `s` trims to exactly `l`.
pub open spec fn has_line(s: Seq<char>, l: Seq<char>) -> bool {
    exists|i: int| 0 <= i < lines_of(s).len() && trim_spec(lines_of(s)[i]) == l
}

proof fn lemma_has_line_step(s: Seq<char>, l: Seq<char>)
    ensures
        first_at(s, '\n') < s.len() ==> (has_line(s, l) <==> (trim_spec(
            s.subrange(0, first_at(s, '\n')),
        ) == l || has_line(s.skip(first_at(s, '\n') + 1), l))),
        first_at(s, '\n') >= s.len() ==> (has_line(s, l) <==> trim_spec(s) == l),
{
    lemma_lines_step(s);
    lemma_first_at(s, '\n');
    let i = first_at(s, '\n');
    if i < s.len() {
        let rest = s.skip(i + 1);
        assert(lines_of(s) == seq![s.subrange(0, i)] + lines_of(rest));
        if has_line(s, l) {
            let k = choose|k: int| 0 <= k < lines_of(s).len() && trim_spec(lines_of(s)[k]) == l;
            if k > 0 {
                assert(lines_of(s)[k] == lines_of(rest)[k - 1]);
            }
        }
        if has_line(rest, l) {
            let k = choose|k: int|
                0 <= k < lines_of(rest).len() && trim_spec(lines_of(rest)[k]) == l;
            assert(lines_of(s)[k + 1] == lines_of(rest)[k]);
        }
        if trim_spec(s.subrange(0, i)) == l {
            assert(trim_spec(lines_of(s)[0]) == l);
        }
    } else {
        assert(lines_of(s)[0] == s.subrange(0, i));
        assert(s.subrange(0, i) =~= s);
    }
}

/// Whether some line of `content` trims to exactly `l`.
pub fn content_has_line(content: &str, l: &str) -> (r: bool)
    ensures
        r == has_line(content@, l@),
{
    let s_len = content.unicode_len();
    let mut p: usize = 0;
    proof {
        assert(content@.skip(0) =~= content@);
    }
    loop
        invariant
            p <= s_len,
            s_len == content@.len(),
            has_line(content@, l@) <==> has_line(content@.skip(p as int), l@),
        ensures
            has_line(content@, l@) <==> has_line(content@.skip(p as int), l@),
            first_at(content@.skip(p as int), '\n') >= content@.len() - p,
            trim_spec(content@.skip(p as int)) != l@,
        decreases s_len - p,
    {
        let ghost tail = content@.skip(p as int);
        let e = find_char(content, p, '\n');
        let line = content.substring_char(p, e);
        proof {
            assert(line@ =~= tail.subrange(0, e - p));
            lemma_has_line_step(tail, l@);
        }
        let t = trimmed(line);
        if str_eq(t.as_str(), l) {
            proof {
                if e == s_len {
                    assert(tail.subrange(0, e - p) =~= tail);
                }
            }
            return true;
        }
        if e == s_len {
            proof {
                assert(tail.subrange(0, e - p) =~= tail);
            }
            break;
        }
        proof {
            assert(tail.skip(e - p + 1) =~= content@.skip(e + 1));
        }
        p = e + 1;
    }
    proof {
        lemma_has_line_step(content@.skip(p as int), l@);
    }
    false
}

/// Looks `k` up among key/value `entries`, later entries winning over
/// earlier ones.
pub open spec fn lookup_spec(entries: Seq<(Seq<char>, Seq<char>)>, k: Seq<char>) -> Option<
    Seq<char>,
>
    decreases entries.len(),
{
    if entries.len() == 0 {
        None
    } else if entries.last().0 == k {
        Some(entries.last().1)
    } else {
        lookup_spec(entries.drop_last(), k)
    }
}

/// The value recorded for `key` among `entries`, the later of two colliding
/// entries winning.
pub fn assoc_lookup(entries: &Vec<(String, String)>, key: &str) -> (r: Option<String>)
    ensures
        match r {
            Some(v) => lookup_spec(entries.deep_view(), key@) matches Some(vv) && v@ == vv,
            None => lookup_spec(entries.deep_view(), key@) is None,
        },
{
    let ghost all = entries.deep_view();
    let mut i: usize = entries.len();
    proof {
        assert(all.take(i as int) =~= all);
    }
    while i > 0
        invariant
            i <= all.len(),
            all == entries.deep_view(),
            all.len() == entries@.len(),
            lookup_spec(all, key@) == lookup_spec(all.take(i as int), key@),
        decreases i,
    {
        let ghost part = all.take(i as int);
        if str_eq(entries[i - 1].0.as_str(), key) {
            proof {
                assert(part.last() == all[i - 1]);
            }
            return Some(entries[i - 1].1.clone());
        }
        proof {
            assert(part.last() == all[i - 1]);
            assert(part.drop_last() =~= all.take(i - 1));
        }
        i = i - 1;
    }
    proof {
        assert(all.take(0) =~= Seq::<(Seq<char>, Seq<char>)>::empty());
    }
    None
}

/// An element-wise copy of a list of key/value pairs.
pub fn clone_pairs(v: &Vec<(String, String)>) -> (r: Vec<(String, String)>)
    ensures
        r.deep_view() == v.deep_view(),
{
    let mut r: Vec<(String, String)> = Vec::new();
    let mut i: usize = 0;
    while i < v.len()
        invariant
            i <= v@.len(),
            r@.len() == i,
            forall|k: int| 0 <= k < i ==> (#[trigger] r@[k]).deep_view() == v@[k].deep_view(),
        decreases v@.len() - i,
    {
        r.push((v[i].0.clone(), v[i].1.clone()));
        i = i + 1;
    }
    proof {
        assert(r.deep_view() =~= v.deep_view());
    }
    r
}

/// What parsing a TOML document of tables of strings yields: each top-level
/// table with its key/value pairs, all ordered by key, or nothing when the
/// document has any other shape. Both the outcome and the entries are a
/// function of the document text alone.
pub uninterp spec fn toml_nested_entries(s: Seq<char>) -> Option<
    Seq<(Seq<char>, Seq<(Seq<char>, Seq<char>)>)>,
>;

/// Relies on toml::from_str deserializing into nested
/// std::collections::BTreeMap with String keys and values: parses a TOML
/// document whose top-level values are tables of strings into its entries,
/// ordered by key; a document of any other shape is rejected.
#[verifier::external_body]
pub(crate) fn parse_nested_table(s: &str) -> (r: Option<Vec<(String, Vec<(String, String)>)>>)
    ensures
        r is Some <==> toml_nested_entries(s@) is Some,
        r matches Some(v) ==> (toml_nested_entries(s@) matches Some(t) && v.deep_view() == t),
{
    match toml::from_str::<
        std::collections::BTreeMap<String, std::collections::BTreeMap<String, String>>,
    >(s) {
        Ok(m) => Some(m.into_iter().map(|(k, t)| (k, t.into_iter().collect())).collect()),
        Err(_) => None,
    }
}

/// The merged tables of the predefined document and the optional local
/// override: the predefined tables first, the local ones behind them, or
/// nothing when either document fails to parse.
pub open spec fn loaded_nested(text: Seq<char>, local: Option<Seq<char>>) -> Option<
    Seq<(Seq<char>, Seq<(Seq<char>, Seq<char>)>)>,
> {
    match toml_nested_entries(text) {
        None => None,
        Some(base) => match local {
            None => Some(base),
            Some(l) => match toml_nested_entries(l) {
                None => None,
                Some(extra) => Some(base + extra),
            },
        },
    }
}

/// Parses the predefined document, and behind it the optional local override
/// document; the local entries stand behind the predefined ones, so that a
/// lookup that runs back to front lets the local source win. It yields
/// nothing exactly when one of the documents does not parse.
pub fn load_predefined_and_local(text: &str, local_text: Option<&str>) -> (r: Option<
    Vec<(String, Vec<(String, String)>)>,
>)
    ensures
        ({
            let merged = loaded_nested(
                text@,
                match local_text {
                    Some(l) => Some(l@),
                    None => None,
                },
            );
            match r {
                Some(v) => (merged matches Some(es) && v.deep_view() == es),
                None => merged is None,
            }
        }),
{
    let mut entries = match parse_nested_table(text) {
        Some(v) => v,
        None => { return None },
    };
    match local_text {
        Some(l) => {
            let more = match parse_nested_table(l) {
                Some(v) => v,
                None => { return None },
            };
            let ghost base = entries.deep_view();
            let ghost extra = more.deep_view();
            let ghost n0 = entries@.len();
            let mut i: usize = 0;
            while i < more.len()
                invariant
                    i <= more@.len(),
                    extra == more.deep_view(),
                    entries@.len() == n0 + i,
                    base.len() == n0,
                    extra.len() == more@.len(),
                    forall|k: int| 0 <= k < n0 ==> (#[trigger] entries@[k]).deep_view() == base[k],
                    forall|k: int|
                        n0 <= k < n0 + i ==> (#[trigger] entries@[k]).deep_view() == extra[k - n0],
                decreases more@.len() - i,
            {
                entries.push((more[i].0.clone(), clone_pairs(&more[i].1)));
                i = i + 1;
            }
            proof {
                assert(entries.deep_view().len() == base.len() + extra.len());
                assert(forall|k: int|
                    0 <= k < entries.deep_view().len() ==> #[trigger] entries.deep_view()[k]
                        == entries@[k].deep_view());
                assert(entries.deep_view() =~= base + extra);
            }
            Some(entries)
        },
        None => Some(entries),
    }
}

/// Some parsed table lacks both of the given keys — or, with `k1 == k2`,
/// lacks that one key.
pub open spec fn some_table_lacks(
    nested: Seq<(Seq<char>, Seq<(Seq<char>, Seq<char>)>)>,
    k1: Seq<char>,
    k2: Seq<char>,
) -> bool {
    exists|i: int|
        0 <= i < nested.len() && (lookup_spec((#[trigger] nested[i]).1, k1) is None || lookup_spec(
            nested[i].1,
            k2,
        ) is None)
}

/// What converting a string to Pascal case yields: a function of the input
/// string alone.
pub uninterp spec fn pascal_of(s: Seq<char>) -> Seq<char>;

/// Relies on convert_case::Casing::to_case with convert_case::Case::Pascal:
/// the result depends on the characters of the input alone.
#[verifier::external_body]
pub(crate) fn to_pascal_case(s: &str) -> (r: String)
    ensures
        r@ == pascal_of(s@),
{
    convert_case::Casing::to_case(&s, convert_case::Case::Pascal)
}

/// Executable test for `is_space`.
pub fn is_space_char(c: char) -> (r: bool)
    ensures
        r == is_space(c),
{
    c == ' ' || c == '\t' || c == '\r' || c == '\n'
}

/// Splits `key=value` at the first `=`; anything without `=` is rejected.
pub fn parse_addition(s: &str) -> (r: Result<(String, String), &'static str>)
    ensures
        match r {
            Ok(kv) => {
                let i = kv.0@.len() as int;
                &&& 0 <= i < s@.len()
                &&& s@[i] == '='
                &&& forall|j: int| 0 <= j < i ==> s@[j] != '='
                &&& kv.0@ == s@.subrange(0, i)
                &&& kv.1@ == s@.subrange(i + 1, s@.len() as int)
            },
            Err(_) => forall|j: int| 0 <= j < s@.len() ==> s@[j] != '=',
        },
{
    let s_len = s.unicode_len();
    let mut i: usize = 0;
    while i < s_len
        invariant
            i <= s_len,
            s_len == s@.len(),
            forall|j: int| 0 <= j < i ==> s@[j] != '=',
        decreases s_len - i,
    {
        if s.get_char(i) == '=' {
            let k = String::from_str(s.substring_char(0, i));
            let v = String::from_str(s.substring_char(i + 1, s_len));
            return Ok((k, v));
        }
        i = i + 1;
    }
    Err("--addition must have format k=v")
}

} // verus!
