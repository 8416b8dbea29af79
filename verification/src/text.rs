//! Verified text utilities over `Seq<char>` views: whitespace handling,
//! trimming, prefix tests, substring search, word splitting, joining and
//! decimal rendering of integers.  Every exec function is pinned to a
//! spec-level definition of its result.

use vstd::prelude::*;

verus! {

/// The characters `char::is_whitespace` accepts: Unicode `White_Space`.
pub open spec fn is_space(c: char) -> bool {
    c == ' ' || c == '\t' || c == '\n' || c == '\u{b}' || c == '\u{c}' || c == '\r'
        || c == '\u{85}' || c == '\u{a0}' || c == '\u{1680}' || c == '\u{2000}'
        || c == '\u{2001}' || c == '\u{2002}' || c == '\u{2003}' || c == '\u{2004}'
        || c == '\u{2005}' || c == '\u{2006}' || c == '\u{2007}' || c == '\u{2008}'
        || c == '\u{2009}' || c == '\u{200a}' || c == '\u{2028}' || c == '\u{2029}'
        || c == '\u{202f}' || c == '\u{205f}' || c == '\u{3000}'
}

/// Whether `c` counts as whitespace for trimming and word splitting.
pub fn is_space_char(c: char) -> (b: bool)
    ensures
        b == is_space(c),
{
    c == ' ' || c == '\t' || c == '\n' || c == '\u{b}' || c == '\u{c}' || c == '\r'
        || c == '\u{85}' || c == '\u{a0}' || c == '\u{1680}' || c == '\u{2000}'
        || c == '\u{2001}' || c == '\u{2002}' || c == '\u{2003}' || c == '\u{2004}'
        || c == '\u{2005}' || c == '\u{2006}' || c == '\u{2007}' || c == '\u{2008}'
        || c == '\u{2009}' || c == '\u{200a}' || c == '\u{2028}' || c == '\u{2029}'
        || c == '\u{202f}' || c == '\u{205f}' || c == '\u{3000}'
}

/// Character-for-character string equality.
pub fn eq_str(a: &str, b: &str) -> (r: bool)
    ensures
        r == (a@ == b@),
{
    let a_len = a.unicode_len();
    let b_len = b.unicode_len();
    if a_len != b_len {
        assert(a@ != b@) by {
            assert(a@.len() != b@.len());
        }
        return false;
    }
    let mut i: usize = 0;
    while i < a_len
        invariant
            a_len == a@.len(),
            b_len == b@.len(),
            a_len == b_len,
            0 <= i <= a_len,
            forall|j: int| 0 <= j < i ==> a@[j] == b@[j],
        decreases a_len - i,
    {
        if a.get_char(i) != b.get_char(i) {
            return false;
        }
        i = i + 1;
    }
    proof {
        assert(a@ =~= b@);
    }
    true
}

/// The sequence with leading whitespace removed.
pub open spec fn trim_front(s: Seq<char>) -> Seq<char>
    decreases s.len(),
{
    if s.len() == 0 {
        s
    } else if is_space(s[0]) {
        trim_front(s.skip(1))
    } else {
        s
    }
}

/// The sequence with trailing whitespace removed.
pub open spec fn trim_back(s: Seq<char>) -> Seq<char>
    decreases s.len(),
{
    if s.len() == 0 {
        s
    } else if is_space(s.last()) {
        trim_back(s.drop_last())
    } else {
        s
    }
}

/// The sequence with both leading and trailing whitespace removed.
pub open spec fn trim_spec(s: Seq<char>) -> Seq<char> {
    trim_back(trim_front(s))
}

/// A fresh `String` holding `s` without leading or trailing whitespace.
pub fn trim_str(s: &str) -> (r: String)
    ensures
        r@ == trim_spec(s@),
{
    let len = s.unicode_len();
    let mut lo: usize = 0;
    proof {
        assert(s@.skip(0) =~= s@);
    }
    while lo < len && is_space_char(s.get_char(lo))
        invariant
            len == s@.len(),
            0 <= lo <= len,
            trim_front(s@) == trim_front(s@.skip(lo as int)),
        decreases len - lo,
    {
        proof {
            let t = s@.skip(lo as int);
            assert(t[0] == s@[lo as int]);
            assert(t.skip(1) =~= s@.skip(lo as int + 1));
        }
        lo = lo + 1;
    }
    if lo == len {
        proof {
            assert(s@.skip(lo as int) =~= Seq::<char>::empty());
            assert(trim_front(s@) =~= Seq::<char>::empty());
        }
        let r = String::new();
        return r;
    }
    proof {
        let t = s@.skip(lo as int);
        assert(t[0] == s@[lo as int]);
        assert(trim_front(s@) == t);
        assert(t =~= s@.subrange(lo as int, len as int));
    }
    let mut hi: usize = len;
    while lo < hi && is_space_char(s.get_char(hi - 1))
        invariant
            len == s@.len(),
            0 <= lo <= hi <= len,
            trim_back(s@.subrange(lo as int, len as int)) == trim_back(
                s@.subrange(lo as int, hi as int),
            ),
        decreases hi,
    {
        proof {
            let t = s@.subrange(lo as int, hi as int);
            assert(t.last() == s@[hi as int - 1]);
            assert(t.drop_last() =~= s@.subrange(lo as int, hi as int - 1));
        }
        hi = hi - 1;
    }
    if lo == hi {
        proof {
            assert(s@.subrange(lo as int, hi as int) =~= Seq::<char>::empty());
        }
        let r = String::new();
        return r;
    }
    proof {
        let t = s@.subrange(lo as int, hi as int);
        assert(t.last() == s@[hi as int - 1]);
        assert(trim_back(s@.subrange(lo as int, len as int)) == t);
    }
    let piece = s.substring_char(lo, hi);
    String::from_str(piece)
}

/// Whether `p` is a prefix of `s`.
pub open spec fn starts_with_spec(s: Seq<char>, p: Seq<char>) -> bool {
    p.len() <= s.len() && s.subrange(0, p.len() as int) == p
}

/// Prefix test at the character level.
pub fn starts_with_str(s: &str, p: &str) -> (r: bool)
    ensures
        r == starts_with_spec(s@, p@),
{
    let s_len = s.unicode_len();
    let p_len = p.unicode_len();
    if p_len > s_len {
        return false;
    }
    let mut i: usize = 0;
    while i < p_len
        invariant
            s_len == s@.len(),
            p_len == p@.len(),
            p_len <= s_len,
            0 <= i <= p_len,
            forall|j: int| 0 <= j < i ==> s@[j] == p@[j],
        decreases p_len - i,
    {
        if s.get_char(i) != p.get_char(i) {
            assert(s@.subrange(0, p@.len() as int)[i as int] != p@[i as int]);
            return false;
        }
        i = i + 1;
    }
    proof {
        assert(s@.subrange(0, p@.len() as int) =~= p@);
    }
    true
}

/// Removes the prefix `p` from `s` when present; `None` otherwise.
pub fn strip_prefix_str(s: &str, p: &str) -> (r: Option<String>)
    ensures
        starts_with_spec(s@, p@) ==> (r matches Some(t) && t@ == s@.skip(p@.len() as int)),
        !starts_with_spec(s@, p@) ==> r is None,
{
    if starts_with_str(s, p) {
        let rest = s.substring_char(p.unicode_len(), s.unicode_len());
        proof {
            assert(rest@ =~= s@.skip(p@.len() as int));
        }
        Some(String::from_str(rest))
    } else {
        None
    }
}

/// Index of the first occurrence of `c` in `s`, if any.
pub fn find_char(s: &str, c: char) -> (r: Option<usize>)
    ensures
        r matches Some(i) ==> i < s@.len() && s@[i as int] == c && (forall|j: int|
            0 <= j < i ==> s@[j] != c),
        r is None ==> forall|j: int| 0 <= j < s@.len() ==> s@[j] != c,
{
    let len = s.unicode_len();
    let mut i: usize = 0;
    while i < len
        invariant
            len == s@.len(),
            0 <= i <= len,
            forall|j: int| 0 <= j < i ==> s@[j] != c,
        decreases len - i,
    {
        if s.get_char(i) == c {
            return Some(i);
        }
        i = i + 1;
    }
    None
}

/// Whether `p` occurs in `s` starting at index `i`.
pub open spec fn matches_at(s: Seq<char>, p: Seq<char>, i: int) -> bool {
    0 <= i && i + p.len() <= s.len() && s.subrange(i, i + p.len() as int) == p
}

/// Whether `p` occurs anywhere in `s`.
pub open spec fn contains_seq(s: Seq<char>, p: Seq<char>) -> bool {
    exists|i: int| matches_at(s, p, i)
}

/// Substring search: whether `p` occurs anywhere in `s`.
pub fn contains_sub(s: &str, p: &str) -> (r: bool)
    ensures
        r == contains_seq(s@, p@),
{
    let s_len = s.unicode_len();
    let p_len = p.unicode_len();
    if p_len > s_len {
        assert(forall|i: int| !matches_at(s@, p@, i));
        return false;
    }
    if p_len == 0 {
        proof {
            assert(s@.subrange(0, 0) =~= p@);
            assert(matches_at(s@, p@, 0));
        }
        return true;
    }
    let bound = s_len - p_len;
    let mut i: usize = 0;
    while i <= bound
        invariant
            s_len == s@.len(),
            p_len == p@.len(),
            0 < p_len <= s_len,
            bound == s_len - p_len,
            0 <= i <= bound + 1,
            forall|k: int| 0 <= k < i ==> !matches_at(s@, p@, k),
        decreases bound + 1 - i,
    {
        let mut j: usize = 0;
        let mut mismatched = false;
        while j < p_len
            invariant
                s_len == s@.len(),
                p_len == p@.len(),
                p_len <= s_len,
                bound == s_len - p_len,
                0 <= i <= bound,
                0 <= j <= p_len,
                !mismatched ==> forall|m: int| 0 <= m < j ==> s@[i + m] == p@[m],
                mismatched ==> !matches_at(s@, p@, i as int),
            decreases p_len - j,
        {
            if s.get_char(i + j) != p.get_char(j) {
                proof {
                    if matches_at(s@, p@, i as int) {
                        let jj = j as int;
                        assert(s@.subrange(i as int, i + p@.len() as int)[jj] == p@[jj]);
                    }
                }
                mismatched = true;
                j = p_len;
            } else {
                j = j + 1;
            }
        }
        if !mismatched {
            proof {
                assert(s@.subrange(i as int, i + p@.len() as int) =~= p@);
                assert(matches_at(s@, p@, i as int));
            }
            return true;
        }
        i = i + 1;
    }
    proof {
        assert forall|k: int| !matches_at(s@, p@, k) by {
            if k > bound {
                assert(!matches_at(s@, p@, k));
            }
        }
    }
    false
}

/// Length of the maximal run of non-whitespace characters at the front of `s`.
pub open spec fn word_len(s: Seq<char>) -> nat
    decreases s.len(),
{
    if s.len() == 0 || is_space(s[0]) {
        0
    } else {
        1 + word_len(s.skip(1))
    }
}

pub proof fn lemma_word_len_le(s: Seq<char>)
    ensures
        word_len(s) <= s.len(),
    decreases s.len(),
{
    if s.len() > 0 && !is_space(s[0]) {
        lemma_word_len_le(s.skip(1));
    }
}

/// `word_len` is pinned by its characters: `n` non-space characters followed
/// by the end of the sequence or a space.
pub proof fn lemma_word_len_range(s: Seq<char>, n: int)
    requires
        0 <= n <= s.len(),
        forall|k: int| 0 <= k < n ==> !is_space(s[k]),
        n == s.len() || is_space(s[n]),
    ensures
        word_len(s) == n,
    decreases n,
{
    if n == 0 {
        assert(s.len() == 0 || is_space(s[0]));
    } else {
        let t = s.skip(1);
        assert forall|k: int| 0 <= k < n - 1 implies !is_space(t[k]) by {
            assert(t[k] == s[k + 1]);
        }
        if n < s.len() {
            assert(t[n - 1] == s[n]);
        }
        lemma_word_len_range(t, n - 1);
    }
}

/// The whitespace-separated words of `s`, in order.
pub open spec fn words(s: Seq<char>) -> Seq<Seq<char>>
    decreases s.len(),
    via words_decreases
{
    if s.len() == 0 {
        Seq::empty()
    } else if is_space(s[0]) {
        words(s.skip(1))
    } else {
        seq![s.take(word_len(s) as int)] + words(s.skip(word_len(s) as int))
    }
}

#[via_fn]
proof fn words_decreases(s: Seq<char>) {
    if s.len() > 0 && !is_space(s[0]) {
        lemma_word_len_le(s);
    }
}

/// The words of `s` as fresh strings, in order.
pub fn split_words(s: &str) -> (r: Vec<String>)
    ensures
        r.deep_view() == words(s@),
{
    let len = s.unicode_len();
    let mut r: Vec<String> = Vec::new();
    let mut i: usize = 0;
    proof {
        assert(s@.skip(0) =~= s@);
        assert(r.deep_view() + words(s@) =~= words(s@));
    }
    while i < len
        invariant
            len == s@.len(),
            0 <= i <= len,
            words(s@) == r.deep_view() + words(s@.skip(i as int)),
        decreases len - i,
    {
        let ghost t = s@.skip(i as int);
        proof {
            assert(t[0] == s@[i as int]);
        }
        if is_space_char(s.get_char(i)) {
            proof {
                assert(t.skip(1) =~= s@.skip(i as int + 1));
            }
            i = i + 1;
        } else {
            let mut j: usize = i + 1;
            while j < len && !is_space_char(s.get_char(j))
                invariant
                    len == s@.len(),
                    0 <= i < j <= len,
                    forall|k: int| i <= k < j ==> !is_space(s@[k]),
                decreases len - j,
            {
                j = j + 1;
            }
            proof {
                assert forall|k: int| 0 <= k < j - i implies !is_space(t[k]) by {
                    assert(t[k] == s@[i + k]);
                }
                if j < len {
                    assert(t[j - i] == s@[j as int]);
                }
                lemma_word_len_range(t, j - i);
                assert(t.take(j - i) =~= s@.subrange(i as int, j as int));
                assert(t.skip(j - i) =~= s@.skip(j as int));
            }
            let w = String::from_str(s.substring_char(i, j));
            let ghost old_r = r.deep_view();
            r.push(w);
            proof {
                assert(r.deep_view() =~= old_r.push(s@.subrange(i as int, j as int)));
                assert(words(t) == seq![s@.subrange(i as int, j as int)] + words(
                    s@.skip(j as int),
                ));
                assert(words(s@) =~= r.deep_view() + words(s@.skip(j as int)));
            }
            i = j;
        }
    }
    proof {
        assert(s@.skip(len as int) =~= Seq::<char>::empty());
        assert(words(s@) =~= r.deep_view());
    }
    r
}

/// The last whitespace-separated word of `s`, or `"unknown"` when `s` holds
/// no word at all.
pub fn last_word_or_unknown(s: &str) -> (r: String)
    ensures
        words(s@).len() > 0 ==> r@ == words(s@).last(),
        words(s@).len() == 0 ==> r@ == "unknown"@,
{
    let ws = split_words(s);
    proof {
        assert(ws.deep_view().len() == ws@.len());
    }
    if ws.len() > 0 {
        let w = ws[ws.len() - 1].clone();
        proof {
            assert(w@ == ws.deep_view()[ws@.len() - 1]);
        }
        w
    } else {
        String::from_str("unknown")
    }
}

/// The elements of `parts` concatenated with `sep` between consecutive ones.
pub open spec fn join_with(parts: Seq<Seq<char>>, sep: Seq<char>) -> Seq<char>
    decreases parts.len(),
{
    if parts.len() == 0 {
        Seq::empty()
    } else if parts.len() == 1 {
        parts[0]
    } else {
        parts[0] + sep + join_with(parts.skip(1), sep)
    }
}

pub proof fn lemma_join_push(parts: Seq<Seq<char>>, sep: Seq<char>, x: Seq<char>)
    requires
        parts.len() >= 1,
    ensures
        join_with(parts.push(x), sep) == join_with(parts, sep) + sep + x,
    decreases parts.len(),
{
    if parts.len() == 1 {
        assert(parts.push(x).skip(1) =~= seq![x]);
        assert(parts.push(x)[0] == parts[0]);
        assert(seq![x][0] == x);
        assert(join_with(seq![x], sep) == x);
        assert(join_with(parts.push(x), sep) == parts[0] + sep + x);
    } else {
        assert(parts.push(x).skip(1) =~= parts.skip(1).push(x));
        lemma_join_push(parts.skip(1), sep, x);
        assert(parts.push(x)[0] == parts[0]);
        assert((parts[0] + sep + (join_with(parts.skip(1), sep) + sep + x)) =~= ((parts[0] + sep
            + join_with(parts.skip(1), sep)) + sep + x));
    }
}

/// Concatenates `parts` with `sep` between consecutive elements.
pub fn join_strings(parts: &Vec<String>, sep: &str) -> (r: String)
    ensures
        r@ == join_with(parts.deep_view(), sep@),
{
    let ghost dv = parts.deep_view();
    proof {
        assert(dv.len() == parts@.len());
    }
    let mut r = String::new();
    let mut i: usize = 0;
    proof {
        assert(dv.take(0) =~= Seq::<Seq<char>>::empty());
    }
    while i < parts.len()
        invariant
            dv == parts.deep_view(),
            dv.len() == parts@.len(),
            0 <= i <= parts@.len(),
            r@ == join_with(dv.take(i as int), sep@),
        decreases parts@.len() - i,
    {
        proof {
            assert(dv[i as int] == parts@[i as int]@);
        }
        if i > 0 {
            r.append(sep);
        }
        r.append(parts[i].as_str());
        proof {
            assert(dv.take(i + 1) =~= dv.take(i as int).push(dv[i as int]));
            if i > 0 {
                lemma_join_push(dv.take(i as int), sep@, dv[i as int]);
            } else {
                assert(dv.take(1) =~= seq![dv[0]]);
                assert(join_with(seq![dv[0]], sep@) == dv[0]);
                assert(r@ =~= dv[0]);
            }
        }
        i = i + 1;
    }
    proof {
        assert(dv.take(parts@.len() as int) =~= dv);
    }
    r
}

/// The decimal digit character for `d`.
pub open spec fn digit_char(d: nat) -> char
    recommends
        d < 10,
{
    if d == 0 {
        '0'
    } else if d == 1 {
        '1'
    } else if d == 2 {
        '2'
    } else if d == 3 {
        '3'
    } else if d == 4 {
        '4'
    } else if d == 5 {
        '5'
    } else if d == 6 {
        '6'
    } else if d == 7 {
        '7'
    } else if d == 8 {
        '8'
    } else {
        '9'
    }
}

/// The decimal digit character for `d`.
pub fn digit_char_exec(d: u64) -> (c: char)
    requires
        d < 10,
    ensures
        c == digit_char(d as nat),
{
    if d == 0 {
        '0'
    } else if d == 1 {
        '1'
    } else if d == 2 {
        '2'
    } else if d == 3 {
        '3'
    } else if d == 4 {
        '4'
    } else if d == 5 {
        '5'
    } else if d == 6 {
        '6'
    } else if d == 7 {
        '7'
    } else if d == 8 {
        '8'
    } else {
        '9'
    }
}

/// The decimal representation of `n`, most significant digit first, with no
/// leading zeros (`0` is rendered as `"0"`).
pub open spec fn dec_rep(n: nat) -> Seq<char>
    decreases n,
{
    if n < 10 {
        seq![digit_char(n)]
    } else {
        dec_rep(n / 10).push(digit_char(n % 10))
    }
}

/// Relies on `String::push`: appends exactly one character to the string.
#[verifier::external_body]
fn push_char(s: &mut String, c: char)
    ensures
        final(s)@ == old(s)@.push(c),
{
    s.push(c);
}

/// Renders `n` in decimal.
pub fn u64_to_string(n: u64) -> (r: String)
    ensures
        r@ == dec_rep(n as nat),
{
    let mut digits: Vec<char> = Vec::new();
    let mut m = n;
    proof {
        assert(digits@.reverse() =~= Seq::<char>::empty());
        assert(dec_rep(n as nat) + digits@.reverse() =~= dec_rep(n as nat));
    }
    while m >= 10
        invariant
            dec_rep(n as nat) == dec_rep(m as nat) + digits@.reverse(),
        decreases m,
    {
        let d = m % 10;
        let ghost old_digits = digits@;
        digits.push(digit_char_exec(d));
        proof {
            assert(digits@.reverse() =~= seq![digit_char(d as nat)] + old_digits.reverse());
            assert(dec_rep(m as nat) == dec_rep((m / 10) as nat).push(digit_char((m % 10) as nat)));
            assert(dec_rep((m / 10) as nat) + digits@.reverse() =~= dec_rep(m as nat)
                + old_digits.reverse());
        }
        m = m / 10;
    }
    let ghost old_digits = digits@;
    digits.push(digit_char_exec(m));
    proof {
        assert(digits@.reverse() =~= seq![digit_char(m as nat)] + old_digits.reverse());
        assert(dec_rep(m as nat) == seq![digit_char(m as nat)]);
        assert(dec_rep(n as nat) =~= digits@.reverse());
    }
    let mut r = String::new();
    let mut i: usize = digits.len();
    proof {
        assert(digits@.reverse().take(0) =~= Seq::<char>::empty());
    }
    while i > 0
        invariant
            0 <= i <= digits@.len(),
            r@ == digits@.reverse().take(digits@.len() - i),
        decreases i,
    {
        let c = digits[i - 1];
        let ghost old_r = r@;
        push_char(&mut r, c);
        proof {
            let rev = digits@.reverse();
            let k = digits@.len() - i;
            assert(rev[k] == digits@[i - 1]);
            assert(rev.take(k + 1) =~= rev.take(k).push(rev[k]));
        }
        i = i - 1;
    }
    proof {
        assert(digits@.reverse().take(digits@.len() as int) =~= digits@.reverse());
    }
    r
}

} // verus!
