//! Character-level text handling used by the protocol and log parsers.
//!
//! Strings are handled as sequences of `char`; every operation here is
//! specified by a spec function over `Seq<char>`.

use vstd::prelude::*;

verus! {

broadcast use vstd::string::group_string_axioms;

/// Unicode `White_Space` property: the characters `char::is_whitespace`,
/// `str::trim` and `str::split_whitespace` treat as whitespace.
pub open spec fn is_ws(c: char) -> bool {
    let n = c as u32;
    ||| 0x09 <= n <= 0x0D
    ||| n == 0x20
    ||| n == 0x85
    ||| n == 0xA0
    ||| n == 0x1680
    ||| 0x2000 <= n <= 0x200A
    ||| n == 0x2028
    ||| n == 0x2029
    ||| n == 0x202F
    ||| n == 0x205F
    ||| n == 0x3000
}

/// `p` occurs in `s` starting at index `i`.
pub open spec fn occurs_at(s: Seq<char>, p: Seq<char>, i: int) -> bool {
    0 <= i && i + p.len() <= s.len() && s.subrange(i, i + p.len()) == p
}

/// `p` is a contiguous part of `s` (what `str::contains` answers).
pub open spec fn has_substring(s: Seq<char>, p: Seq<char>) -> bool {
    exists|i: int| occurs_at(s, p, i)
}

/// `s` begins with `p` (what `str::starts_with` answers).
pub open spec fn has_prefix(s: Seq<char>, p: Seq<char>) -> bool {
    occurs_at(s, p, 0)
}

/// Index of the first `c` in `s` at or after `from`, or `s.len()` when there is none.
pub open spec fn index_of_from(s: Seq<char>, c: char, from: int) -> int
    decreases s.len() - from,
{
    if from >= s.len() {
        s.len() as int
    } else if s[from] == c {
        from
    } else {
        index_of_from(s, c, from + 1)
    }
}

/// Index of the first occurrence of a non-empty `p` in `s` starting at or
/// after `from`, or `s.len()` when there is none.
pub open spec fn find_from(s: Seq<char>, p: Seq<char>, from: int) -> int
    decreases s.len() - from,
{
    if from + p.len() > s.len() || from >= s.len() {
        s.len() as int
    } else if occurs_at(s, p, from) {
        from
    } else {
        find_from(s, p, from + 1)
    }
}

/// First index at or after `from` that is not whitespace, or `s.len()`.
pub open spec fn skip_ws(s: Seq<char>, from: int) -> int
    decreases s.len() - from,
{
    if from >= s.len() {
        s.len() as int
    } else if is_ws(s[from]) {
        skip_ws(s, from + 1)
    } else {
        from
    }
}

/// First index at or after `from` that is whitespace, or `s.len()`.
pub open spec fn word_end(s: Seq<char>, from: int) -> int
    decreases s.len() - from,
{
    if from >= s.len() {
        s.len() as int
    } else if is_ws(s[from]) {
        from
    } else {
        word_end(s, from + 1)
    }
}

/// End of `s.subrange(0, to)` once trailing whitespace is removed.
pub open spec fn rskip_ws(s: Seq<char>, to: int) -> int
    decreases to,
{
    if to <= 0 {
        0
    } else if is_ws(s[to - 1]) {
        rskip_ws(s, to - 1)
    } else {
        to
    }
}

/// `s` without leading and trailing whitespace (what `str::trim` gives).
pub open spec fn trimmed(s: Seq<char>) -> Seq<char> {
    let a = skip_ws(s, 0);
    if a >= s.len() {
        Seq::empty()
    } else {
        s.subrange(a, rskip_ws(s, s.len() as int))
    }
}

/// First index at or after `from` that is not `c`, or `s.len()`.
pub open spec fn skip_char(s: Seq<char>, c: char, from: int) -> int
    decreases s.len() - from,
{
    if from >= s.len() {
        s.len() as int
    } else if s[from] == c {
        skip_char(s, c, from + 1)
    } else {
        from
    }
}

/// End of `s.subrange(0, to)` once trailing `c`s are removed.
pub open spec fn rskip_char(s: Seq<char>, c: char, to: int) -> int
    decreases to,
{
    if to <= 0 {
        0
    } else if s[to - 1] == c {
        rskip_char(s, c, to - 1)
    } else {
        to
    }
}

pub proof fn lemma_index_of_from_bounds(s: Seq<char>, c: char, from: int)
    requires
        0 <= from <= s.len(),
    ensures
        from <= index_of_from(s, c, from) <= s.len(),
        index_of_from(s, c, from) < s.len() ==> s[index_of_from(s, c, from)] == c,
        forall|j: int| from <= j < index_of_from(s, c, from) ==> s[j] != c,
    decreases s.len() - from,
{
    if from < s.len() && s[from] != c {
        lemma_index_of_from_bounds(s, c, from + 1);
    }
}

pub proof fn lemma_skip_ws_bounds(s: Seq<char>, from: int)
    requires
        0 <= from <= s.len(),
    ensures
        from <= skip_ws(s, from) <= s.len(),
        skip_ws(s, from) < s.len() ==> !is_ws(s[skip_ws(s, from)]),
        forall|j: int| from <= j < skip_ws(s, from) ==> is_ws(s[j]),
    decreases s.len() - from,
{
    if from < s.len() && is_ws(s[from]) {
        lemma_skip_ws_bounds(s, from + 1);
    }
}

pub proof fn lemma_word_end_bounds(s: Seq<char>, from: int)
    requires
        0 <= from <= s.len(),
    ensures
        from <= word_end(s, from) <= s.len(),
        forall|j: int| from <= j < word_end(s, from) ==> !is_ws(s[j]),
    decreases s.len() - from,
{
    if from < s.len() && !is_ws(s[from]) {
        lemma_word_end_bounds(s, from + 1);
    }
}

pub proof fn lemma_rskip_ws_bounds(s: Seq<char>, to: int)
    requires
        0 <= to <= s.len(),
    ensures
        0 <= rskip_ws(s, to) <= to,
        rskip_ws(s, to) > 0 ==> !is_ws(s[rskip_ws(s, to) - 1]),
    decreases to,
{
    if to > 0 && is_ws(s[to - 1]) {
        lemma_rskip_ws_bounds(s, to - 1);
    }
}

/// When some index at or after `from` is not whitespace, trailing-whitespace
/// removal stops after it.
pub proof fn lemma_rskip_ws_after(s: Seq<char>, to: int, k: int)
    requires
        0 <= k < to <= s.len(),
        !is_ws(s[k]),
    ensures
        k < rskip_ws(s, to) <= to,
    decreases to,
{
    if is_ws(s[to - 1]) {
        lemma_rskip_ws_after(s, to - 1, k);
    }
}

pub proof fn lemma_skip_char_bounds(s: Seq<char>, c: char, from: int)
    requires
        0 <= from <= s.len(),
    ensures
        from <= skip_char(s, c, from) <= s.len(),
    decreases s.len() - from,
{
    if from < s.len() && s[from] == c {
        lemma_skip_char_bounds(s, c, from + 1);
    }
}

pub proof fn lemma_rskip_char_bounds(s: Seq<char>, c: char, to: int)
    requires
        0 <= to <= s.len(),
    ensures
        0 <= rskip_char(s, c, to) <= to,
    decreases to,
{
    if to > 0 && s[to - 1] == c {
        lemma_rskip_char_bounds(s, c, to - 1);
    }
}

/// Appends `c` to `s` with `String::push`.
#[verifier::external_body]
fn push_char(s: &mut String, c: char)
    ensures
        final(s)@ == old(s)@.push(c),
{
    s.push(c)
}

/// The characters of `s`, in order.
pub fn to_chars(s: &str) -> (v: Vec<char>)
    ensures
        v@ == s@,
{
    let mut v: Vec<char> = Vec::new();
    for c in it: s.chars()
        invariant
            v@ == it.history(),
    {
        v.push(c);
    }
    v
}

/// The string made of `v[from..to]`.
pub fn string_of(v: &Vec<char>, from: usize, to: usize) -> (r: String)
    requires
        from <= to <= v.len(),
    ensures
        r@ == v@.subrange(from as int, to as int),
{
    let mut r = String::new();
    let mut i = from;
    while i < to
        invariant
            from <= i <= to <= v.len(),
            r@ == v@.subrange(from as int, i as int),
        decreases to - i,
    {
        push_char(&mut r, v[i]);
        i += 1;
        assert(r@ =~= v@.subrange(from as int, i as int));
    }
    r
}

/// Whether `c` is whitespace in the sense of `char::is_whitespace`.
pub fn is_whitespace(c: char) -> (r: bool)
    ensures
        r == is_ws(c),
{
    let n = c as u32;
    (0x09 <= n && n <= 0x0D) || n == 0x20 || n == 0x85 || n == 0xA0 || n == 0x1680 || (0x2000 <= n
        && n <= 0x200A) || n == 0x2028 || n == 0x2029 || n == 0x202F || n == 0x205F || n == 0x3000
}

/// Whether `p` occurs in `s` at index `i`.
pub fn matches_at(s: &Vec<char>, p: &Vec<char>, i: usize) -> (r: bool)
    ensures
        r == occurs_at(s@, p@, i as int),
{
    if i > s.len() || p.len() > s.len() - i {
        return false;
    }
    let mut k: usize = 0;
    while k < p.len()
        invariant
            i + p.len() <= s.len(),
            k <= p.len(),
            forall|t: int| 0 <= t < k ==> s@[i + t] == p@[t],
        decreases p.len() - k,
    {
        if s[i + k] != p[k] {
            assert(s@.subrange(i as int, i + p.len())[k as int] != p@[k as int]);
            return false;
        }
        k += 1;
    }
    assert(s@.subrange(i as int, i + p.len()) =~= p@);
    true
}

/// Whether `p` occurs anywhere in `s`.
pub fn contains(s: &Vec<char>, p: &Vec<char>) -> (r: bool)
    ensures
        r == has_substring(s@, p@),
{
    if p.len() > s.len() {
        assert(forall|i: int| !occurs_at(s@, p@, i));
        return false;
    }
    let last = s.len() - p.len();
    let mut i: usize = 0;
    while i < last
        invariant
            last == s.len() - p.len(),
            i <= last,
            forall|j: int| 0 <= j < i ==> !occurs_at(s@, p@, j),
        decreases last - i,
    {
        if matches_at(s, p, i) {
            return true;
        }
        i += 1;
    }
    if matches_at(s, p, last) {
        return true;
    }
    assert(forall|j: int| !occurs_at(s@, p@, j));
    false
}

/// Whether `s` begins with `p`.
pub fn starts_with(s: &Vec<char>, p: &Vec<char>) -> (r: bool)
    ensures
        r == has_prefix(s@, p@),
{
    matches_at(s, p, 0)
}

/// Index of the first `c` at or after `from`, or `s.len()`.
pub fn index_of(s: &Vec<char>, c: char, from: usize) -> (r: usize)
    requires
        from <= s.len(),
    ensures
        r == index_of_from(s@, c, from as int),
{
    let mut i = from;
    while i < s.len()
        invariant
            from <= i <= s.len(),
            index_of_from(s@, c, from as int) == index_of_from(s@, c, i as int),
        decreases s.len() - i,
    {
        if s[i] == c {
            return i;
        }
        i += 1;
    }
    i
}

/// Index of the first occurrence of the non-empty `p` at or after `from`, or `s.len()`.
pub fn find(s: &Vec<char>, p: &Vec<char>, from: usize) -> (r: usize)
    requires
        from <= s.len(),
    ensures
        r == find_from(s@, p@, from as int),
{
    let mut i = from;
    while i < s.len() && p.len() <= s.len() - i
        invariant
            from <= i <= s.len(),
            find_from(s@, p@, from as int) == find_from(s@, p@, i as int),
        decreases s.len() - i,
    {
        if matches_at(s, p, i) {
            return i;
        }
        i += 1;
    }
    s.len()
}

/// First index at or after `from` that is not whitespace, or `s.len()`.
pub fn skip_whitespace(s: &Vec<char>, from: usize) -> (r: usize)
    requires
        from <= s.len(),
    ensures
        r == skip_ws(s@, from as int),
{
    let mut i = from;
    while i < s.len()
        invariant
            from <= i <= s.len(),
            skip_ws(s@, from as int) == skip_ws(s@, i as int),
        decreases s.len() - i,
    {
        if !is_whitespace(s[i]) {
            return i;
        }
        i += 1;
    }
    i
}

/// First index at or after `from` that is whitespace, or `s.len()`.
pub fn word_end_at(s: &Vec<char>, from: usize) -> (r: usize)
    requires
        from <= s.len(),
    ensures
        r == word_end(s@, from as int),
{
    let mut i = from;
    while i < s.len()
        invariant
            from <= i <= s.len(),
            word_end(s@, from as int) == word_end(s@, i as int),
        decreases s.len() - i,
    {
        if is_whitespace(s[i]) {
            return i;
        }
        i += 1;
    }
    i
}

/// `s[..to]` without trailing whitespace: the end index.
pub fn rskip_whitespace(s: &Vec<char>, to: usize) -> (r: usize)
    requires
        to <= s.len(),
    ensures
        r == rskip_ws(s@, to as int),
{
    let mut j = to;
    while j > 0
        invariant
            j <= to <= s.len(),
            rskip_ws(s@, to as int) == rskip_ws(s@, j as int),
        decreases j,
    {
        if !is_whitespace(s[j - 1]) {
            return j;
        }
        j -= 1;
    }
    0
}

/// `s[from..to]` with leading and trailing whitespace removed.
pub fn trim_range(s: &Vec<char>, from: usize, to: usize) -> (r: String)
    requires
        from <= to <= s.len(),
    ensures
        r@ == trimmed(s@.subrange(from as int, to as int)),
{
    let ghost t = s@.subrange(from as int, to as int);
    let a = skip_whitespace(s, from);
    let b = rskip_whitespace(s, to);
    proof {
        lemma_skip_ws_shift(s@, from as int, to as int);
        lemma_rskip_ws_shift(s@, from as int, to as int);
        lemma_skip_ws_bounds(t, 0);
        lemma_rskip_ws_bounds(t, t.len() as int);
        if skip_ws(t, 0) < t.len() {
            lemma_rskip_ws_after(t, t.len() as int, skip_ws(t, 0));
        }
    }
    if a >= to {
        assert(trimmed(t) =~= Seq::<char>::empty());
        return String::new();
    }
    let r = string_of(s, a, b);
    assert(r@ =~= trimmed(t));
    r
}

proof fn lemma_skip_ws_shift(s: Seq<char>, from: int, to: int)
    requires
        0 <= from <= to <= s.len(),
    ensures
        ({
            let t = s.subrange(from, to);
            if skip_ws(s, from) >= to {
                skip_ws(t, 0) == t.len()
            } else {
                skip_ws(t, 0) == skip_ws(s, from) - from
            }
        }),
{
    let t = s.subrange(from, to);
    lemma_skip_ws_shift_gen(s, from, to, from);
}

proof fn lemma_skip_ws_shift_gen(s: Seq<char>, from: int, to: int, i: int)
    requires
        0 <= from <= i <= to <= s.len(),
    ensures
        ({
            let t = s.subrange(from, to);
            if skip_ws(s, i) >= to {
                skip_ws(t, i - from) == t.len()
            } else {
                skip_ws(t, i - from) == skip_ws(s, i) - from
            }
        }),
    decreases to - i,
{
    let t = s.subrange(from, to);
    if i < to {
        assert(t[i - from] == s[i]);
        if is_ws(s[i]) {
            lemma_skip_ws_shift_gen(s, from, to, i + 1);
        }
    } else {
        lemma_skip_ws_bounds(s, i);
    }
}

proof fn lemma_rskip_ws_shift(s: Seq<char>, from: int, to: int)
    requires
        0 <= from <= to <= s.len(),
    ensures
        ({
            let t = s.subrange(from, to);
            if rskip_ws(s, to) <= from {
                rskip_ws(t, t.len() as int) == 0
            } else {
                rskip_ws(t, t.len() as int) == rskip_ws(s, to) - from
            }
        }),
{
    lemma_rskip_ws_shift_gen(s, from, to, to);
}

proof fn lemma_rskip_ws_shift_gen(s: Seq<char>, from: int, to: int, j: int)
    requires
        0 <= from <= j <= to <= s.len(),
    ensures
        ({
            let t = s.subrange(from, to);
            if rskip_ws(s, j) <= from {
                rskip_ws(t, j - from) == 0
            } else {
                rskip_ws(t, j - from) == rskip_ws(s, j) - from
            }
        }),
    decreases j,
{
    let t = s.subrange(from, to);
    if j > from {
        assert(t[j - from - 1] == s[j - 1]);
        if is_ws(s[j - 1]) {
            lemma_rskip_ws_shift_gen(s, from, to, j - 1);
        }
    } else {
        lemma_rskip_ws_bounds(s, j);
    }
}

} // verus!

verus! {

/// Whether two character vectors hold the same characters.
pub fn seq_eq_vec(a: &Vec<char>, b: &Vec<char>) -> (r: bool)
    ensures
        r == (a@ == b@),
{
    if a.len() != b.len() {
        return false;
    }
    let mut i: usize = 0;
    while i < a.len()
        invariant
            a.len() == b.len(),
            i <= a.len(),
            forall|j: int| 0 <= j < i ==> a@[j] == b@[j],
        decreases a.len() - i,
    {
        if a[i] != b[i] {
            return false;
        }
        i += 1;
    }
    assert(a@ =~= b@);
    true
}

/// Whether `a` and `b` hold the same text.
pub fn str_eq(a: &str, b: &str) -> (r: bool)
    ensures
        r == (a@ == b@),
{
    let x = to_chars(a);
    let y = to_chars(b);
    seq_eq_vec(&x, &y)
}

} // verus!

verus! {

pub proof fn lemma_find_from_bounds(s: Seq<char>, p: Seq<char>, from: int)
    requires
        0 <= from <= s.len(),
    ensures
        from <= find_from(s, p, from) <= s.len(),
        find_from(s, p, from) < s.len() ==> occurs_at(s, p, find_from(s, p, from)),
    decreases s.len() - from,
{
    if !(from + p.len() > s.len() || from >= s.len()) && !occurs_at(s, p, from) {
        lemma_find_from_bounds(s, p, from + 1);
    }
}

/// A word that starts at a non-whitespace character ends after it.
pub proof fn lemma_word_end_progress(s: Seq<char>, a: int)
    requires
        0 <= a < s.len(),
        !is_ws(s[a]),
    ensures
        a < word_end(s, a) <= s.len(),
{
    lemma_word_end_bounds(s, a + 1);
}

/// The characters `v[from..to]`.
pub fn sub_vec(v: &Vec<char>, from: usize, to: usize) -> (r: Vec<char>)
    requires
        from <= to <= v.len(),
    ensures
        r@ == v@.subrange(from as int, to as int),
{
    let mut r: Vec<char> = Vec::new();
    let mut i = from;
    while i < to
        invariant
            from <= i <= to <= v.len(),
            r@ == v@.subrange(from as int, i as int),
        decreases to - i,
    {
        r.push(v[i]);
        i += 1;
        assert(r@ =~= v@.subrange(from as int, i as int));
    }
    r
}

} // verus!

verus! {

/// First index at or after `from` that is not `c`, or `s.len()`.
pub fn skip_char_at(s: &Vec<char>, c: char, from: usize) -> (r: usize)
    requires
        from <= s.len(),
    ensures
        r == skip_char(s@, c, from as int),
{
    let mut i = from;
    while i < s.len()
        invariant
            from <= i <= s.len(),
            skip_char(s@, c, from as int) == skip_char(s@, c, i as int),
        decreases s.len() - i,
    {
        if s[i] != c {
            return i;
        }
        i += 1;
    }
    i
}

/// `s[..to]` without trailing `c`s: the end index.
pub fn rskip_char_at(s: &Vec<char>, c: char, to: usize) -> (r: usize)
    requires
        to <= s.len(),
    ensures
        r == rskip_char(s@, c, to as int),
{
    let mut j = to;
    while j > 0
        invariant
            j <= to <= s.len(),
            rskip_char(s@, c, to as int) == rskip_char(s@, c, j as int),
        decreases j,
    {
        if s[j - 1] != c {
            return j;
        }
        j -= 1;
    }
    0
}

} // verus!

verus! {

/// The first `c` at or after `from` is at `k` when `k` holds `c` and
/// nothing between `from` and `k` does.
pub proof fn lemma_index_of_from_is(s: Seq<char>, c: char, from: int, k: int)
    requires
        0 <= from <= k < s.len(),
        s[k] == c,
        forall|j: int| from <= j < k ==> s[j] != c,
    ensures
        index_of_from(s, c, from) == k,
    decreases k - from,
{
    if from < k {
        lemma_index_of_from_is(s, c, from + 1, k);
    }
}

} // verus!

verus! {

/// A word: non-empty, without whitespace.
pub open spec fn is_word(w: Seq<char>) -> bool {
    w.len() > 0 && forall|i: int| 0 <= i < w.len() ==> !is_ws(#[trigger] w[i])
}

/// The whitespace-separated words of `s` from index `i` on, in order (what
/// `str::split_whitespace` yields).
pub open spec fn words_from(s: Seq<char>, i: int) -> Seq<Seq<char>>
    decreases s.len() - i,
{
    if i < 0 || i >= s.len() {
        Seq::empty()
    } else {
        let a = skip_ws(s, i);
        if a >= s.len() {
            Seq::empty()
        } else {
            let b = word_end(s, a);
            proof {
                lemma_skip_ws_bounds(s, i);
                lemma_word_end_progress(s, a);
            }
            seq![s.subrange(a, b)] + words_from(s, b)
        }
    }
}

/// The whitespace-separated words of `s`.
pub open spec fn words(s: Seq<char>) -> Seq<Seq<char>> {
    words_from(s, 0)
}

/// Within a stretch without whitespace, a word runs to the end.
proof fn lemma_word_end_in_word(s: Seq<char>, start: int, j: int)
    requires
        0 <= start <= j <= s.len(),
        forall|k: int| start <= k < s.len() ==> !is_ws(s[k]),
    ensures
        word_end(s, j) == s.len(),
    decreases s.len() - j,
{
    if j < s.len() {
        lemma_word_end_in_word(s, start, j + 1);
    }
}

/// A word is its own only word.
pub proof fn lemma_words_of_word(w: Seq<char>)
    requires
        is_word(w),
    ensures
        words(w) == seq![w],
{
    lemma_word_end_in_word(w, 0, 0);
    assert(w.subrange(0, w.len() as int) =~= w);
    assert(words_from(w, w.len() as int) =~= Seq::<Seq<char>>::empty());
    assert(seq![w] + Seq::<Seq<char>>::empty() =~= seq![w]);
}

proof fn lemma_skip_ws_before_word(x: Seq<char>, w: Seq<char>, i: int)
    requires
        is_word(w),
        0 <= i <= x.len(),
    ensures
        ({
            let s = x + seq![' '] + w;
            if skip_ws(x, i) < x.len() {
                skip_ws(s, i) == skip_ws(x, i)
            } else {
                skip_ws(s, i) == x.len() + 1
            }
        }),
    decreases x.len() - i,
{
    let s = x + seq![' '] + w;
    if i == x.len() {
        assert(s[i] == ' ');
        assert(is_ws(' '));
        assert(s[i + 1] == w[0]);
        assert(!is_ws(w[0]));
        assert(skip_ws(s, i + 1) == i + 1);
    } else {
        assert(s[i] == x[i]);
        lemma_skip_ws_before_word(x, w, i + 1);
    }
}

proof fn lemma_word_end_before_space(x: Seq<char>, w: Seq<char>, a: int)
    requires
        0 <= a <= x.len(),
    ensures
        word_end(x + seq![' '] + w, a) == word_end(x, a),
    decreases x.len() - a,
{
    let s = x + seq![' '] + w;
    if a == x.len() {
        assert(s[a] == ' ');
        assert(is_ws(' '));
    } else {
        assert(s[a] == x[a]);
        lemma_word_end_before_space(x, w, a + 1);
    }
}

/// Appending a space and a word to a text appends that word to its words.
pub proof fn lemma_words_append_word(x: Seq<char>, w: Seq<char>, i: int)
    requires
        is_word(w),
        0 <= i <= x.len(),
    ensures
        words_from(x + seq![' '] + w, i) == words_from(x, i) + seq![w],
    decreases x.len() - i,
{
    let s = x + seq![' '] + w;
    lemma_skip_ws_before_word(x, w, i);
    lemma_skip_ws_bounds(x, i);
    let a = skip_ws(x, i);
    if a < x.len() {
        lemma_word_end_progress(x, a);
        lemma_word_end_before_space(x, w, a);
        let b = word_end(x, a);
        lemma_words_append_word(x, w, b);
        assert(s.subrange(a, b) =~= x.subrange(a, b));
        assert(words_from(s, i) == seq![x.subrange(a, b)] + words_from(s, b));
        assert(words_from(x, i) == seq![x.subrange(a, b)] + words_from(x, b));
        assert(seq![x.subrange(a, b)] + (words_from(x, b) + seq![w]) =~= (seq![x.subrange(a, b)]
            + words_from(x, b)) + seq![w]);
    } else {
        let start = (x.len() + 1) as int;
        assert forall|k: int| start <= k < s.len() implies !is_ws(s[k]) by {
            assert(s[k] == w[k - start]);
        }
        lemma_word_end_in_word(s, start, start);
        assert(s.subrange(start, s.len() as int) =~= w);
        assert(words_from(s, s.len() as int) =~= Seq::<Seq<char>>::empty());
        assert(words_from(x, i) =~= Seq::<Seq<char>>::empty());
        assert(words_from(s, i) =~= seq![w]);
    }
}

} // verus!
