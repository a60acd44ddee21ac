//! Text as sequences of characters: searching, trimming, replacing, splitting,
//! and writing and reading whole numbers.

use vstd::prelude::*;

verus! {

// ---------------------------------------------------------------------------
// Views
// ---------------------------------------------------------------------------

/// What an optional text holds.
pub open spec fn opt(s: Option<String>) -> Option<Seq<char>> {
    match s {
        Some(t) => Some(t@),
        None => None,
    }
}

/// What a list of texts holds.
pub open spec fn texts(v: Seq<String>) -> Seq<Seq<char>> {
    Seq::new(v.len(), |i: int| v[i]@)
}

/// What a list of borrowed texts holds.
pub open spec fn strs(v: Seq<&str>) -> Seq<Seq<char>> {
    Seq::new(v.len(), |i: int| v[i]@)
}

/// Whether two texts hold the same characters.
pub fn same(a: &str, b: &str) -> (r: bool)
    ensures
        r == (a@ == b@),
{
    a.to_owned() == b.to_owned()
}

/// A copy of an optional text.
pub fn copy_opt(s: &Option<String>) -> (r: Option<String>)
    ensures
        opt(r) == opt(*s),
{
    match s {
        Some(t) => Some(t.clone()),
        None => None,
    }
}

/// Whether a text that may be missing is the one that it should be.
pub open spec fn is_opt(s: Option<&str>, t: Option<Seq<char>>) -> bool {
    match (s, t) {
        (Some(x), Some(y)) => x@ == y,
        (None, None) => true,
        _ => false,
    }
}

/// The characters of a text, in order.
pub fn to_chars(s: &str) -> (v: Vec<char>)
    ensures
        v@ == s@,
{
    let mut v: Vec<char> = Vec::new();
    for c in it: s.chars()
        invariant
            it.seq() == s@,
            v@ == s@.take(it.index() as int),
    {
        assert(s@.take(it.index() as int + 1) =~= s@.take(it.index() as int).push(c));
        v.push(c);
    }
    assert(s@.take(s@.len() as int) =~= s@);
    v
}

/// The text made of the characters of `v` in `from..to`.
pub fn from_chars(v: &Vec<char>, from: usize, to: usize) -> (s: String)
    requires
        from <= to <= v@.len(),
    ensures
        s@ == v@.subrange(from as int, to as int),
{
    let mut s = String::new();
    let mut i: usize = from;
    while i < to
        invariant
            from <= i <= to <= v@.len(),
            s@ == v@.subrange(from as int, i as int),
        decreases to - i,
    {
        s.push(v[i]);
        i = i + 1;
        assert(v@.subrange(from as int, i as int) =~= v@.subrange(from as int, i - 1).push(
            v@[i - 1],
        ));
    }
    s
}

/// The first `n` characters of `t`, or all of it where it is shorter.
pub open spec fn head(t: Seq<char>, n: int) -> Seq<char> {
    if t.len() <= n {
        t
    } else {
        t.take(n)
    }
}

/// The first `n` characters of a text.
pub fn head_of(s: &str, n: usize) -> (r: String)
    ensures
        r@ == head(s@, n as int),
{
    let v = to_chars(s);
    let end: usize = if v.len() <= n { v.len() } else { n };
    let r = from_chars(&v, 0, end);
    assert(v@.subrange(0, v@.len() as int) =~= v@);
    assert(v.len() > n ==> v@.subrange(0, n as int) =~= v@.take(n as int));
    r
}

// ---------------------------------------------------------------------------
// Searching
// ---------------------------------------------------------------------------

/// Whether `p` stands in `t` at position `i`.
pub open spec fn occurs_at(t: Seq<char>, p: Seq<char>, i: int) -> bool {
    &&& 0 <= i
    &&& i + p.len() <= t.len()
    &&& t.subrange(i, i + p.len()) == p
}

/// Whether `p` stands anywhere in `t`.
pub open spec fn contains(t: Seq<char>, p: Seq<char>) -> bool {
    exists|i: int| occurs_at(t, p, i)
}

/// Whether the character `c` stands anywhere in `t`.
pub open spec fn has_char(t: Seq<char>, c: char) -> bool {
    exists|i: int| 0 <= i < t.len() && t[i] == c
}

/// The first position from `k` on at which `p` stands in `t`.
pub open spec fn find_from(t: Seq<char>, p: Seq<char>, k: int) -> Option<int>
    decreases t.len() - k,
{
    if k + p.len() > t.len() || k < 0 {
        None
    } else if occurs_at(t, p, k) {
        Some(k)
    } else if k < t.len() {
        find_from(t, p, k + 1)
    } else {
        None
    }
}

/// The first position at which `p` stands in `t`.
pub open spec fn find(t: Seq<char>, p: Seq<char>) -> Option<int> {
    find_from(t, p, 0)
}

/// `find_from` gives the least position, and gives one whenever there is one.
pub proof fn lemma_find_from(t: Seq<char>, p: Seq<char>, k: int)
    requires
        0 <= k,
    ensures
        match find_from(t, p, k) {
            Some(i) => k <= i && occurs_at(t, p, i) && forall|j: int|
                k <= j < i ==> !occurs_at(t, p, j),
            None => forall|j: int| k <= j ==> !occurs_at(t, p, j),
        },
    decreases t.len() - k,
{
    if k + p.len() <= t.len() && !occurs_at(t, p, k) && k < t.len() {
        lemma_find_from(t, p, k + 1);
        assert forall|j: int| k <= j && find_from(t, p, k) is None implies !occurs_at(
            t,
            p,
            j,
        ) by {
            if j > k {
                assert(k + 1 <= j);
            }
        }
    }
}

/// `find` finds exactly what `contains` speaks of.
pub proof fn lemma_find(t: Seq<char>, p: Seq<char>)
    ensures
        find(t, p) is Some <==> contains(t, p),
        find(t, p) matches Some(i) ==> occurs_at(t, p, i) && 0 <= i && i + p.len() <= t.len(),
{
    lemma_find_from(t, p, 0);
}

/// Whether `p` stands in `t` at position `i`.
pub fn occurs(t: &Vec<char>, p: &Vec<char>, i: usize) -> (r: bool)
    requires
        i <= t@.len(),
    ensures
        r == occurs_at(t@, p@, i as int),
{
    if p.len() > t.len() - i {
        return false;
    }
    let n: usize = t.len();
    let mut k: usize = 0;
    while k < p.len()
        invariant
            k <= p@.len(),
            i + p@.len() <= n == t@.len(),
            forall|j: int| 0 <= j < k ==> t@[i + j] == p@[j],
        decreases p@.len() - k,
    {
        if t[i + k] != p[k] {
            proof {
                if t@.subrange(i as int, i + p@.len()) == p@ {
                    assert(t@.subrange(i as int, i + p@.len())[k as int] == p@[k as int]);
                }
            }
            return false;
        }
        k = k + 1;
    }
    assert(t@.subrange(i as int, i + p@.len()) =~= p@);
    true
}

/// The first position from `from` on at which `p` stands in `t`.
pub fn position(t: &Vec<char>, p: &Vec<char>, from: usize) -> (r: Option<usize>)
    ensures
        match r {
            Some(i) => find_from(t@, p@, from as int) == Some(i as int),
            None => find_from(t@, p@, from as int) is None,
        },
{
    if from > t.len() {
        return None;
    }
    let mut i: usize = from;
    loop
        invariant
            from <= i <= t@.len(),
            find_from(t@, p@, from as int) == find_from(t@, p@, i as int),
        decreases t@.len() - i,
    {
        if p.len() > t.len() - i {
            return None;
        }
        if occurs(t, p, i) {
            return Some(i);
        }
        if i == t.len() {
            return None;
        }
        i = i + 1;
    }
}

/// The last position up to `k` at which `p` stands in `t`.
pub open spec fn rfind_from(t: Seq<char>, p: Seq<char>, k: int) -> Option<int>
    decreases k + 1,
{
    if k < 0 {
        None
    } else if occurs_at(t, p, k) {
        Some(k)
    } else {
        rfind_from(t, p, k - 1)
    }
}

/// The last position at which `p` stands in `t`.
pub open spec fn rfind(t: Seq<char>, p: Seq<char>) -> Option<int> {
    rfind_from(t, p, t.len() as int)
}

/// The last position at which `p` stands in `t`.
pub fn last_position(t: &Vec<char>, p: &Vec<char>) -> (r: Option<usize>)
    ensures
        match r {
            Some(i) => rfind(t@, p@) == Some(i as int),
            None => rfind(t@, p@) is None,
        },
        r matches Some(i) ==> i <= t@.len(),
{
    let mut i: usize = t.len();
    loop
        invariant
            i <= t@.len(),
            rfind(t@, p@) == rfind_from(t@, p@, i as int),
        decreases i,
    {
        if occurs(t, p, i) {
            return Some(i);
        }
        if i == 0 {
            assert(rfind_from(t@, p@, -1) is None);
            return None;
        }
        i = i - 1;
    }
}

/// Whether `p` stands anywhere in `s`.
pub fn includes(s: &str, p: &str) -> (r: bool)
    ensures
        r == contains(s@, p@),
{
    let t = to_chars(s);
    let q = to_chars(p);
    proof {
        lemma_find(s@, p@);
    }
    position(&t, &q, 0).is_some()
}

/// Whether `t` begins with `p`.
pub open spec fn starts(t: Seq<char>, p: Seq<char>) -> bool {
    occurs_at(t, p, 0)
}

/// Whether `s` begins with `p`.
pub fn starts_with(s: &str, p: &str) -> (r: bool)
    ensures
        r == starts(s@, p@),
{
    let t = to_chars(s);
    let q = to_chars(p);
    occurs(&t, &q, 0)
}

/// What follows the prefix `p`, where `t` begins with it.
pub open spec fn after(t: Seq<char>, p: Seq<char>) -> Option<Seq<char>> {
    if starts(t, p) {
        Some(t.skip(p.len() as int))
    } else {
        None
    }
}

/// What follows the prefix `p`, where `s` begins with it.
pub fn strip_prefix(s: &str, p: &str) -> (r: Option<String>)
    ensures
        opt(r) == after(s@, p@),
{
    let t = to_chars(s);
    let q = to_chars(p);
    if occurs(&t, &q, 0) {
        let r = from_chars(&t, q.len(), t.len());
        assert(t@.subrange(q@.len() as int, t@.len() as int) =~= t@.skip(q@.len() as int));
        Some(r)
    } else {
        None
    }
}

/// The first position from `k` on that holds `c`, or the length of `t`.
pub open spec fn index_of(t: Seq<char>, c: char, k: int) -> int
    decreases t.len() - k,
{
    if 0 <= k < t.len() && t[k] != c {
        index_of(t, c, k + 1)
    } else {
        k
    }
}

/// `index_of` gives the least position that holds the character.
pub proof fn lemma_index_of(t: Seq<char>, c: char, k: int)
    requires
        0 <= k <= t.len(),
    ensures
        k <= index_of(t, c, k) <= t.len(),
        index_of(t, c, k) < t.len() ==> t[index_of(t, c, k)] == c,
        forall|j: int| k <= j < index_of(t, c, k) ==> t[j] != c,
    decreases t.len() - k,
{
    if k < t.len() && t[k] != c {
        lemma_index_of(t, c, k + 1);
    }
}

/// The first position from `from` on that holds `c`, or the length of `t`.
pub fn char_position(t: &Vec<char>, c: char, from: usize) -> (r: usize)
    requires
        from <= t@.len(),
    ensures
        r == index_of(t@, c, from as int),
        from <= r <= t@.len(),
{
    let mut i: usize = from;
    while i < t.len() && t[i] != c
        invariant
            from <= i <= t@.len(),
            index_of(t@, c, from as int) == index_of(t@, c, i as int),
        decreases t@.len() - i,
    {
        i = i + 1;
    }
    i
}

// ---------------------------------------------------------------------------
// Trimming
// ---------------------------------------------------------------------------

/// The characters with the Unicode property White_Space.
pub open spec fn is_space(c: char) -> bool {
    ||| '\u{9}' <= c <= '\u{d}'
    ||| c == ' '
    ||| c == '\u{85}'
    ||| c == '\u{a0}'
    ||| c == '\u{1680}'
    ||| '\u{2000}' <= c <= '\u{200a}'
    ||| c == '\u{2028}'
    ||| c == '\u{2029}'
    ||| c == '\u{202f}'
    ||| c == '\u{205f}'
    ||| c == '\u{3000}'
}

/// Whether `c` has the Unicode property White_Space.
pub fn space(c: char) -> (r: bool)
    ensures
        r == is_space(c),
{
    ('\u{9}' <= c && c <= '\u{d}') || c == ' ' || c == '\u{85}' || c == '\u{a0}' || c == '\u{1680}'
        || ('\u{2000}' <= c && c <= '\u{200a}') || c == '\u{2028}' || c == '\u{2029}' || c
        == '\u{202f}' || c == '\u{205f}' || c == '\u{3000}'
}

/// The first position from `k` on that holds no white space, or the length.
pub open spec fn first_solid(t: Seq<char>, k: int) -> int
    decreases t.len() - k,
{
    if 0 <= k < t.len() && is_space(t[k]) {
        first_solid(t, k + 1)
    } else {
        k
    }
}

/// The end of `t.take(k)` without the white space that it ends with.
pub open spec fn last_solid(t: Seq<char>, k: int) -> int
    decreases k,
{
    if 0 < k <= t.len() && is_space(t[k - 1]) {
        last_solid(t, k - 1)
    } else {
        k
    }
}

/// `t` without leading white space.
pub open spec fn trim_start(t: Seq<char>) -> Seq<char> {
    t.skip(first_solid(t, 0))
}

/// `t` without trailing white space.
pub open spec fn trim_end(t: Seq<char>) -> Seq<char> {
    t.take(last_solid(t, t.len() as int))
}

/// `t` without leading and trailing white space.
pub open spec fn trim(t: Seq<char>) -> Seq<char> {
    trim_end(trim_start(t))
}

/// `s` without leading white space.
pub fn trimmed_start(s: &str) -> (r: String)
    ensures
        r@ == trim_start(s@),
{
    let t = to_chars(s);
    let mut i: usize = 0;
    while i < t.len() && space(t[i])
        invariant
            i <= t@.len(),
            first_solid(t@, 0) == first_solid(t@, i as int),
        decreases t@.len() - i,
    {
        i = i + 1;
    }
    assert(t@.subrange(i as int, t@.len() as int) =~= t@.skip(i as int));
    from_chars(&t, i, t.len())
}

/// `s` without trailing white space.
pub fn trimmed_end(s: &str) -> (r: String)
    ensures
        r@ == trim_end(s@),
{
    let t = to_chars(s);
    let mut i: usize = t.len();
    while i > 0 && space(t[i - 1])
        invariant
            i <= t@.len(),
            last_solid(t@, t@.len() as int) == last_solid(t@, i as int),
        decreases i,
    {
        i = i - 1;
    }
    assert(t@.subrange(0, i as int) =~= t@.take(i as int));
    from_chars(&t, 0, i)
}

/// `s` without leading and trailing white space.
pub fn trimmed(s: &str) -> (r: String)
    ensures
        r@ == trim(s@),
{
    trimmed_end(trimmed_start(s).as_str())
}

/// Whether `t` holds nothing but white space.
pub open spec fn blank(t: Seq<char>) -> bool {
    forall|i: int| 0 <= i < t.len() ==> is_space(t[i])
}

proof fn lemma_first_solid(t: Seq<char>, k: int)
    requires
        0 <= k <= t.len(),
    ensures
        k <= first_solid(t, k) <= t.len(),
        first_solid(t, k) < t.len() ==> !is_space(t[first_solid(t, k)]),
        forall|i: int| k <= i < first_solid(t, k) ==> is_space(t[i]),
    decreases t.len() - k,
{
    if k < t.len() && is_space(t[k]) {
        lemma_first_solid(t, k + 1);
    }
}

proof fn lemma_last_solid(t: Seq<char>, k: int)
    requires
        0 <= k <= t.len(),
    ensures
        0 <= last_solid(t, k) <= k,
        last_solid(t, k) > 0 ==> !is_space(t[last_solid(t, k) - 1]),
        forall|i: int| last_solid(t, k) <= i < k ==> is_space(t[i]),
    decreases k,
{
    if 0 < k && is_space(t[k - 1]) {
        lemma_last_solid(t, k - 1);
    }
}

/// What is left by trimming neither begins nor ends with white space, and
/// trimming it again changes nothing.
pub proof fn lemma_trim_solid(t: Seq<char>)
    ensures
        trim(t).len() > 0 ==> !is_space(trim(t)[0]) && !is_space(trim(t).last()),
        trim(trim(t)) == trim(t),
        trim(t).len() <= t.len(),
{
    lemma_first_solid(t, 0);
    let u = trim_start(t);
    lemma_last_solid(u, u.len() as int);
    let w = trim(t);
    if w.len() > 0 {
        assert(w[0] == u[0]);
        assert(w.last() == u[last_solid(u, u.len() as int) - 1]);
    }
    lemma_first_solid(w, 0);
    assert(trim_start(w) =~= w);
    lemma_last_solid(w, w.len() as int);
    assert(trim_end(w) =~= w);
}

/// Trimming changes nothing where there is no white space at either end.
pub proof fn lemma_trim_keeps(t: Seq<char>)
    requires
        t.len() > 0 ==> !is_space(t[0]) && !is_space(t.last()),
    ensures
        trim(t) == t,
{
    lemma_first_solid(t, 0);
    assert(trim_start(t) =~= t);
    lemma_last_solid(t, t.len() as int);
    assert(trim_end(t) =~= t);
}

/// Whether `s` holds nothing but white space.
pub fn is_blank(s: &str) -> (r: bool)
    ensures
        r == blank(s@),
{
    let t = to_chars(s);
    let mut i: usize = 0;
    while i < t.len()
        invariant
            i <= t@.len(),
            t@ == s@,
            forall|j: int| 0 <= j < i ==> is_space(t@[j]),
        decreases t@.len() - i,
    {
        if !space(t[i]) {
            return false;
        }
        i = i + 1;
    }
    true
}

/// The first position from `k` on that does not hold `c`, or the length.
pub open spec fn run_of(t: Seq<char>, c: char, k: int) -> int
    decreases t.len() - k,
{
    if 0 <= k < t.len() && t[k] == c {
        run_of(t, c, k + 1)
    } else {
        k
    }
}

/// `t` without the characters `c` that it begins with.
pub open spec fn drop_leading(t: Seq<char>, c: char) -> Seq<char> {
    t.skip(run_of(t, c, 0))
}

/// `s` without the characters `c` that it begins with.
pub fn without_leading(s: &str, c: char) -> (r: String)
    ensures
        r@ == drop_leading(s@, c),
{
    let t = to_chars(s);
    let mut i: usize = 0;
    while i < t.len() && t[i] == c
        invariant
            i <= t@.len(),
            run_of(t@, c, 0) == run_of(t@, c, i as int),
        decreases t@.len() - i,
    {
        i = i + 1;
    }
    assert(t@.subrange(i as int, t@.len() as int) =~= t@.skip(i as int));
    from_chars(&t, i, t.len())
}

/// What is left does not begin with the character.
pub proof fn lemma_drop_leading(t: Seq<char>, c: char, k: int)
    requires
        0 <= k <= t.len(),
    ensures
        k <= run_of(t, c, k) <= t.len(),
        run_of(t, c, k) < t.len() ==> t[run_of(t, c, k)] != c,
    decreases t.len() - k,
{
    if k < t.len() && t[k] == c {
        lemma_drop_leading(t, c, k + 1);
    }
}

/// `t` without the copies of `p` that it ends with.
pub open spec fn drop_trailing(t: Seq<char>, p: Seq<char>) -> Seq<char>
    decreases t.len(),
{
    if p.len() > 0 && p.len() <= t.len() && occurs_at(t, p, t.len() - p.len()) {
        drop_trailing(t.take(t.len() - p.len()), p)
    } else {
        t
    }
}

/// `s` without the copies of `p` that it ends with.
pub fn without_trailing(s: &str, p: &str) -> (r: String)
    ensures
        r@ == drop_trailing(s@, p@),
{
    let mut t = to_chars(s);
    let q = to_chars(p);
    while q.len() > 0 && q.len() <= t.len() && occurs(&t, &q, t.len() - q.len())
        invariant
            q@ == p@,
            drop_trailing(s@, p@) == drop_trailing(t@, p@),
        decreases t@.len(),
    {
        let end: usize = t.len() - q.len();
        assert(t@.subrange(0, end as int) =~= t@.take(t@.len() - p@.len()));
        t.truncate(end);
    }
    assert(t@.subrange(0, t@.len() as int) =~= t@);
    from_chars(&t, 0, t.len())
}

// ---------------------------------------------------------------------------
// Letters
// ---------------------------------------------------------------------------

/// An ASCII capital as its small letter, every other character as it is.
pub open spec fn lower_char(c: char) -> char {
    if 'A' <= c <= 'Z' {
        (c as u32 + 32) as char
    } else {
        c
    }
}

/// `t` with every ASCII capital as its small letter.
pub open spec fn lower(t: Seq<char>) -> Seq<char> {
    Seq::new(t.len(), |i: int| lower_char(t[i]))
}

/// An ASCII capital as its small letter.
pub fn lowered_char(c: char) -> (r: char)
    ensures
        r == lower_char(c),
{
    if 'A' <= c && c <= 'Z' {
        ((c as u8) + 32) as char
    } else {
        c
    }
}

/// `s` with every ASCII capital as its small letter.
pub fn lowered(s: &str) -> (r: String)
    ensures
        r@ == lower(s@),
{
    let t = to_chars(s);
    let mut r = String::new();
    let mut i: usize = 0;
    while i < t.len()
        invariant
            i <= t@.len(),
            t@ == s@,
            r@ == lower(s@).take(i as int),
        decreases t@.len() - i,
    {
        r.push(lowered_char(t[i]));
        i = i + 1;
        assert(lower(s@).take(i as int) =~= lower(s@).take(i - 1).push(lower_char(s@[i - 1])));
    }
    assert(lower(s@).take(i as int) =~= lower(s@));
    r
}

// ---------------------------------------------------------------------------
// Replacing
// ---------------------------------------------------------------------------

/// `t` from `k` on with each copy of `p` replaced by `r`, found from the left
/// without overlap.
pub open spec fn replace_from(t: Seq<char>, p: Seq<char>, r: Seq<char>, k: int) -> Seq<char>
    decreases t.len() - k,
{
    if k < 0 || k >= t.len() || p.len() == 0 {
        if 0 <= k <= t.len() {
            t.skip(k)
        } else {
            seq![]
        }
    } else if occurs_at(t, p, k) {
        r + replace_from(t, p, r, k + p.len())
    } else {
        seq![t[k]] + replace_from(t, p, r, k + 1)
    }
}

/// `t` with each copy of `p` replaced by `r`, found from the left without
/// overlap.
pub open spec fn replace(t: Seq<char>, p: Seq<char>, r: Seq<char>) -> Seq<char> {
    replace_from(t, p, r, 0)
}

/// `s` with each copy of `p` replaced by `r`, found from the left without
/// overlap.
pub fn replaced(s: &str, p: &str, r: &str) -> (out: String)
    requires
        p@.len() > 0,
    ensures
        out@ == replace(s@, p@, r@),
{
    let t = to_chars(s);
    let q = to_chars(p);
    let mut out = String::new();
    let mut i: usize = 0;
    while i < t.len()
        invariant
            i <= t@.len(),
            t@ == s@,
            q@ == p@,
            p@.len() > 0,
            out@ + replace_from(s@, p@, r@, i as int) == replace(s@, p@, r@),
        decreases t@.len() - i,
    {
        let ghost before = out@;
        if occurs(&t, &q, i) {
            out.append(r);
            i = i + q.len();
            assert(before + (r@ + replace_from(s@, p@, r@, i as int)) =~= out@ + replace_from(
                s@,
                p@,
                r@,
                i as int,
            ));
        } else {
            out.push(t[i]);
            i = i + 1;
            assert(before + (seq![s@[i - 1]] + replace_from(s@, p@, r@, i as int)) =~= out@
                + replace_from(s@, p@, r@, i as int));
        }
    }
    assert(out@ + replace_from(s@, p@, r@, i as int) =~= out@);
    out
}

/// A run of the result that does not hold the first character of `r` stands
/// unchanged in `t`.
proof fn lemma_replace_prefix(t: Seq<char>, p: Seq<char>, r: Seq<char>, k: int, n: int)
    requires
        p.len() > 0,
        r.len() > 0,
        0 <= k <= t.len(),
        0 <= n <= replace_from(t, p, r, k).len(),
        forall|i: int| 0 <= i < n ==> replace_from(t, p, r, k)[i] != r[0],
    ensures
        k + n <= t.len(),
        forall|i: int| 0 <= i < n ==> replace_from(t, p, r, k)[i] == t[k + i],
    decreases t.len() - k,
{
    let out = replace_from(t, p, r, k);
    if n > 0 && k < t.len() {
        if occurs_at(t, p, k) {
            assert(out[0] == r[0]);
        } else {
            let rest = replace_from(t, p, r, k + 1);
            assert forall|i: int| 0 <= i < n - 1 implies rest[i] != r[0] by {
                assert(rest[i] == out[i + 1]);
            }
            lemma_replace_prefix(t, p, r, k + 1, n - 1);
            assert forall|i: int| 0 <= i < n implies out[i] == t[k + i] by {
                if i > 0 {
                    assert(out[i] == rest[i - 1]);
                }
            }
        }
    }
}

/// Where the replacement and a text `q` do not fit into one another, a copy of
/// `q` in the result was a copy of `q` before, and was not a copy of `p`.
proof fn lemma_replace_occurrence(
    t: Seq<char>,
    p: Seq<char>,
    r: Seq<char>,
    q: Seq<char>,
    k: int,
    i: int,
)
    requires
        p.len() > 0,
        r.len() > 0,
        q.len() > 0,
        !has_char(r, q[0]),
        !has_char(q, r[0]),
        0 <= k <= t.len(),
        occurs_at(replace_from(t, p, r, k), q, i),
    ensures
        contains(t, q),
        q != p,
    decreases t.len() - k,
{
    let out = replace_from(t, p, r, k);
    assert(out[i] == out.subrange(i, i + q.len())[0]);
    assert(out[i] == q[0]);
    if k == t.len() {
    } else if occurs_at(t, p, k) {
        let rest = replace_from(t, p, r, k + p.len());
        if i < r.len() {
            assert(out[i] == r[i]);
        } else {
            assert(rest.subrange(i - r.len(), i - r.len() + q.len()) =~= out.subrange(
                i,
                i + q.len(),
            ));
            lemma_replace_occurrence(t, p, r, q, k + p.len(), i - r.len());
        }
    } else {
        let rest = replace_from(t, p, r, k + 1);
        if i > 0 {
            assert(rest.subrange(i - 1, i - 1 + q.len()) =~= out.subrange(i, i + q.len()));
            lemma_replace_occurrence(t, p, r, q, k + 1, i - 1);
        } else {
            assert forall|j: int| 0 <= j < q.len() implies out[j] != r[0] by {
                assert(out[j] == out.subrange(0, q.len() as int)[j]);
                assert(out[j] == q[j]);
            }
            lemma_replace_prefix(t, p, r, k, q.len() as int);
            assert(t.subrange(k, k + q.len()) =~= out.subrange(0, q.len() as int));
            assert(occurs_at(t, q, k));
        }
    }
}

/// Replacing brings in no copy of a text that the replacement cannot be part
/// of, and leaves no copy of the text that was replaced.
pub proof fn lemma_replace(t: Seq<char>, p: Seq<char>, r: Seq<char>, q: Seq<char>)
    requires
        p.len() > 0,
        r.len() > 0,
        q.len() > 0,
        !has_char(r, q[0]),
        !has_char(q, r[0]),
    ensures
        q == p || !contains(t, q) ==> !contains(replace(t, p, r), q),
{
    if contains(replace(t, p, r), q) {
        let i = choose|i: int| occurs_at(replace(t, p, r), q, i);
        lemma_replace_occurrence(t, p, r, q, 0, i);
    }
}

/// Replacing what is not there changes nothing.
pub proof fn lemma_replace_absent(t: Seq<char>, p: Seq<char>, r: Seq<char>, k: int)
    requires
        !contains(t, p),
        0 <= k <= t.len(),
    ensures
        replace_from(t, p, r, k) == t.skip(k),
    decreases t.len() - k,
{
    if k < t.len() && p.len() > 0 {
        assert(!occurs_at(t, p, k));
        lemma_replace_absent(t, p, r, k + 1);
        assert(seq![t[k]] + t.skip(k + 1) =~= t.skip(k));
    }
}

// ---------------------------------------------------------------------------
// Splitting and joining
// ---------------------------------------------------------------------------

/// The parts of `t` from `k` on between the characters `c`.
pub open spec fn split_from(t: Seq<char>, c: char, k: int) -> Seq<Seq<char>>
    decreases t.len() - k,
{
    let e = index_of(t, c, k);
    if 0 <= k <= e < t.len() {
        seq![t.subrange(k, e)] + split_from(t, c, e + 1)
    } else {
        seq![t.skip(k)]
    }
}

/// The parts of `t` between the characters `c`.
pub open spec fn split(t: Seq<char>, c: char) -> Seq<Seq<char>> {
    split_from(t, c, 0)
}

/// The parts of `s` between the characters `c`.
pub fn parts(s: &str, c: char) -> (r: Vec<String>)
    ensures
        texts(r@) == split(s@, c),
{
    let t = to_chars(s);
    let mut r: Vec<String> = Vec::new();
    let mut k: usize = 0;
    loop
        invariant
            k <= t@.len(),
            t@ == s@,
            texts(r@) + split_from(s@, c, k as int) == split(s@, c),
        decreases t@.len() - k,
    {
        let e: usize = char_position(&t, c, k);
        let ghost before = texts(r@);
        let part = from_chars(&t, k, e);
        r.push(part);
        assert(texts(r@) =~= before.push(part@));
        if e == t.len() {
            assert(t@.subrange(k as int, e as int) =~= t@.skip(k as int));
            assert(before + seq![part@] =~= texts(r@));
            return r;
        }
        assert(before + (seq![part@] + split_from(s@, c, e + 1)) =~= texts(r@) + split_from(
            s@,
            c,
            e + 1,
        ));
        k = e + 1;
    }
}

/// A line without the carriage return before its line feed.
pub open spec fn without_return(t: Seq<char>) -> Seq<char> {
    if t.len() > 0 && t.last() == '\r' {
        t.drop_last()
    } else {
        t
    }
}

/// The lines of `t` from `k` on, without the line feeds.
pub open spec fn lines_from(t: Seq<char>, k: int) -> Seq<Seq<char>>
    decreases t.len() - k,
{
    let e = index_of(t, '\n', k);
    if k < 0 || k >= t.len() {
        seq![]
    } else if k <= e < t.len() {
        seq![without_return(t.subrange(k, e))] + lines_from(t, e + 1)
    } else {
        seq![t.skip(k)]
    }
}

/// The lines of `t`. A line ends with a line feed, or with a carriage return
/// and a line feed; the last line may end with the text.
pub open spec fn lines(t: Seq<char>) -> Seq<Seq<char>> {
    lines_from(t, 0)
}

/// The lines of `s`.
pub fn lines_of(s: &str) -> (r: Vec<String>)
    ensures
        texts(r@) == lines(s@),
{
    let t = to_chars(s);
    let mut r: Vec<String> = Vec::new();
    let mut k: usize = 0;
    while k < t.len()
        invariant
            k <= t@.len(),
            t@ == s@,
            texts(r@) + lines_from(s@, k as int) == lines(s@),
        decreases t@.len() - k,
    {
        let e: usize = char_position(&t, '\n', k);
        let ghost before = texts(r@);
        if e == t.len() {
            let line = from_chars(&t, k, e);
            assert(t@.subrange(k as int, e as int) =~= t@.skip(k as int));
            r.push(line);
            assert(texts(r@) =~= before + seq![line@]);
            return r;
        }
        let end: usize = if e > k && t[e - 1] == '\r' { e - 1 } else { e };
        let line = from_chars(&t, k, end);
        assert(without_return(t@.subrange(k as int, e as int)) =~= line@);
        r.push(line);
        assert(texts(r@) =~= before.push(line@));
        assert(before + (seq![line@] + lines_from(s@, e + 1)) =~= texts(r@) + lines_from(
            s@,
            e + 1,
        ));
        k = e + 1;
    }
    assert(texts(r@) + lines_from(s@, k as int) =~= texts(r@));
    r
}

/// The texts of `v` one after the other, with `sep` between them.
pub open spec fn join(v: Seq<Seq<char>>, sep: Seq<char>) -> Seq<char>
    decreases v.len(),
{
    if v.len() == 0 {
        seq![]
    } else if v.len() == 1 {
        v[0]
    } else {
        join(v.drop_last(), sep) + sep + v.last()
    }
}

/// The texts of `v` one after the other, with `sep` between them.
pub fn joined(v: &Vec<String>, sep: &str) -> (r: String)
    ensures
        r@ == join(texts(v@), sep@),
{
    let mut r = String::new();
    let mut i: usize = 0;
    while i < v.len()
        invariant
            i <= v@.len(),
            r@ == join(texts(v@).take(i as int), sep@),
        decreases v@.len() - i,
    {
        if i > 0 {
            r.append(sep);
        }
        r.append(v[i].as_str());
        i = i + 1;
        assert(texts(v@).take(i as int).drop_last() =~= texts(v@).take(i - 1));
        assert(r@ =~= join(texts(v@).take(i as int), sep@));
    }
    assert(texts(v@).take(i as int) =~= texts(v@));
    r
}

// ---------------------------------------------------------------------------
// Whole numbers
// ---------------------------------------------------------------------------

/// The character of a decimal digit.
pub open spec fn digit(d: int) -> char {
    (d + 48) as char
}

/// Whether `c` is a decimal digit of ASCII.
pub open spec fn is_digit(c: char) -> bool {
    '0' <= c <= '9'
}

/// A natural number in decimal.
pub open spec fn nat_text(n: nat) -> Seq<char>
    decreases n,
{
    if n < 10 {
        seq![digit(n as int)]
    } else {
        nat_text(n / 10).push(digit((n % 10) as int))
    }
}

/// An integer in decimal.
pub open spec fn int_text(n: int) -> Seq<char> {
    if n < 0 {
        seq!['-'] + nat_text((-n) as nat)
    } else {
        nat_text(n as nat)
    }
}

/// An integer in decimal, with a leading zero where it has one digit only.
pub open spec fn two_digits(n: int) -> Seq<char> {
    if 0 <= n < 10 {
        seq!['0'] + nat_text(n as nat)
    } else {
        int_text(n)
    }
}

fn push_nat(out: &mut String, n: u64)
    ensures
        final(out)@ == old(out)@ + nat_text(n as nat),
    decreases n,
{
    if n < 10 {
        out.push((48 + n as u8) as char);
        assert(out@ =~= old(out)@ + nat_text(n as nat));
    } else {
        push_nat(out, n / 10);
        out.push((48 + (n % 10) as u8) as char);
        assert(out@ =~= old(out)@ + nat_text(n as nat));
    }
}

/// A natural number in decimal.
pub fn u64_text(n: u64) -> (r: String)
    ensures
        r@ == nat_text(n as nat),
{
    let mut r = String::new();
    push_nat(&mut r, n);
    r
}

/// A natural number in decimal.
pub fn usize_text(n: usize) -> (r: String)
    ensures
        r@ == nat_text(n as nat),
        r@ == int_text(n as int),
{
    u64_text(n as u64)
}

/// An integer in decimal.
pub fn i64_text(n: i64) -> (r: String)
    ensures
        r@ == int_text(n as int),
{
    let mut r = String::new();
    if n < 0 {
        r.push('-');
        let m: u64 = (-(n + 1)) as u64 + 1;
        push_nat(&mut r, m);
    } else {
        push_nat(&mut r, n as u64);
    }
    r
}

/// An integer in decimal, with a leading zero where it has one digit only.
pub fn padded(n: i64) -> (r: String)
    ensures
        r@ == two_digits(n as int),
{
    if 0 <= n && n < 10 {
        let mut r = String::new();
        r.push('0');
        push_nat(&mut r, n as u64);
        r
    } else {
        i64_text(n)
    }
}

/// Numbers are written with digits, and with a sign before a negative one.
pub proof fn lemma_int_text(n: int)
    ensures
        int_text(n).len() > 0,
        forall|i: int|
            0 <= i < int_text(n).len() ==> is_digit(#[trigger] int_text(n)[i]) || int_text(n)[i]
                == '-',
{
    lemma_nat_text(if n < 0 { (-n) as nat } else { n as nat });
}

proof fn lemma_nat_text(n: nat)
    ensures
        nat_text(n).len() > 0,
        forall|i: int| 0 <= i < nat_text(n).len() ==> is_digit(#[trigger] nat_text(n)[i]),
    decreases n,
{
    if n >= 10 {
        lemma_nat_text(n / 10);
    }
}

/// The value of a run of decimal digits.
pub open spec fn digits_value(t: Seq<char>) -> nat
    decreases t.len(),
{
    if t.len() == 0 {
        0
    } else {
        digits_value(t.drop_last()) * 10 + (t.last() as nat - 48) as nat
    }
}

/// Whether `t` is one or more decimal digits.
pub open spec fn all_digits(t: Seq<char>) -> bool {
    t.len() > 0 && forall|i: int| 0 <= i < t.len() ==> is_digit(#[trigger] t[i])
}

/// The value of `t`, where it is decimal digits and the value is at most `max`.
pub open spec fn read_nat(t: Seq<char>, max: int) -> Option<int> {
    if all_digits(t) && digits_value(t) <= max {
        Some(digits_value(t) as int)
    } else {
        None
    }
}

/// What follows a sign.
pub open spec fn unsigned(t: Seq<char>) -> Seq<char> {
    if t.len() > 0 && (t[0] == '+' || t[0] == '-') {
        t.skip(1)
    } else {
        t
    }
}

/// The value of `t` as a signed 64-bit number: an optional sign and digits.
pub open spec fn read_i64(t: Seq<char>) -> Option<int> {
    if t.len() > 0 && t[0] == '-' {
        match read_nat(t.skip(1), 0x8000_0000_0000_0000) {
            Some(n) => Some(-n),
            None => None,
        }
    } else {
        read_nat(unsigned(t), i64::MAX as int)
    }
}

/// The value of `t` as an index: an optional plus sign and digits.
pub open spec fn read_index(t: Seq<char>) -> Option<int> {
    if t.len() > 0 && t[0] == '-' {
        None
    } else {
        read_nat(unsigned(t), usize::MAX as int)
    }
}

fn digits_from(t: &Vec<char>, from: usize) -> (r: Option<u64>)
    requires
        from <= t@.len(),
    ensures
        match r {
            Some(v) => read_nat(t@.skip(from as int), u64::MAX as int) == Some(v as int),
            None => read_nat(t@.skip(from as int), u64::MAX as int) is None,
        },
{
    let ghost d = t@.skip(from as int);
    if from == t.len() {
        return None;
    }
    let mut i: usize = from;
    let mut value: u64 = 0;
    let mut big: bool = false;
    while i < t.len()
        invariant
            from <= i <= t@.len(),
            d == t@.skip(from as int),
            forall|j: int| 0 <= j < i - from ==> is_digit(#[trigger] d[j]),
            !big ==> value == digits_value(d.take(i - from)),
            big ==> digits_value(d.take(i - from)) > u64::MAX,
        decreases t@.len() - i,
    {
        let c = t[i];
        assert(d[i - from] == c);
        if !('0' <= c && c <= '9') {
            return None;
        }
        assert(d.take(i + 1 - from).drop_last() =~= d.take(i - from));
        let n: u64 = (c as u8 - 48) as u64;
        if !big {
            if value > (u64::MAX - n) / 10 {
                big = true;
            } else {
                value = value * 10 + n;
            }
        }
        i = i + 1;
    }
    assert(d.take(i - from) =~= d);
    if big {
        None
    } else {
        Some(value)
    }
}

/// Reads a signed 64-bit number: an optional sign and digits.
pub fn i64_from(s: &str) -> (r: Option<i64>)
    ensures
        match r {
            Some(v) => read_i64(s@) == Some(v as int),
            None => read_i64(s@) is None,
        },
{
    let t = to_chars(s);
    assert(t@.skip(0) =~= t@);
    if t.len() > 0 && t[0] == '-' {
        match digits_from(&t, 1) {
            Some(v) => {
                if v > 0x8000_0000_0000_0000 {
                    None
                } else if v == 0x8000_0000_0000_0000 {
                    Some(i64::MIN)
                } else {
                    Some(-(v as i64))
                }
            },
            None => None,
        }
    } else {
        let from: usize = if t.len() > 0 && t[0] == '+' { 1 } else { 0 };
        match digits_from(&t, from) {
            Some(v) => if v > i64::MAX as u64 {
                None
            } else {
                Some(v as i64)
            },
            None => None,
        }
    }
}

/// Reads an index: an optional plus sign and digits.
pub fn index_from(s: &str) -> (r: Option<usize>)
    ensures
        match r {
            Some(v) => read_index(s@) == Some(v as int),
            None => read_index(s@) is None,
        },
{
    let t = to_chars(s);
    assert(t@.skip(0) =~= t@);
    if t.len() > 0 && t[0] == '-' {
        return None;
    }
    let from: usize = if t.len() > 0 && t[0] == '+' { 1 } else { 0 };
    match digits_from(&t, from) {
        Some(v) => if v > usize::MAX as u64 {
            None
        } else {
            Some(v as usize)
        },
        None => None,
    }
}

/// A natural number is written as digits, and they are worth it.
pub proof fn lemma_nat_text_value(n: nat)
    ensures
        all_digits(nat_text(n)),
        digits_value(nat_text(n)) == n,
    decreases n,
{
    lemma_nat_text(n);
    if n >= 10 {
        lemma_nat_text_value(n / 10);
        assert(nat_text(n).drop_last() =~= nat_text(n / 10));
    } else {
        assert(nat_text(n).drop_last() =~= seq![]);
        assert(digits_value(seq![]) == 0);
    }
}

/// Reading a number gives back what was written.
pub proof fn law_i64_text_reads_back(n: i64)
    ensures
        read_i64(int_text(n as int)) == Some(n as int),
{
    lemma_int_text(n as int);
    if n < 0 {
        lemma_nat_text_value((-n) as nat);
        assert(int_text(n as int).skip(1) =~= nat_text((-n) as nat));
    } else {
        lemma_nat_text_value(n as nat);
        lemma_nat_text(n as nat);
        assert(is_digit(nat_text(n as nat)[0]));
    }
}

} // verus!
