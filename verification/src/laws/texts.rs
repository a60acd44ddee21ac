//! Texts and JSON: what their operations are for.

use vstd::prelude::*;
use crate::json;
use crate::json::Tree;
use crate::text;

verus! {

/// To split a text loses nothing: put together again with the character between them,
/// the parts are the text, and no part holds the character.
pub proof fn law_split_is_undone_by_join(t: Seq<char>, c: char)
    ensures
        text::join(text::split(t, c), seq![c]) == t,
        forall|i: int|
            0 <= i < text::split(t, c).len() ==> !text::has_char(#[trigger] text::split(t, c)[i], c),
{
    lemma_split(t, c, 0);
    assert(t.skip(0) =~= t);
}

proof fn lemma_index(t: Seq<char>, c: char, k: int)
    requires
        0 <= k <= t.len(),
    ensures
        k <= text::index_of(t, c, k) <= t.len(),
        forall|i: int| k <= i < text::index_of(t, c, k) ==> t[i] != c,
        text::index_of(t, c, k) < t.len() ==> t[text::index_of(t, c, k)] == c,
    decreases t.len() - k,
{
    if k < t.len() && t[k] != c {
        lemma_index(t, c, k + 1);
    }
}

/// Joined texts, with one before them.
pub proof fn lemma_join_front(a: Seq<char>, v: Seq<Seq<char>>, sep: Seq<char>)
    requires
        v.len() > 0,
    ensures
        text::join(seq![a] + v, sep) == a + sep + text::join(v, sep),
    decreases v.len(),
{
    let w = seq![a] + v;
    assert(w.drop_last() =~= seq![a] + v.drop_last());
    assert(w.last() == v.last());
    if v.len() == 1 {
        assert(w.drop_last() =~= seq![a]);
        assert(text::join(w.drop_last(), sep) == a);
    } else {
        lemma_join_front(a, v.drop_last(), sep);
        assert(a + sep + text::join(v.drop_last(), sep) + sep + v.last() =~= a + sep + (text::join(
            v.drop_last(),
            sep,
        ) + sep + v.last()));
    }
}

proof fn lemma_split(t: Seq<char>, c: char, k: int)
    requires
        0 <= k <= t.len(),
    ensures
        text::split_from(t, c, k).len() > 0,
        text::join(text::split_from(t, c, k), seq![c]) == t.skip(k),
        forall|i: int|
            0 <= i < text::split_from(t, c, k).len() ==> !text::has_char(
                #[trigger] text::split_from(t, c, k)[i],
                c,
            ),
    decreases t.len() - k,
{
    let e = text::index_of(t, c, k);
    lemma_index(t, c, k);
    if e < t.len() {
        let rest = text::split_from(t, c, e + 1);
        lemma_split(t, c, e + 1);
        lemma_join_front(t.subrange(k, e), rest, seq![c]);
        assert(t.subrange(k, e) + seq![c] + t.skip(e + 1) =~= t.skip(k));
        assert(!text::has_char(t.subrange(k, e), c));
        let all = text::split_from(t, c, k);
        assert forall|i: int| 0 <= i < all.len() implies !text::has_char(#[trigger] all[i], c) by {
            if i > 0 {
                assert(all[i] == rest[i - 1]);
            }
        }
    } else {
        assert(!text::has_char(t.skip(k), c));
    }
}

/// Joined texts stand in their order, each whole, with the separator between them and
/// nothing else: what is joined grows by the separator and the next text.
pub proof fn law_join_appends(v: Seq<Seq<char>>, x: Seq<char>, sep: Seq<char>)
    ensures
        text::join(Seq::<Seq<char>>::empty(), sep) == Seq::<char>::empty(),
        text::join(seq![x], sep) == x,
        v.len() > 0 ==> text::join(v.push(x), sep) == text::join(v, sep) + sep + x,
{
    assert(v.push(x).drop_last() =~= v);
}

/// To trim takes white space away, at both ends, and nothing else: what is left begins and
/// ends with something else, and stood in the text between white space.
pub proof fn law_trim_takes_white_space(t: Seq<char>)
    ensures
        exists|a: Seq<char>, b: Seq<char>|
            t == #[trigger] (a + text::trim(t) + b) && text::blank(a) && text::blank(b),
        text::trim(t).len() > 0 ==> !text::is_space(text::trim(t)[0]) && !text::is_space(
            text::trim(t).last(),
        ),
        text::blank(t) <==> text::trim(t).len() == 0,
        exists|a: Seq<char>| t == #[trigger] (a + text::trim_start(t)) && text::blank(a),
        text::trim_start(t).len() > 0 ==> !text::is_space(text::trim_start(t)[0]),
        exists|b: Seq<char>| t == #[trigger] (text::trim_end(t) + b) && text::blank(b),
        text::trim_end(t).len() > 0 ==> !text::is_space(text::trim_end(t).last()),
{
    let s = text::trim_start(t);
    lemma_solid(t, 0);
    lemma_solid_end(t, t.len() as int);
    lemma_solid_end(s, s.len() as int);
    let f = text::first_solid(t, 0);
    let l = text::last_solid(s, s.len() as int);
    let e = text::last_solid(t, t.len() as int);
    assert(t =~= t.take(f) + s);
    assert(s =~= text::trim(t) + s.skip(l));
    assert(t =~= t.take(f) + text::trim(t) + s.skip(l));
    assert(t =~= text::trim_end(t) + t.skip(e));
    assert(text::blank(t.take(f)));
    assert(text::blank(s.skip(l)));
    assert(text::blank(t.skip(e)));
    if text::trim(t).len() == 0 {
        assert forall|i: int| 0 <= i < t.len() implies text::is_space(t[i]) by {
            if i < f {
                assert(t[i] == t.take(f)[i]);
            } else {
                assert(t[i] == s.skip(l)[i - f]);
            }
        }
    } else {
        assert(text::trim(t)[0] == t[f]);
    }
}

proof fn lemma_solid(t: Seq<char>, k: int)
    requires
        0 <= k <= t.len(),
    ensures
        k <= text::first_solid(t, k) <= t.len(),
        forall|i: int| k <= i < text::first_solid(t, k) ==> text::is_space(t[i]),
        text::first_solid(t, k) < t.len() ==> !text::is_space(t[text::first_solid(t, k)]),
    decreases t.len() - k,
{
    if k < t.len() && text::is_space(t[k]) {
        lemma_solid(t, k + 1);
    }
}

proof fn lemma_solid_end(t: Seq<char>, k: int)
    requires
        0 <= k <= t.len(),
    ensures
        0 <= text::last_solid(t, k) <= k,
        forall|i: int| text::last_solid(t, k) <= i < k ==> text::is_space(t[i]),
        text::last_solid(t, k) > 0 ==> !text::is_space(t[text::last_solid(t, k) - 1]),
    decreases k,
{
    if k > 0 && text::is_space(t[k - 1]) {
        lemma_solid_end(t, k - 1);
    }
}

/// What stands in a part of a text stands in the text.
pub proof fn lemma_contains_parts(a: Seq<char>, b: Seq<char>, p: Seq<char>)
    ensures
        text::contains(p, p),
        text::contains(a, p) ==> text::contains(a + b, p),
        text::contains(b, p) ==> text::contains(a + b, p),
        text::contains(a, b) && text::contains(b, p) ==> text::contains(a, p),
{
    assert(p.subrange(0, p.len() as int) =~= p);
    assert(text::occurs_at(p, p, 0));
    if text::contains(a, p) {
        let i = choose|i: int| text::occurs_at(a, p, i);
        assert((a + b).subrange(i, i + p.len()) =~= a.subrange(i, i + p.len()));
        assert(text::occurs_at(a + b, p, i));
    }
    if text::contains(b, p) {
        let i = choose|i: int| text::occurs_at(b, p, i);
        assert((a + b).subrange(a.len() + i, a.len() + i + p.len()) =~= b.subrange(i, i + p.len()));
        assert(text::occurs_at(a + b, p, a.len() + i));
    }
    if text::contains(a, b) && text::contains(b, p) {
        let i = choose|i: int| text::occurs_at(a, b, i);
        let j = choose|j: int| text::occurs_at(b, p, j);
        assert(a.subrange(i + j, i + j + p.len()) =~= a.subrange(i, i + b.len()).subrange(
            j,
            j + p.len(),
        ));
        assert(text::occurs_at(a, p, i + j));
    }
}

/// A text stands in what it was put into.
pub proof fn lemma_contains_middle(a: Seq<char>, p: Seq<char>, b: Seq<char>)
    ensures
        text::contains(a + p + b, p),
        text::contains(a + p, p),
        text::contains(p + b, p),
{
    lemma_contains_parts(a, p, p);
    lemma_contains_parts(p, b, p);
    lemma_contains_parts(a + p, b, p);
}

/// Whether `p` stands in `t` before `q`, without overlapping it.
pub open spec fn in_order(t: Seq<char>, p: Seq<char>, q: Seq<char>) -> bool {
    exists|i: int, j: int|
        #[trigger] text::occurs_at(t, p, i) && #[trigger] text::occurs_at(t, q, j) && i + p.len()
            <= j
}

/// What stands in two parts of a text stands in it in the order of the parts, and what
/// stands in order in a part does so in the text.
pub proof fn lemma_in_order(a: Seq<char>, b: Seq<char>, p: Seq<char>, q: Seq<char>)
    ensures
        text::contains(a, p) && text::contains(b, q) ==> in_order(a + b, p, q),
        in_order(a, p, q) ==> in_order(a + b, p, q),
        in_order(b, p, q) ==> in_order(a + b, p, q),
{
    let t = a + b;
    if text::contains(a, p) && text::contains(b, q) {
        let i = choose|i: int| text::occurs_at(a, p, i);
        let j = choose|j: int| text::occurs_at(b, q, j);
        assert(t.subrange(i, i + p.len()) =~= a.subrange(i, i + p.len()));
        assert(t.subrange(a.len() + j, a.len() + j + q.len()) =~= b.subrange(j, j + q.len()));
        assert(text::occurs_at(t, p, i) && text::occurs_at(t, q, a.len() + j));
    }
    if in_order(a, p, q) {
        let (i, j) = choose|i: int, j: int|
            #[trigger] text::occurs_at(a, p, i) && #[trigger] text::occurs_at(a, q, j) && i
                + p.len() <= j;
        assert(t.subrange(i, i + p.len()) =~= a.subrange(i, i + p.len()));
        assert(t.subrange(j, j + q.len()) =~= a.subrange(j, j + q.len()));
        assert(text::occurs_at(t, p, i) && text::occurs_at(t, q, j));
    }
    if in_order(b, p, q) {
        let (i, j) = choose|i: int, j: int|
            #[trigger] text::occurs_at(b, p, i) && #[trigger] text::occurs_at(b, q, j) && i
                + p.len() <= j;
        assert(t.subrange(a.len() + i, a.len() + i + p.len()) =~= b.subrange(i, i + p.len()));
        assert(t.subrange(a.len() + j, a.len() + j + q.len()) =~= b.subrange(j, j + q.len()));
        assert(text::occurs_at(t, p, a.len() + i) && text::occurs_at(t, q, a.len() + j));
    }
}

/// What counts as white space: what separates words and lines does, in any script, by its
/// number in Unicode; letters, digits and signs that can be seen do not.
pub proof fn law_white_space(c: char)
    ensures
        text::is_space(' ') && text::is_space('\t') && text::is_space('\n') && text::is_space('\r'),
        ({
            let n = c as int;
            text::is_space(c) <==> 9 <= n <= 13 || n == 32 || n == 0x85 || n == 0xa0 || n == 0x1680
                || 0x2000 <= n <= 0x200a || n == 0x2028 || n == 0x2029 || n == 0x202f || n == 0x205f
                || n == 0x3000
        }),
        '!' <= c <= '~' ==> !text::is_space(c),
        '\u{4e00}' <= c <= '\u{9fff}' ==> !text::is_space(c),
{
}

/// A number is written digit by digit, the last one last.
pub proof fn law_numbers_are_written_in_tens(n: nat, d: nat)
    requires
        d < 10,
    ensures
        n > 0 ==> text::int_text((10 * n + d) as int) == text::int_text(n as int).push(
            ('0' as int + d) as char,
        ),
        text::int_text(d as int) == seq![('0' as int + d) as char],
        n > 0 ==> text::int_text(-(n as int)) == seq!['-'] + text::int_text(n as int),
        text::two_digits(d as int) == seq!['0', ('0' as int + d) as char],
        10 <= n < 100 ==> text::two_digits(n as int) == text::int_text(n as int),
{
    if n > 0 {
        let m = 10 * n + d;
        assert(m / 10 == n && m % 10 == d);
    }
    assert(text::two_digits(d as int) =~= seq!['0', ('0' as int + d) as char]);
}

/// The first `n` characters of a text are its beginning, and all of it where there are no
/// more.
pub proof fn law_head_is_the_beginning(t: Seq<char>, n: int)
    requires
        0 <= n,
    ensures
        text::head(t, n).len() <= n,
        exists|rest: Seq<char>| t == #[trigger] (text::head(t, n) + rest),
        t.len() <= n ==> text::head(t, n) == t,
        t.len() > n ==> text::head(t, n).len() == n,
{
    if t.len() <= n {
        assert(t =~= text::head(t, n) + seq![]);
    } else {
        assert(t =~= text::head(t, n) + t.skip(n));
    }
}

/// Where a text is looked for, the first place from the left is found, and from the right
/// the last; where there is none, none.
pub proof fn law_find_is_first_and_last(t: Seq<char>, p: Seq<char>)
    ensures
        match text::find(t, p) {
            Some(i) => text::occurs_at(t, p, i) && forall|j: int|
                #[trigger] text::occurs_at(t, p, j) ==> i <= j,
            None => !text::contains(t, p),
        },
        match text::rfind(t, p) {
            Some(i) => text::occurs_at(t, p, i) && forall|j: int|
                #[trigger] text::occurs_at(t, p, j) ==> j <= i,
            None => !text::contains(t, p),
        },
{
    lemma_find(t, p, 0);
    lemma_rfind(t, p, t.len() as int);
}

proof fn lemma_find(t: Seq<char>, p: Seq<char>, k: int)
    requires
        0 <= k <= t.len() + 1,
    ensures
        match text::find_from(t, p, k) {
            Some(i) => text::occurs_at(t, p, i) && k <= i && forall|j: int|
                #[trigger] text::occurs_at(t, p, j) && k <= j ==> i <= j,
            None => forall|j: int| #[trigger] text::occurs_at(t, p, j) ==> j < k,
        },
    decreases t.len() + 1 - k,
{
    if k + p.len() <= t.len() && !text::occurs_at(t, p, k) && k < t.len() {
        lemma_find(t, p, k + 1);
    }
}

proof fn lemma_rfind(t: Seq<char>, p: Seq<char>, k: int)
    requires
        -1 <= k <= t.len(),
    ensures
        match text::rfind_from(t, p, k) {
            Some(i) => text::occurs_at(t, p, i) && i <= k && forall|j: int|
                #[trigger] text::occurs_at(t, p, j) && j <= k ==> j <= i,
            None => forall|j: int| #[trigger] text::occurs_at(t, p, j) ==> j > k,
        },
    decreases k + 1,
{
    if k >= 0 && !text::occurs_at(t, p, k) {
        lemma_rfind(t, p, k - 1);
    }
}

/// What follows a prefix is the rest of the text, and only a text that begins with it has
/// such a rest.
pub proof fn law_after_is_the_rest(t: Seq<char>, p: Seq<char>, rest: Seq<char>)
    ensures
        text::after(p + rest, p) == Some(rest),
        text::after(t, p) matches Some(r) ==> t == p + r,
        text::after(t, p) is None ==> t != p + rest,
{
    assert((p + rest).subrange(0, p.len() as int) =~= p);
    assert((p + rest).skip(p.len() as int) =~= rest);
    if text::starts(t, p) {
        assert(t =~= t.subrange(0, p.len() as int) + t.skip(p.len() as int));
    }
}

/// What a text begins with is dropped as long as it is the same character, and nothing else
/// is.
pub proof fn law_leading_characters_are_dropped(t: Seq<char>, c: char)
    ensures
        ({
            let r = text::drop_leading(t, c);
            &&& r.len() > 0 ==> r[0] != c
            &&& r.len() <= t.len()
            &&& r == t.skip(t.len() - r.len())
            &&& forall|i: int| 0 <= i < t.len() - r.len() ==> t[i] == c
        }),
{
    lemma_run(t, c, 0);
}

proof fn lemma_run(t: Seq<char>, c: char, k: int)
    requires
        0 <= k <= t.len(),
        forall|i: int| 0 <= i < k ==> t[i] == c,
    ensures
        k <= text::run_of(t, c, k) <= t.len(),
        forall|i: int| 0 <= i < text::run_of(t, c, k) ==> t[i] == c,
        text::run_of(t, c, k) < t.len() ==> t[text::run_of(t, c, k)] != c,
    decreases t.len() - k,
{
    if k < t.len() && t[k] == c {
        lemma_run(t, c, k + 1);
    }
}

/// In small letters a text has the same length; capitals of ASCII become their small
/// letters, and nothing else changes.
pub proof fn law_lower_changes_capitals_alone(t: Seq<char>, i: int)
    requires
        0 <= i < t.len(),
    ensures
        text::lower(t).len() == t.len(),
        'A' <= t[i] <= 'Z' ==> text::lower(t)[i] as int - 'a' as int == t[i] as int - 'A' as int,
        !('A' <= t[i] <= 'Z') ==> text::lower(t)[i] == t[i],
{
}

/// The field of an object is the value under its name: the first, where there are more,
/// and none where there is none. Nothing but an object has fields.
pub proof fn law_field_is_the_value_under_its_name(o: Seq<(Seq<char>, Tree)>, key: Seq<char>, i: int)
    ensures
        0 <= i < o.len() && o[i].0 == key && (forall|j: int| 0 <= j < i ==> o[j].0 != key)
            ==> json::field(Tree::Object(o), key) == Some(o[i].1),
        (forall|j: int| 0 <= j < o.len() ==> o[j].0 != key) ==> json::field(Tree::Object(o), key) is None,
{
    if 0 <= i < o.len() && o[i].0 == key && (forall|j: int| 0 <= j < i ==> o[j].0 != key) {
        lemma_field(o, key, 0, i);
    }
    if forall|j: int| 0 <= j < o.len() ==> o[j].0 != key {
        lemma_no_field(o, key, 0);
    }
}

proof fn lemma_field(o: Seq<(Seq<char>, Tree)>, key: Seq<char>, k: int, i: int)
    requires
        0 <= k <= i < o.len(),
        o[i].0 == key,
        forall|j: int| 0 <= j < i ==> o[j].0 != key,
    ensures
        json::field_from(o, key, k) == Some(o[i].1),
    decreases i - k,
{
    if k < i {
        lemma_field(o, key, k + 1, i);
    }
}

proof fn lemma_no_field(o: Seq<(Seq<char>, Tree)>, key: Seq<char>, k: int)
    requires
        0 <= k <= o.len(),
        forall|j: int| 0 <= j < o.len() ==> o[j].0 != key,
    ensures
        json::field_from(o, key, k) is None,
    decreases o.len() - k,
{
    if k < o.len() {
        lemma_no_field(o, key, k + 1);
    }
}

} // verus!
