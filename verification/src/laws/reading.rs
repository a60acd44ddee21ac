//! Reading answers of the service.

use vstd::prelude::*;
use crate::ingest::scrapecreators;
use crate::json;
use crate::json::{NumTree, Tree};
use crate::text;

verus! {

/// Whether nothing stands somewhere, or `null` does.
pub open spec fn absent(t: Option<Tree>) -> bool {
    t is None || t == Some(Tree::Null)
}

/// Whether a text was read from a place: the text there where it is not empty, or the number
/// there as it is written; none where nothing else stands there.
pub open spec fn text_from(t: Option<Tree>, r: Option<Seq<char>>) -> bool {
    match t {
        Some(Tree::Str(s)) => r == (if s.len() > 0 {
            Some(s)
        } else {
            None
        }),
        Some(Tree::Number(NumTree::Int(n))) => r == Some(text::int_text(n)),
        Some(Tree::Number(NumTree::Float { text, .. })) => r == Some(text),
        _ => r is None,
    }
}

/// Whether a whole number was read from a place: the number there, or the number that a
/// text there is; none where nothing stands there.
pub open spec fn int_from(t: Option<Tree>, r: Option<int>) -> bool {
    match t {
        Some(Tree::Number(NumTree::Int(n))) => i64::MIN <= n <= i64::MAX ==> r == Some(n),
        Some(Tree::Number(NumTree::Float { whole, .. })) => r == Some(whole),
        Some(Tree::Str(s)) => forall|n: i64|
            s == #[trigger] text::int_text(n as int) ==> r == Some(n as int),
        _ => r is None,
    }
}

/// Whether thousandths of seconds are so many whole seconds, cut towards zero.
pub open spec fn are_seconds(n: int, s: int) -> bool {
    if n >= 0 {
        1000 * s <= n < 1000 * s + 1000
    } else {
        1000 * s - 1000 < n <= 1000 * s
    }
}

/// Whether a number was read from a place as whole seconds, where thousandths of seconds
/// stand there.
pub open spec fn seconds_from(t: Option<Tree>, r: Option<int>) -> bool {
    match t {
        Some(Tree::Number(NumTree::Int(n))) => i64::MIN <= n <= i64::MAX ==> (r matches Some(s)
            && are_seconds(n, s)),
        Some(Tree::Number(NumTree::Float { whole, .. })) => r matches Some(s) && are_seconds(whole, s),
        Some(Tree::Str(s)) => forall|n: i64|
            s == #[trigger] text::int_text(n as int) ==> (r matches Some(x) && are_seconds(
                n as int,
                x,
            )),
        _ => r is None,
    }
}

/// Whether the whole part of a number was read from a place, and nothing but a number.
pub open spec fn whole_from(t: Option<Tree>, r: Option<int>) -> bool {
    match t {
        Some(Tree::Number(NumTree::Int(n))) => -(0x20_0000_0000_0000) < n < 0x20_0000_0000_0000
            ==> r == Some(n),
        Some(Tree::Number(NumTree::Float { whole, .. })) => r == Some(whole),
        _ => r is None,
    }
}

/// The field of what stands at a place.
pub open spec fn below(t: Option<Tree>, key: Seq<char>) -> Option<Tree> {
    match t {
        Some(x) => json::field(x, key),
        None => None,
    }
}

/// What stands under a name, and the whole where nothing does.
pub open spec fn within(t: Tree, key: Seq<char>) -> Tree {
    match json::field(t, key) {
        Some(x) => x,
        None => t,
    }
}

/// The first element of what stands at a place.
pub open spec fn first_in(t: Option<Tree>) -> Option<Tree> {
    match t {
        Some(Tree::Array(a)) => if a.len() > 0 {
            Some(a[0])
        } else {
            None
        },
        _ => None,
    }
}

/// What stands at the end of a path from a place on.
pub open spec fn dug_from(t: Option<Tree>, path: Seq<char>) -> Option<Tree> {
    match t {
        Some(x) => scrapecreators::dug(x, path),
        None => None,
    }
}

/// The first of some places at which something stands.
pub open spec fn is_first(places: Seq<Option<Tree>>, i: int) -> bool {
    0 <= i < places.len() && !absent(places[i]) && forall|j: int|
        0 <= j < i ==> absent(#[trigger] places[j])
}

/// Whether a text was read from the first of some places at which something stands.
pub open spec fn text_from_first(places: Seq<Option<Tree>>, r: Option<Seq<char>>) -> bool {
    &&& forall|i: int| #[trigger] is_first(places, i) ==> text_from(places[i], r)
    &&& (forall|i: int| 0 <= i < places.len() ==> absent(#[trigger] places[i])) ==> r is None
}

/// Whether a whole number was read from the first of some places at which something stands.
pub open spec fn int_from_first(places: Seq<Option<Tree>>, r: Option<int>) -> bool {
    &&& forall|i: int| #[trigger] is_first(places, i) ==> int_from(places[i], r)
    &&& (forall|i: int| 0 <= i < places.len() ==> absent(#[trigger] places[i])) ==> r is None
}

/// Whether whole seconds were read from the first of some places at which something
/// stands.
pub open spec fn seconds_from_first(places: Seq<Option<Tree>>, r: Option<int>) -> bool {
    &&& forall|i: int| #[trigger] is_first(places, i) ==> seconds_from(places[i], r)
    &&& (forall|i: int| 0 <= i < places.len() ==> absent(#[trigger] places[i])) ==> r is None
}

/// Whether the whole part of a number was read from the first of some places at which something
/// stands.
pub open spec fn whole_from_first(places: Seq<Option<Tree>>, r: Option<int>) -> bool {
    &&& forall|i: int| #[trigger] is_first(places, i) ==> whole_from(places[i], r)
    &&& (forall|i: int| 0 <= i < places.len() ==> absent(#[trigger] places[i])) ==> r is None
}

/// Whether the records `v` are those of the elements of a list, in its order, one for each
/// element that has one.
pub open spec fn keeps_order<R>(v: Seq<R>, of: Seq<Option<R>>) -> bool {
    exists|at: Seq<int>|
        {
            &&& at.len() == v.len()
            &&& forall|k: int|
                0 <= k < v.len() ==> 0 <= #[trigger] at[k] < of.len() && of[at[k]] == Some(v[k])
            &&& forall|j: int, k: int|
                0 <= j < k < v.len() ==> #[trigger] at[j] < #[trigger] at[k]
            &&& forall|i: int|
                0 <= i < of.len() && (#[trigger] of[i]) is Some ==> exists|k: int|
                    0 <= k < at.len() && #[trigger] at[k] == i
        }
}

/// One more element, with its record or without one.
pub proof fn lemma_kept<R>(v: Seq<R>, of: Seq<Option<R>>, x: Option<R>)
    requires
        keeps_order(v, of),
    ensures
        x matches Some(r) ==> keeps_order(v.push(r), of.push(x)),
        x is None ==> keeps_order(v, of.push(x)),
{
    let at = choose|at: Seq<int>|
        {
            &&& at.len() == v.len()
            &&& forall|k: int|
                0 <= k < v.len() ==> 0 <= #[trigger] at[k] < of.len() && of[at[k]] == Some(v[k])
            &&& forall|j: int, k: int|
                0 <= j < k < v.len() ==> #[trigger] at[j] < #[trigger] at[k]
            &&& forall|i: int|
                0 <= i < of.len() && (#[trigger] of[i]) is Some ==> exists|k: int|
                    0 <= k < at.len() && #[trigger] at[k] == i
        };
    let all = of.push(x);
    match x {
        Some(r) => {
            let w = v.push(r);
            let to = at.push(of.len() as int);
            assert forall|i: int| 0 <= i < all.len() && (#[trigger] all[i]) is Some implies exists|
                k: int,
            |
                0 <= k < to.len() && #[trigger] to[k] == i by {
                if i < of.len() {
                    assert(of[i] is Some);
                    let k = choose|k: int| 0 <= k < at.len() && at[k] == i;
                    assert(to[k] == i);
                } else {
                    assert(to[at.len() as int] == i);
                }
            }
            assert(keeps_order(w, all)) by {
                assert(to.len() == w.len());
            }
        },
        None => {
            assert forall|i: int| 0 <= i < all.len() && (#[trigger] all[i]) is Some implies exists|
                k: int,
            |
                0 <= k < at.len() && #[trigger] at[k] == i by {
                assert(of[i] is Some);
            }
            assert(keeps_order(v, all)) by {
                assert(at.len() == v.len());
            }
        },
    }
}

/// Of no elements there are no records.
pub proof fn lemma_none_kept<R>()
    ensures
        keeps_order(Seq::<R>::empty(), Seq::<Option<R>>::empty()),
{
    let at = Seq::<int>::empty();
    assert(at.len() == 0);
}

/// Whether a text is the name of a field, and of nothing else.
pub open spec fn is_name(p: Seq<char>) -> bool {
    p.len() > 0 && !text::is_digit(p[0]) && p[0] != '+' && p[0] != '-' && !text::has_char(p, '.')
}

proof fn lemma_split_shift(x: Seq<char>, b: Seq<char>, c: char, k: int)
    requires
        0 <= k <= b.len(),
    ensures
        text::index_of(x + b, c, x.len() + k) == x.len() + text::index_of(b, c, k),
    decreases b.len() - k,
{
    if k < b.len() && b[k] != c {
        lemma_split_shift(x, b, c, k + 1);
    }
}

proof fn lemma_parts_shift(x: Seq<char>, b: Seq<char>, c: char, k: int)
    requires
        0 <= k <= b.len(),
    ensures
        text::split_from(x + b, c, x.len() + k) == text::split_from(b, c, k),
    decreases b.len() - k,
{
    lemma_split_shift(x, b, c, k);
    text::lemma_index_of(b, c, k);
    let e = text::index_of(b, c, k);
    if 0 <= k <= e < b.len() {
        lemma_parts_shift(x, b, c, e + 1);
        assert((x + b).subrange(x.len() + k, x.len() + e) =~= b.subrange(k, e));
    } else {
        assert((x + b).skip(x.len() + k) =~= b.skip(k));
    }
}

proof fn lemma_no_index(t: Seq<char>, c: char, k: int)
    requires
        0 <= k <= t.len(),
        !text::has_char(t, c),
    ensures
        text::index_of(t, c, k) == t.len(),
    decreases t.len() - k,
{
    if k < t.len() {
        assert(t[k] != c);
        lemma_no_index(t, c, k + 1);
    }
}

proof fn lemma_index_before(a: Seq<char>, b: Seq<char>, c: char, k: int)
    requires
        0 <= k <= a.len(),
        !text::has_char(a, c),
    ensures
        text::index_of(a + seq![c] + b, c, k) == a.len(),
    decreases a.len() - k,
{
    let t = a + seq![c] + b;
    if k < a.len() {
        assert(t[k] == a[k]);
        lemma_index_before(a, b, c, k + 1);
    }
}

/// The parts of a text that holds no separator, and of one whose first part is known.
pub proof fn lemma_parts(a: Seq<char>, b: Seq<char>, c: char)
    requires
        !text::has_char(a, c),
    ensures
        text::split(a, c) == seq![a],
        text::split(a + seq![c] + b, c) == seq![a] + text::split(b, c),
{
    lemma_no_index(a, c, 0);
    assert(a.skip(0) =~= a);
    lemma_index_before(a, b, c, 0);
    let t = a + seq![c] + b;
    assert(t.subrange(0, a.len() as int) =~= a);
    lemma_parts_shift(a + seq![c], b, c, 0);
}

proof fn lemma_step(t: Tree, p: Seq<char>)
    requires
        is_name(p),
    ensures
        scrapecreators::step(t, p) == json::field(t, p),
{
    assert(!text::all_digits(p));
}

/// A path of one name leads to the field with that name.
pub proof fn lemma_path(t: Option<Tree>, p: Seq<char>)
    requires
        is_name(p),
    ensures
        dug_from(t, p) == below(t, p),
{
    if let Some(x) = t {
        lemma_parts(p, seq![], '.');
        lemma_step(x, p);
        let v = seq![p];
        if let Some(y) = json::field(x, p) {
            assert(scrapecreators::walk(y, v, 1) == Some(y));
        }
    }
}

proof fn lemma_walk(t: Tree, v: Seq<Seq<char>>, w: Seq<Seq<char>>, k: int)
    requires
        0 <= k <= w.len(),
        v.len() == w.len() + 1,
        forall|i: int| 0 <= i < w.len() ==> v[i + 1] == w[i],
    ensures
        scrapecreators::walk(t, v, k + 1) == scrapecreators::walk(t, w, k),
    decreases w.len() - k,
{
    if k < w.len() {
        assert(v[k + 1] == w[k]);
        match scrapecreators::step(t, w[k]) {
            Some(x) => lemma_walk(x, v, w, k + 1),
            None => {},
        }
    }
}

/// A path that begins with a name leads through the field with that name.
pub proof fn lemma_longer_path(t: Option<Tree>, a: Seq<char>, rest: Seq<char>, p: Seq<char>)
    requires
        is_name(a),
        p == a + "."@ + rest,
    ensures
        dug_from(t, p) == dug_from(below(t, a), rest),
{
    reveal_strlit(".");
    assert("."@ =~= seq!['.']);
    lemma_parts(a, rest, '.');
    let w = text::split(rest, '.');
    let v = seq![a] + w;
    if let Some(x) = t {
        lemma_step(x, a);
        if let Some(y) = json::field(x, a) {
            lemma_walk(y, v, w, 0);
        }
    }
}

/// A path that is a zero leads to the first element, and one that begins with a zero
/// through it.
pub proof fn lemma_first_element(t: Option<Tree>, rest: Seq<char>, p: Seq<char>)
    requires
        p == "0"@ + "."@ + rest,
    ensures
        dug_from(t, "0"@) == first_in(t),
        dug_from(t, p) == dug_from(first_in(t), rest),
{
    reveal_strlit("0");
    reveal_strlit(".");
    let z = "0"@;
    assert("."@ =~= seq!['.']);
    assert(!text::has_char(z, '.'));
    lemma_parts(z, rest, '.');
    assert(z.drop_last() =~= seq![]);
    assert(text::digits_value(z.drop_last()) == 0);
    assert(text::digits_value(z) == 0);
    assert(text::read_index(z) == Some(0int));
    let w = text::split(rest, '.');
    let v = seq![z] + w;
    if let Some(x) = t {
        if let Some(y) = json::element(x, 0) {
            lemma_walk(y, v, w, 0);
            assert(scrapecreators::walk(y, seq![z], 1) == Some(y));
        }
    }
}

proof fn lemma_present(t: Tree, ps: Seq<Seq<char>>, places: Seq<Option<Tree>>, k: int, i: int)
    requires
        ps.len() == places.len(),
        forall|j: int| 0 <= j < ps.len() ==> scrapecreators::dug(t, #[trigger] ps[j]) == places[j],
        0 <= k <= i,
        is_first(places, i) || (i == ps.len() && forall|j: int|
            0 <= j < ps.len() ==> absent(#[trigger] places[j])),
    ensures
        scrapecreators::present_from(t, ps, k) == (if i < ps.len() {
            places[i]
        } else {
            None
        }),
    decreases i - k,
{
    if k < ps.len() {
        assert(scrapecreators::dug(t, ps[k]) == places[k]);
        if k < i {
            assert(absent(places[k]));
            lemma_present(t, ps, places, k + 1, i);
        }
    }
}

/// Whether all that is read at the first of some paths is what stands at the first of some
/// places.
pub open spec fn picks(t: Tree, paths: Seq<&str>, places: Seq<Option<Tree>>) -> bool {
    &&& text_from_first(places, scrapecreators::picked_text(t, paths))
    &&& int_from_first(places, scrapecreators::picked_int(t, paths))
    &&& seconds_from_first(
        places,
        scrapecreators::seconds(scrapecreators::picked_int(t, paths)),
    )
    &&& whole_from_first(places, scrapecreators::picked_whole(t, paths))
    &&& forall|i: int|
        #[trigger] is_first(places, i) ==> scrapecreators::present(t, paths) == places[i]
    &&& (forall|i: int| 0 <= i < places.len() ==> absent(#[trigger] places[i]))
        ==> scrapecreators::present(t, paths) is None
}

/// Whether all that is read at a path is what stands at a place.
pub open spec fn takes(t: Tree, path: &str, place: Option<Tree>) -> bool {
    &&& text_from(place, scrapecreators::picked_text(t, [path]@))
    &&& int_from(place, scrapecreators::picked_int(t, [path]@))
    &&& seconds_from(place, scrapecreators::seconds(scrapecreators::picked_int(t, [path]@)))
    &&& whole_from(place, scrapecreators::picked_whole(t, [path]@))
}

/// What is read at a path is what stands at the place to which it leads.
pub proof fn lemma_taken(t: Tree, path: &str, place: Option<Tree>)
    requires
        scrapecreators::dug(t, path@) == place,
    ensures
        takes(t, path, place),
{
    let places = seq![place];
    lemma_picked(t, [path]@, places);
    if !absent(place) {
        assert(is_first(places, 0));
    } else {
        assert(forall|i: int| 0 <= i < places.len() ==> absent(#[trigger] places[i]));
    }
}

/// What is read at the first of some paths is what stands at the first of the places to
/// which they lead.
pub proof fn lemma_picked(t: Tree, paths: Seq<&str>, places: Seq<Option<Tree>>)
    requires
        paths.len() == places.len(),
        forall|j: int|
            0 <= j < paths.len() ==> scrapecreators::dug(t, (#[trigger] paths[j])@) == places[j],
    ensures
        picks(t, paths, places),
{
    let ps = text::strs(paths);
    assert forall|j: int| 0 <= j < ps.len() implies scrapecreators::dug(t, #[trigger] ps[j])
        == places[j] by {
        assert(ps[j] == paths[j]@);
    }
    assert forall|i: int| #[trigger] is_first(places, i) implies scrapecreators::present(t, paths)
        == places[i] && text_from(places[i], scrapecreators::picked_text(t, paths)) && int_from(
        places[i],
        scrapecreators::picked_int(t, paths),
    ) && seconds_from(
        places[i],
        scrapecreators::seconds(scrapecreators::picked_int(t, paths)),
    ) && whole_from(places[i], scrapecreators::picked_whole(t, paths)) by {
        lemma_present(t, ps, places, 0, i);
        lemma_values(places[i]->Some_0);
    }
    if forall|i: int| 0 <= i < places.len() ==> absent(#[trigger] places[i]) {
        lemma_present(t, ps, places, 0, ps.len() as int);
    }
}

proof fn lemma_values(t: Tree)
    requires
        t != Tree::Null,
    ensures
        text_from(Some(t), scrapecreators::as_text(t)),
        int_from(Some(t), scrapecreators::as_integer(t)),
        seconds_from(Some(t), scrapecreators::seconds(scrapecreators::as_integer(t))),
        whole_from(Some(t), json::whole_of(t)),
{
    if let Tree::Number(NumTree::Int(n)) = t {
        let m: int = if n < 0 {
            -n
        } else {
            n
        };
        assert(m / 1 == m && m % 1 == 0);
    }
    assert forall|n: i64| Some(t) == Some(Tree::Str(#[trigger] text::int_text(n as int))) implies
        scrapecreators::as_integer(t) == Some(n as int) by {
        text::law_i64_text_reads_back(n);
    }
}

} // verus!
