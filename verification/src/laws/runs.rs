//! Texts that are put together from parts.

use vstd::prelude::*;
use crate::laws::texts;
use crate::text;

verus! {

/// Two parts that stand side by side in a text stand in it like that.
pub proof fn lemma_run_2(a1: Seq<char>, a2: Seq<char>)
    ensures
        text::contains(a1 + a2, a1 + a2),
        text::contains(a1 + a2, a1),
        text::contains(a1 + a2, a2),
{
    texts::lemma_contains_parts(a1 + a2, a1, a1 + a2);
    texts::lemma_contains_parts(a1, a2, a1);
    texts::lemma_contains_parts(a1, a2, a2);
}

/// Two parts that stand side by side in a text stand in it like that.
pub proof fn lemma_run_3(
    a1: Seq<char>,
    a2: Seq<char>,
    a3: Seq<char>,
)
    ensures
        text::contains(a1 + a2 + a3, a1 + a2),
        text::contains(a1 + a2 + a3, a2 + a3),
{
    let t = a1 + a2;
    lemma_run_2(a1, a2);
    texts::lemma_contains_parts(t, a3, a1 + a2);
    let before = a1;
    let pair = a2 + a3;
    assert(t + a3 =~= before + pair);
    texts::lemma_contains_parts(before, pair, pair);
}

/// Two parts that stand side by side in a text stand in it like that.
pub proof fn lemma_run_4(
    a1: Seq<char>,
    a2: Seq<char>,
    a3: Seq<char>,
    a4: Seq<char>,
)
    ensures
        text::contains(a1 + a2 + a3 + a4, a1 + a2),
        text::contains(a1 + a2 + a3 + a4, a2 + a3),
        text::contains(a1 + a2 + a3 + a4, a3 + a4),
{
    let t = a1 + a2 + a3;
    lemma_run_3(a1, a2, a3);
    texts::lemma_contains_parts(t, a4, a1 + a2);
    texts::lemma_contains_parts(t, a4, a2 + a3);
    let before = a1 + a2;
    let pair = a3 + a4;
    assert(t + a4 =~= before + pair);
    texts::lemma_contains_parts(before, pair, pair);
}

/// Two parts that stand side by side in a text stand in it like that.
pub proof fn lemma_run_5(
    a1: Seq<char>,
    a2: Seq<char>,
    a3: Seq<char>,
    a4: Seq<char>,
    a5: Seq<char>,
)
    ensures
        text::contains(a1 + a2 + a3 + a4 + a5, a1 + a2),
        text::contains(a1 + a2 + a3 + a4 + a5, a2 + a3),
        text::contains(a1 + a2 + a3 + a4 + a5, a3 + a4),
        text::contains(a1 + a2 + a3 + a4 + a5, a4 + a5),
{
    let t = a1 + a2 + a3 + a4;
    lemma_run_4(a1, a2, a3, a4);
    texts::lemma_contains_parts(t, a5, a1 + a2);
    texts::lemma_contains_parts(t, a5, a2 + a3);
    texts::lemma_contains_parts(t, a5, a3 + a4);
    let before = a1 + a2 + a3;
    let pair = a4 + a5;
    assert(t + a5 =~= before + pair);
    texts::lemma_contains_parts(before, pair, pair);
}

/// Two parts that stand side by side in a text stand in it like that.
pub proof fn lemma_run_6(
    a1: Seq<char>,
    a2: Seq<char>,
    a3: Seq<char>,
    a4: Seq<char>,
    a5: Seq<char>,
    a6: Seq<char>,
)
    ensures
        text::contains(a1 + a2 + a3 + a4 + a5 + a6, a1 + a2),
        text::contains(a1 + a2 + a3 + a4 + a5 + a6, a2 + a3),
        text::contains(a1 + a2 + a3 + a4 + a5 + a6, a3 + a4),
        text::contains(a1 + a2 + a3 + a4 + a5 + a6, a4 + a5),
        text::contains(a1 + a2 + a3 + a4 + a5 + a6, a5 + a6),
{
    let t = a1 + a2 + a3 + a4 + a5;
    lemma_run_5(a1, a2, a3, a4, a5);
    texts::lemma_contains_parts(t, a6, a1 + a2);
    texts::lemma_contains_parts(t, a6, a2 + a3);
    texts::lemma_contains_parts(t, a6, a3 + a4);
    texts::lemma_contains_parts(t, a6, a4 + a5);
    let before = a1 + a2 + a3 + a4;
    let pair = a5 + a6;
    assert(t + a6 =~= before + pair);
    texts::lemma_contains_parts(before, pair, pair);
}

/// Two parts that stand side by side in a text stand in it like that.
pub proof fn lemma_run_7(
    a1: Seq<char>,
    a2: Seq<char>,
    a3: Seq<char>,
    a4: Seq<char>,
    a5: Seq<char>,
    a6: Seq<char>,
    a7: Seq<char>,
)
    ensures
        text::contains(a1 + a2 + a3 + a4 + a5 + a6 + a7, a1 + a2),
        text::contains(a1 + a2 + a3 + a4 + a5 + a6 + a7, a2 + a3),
        text::contains(a1 + a2 + a3 + a4 + a5 + a6 + a7, a3 + a4),
        text::contains(a1 + a2 + a3 + a4 + a5 + a6 + a7, a4 + a5),
        text::contains(a1 + a2 + a3 + a4 + a5 + a6 + a7, a5 + a6),
        text::contains(a1 + a2 + a3 + a4 + a5 + a6 + a7, a6 + a7),
{
    let t = a1 + a2 + a3 + a4 + a5 + a6;
    lemma_run_6(a1, a2, a3, a4, a5, a6);
    texts::lemma_contains_parts(t, a7, a1 + a2);
    texts::lemma_contains_parts(t, a7, a2 + a3);
    texts::lemma_contains_parts(t, a7, a3 + a4);
    texts::lemma_contains_parts(t, a7, a4 + a5);
    texts::lemma_contains_parts(t, a7, a5 + a6);
    let before = a1 + a2 + a3 + a4 + a5;
    let pair = a6 + a7;
    assert(t + a7 =~= before + pair);
    texts::lemma_contains_parts(before, pair, pair);
}

/// Two parts that stand side by side in a text stand in it like that.
pub proof fn lemma_run_8(
    a1: Seq<char>,
    a2: Seq<char>,
    a3: Seq<char>,
    a4: Seq<char>,
    a5: Seq<char>,
    a6: Seq<char>,
    a7: Seq<char>,
    a8: Seq<char>,
)
    ensures
        text::contains(a1 + a2 + a3 + a4 + a5 + a6 + a7 + a8, a1 + a2),
        text::contains(a1 + a2 + a3 + a4 + a5 + a6 + a7 + a8, a2 + a3),
        text::contains(a1 + a2 + a3 + a4 + a5 + a6 + a7 + a8, a3 + a4),
        text::contains(a1 + a2 + a3 + a4 + a5 + a6 + a7 + a8, a4 + a5),
        text::contains(a1 + a2 + a3 + a4 + a5 + a6 + a7 + a8, a5 + a6),
        text::contains(a1 + a2 + a3 + a4 + a5 + a6 + a7 + a8, a6 + a7),
        text::contains(a1 + a2 + a3 + a4 + a5 + a6 + a7 + a8, a7 + a8),
{
    let t = a1 + a2 + a3 + a4 + a5 + a6 + a7;
    lemma_run_7(a1, a2, a3, a4, a5, a6, a7);
    texts::lemma_contains_parts(t, a8, a1 + a2);
    texts::lemma_contains_parts(t, a8, a2 + a3);
    texts::lemma_contains_parts(t, a8, a3 + a4);
    texts::lemma_contains_parts(t, a8, a4 + a5);
    texts::lemma_contains_parts(t, a8, a5 + a6);
    texts::lemma_contains_parts(t, a8, a6 + a7);
    let before = a1 + a2 + a3 + a4 + a5 + a6;
    let pair = a7 + a8;
    assert(t + a8 =~= before + pair);
    texts::lemma_contains_parts(before, pair, pair);
}

/// Two parts that stand side by side in a text stand in it like that.
pub proof fn lemma_run_9(
    a1: Seq<char>,
    a2: Seq<char>,
    a3: Seq<char>,
    a4: Seq<char>,
    a5: Seq<char>,
    a6: Seq<char>,
    a7: Seq<char>,
    a8: Seq<char>,
    a9: Seq<char>,
)
    ensures
        text::contains(a1 + a2 + a3 + a4 + a5 + a6 + a7 + a8 + a9, a1 + a2),
        text::contains(a1 + a2 + a3 + a4 + a5 + a6 + a7 + a8 + a9, a2 + a3),
        text::contains(a1 + a2 + a3 + a4 + a5 + a6 + a7 + a8 + a9, a3 + a4),
        text::contains(a1 + a2 + a3 + a4 + a5 + a6 + a7 + a8 + a9, a4 + a5),
        text::contains(a1 + a2 + a3 + a4 + a5 + a6 + a7 + a8 + a9, a5 + a6),
        text::contains(a1 + a2 + a3 + a4 + a5 + a6 + a7 + a8 + a9, a6 + a7),
        text::contains(a1 + a2 + a3 + a4 + a5 + a6 + a7 + a8 + a9, a7 + a8),
        text::contains(a1 + a2 + a3 + a4 + a5 + a6 + a7 + a8 + a9, a8 + a9),
{
    let t = a1 + a2 + a3 + a4 + a5 + a6 + a7 + a8;
    lemma_run_8(a1, a2, a3, a4, a5, a6, a7, a8);
    texts::lemma_contains_parts(t, a9, a1 + a2);
    texts::lemma_contains_parts(t, a9, a2 + a3);
    texts::lemma_contains_parts(t, a9, a3 + a4);
    texts::lemma_contains_parts(t, a9, a4 + a5);
    texts::lemma_contains_parts(t, a9, a5 + a6);
    texts::lemma_contains_parts(t, a9, a6 + a7);
    texts::lemma_contains_parts(t, a9, a7 + a8);
    let before = a1 + a2 + a3 + a4 + a5 + a6 + a7;
    let pair = a8 + a9;
    assert(t + a9 =~= before + pair);
    texts::lemma_contains_parts(before, pair, pair);
}

/// Two parts that stand side by side in a text stand in it like that.
pub proof fn lemma_run_10(
    a1: Seq<char>,
    a2: Seq<char>,
    a3: Seq<char>,
    a4: Seq<char>,
    a5: Seq<char>,
    a6: Seq<char>,
    a7: Seq<char>,
    a8: Seq<char>,
    a9: Seq<char>,
    a10: Seq<char>,
)
    ensures
        text::contains(a1 + a2 + a3 + a4 + a5 + a6 + a7 + a8 + a9 + a10, a1 + a2),
        text::contains(a1 + a2 + a3 + a4 + a5 + a6 + a7 + a8 + a9 + a10, a2 + a3),
        text::contains(a1 + a2 + a3 + a4 + a5 + a6 + a7 + a8 + a9 + a10, a3 + a4),
        text::contains(a1 + a2 + a3 + a4 + a5 + a6 + a7 + a8 + a9 + a10, a4 + a5),
        text::contains(a1 + a2 + a3 + a4 + a5 + a6 + a7 + a8 + a9 + a10, a5 + a6),
        text::contains(a1 + a2 + a3 + a4 + a5 + a6 + a7 + a8 + a9 + a10, a6 + a7),
        text::contains(a1 + a2 + a3 + a4 + a5 + a6 + a7 + a8 + a9 + a10, a7 + a8),
        text::contains(a1 + a2 + a3 + a4 + a5 + a6 + a7 + a8 + a9 + a10, a8 + a9),
        text::contains(a1 + a2 + a3 + a4 + a5 + a6 + a7 + a8 + a9 + a10, a9 + a10),
{
    let t = a1 + a2 + a3 + a4 + a5 + a6 + a7 + a8 + a9;
    lemma_run_9(a1, a2, a3, a4, a5, a6, a7, a8, a9);
    texts::lemma_contains_parts(t, a10, a1 + a2);
    texts::lemma_contains_parts(t, a10, a2 + a3);
    texts::lemma_contains_parts(t, a10, a3 + a4);
    texts::lemma_contains_parts(t, a10, a4 + a5);
    texts::lemma_contains_parts(t, a10, a5 + a6);
    texts::lemma_contains_parts(t, a10, a6 + a7);
    texts::lemma_contains_parts(t, a10, a7 + a8);
    texts::lemma_contains_parts(t, a10, a8 + a9);
    let before = a1 + a2 + a3 + a4 + a5 + a6 + a7 + a8;
    let pair = a9 + a10;
    assert(t + a10 =~= before + pair);
    texts::lemma_contains_parts(before, pair, pair);
}

/// Two parts that stand side by side in a text stand in it like that.
pub proof fn lemma_run_11(
    a1: Seq<char>,
    a2: Seq<char>,
    a3: Seq<char>,
    a4: Seq<char>,
    a5: Seq<char>,
    a6: Seq<char>,
    a7: Seq<char>,
    a8: Seq<char>,
    a9: Seq<char>,
    a10: Seq<char>,
    a11: Seq<char>,
)
    ensures
        text::contains(a1 + a2 + a3 + a4 + a5 + a6 + a7 + a8 + a9 + a10 + a11, a1 + a2),
        text::contains(a1 + a2 + a3 + a4 + a5 + a6 + a7 + a8 + a9 + a10 + a11, a2 + a3),
        text::contains(a1 + a2 + a3 + a4 + a5 + a6 + a7 + a8 + a9 + a10 + a11, a3 + a4),
        text::contains(a1 + a2 + a3 + a4 + a5 + a6 + a7 + a8 + a9 + a10 + a11, a4 + a5),
        text::contains(a1 + a2 + a3 + a4 + a5 + a6 + a7 + a8 + a9 + a10 + a11, a5 + a6),
        text::contains(a1 + a2 + a3 + a4 + a5 + a6 + a7 + a8 + a9 + a10 + a11, a6 + a7),
        text::contains(a1 + a2 + a3 + a4 + a5 + a6 + a7 + a8 + a9 + a10 + a11, a7 + a8),
        text::contains(a1 + a2 + a3 + a4 + a5 + a6 + a7 + a8 + a9 + a10 + a11, a8 + a9),
        text::contains(a1 + a2 + a3 + a4 + a5 + a6 + a7 + a8 + a9 + a10 + a11, a9 + a10),
        text::contains(a1 + a2 + a3 + a4 + a5 + a6 + a7 + a8 + a9 + a10 + a11, a10 + a11),
{
    let t = a1 + a2 + a3 + a4 + a5 + a6 + a7 + a8 + a9 + a10;
    lemma_run_10(a1, a2, a3, a4, a5, a6, a7, a8, a9, a10);
    texts::lemma_contains_parts(t, a11, a1 + a2);
    texts::lemma_contains_parts(t, a11, a2 + a3);
    texts::lemma_contains_parts(t, a11, a3 + a4);
    texts::lemma_contains_parts(t, a11, a4 + a5);
    texts::lemma_contains_parts(t, a11, a5 + a6);
    texts::lemma_contains_parts(t, a11, a6 + a7);
    texts::lemma_contains_parts(t, a11, a7 + a8);
    texts::lemma_contains_parts(t, a11, a8 + a9);
    texts::lemma_contains_parts(t, a11, a9 + a10);
    let before = a1 + a2 + a3 + a4 + a5 + a6 + a7 + a8 + a9;
    let pair = a10 + a11;
    assert(t + a11 =~= before + pair);
    texts::lemma_contains_parts(before, pair, pair);
}

/// Two parts that stand side by side in a text stand in it like that.
pub proof fn lemma_run_12(
    a1: Seq<char>,
    a2: Seq<char>,
    a3: Seq<char>,
    a4: Seq<char>,
    a5: Seq<char>,
    a6: Seq<char>,
    a7: Seq<char>,
    a8: Seq<char>,
    a9: Seq<char>,
    a10: Seq<char>,
    a11: Seq<char>,
    a12: Seq<char>,
)
    ensures
        text::contains(a1 + a2 + a3 + a4 + a5 + a6 + a7 + a8 + a9 + a10 + a11 + a12, a1 + a2),
        text::contains(a1 + a2 + a3 + a4 + a5 + a6 + a7 + a8 + a9 + a10 + a11 + a12, a2 + a3),
        text::contains(a1 + a2 + a3 + a4 + a5 + a6 + a7 + a8 + a9 + a10 + a11 + a12, a3 + a4),
        text::contains(a1 + a2 + a3 + a4 + a5 + a6 + a7 + a8 + a9 + a10 + a11 + a12, a4 + a5),
        text::contains(a1 + a2 + a3 + a4 + a5 + a6 + a7 + a8 + a9 + a10 + a11 + a12, a5 + a6),
        text::contains(a1 + a2 + a3 + a4 + a5 + a6 + a7 + a8 + a9 + a10 + a11 + a12, a6 + a7),
        text::contains(a1 + a2 + a3 + a4 + a5 + a6 + a7 + a8 + a9 + a10 + a11 + a12, a7 + a8),
        text::contains(a1 + a2 + a3 + a4 + a5 + a6 + a7 + a8 + a9 + a10 + a11 + a12, a8 + a9),
        text::contains(a1 + a2 + a3 + a4 + a5 + a6 + a7 + a8 + a9 + a10 + a11 + a12, a9 + a10),
        text::contains(a1 + a2 + a3 + a4 + a5 + a6 + a7 + a8 + a9 + a10 + a11 + a12, a10 + a11),
        text::contains(a1 + a2 + a3 + a4 + a5 + a6 + a7 + a8 + a9 + a10 + a11 + a12, a11 + a12),
{
    let t = a1 + a2 + a3 + a4 + a5 + a6 + a7 + a8 + a9 + a10 + a11;
    lemma_run_11(a1, a2, a3, a4, a5, a6, a7, a8, a9, a10, a11);
    texts::lemma_contains_parts(t, a12, a1 + a2);
    texts::lemma_contains_parts(t, a12, a2 + a3);
    texts::lemma_contains_parts(t, a12, a3 + a4);
    texts::lemma_contains_parts(t, a12, a4 + a5);
    texts::lemma_contains_parts(t, a12, a5 + a6);
    texts::lemma_contains_parts(t, a12, a6 + a7);
    texts::lemma_contains_parts(t, a12, a7 + a8);
    texts::lemma_contains_parts(t, a12, a8 + a9);
    texts::lemma_contains_parts(t, a12, a9 + a10);
    texts::lemma_contains_parts(t, a12, a10 + a11);
    let before = a1 + a2 + a3 + a4 + a5 + a6 + a7 + a8 + a9 + a10;
    let pair = a11 + a12;
    assert(t + a12 =~= before + pair);
    texts::lemma_contains_parts(before, pair, pair);
}

/// Two parts that stand side by side in a text stand in it like that.
pub proof fn lemma_run_13(
    a1: Seq<char>,
    a2: Seq<char>,
    a3: Seq<char>,
    a4: Seq<char>,
    a5: Seq<char>,
    a6: Seq<char>,
    a7: Seq<char>,
    a8: Seq<char>,
    a9: Seq<char>,
    a10: Seq<char>,
    a11: Seq<char>,
    a12: Seq<char>,
    a13: Seq<char>,
)
    ensures
        text::contains(a1 + a2 + a3 + a4 + a5 + a6 + a7 + a8 + a9 + a10 + a11 + a12 + a13, a1 + a2),
        text::contains(a1 + a2 + a3 + a4 + a5 + a6 + a7 + a8 + a9 + a10 + a11 + a12 + a13, a2 + a3),
        text::contains(a1 + a2 + a3 + a4 + a5 + a6 + a7 + a8 + a9 + a10 + a11 + a12 + a13, a3 + a4),
        text::contains(a1 + a2 + a3 + a4 + a5 + a6 + a7 + a8 + a9 + a10 + a11 + a12 + a13, a4 + a5),
        text::contains(a1 + a2 + a3 + a4 + a5 + a6 + a7 + a8 + a9 + a10 + a11 + a12 + a13, a5 + a6),
        text::contains(a1 + a2 + a3 + a4 + a5 + a6 + a7 + a8 + a9 + a10 + a11 + a12 + a13, a6 + a7),
        text::contains(a1 + a2 + a3 + a4 + a5 + a6 + a7 + a8 + a9 + a10 + a11 + a12 + a13, a7 + a8),
        text::contains(a1 + a2 + a3 + a4 + a5 + a6 + a7 + a8 + a9 + a10 + a11 + a12 + a13, a8 + a9),
        text::contains(a1 + a2 + a3 + a4 + a5 + a6 + a7 + a8 + a9 + a10 + a11 + a12 + a13, a9 + a10),
        text::contains(a1 + a2 + a3 + a4 + a5 + a6 + a7 + a8 + a9 + a10 + a11 + a12 + a13, a10 + a11),
        text::contains(a1 + a2 + a3 + a4 + a5 + a6 + a7 + a8 + a9 + a10 + a11 + a12 + a13, a11 + a12),
        text::contains(a1 + a2 + a3 + a4 + a5 + a6 + a7 + a8 + a9 + a10 + a11 + a12 + a13, a12 + a13),
{
    let t = a1 + a2 + a3 + a4 + a5 + a6 + a7 + a8 + a9 + a10 + a11 + a12;
    lemma_run_12(a1, a2, a3, a4, a5, a6, a7, a8, a9, a10, a11, a12);
    texts::lemma_contains_parts(t, a13, a1 + a2);
    texts::lemma_contains_parts(t, a13, a2 + a3);
    texts::lemma_contains_parts(t, a13, a3 + a4);
    texts::lemma_contains_parts(t, a13, a4 + a5);
    texts::lemma_contains_parts(t, a13, a5 + a6);
    texts::lemma_contains_parts(t, a13, a6 + a7);
    texts::lemma_contains_parts(t, a13, a7 + a8);
    texts::lemma_contains_parts(t, a13, a8 + a9);
    texts::lemma_contains_parts(t, a13, a9 + a10);
    texts::lemma_contains_parts(t, a13, a10 + a11);
    texts::lemma_contains_parts(t, a13, a11 + a12);
    let before = a1 + a2 + a3 + a4 + a5 + a6 + a7 + a8 + a9 + a10 + a11;
    let pair = a12 + a13;
    assert(t + a13 =~= before + pair);
    texts::lemma_contains_parts(before, pair, pair);
}

/// Two parts that stand side by side in a text stand in it like that.
pub proof fn lemma_run_14(
    a1: Seq<char>,
    a2: Seq<char>,
    a3: Seq<char>,
    a4: Seq<char>,
    a5: Seq<char>,
    a6: Seq<char>,
    a7: Seq<char>,
    a8: Seq<char>,
    a9: Seq<char>,
    a10: Seq<char>,
    a11: Seq<char>,
    a12: Seq<char>,
    a13: Seq<char>,
    a14: Seq<char>,
)
    ensures
        text::contains(a1 + a2 + a3 + a4 + a5 + a6 + a7 + a8 + a9 + a10 + a11 + a12 + a13 + a14, a1 + a2),
        text::contains(a1 + a2 + a3 + a4 + a5 + a6 + a7 + a8 + a9 + a10 + a11 + a12 + a13 + a14, a2 + a3),
        text::contains(a1 + a2 + a3 + a4 + a5 + a6 + a7 + a8 + a9 + a10 + a11 + a12 + a13 + a14, a3 + a4),
        text::contains(a1 + a2 + a3 + a4 + a5 + a6 + a7 + a8 + a9 + a10 + a11 + a12 + a13 + a14, a4 + a5),
        text::contains(a1 + a2 + a3 + a4 + a5 + a6 + a7 + a8 + a9 + a10 + a11 + a12 + a13 + a14, a5 + a6),
        text::contains(a1 + a2 + a3 + a4 + a5 + a6 + a7 + a8 + a9 + a10 + a11 + a12 + a13 + a14, a6 + a7),
        text::contains(a1 + a2 + a3 + a4 + a5 + a6 + a7 + a8 + a9 + a10 + a11 + a12 + a13 + a14, a7 + a8),
        text::contains(a1 + a2 + a3 + a4 + a5 + a6 + a7 + a8 + a9 + a10 + a11 + a12 + a13 + a14, a8 + a9),
        text::contains(a1 + a2 + a3 + a4 + a5 + a6 + a7 + a8 + a9 + a10 + a11 + a12 + a13 + a14, a9 + a10),
        text::contains(a1 + a2 + a3 + a4 + a5 + a6 + a7 + a8 + a9 + a10 + a11 + a12 + a13 + a14, a10 + a11),
        text::contains(a1 + a2 + a3 + a4 + a5 + a6 + a7 + a8 + a9 + a10 + a11 + a12 + a13 + a14, a11 + a12),
        text::contains(a1 + a2 + a3 + a4 + a5 + a6 + a7 + a8 + a9 + a10 + a11 + a12 + a13 + a14, a12 + a13),
        text::contains(a1 + a2 + a3 + a4 + a5 + a6 + a7 + a8 + a9 + a10 + a11 + a12 + a13 + a14, a13 + a14),
{
    let t = a1 + a2 + a3 + a4 + a5 + a6 + a7 + a8 + a9 + a10 + a11 + a12 + a13;
    lemma_run_13(a1, a2, a3, a4, a5, a6, a7, a8, a9, a10, a11, a12, a13);
    texts::lemma_contains_parts(t, a14, a1 + a2);
    texts::lemma_contains_parts(t, a14, a2 + a3);
    texts::lemma_contains_parts(t, a14, a3 + a4);
    texts::lemma_contains_parts(t, a14, a4 + a5);
    texts::lemma_contains_parts(t, a14, a5 + a6);
    texts::lemma_contains_parts(t, a14, a6 + a7);
    texts::lemma_contains_parts(t, a14, a7 + a8);
    texts::lemma_contains_parts(t, a14, a8 + a9);
    texts::lemma_contains_parts(t, a14, a9 + a10);
    texts::lemma_contains_parts(t, a14, a10 + a11);
    texts::lemma_contains_parts(t, a14, a11 + a12);
    texts::lemma_contains_parts(t, a14, a12 + a13);
    let before = a1 + a2 + a3 + a4 + a5 + a6 + a7 + a8 + a9 + a10 + a11 + a12;
    let pair = a13 + a14;
    assert(t + a14 =~= before + pair);
    texts::lemma_contains_parts(before, pair, pair);
}

/// Two parts that stand side by side in a text stand in it like that.
pub proof fn lemma_run_15(
    a1: Seq<char>,
    a2: Seq<char>,
    a3: Seq<char>,
    a4: Seq<char>,
    a5: Seq<char>,
    a6: Seq<char>,
    a7: Seq<char>,
    a8: Seq<char>,
    a9: Seq<char>,
    a10: Seq<char>,
    a11: Seq<char>,
    a12: Seq<char>,
    a13: Seq<char>,
    a14: Seq<char>,
    a15: Seq<char>,
)
    ensures
        text::contains(a1 + a2 + a3 + a4 + a5 + a6 + a7 + a8 + a9 + a10 + a11 + a12 + a13 + a14 + a15, a1 + a2),
        text::contains(a1 + a2 + a3 + a4 + a5 + a6 + a7 + a8 + a9 + a10 + a11 + a12 + a13 + a14 + a15, a2 + a3),
        text::contains(a1 + a2 + a3 + a4 + a5 + a6 + a7 + a8 + a9 + a10 + a11 + a12 + a13 + a14 + a15, a3 + a4),
        text::contains(a1 + a2 + a3 + a4 + a5 + a6 + a7 + a8 + a9 + a10 + a11 + a12 + a13 + a14 + a15, a4 + a5),
        text::contains(a1 + a2 + a3 + a4 + a5 + a6 + a7 + a8 + a9 + a10 + a11 + a12 + a13 + a14 + a15, a5 + a6),
        text::contains(a1 + a2 + a3 + a4 + a5 + a6 + a7 + a8 + a9 + a10 + a11 + a12 + a13 + a14 + a15, a6 + a7),
        text::contains(a1 + a2 + a3 + a4 + a5 + a6 + a7 + a8 + a9 + a10 + a11 + a12 + a13 + a14 + a15, a7 + a8),
        text::contains(a1 + a2 + a3 + a4 + a5 + a6 + a7 + a8 + a9 + a10 + a11 + a12 + a13 + a14 + a15, a8 + a9),
        text::contains(a1 + a2 + a3 + a4 + a5 + a6 + a7 + a8 + a9 + a10 + a11 + a12 + a13 + a14 + a15, a9 + a10),
        text::contains(a1 + a2 + a3 + a4 + a5 + a6 + a7 + a8 + a9 + a10 + a11 + a12 + a13 + a14 + a15, a10 + a11),
        text::contains(a1 + a2 + a3 + a4 + a5 + a6 + a7 + a8 + a9 + a10 + a11 + a12 + a13 + a14 + a15, a11 + a12),
        text::contains(a1 + a2 + a3 + a4 + a5 + a6 + a7 + a8 + a9 + a10 + a11 + a12 + a13 + a14 + a15, a12 + a13),
        text::contains(a1 + a2 + a3 + a4 + a5 + a6 + a7 + a8 + a9 + a10 + a11 + a12 + a13 + a14 + a15, a13 + a14),
        text::contains(a1 + a2 + a3 + a4 + a5 + a6 + a7 + a8 + a9 + a10 + a11 + a12 + a13 + a14 + a15, a14 + a15),
{
    let t = a1 + a2 + a3 + a4 + a5 + a6 + a7 + a8 + a9 + a10 + a11 + a12 + a13 + a14;
    lemma_run_14(a1, a2, a3, a4, a5, a6, a7, a8, a9, a10, a11, a12, a13, a14);
    texts::lemma_contains_parts(t, a15, a1 + a2);
    texts::lemma_contains_parts(t, a15, a2 + a3);
    texts::lemma_contains_parts(t, a15, a3 + a4);
    texts::lemma_contains_parts(t, a15, a4 + a5);
    texts::lemma_contains_parts(t, a15, a5 + a6);
    texts::lemma_contains_parts(t, a15, a6 + a7);
    texts::lemma_contains_parts(t, a15, a7 + a8);
    texts::lemma_contains_parts(t, a15, a8 + a9);
    texts::lemma_contains_parts(t, a15, a9 + a10);
    texts::lemma_contains_parts(t, a15, a10 + a11);
    texts::lemma_contains_parts(t, a15, a11 + a12);
    texts::lemma_contains_parts(t, a15, a12 + a13);
    texts::lemma_contains_parts(t, a15, a13 + a14);
    let before = a1 + a2 + a3 + a4 + a5 + a6 + a7 + a8 + a9 + a10 + a11 + a12 + a13;
    let pair = a14 + a15;
    assert(t + a15 =~= before + pair);
    texts::lemma_contains_parts(before, pair, pair);
}

/// Two parts that stand side by side in a text stand in it like that.
pub proof fn lemma_run_16(
    a1: Seq<char>,
    a2: Seq<char>,
    a3: Seq<char>,
    a4: Seq<char>,
    a5: Seq<char>,
    a6: Seq<char>,
    a7: Seq<char>,
    a8: Seq<char>,
    a9: Seq<char>,
    a10: Seq<char>,
    a11: Seq<char>,
    a12: Seq<char>,
    a13: Seq<char>,
    a14: Seq<char>,
    a15: Seq<char>,
    a16: Seq<char>,
)
    ensures
        text::contains(a1 + a2 + a3 + a4 + a5 + a6 + a7 + a8 + a9 + a10 + a11 + a12 + a13 + a14 + a15 + a16, a1 + a2),
        text::contains(a1 + a2 + a3 + a4 + a5 + a6 + a7 + a8 + a9 + a10 + a11 + a12 + a13 + a14 + a15 + a16, a2 + a3),
        text::contains(a1 + a2 + a3 + a4 + a5 + a6 + a7 + a8 + a9 + a10 + a11 + a12 + a13 + a14 + a15 + a16, a3 + a4),
        text::contains(a1 + a2 + a3 + a4 + a5 + a6 + a7 + a8 + a9 + a10 + a11 + a12 + a13 + a14 + a15 + a16, a4 + a5),
        text::contains(a1 + a2 + a3 + a4 + a5 + a6 + a7 + a8 + a9 + a10 + a11 + a12 + a13 + a14 + a15 + a16, a5 + a6),
        text::contains(a1 + a2 + a3 + a4 + a5 + a6 + a7 + a8 + a9 + a10 + a11 + a12 + a13 + a14 + a15 + a16, a6 + a7),
        text::contains(a1 + a2 + a3 + a4 + a5 + a6 + a7 + a8 + a9 + a10 + a11 + a12 + a13 + a14 + a15 + a16, a7 + a8),
        text::contains(a1 + a2 + a3 + a4 + a5 + a6 + a7 + a8 + a9 + a10 + a11 + a12 + a13 + a14 + a15 + a16, a8 + a9),
        text::contains(a1 + a2 + a3 + a4 + a5 + a6 + a7 + a8 + a9 + a10 + a11 + a12 + a13 + a14 + a15 + a16, a9 + a10),
        text::contains(a1 + a2 + a3 + a4 + a5 + a6 + a7 + a8 + a9 + a10 + a11 + a12 + a13 + a14 + a15 + a16, a10 + a11),
        text::contains(a1 + a2 + a3 + a4 + a5 + a6 + a7 + a8 + a9 + a10 + a11 + a12 + a13 + a14 + a15 + a16, a11 + a12),
        text::contains(a1 + a2 + a3 + a4 + a5 + a6 + a7 + a8 + a9 + a10 + a11 + a12 + a13 + a14 + a15 + a16, a12 + a13),
        text::contains(a1 + a2 + a3 + a4 + a5 + a6 + a7 + a8 + a9 + a10 + a11 + a12 + a13 + a14 + a15 + a16, a13 + a14),
        text::contains(a1 + a2 + a3 + a4 + a5 + a6 + a7 + a8 + a9 + a10 + a11 + a12 + a13 + a14 + a15 + a16, a14 + a15),
        text::contains(a1 + a2 + a3 + a4 + a5 + a6 + a7 + a8 + a9 + a10 + a11 + a12 + a13 + a14 + a15 + a16, a15 + a16),
{
    let t = a1 + a2 + a3 + a4 + a5 + a6 + a7 + a8 + a9 + a10 + a11 + a12 + a13 + a14 + a15;
    lemma_run_15(a1, a2, a3, a4, a5, a6, a7, a8, a9, a10, a11, a12, a13, a14, a15);
    texts::lemma_contains_parts(t, a16, a1 + a2);
    texts::lemma_contains_parts(t, a16, a2 + a3);
    texts::lemma_contains_parts(t, a16, a3 + a4);
    texts::lemma_contains_parts(t, a16, a4 + a5);
    texts::lemma_contains_parts(t, a16, a5 + a6);
    texts::lemma_contains_parts(t, a16, a6 + a7);
    texts::lemma_contains_parts(t, a16, a7 + a8);
    texts::lemma_contains_parts(t, a16, a8 + a9);
    texts::lemma_contains_parts(t, a16, a9 + a10);
    texts::lemma_contains_parts(t, a16, a10 + a11);
    texts::lemma_contains_parts(t, a16, a11 + a12);
    texts::lemma_contains_parts(t, a16, a12 + a13);
    texts::lemma_contains_parts(t, a16, a13 + a14);
    texts::lemma_contains_parts(t, a16, a14 + a15);
    let before = a1 + a2 + a3 + a4 + a5 + a6 + a7 + a8 + a9 + a10 + a11 + a12 + a13 + a14;
    let pair = a15 + a16;
    assert(t + a16 =~= before + pair);
    texts::lemma_contains_parts(before, pair, pair);
}

/// Two parts that stand side by side in a text stand in it like that.
pub proof fn lemma_run_17(
    a1: Seq<char>,
    a2: Seq<char>,
    a3: Seq<char>,
    a4: Seq<char>,
    a5: Seq<char>,
    a6: Seq<char>,
    a7: Seq<char>,
    a8: Seq<char>,
    a9: Seq<char>,
    a10: Seq<char>,
    a11: Seq<char>,
    a12: Seq<char>,
    a13: Seq<char>,
    a14: Seq<char>,
    a15: Seq<char>,
    a16: Seq<char>,
    a17: Seq<char>,
)
    ensures
        text::contains(a1 + a2 + a3 + a4 + a5 + a6 + a7 + a8 + a9 + a10 + a11 + a12 + a13 + a14 + a15 + a16 + a17, a1 + a2),
        text::contains(a1 + a2 + a3 + a4 + a5 + a6 + a7 + a8 + a9 + a10 + a11 + a12 + a13 + a14 + a15 + a16 + a17, a2 + a3),
        text::contains(a1 + a2 + a3 + a4 + a5 + a6 + a7 + a8 + a9 + a10 + a11 + a12 + a13 + a14 + a15 + a16 + a17, a3 + a4),
        text::contains(a1 + a2 + a3 + a4 + a5 + a6 + a7 + a8 + a9 + a10 + a11 + a12 + a13 + a14 + a15 + a16 + a17, a4 + a5),
        text::contains(a1 + a2 + a3 + a4 + a5 + a6 + a7 + a8 + a9 + a10 + a11 + a12 + a13 + a14 + a15 + a16 + a17, a5 + a6),
        text::contains(a1 + a2 + a3 + a4 + a5 + a6 + a7 + a8 + a9 + a10 + a11 + a12 + a13 + a14 + a15 + a16 + a17, a6 + a7),
        text::contains(a1 + a2 + a3 + a4 + a5 + a6 + a7 + a8 + a9 + a10 + a11 + a12 + a13 + a14 + a15 + a16 + a17, a7 + a8),
        text::contains(a1 + a2 + a3 + a4 + a5 + a6 + a7 + a8 + a9 + a10 + a11 + a12 + a13 + a14 + a15 + a16 + a17, a8 + a9),
        text::contains(a1 + a2 + a3 + a4 + a5 + a6 + a7 + a8 + a9 + a10 + a11 + a12 + a13 + a14 + a15 + a16 + a17, a9 + a10),
        text::contains(a1 + a2 + a3 + a4 + a5 + a6 + a7 + a8 + a9 + a10 + a11 + a12 + a13 + a14 + a15 + a16 + a17, a10 + a11),
        text::contains(a1 + a2 + a3 + a4 + a5 + a6 + a7 + a8 + a9 + a10 + a11 + a12 + a13 + a14 + a15 + a16 + a17, a11 + a12),
        text::contains(a1 + a2 + a3 + a4 + a5 + a6 + a7 + a8 + a9 + a10 + a11 + a12 + a13 + a14 + a15 + a16 + a17, a12 + a13),
        text::contains(a1 + a2 + a3 + a4 + a5 + a6 + a7 + a8 + a9 + a10 + a11 + a12 + a13 + a14 + a15 + a16 + a17, a13 + a14),
        text::contains(a1 + a2 + a3 + a4 + a5 + a6 + a7 + a8 + a9 + a10 + a11 + a12 + a13 + a14 + a15 + a16 + a17, a14 + a15),
        text::contains(a1 + a2 + a3 + a4 + a5 + a6 + a7 + a8 + a9 + a10 + a11 + a12 + a13 + a14 + a15 + a16 + a17, a15 + a16),
        text::contains(a1 + a2 + a3 + a4 + a5 + a6 + a7 + a8 + a9 + a10 + a11 + a12 + a13 + a14 + a15 + a16 + a17, a16 + a17),
{
    let t = a1 + a2 + a3 + a4 + a5 + a6 + a7 + a8 + a9 + a10 + a11 + a12 + a13 + a14 + a15 + a16;
    lemma_run_16(a1, a2, a3, a4, a5, a6, a7, a8, a9, a10, a11, a12, a13, a14, a15, a16);
    texts::lemma_contains_parts(t, a17, a1 + a2);
    texts::lemma_contains_parts(t, a17, a2 + a3);
    texts::lemma_contains_parts(t, a17, a3 + a4);
    texts::lemma_contains_parts(t, a17, a4 + a5);
    texts::lemma_contains_parts(t, a17, a5 + a6);
    texts::lemma_contains_parts(t, a17, a6 + a7);
    texts::lemma_contains_parts(t, a17, a7 + a8);
    texts::lemma_contains_parts(t, a17, a8 + a9);
    texts::lemma_contains_parts(t, a17, a9 + a10);
    texts::lemma_contains_parts(t, a17, a10 + a11);
    texts::lemma_contains_parts(t, a17, a11 + a12);
    texts::lemma_contains_parts(t, a17, a12 + a13);
    texts::lemma_contains_parts(t, a17, a13 + a14);
    texts::lemma_contains_parts(t, a17, a14 + a15);
    texts::lemma_contains_parts(t, a17, a15 + a16);
    let before = a1 + a2 + a3 + a4 + a5 + a6 + a7 + a8 + a9 + a10 + a11 + a12 + a13 + a14 + a15;
    let pair = a16 + a17;
    assert(t + a17 =~= before + pair);
    texts::lemma_contains_parts(before, pair, pair);
}

/// Two parts that stand side by side in a text stand in it like that.
pub proof fn lemma_run_18(
    a1: Seq<char>,
    a2: Seq<char>,
    a3: Seq<char>,
    a4: Seq<char>,
    a5: Seq<char>,
    a6: Seq<char>,
    a7: Seq<char>,
    a8: Seq<char>,
    a9: Seq<char>,
    a10: Seq<char>,
    a11: Seq<char>,
    a12: Seq<char>,
    a13: Seq<char>,
    a14: Seq<char>,
    a15: Seq<char>,
    a16: Seq<char>,
    a17: Seq<char>,
    a18: Seq<char>,
)
    ensures
        text::contains(a1 + a2 + a3 + a4 + a5 + a6 + a7 + a8 + a9 + a10 + a11 + a12 + a13 + a14 + a15 + a16 + a17 + a18, a1 + a2),
        text::contains(a1 + a2 + a3 + a4 + a5 + a6 + a7 + a8 + a9 + a10 + a11 + a12 + a13 + a14 + a15 + a16 + a17 + a18, a2 + a3),
        text::contains(a1 + a2 + a3 + a4 + a5 + a6 + a7 + a8 + a9 + a10 + a11 + a12 + a13 + a14 + a15 + a16 + a17 + a18, a3 + a4),
        text::contains(a1 + a2 + a3 + a4 + a5 + a6 + a7 + a8 + a9 + a10 + a11 + a12 + a13 + a14 + a15 + a16 + a17 + a18, a4 + a5),
        text::contains(a1 + a2 + a3 + a4 + a5 + a6 + a7 + a8 + a9 + a10 + a11 + a12 + a13 + a14 + a15 + a16 + a17 + a18, a5 + a6),
        text::contains(a1 + a2 + a3 + a4 + a5 + a6 + a7 + a8 + a9 + a10 + a11 + a12 + a13 + a14 + a15 + a16 + a17 + a18, a6 + a7),
        text::contains(a1 + a2 + a3 + a4 + a5 + a6 + a7 + a8 + a9 + a10 + a11 + a12 + a13 + a14 + a15 + a16 + a17 + a18, a7 + a8),
        text::contains(a1 + a2 + a3 + a4 + a5 + a6 + a7 + a8 + a9 + a10 + a11 + a12 + a13 + a14 + a15 + a16 + a17 + a18, a8 + a9),
        text::contains(a1 + a2 + a3 + a4 + a5 + a6 + a7 + a8 + a9 + a10 + a11 + a12 + a13 + a14 + a15 + a16 + a17 + a18, a9 + a10),
        text::contains(a1 + a2 + a3 + a4 + a5 + a6 + a7 + a8 + a9 + a10 + a11 + a12 + a13 + a14 + a15 + a16 + a17 + a18, a10 + a11),
        text::contains(a1 + a2 + a3 + a4 + a5 + a6 + a7 + a8 + a9 + a10 + a11 + a12 + a13 + a14 + a15 + a16 + a17 + a18, a11 + a12),
        text::contains(a1 + a2 + a3 + a4 + a5 + a6 + a7 + a8 + a9 + a10 + a11 + a12 + a13 + a14 + a15 + a16 + a17 + a18, a12 + a13),
        text::contains(a1 + a2 + a3 + a4 + a5 + a6 + a7 + a8 + a9 + a10 + a11 + a12 + a13 + a14 + a15 + a16 + a17 + a18, a13 + a14),
        text::contains(a1 + a2 + a3 + a4 + a5 + a6 + a7 + a8 + a9 + a10 + a11 + a12 + a13 + a14 + a15 + a16 + a17 + a18, a14 + a15),
        text::contains(a1 + a2 + a3 + a4 + a5 + a6 + a7 + a8 + a9 + a10 + a11 + a12 + a13 + a14 + a15 + a16 + a17 + a18, a15 + a16),
        text::contains(a1 + a2 + a3 + a4 + a5 + a6 + a7 + a8 + a9 + a10 + a11 + a12 + a13 + a14 + a15 + a16 + a17 + a18, a16 + a17),
        text::contains(a1 + a2 + a3 + a4 + a5 + a6 + a7 + a8 + a9 + a10 + a11 + a12 + a13 + a14 + a15 + a16 + a17 + a18, a17 + a18),
{
    let t = a1 + a2 + a3 + a4 + a5 + a6 + a7 + a8 + a9 + a10 + a11 + a12 + a13 + a14 + a15 + a16 + a17;
    lemma_run_17(a1, a2, a3, a4, a5, a6, a7, a8, a9, a10, a11, a12, a13, a14, a15, a16, a17);
    texts::lemma_contains_parts(t, a18, a1 + a2);
    texts::lemma_contains_parts(t, a18, a2 + a3);
    texts::lemma_contains_parts(t, a18, a3 + a4);
    texts::lemma_contains_parts(t, a18, a4 + a5);
    texts::lemma_contains_parts(t, a18, a5 + a6);
    texts::lemma_contains_parts(t, a18, a6 + a7);
    texts::lemma_contains_parts(t, a18, a7 + a8);
    texts::lemma_contains_parts(t, a18, a8 + a9);
    texts::lemma_contains_parts(t, a18, a9 + a10);
    texts::lemma_contains_parts(t, a18, a10 + a11);
    texts::lemma_contains_parts(t, a18, a11 + a12);
    texts::lemma_contains_parts(t, a18, a12 + a13);
    texts::lemma_contains_parts(t, a18, a13 + a14);
    texts::lemma_contains_parts(t, a18, a14 + a15);
    texts::lemma_contains_parts(t, a18, a15 + a16);
    texts::lemma_contains_parts(t, a18, a16 + a17);
    let before = a1 + a2 + a3 + a4 + a5 + a6 + a7 + a8 + a9 + a10 + a11 + a12 + a13 + a14 + a15 + a16;
    let pair = a17 + a18;
    assert(t + a18 =~= before + pair);
    texts::lemma_contains_parts(before, pair, pair);
}

/// Two parts that stand side by side in a text stand in it like that.
pub proof fn lemma_run_19(
    a1: Seq<char>,
    a2: Seq<char>,
    a3: Seq<char>,
    a4: Seq<char>,
    a5: Seq<char>,
    a6: Seq<char>,
    a7: Seq<char>,
    a8: Seq<char>,
    a9: Seq<char>,
    a10: Seq<char>,
    a11: Seq<char>,
    a12: Seq<char>,
    a13: Seq<char>,
    a14: Seq<char>,
    a15: Seq<char>,
    a16: Seq<char>,
    a17: Seq<char>,
    a18: Seq<char>,
    a19: Seq<char>,
)
    ensures
        text::contains(a1 + a2 + a3 + a4 + a5 + a6 + a7 + a8 + a9 + a10 + a11 + a12 + a13 + a14 + a15 + a16 + a17 + a18 + a19, a1 + a2),
        text::contains(a1 + a2 + a3 + a4 + a5 + a6 + a7 + a8 + a9 + a10 + a11 + a12 + a13 + a14 + a15 + a16 + a17 + a18 + a19, a2 + a3),
        text::contains(a1 + a2 + a3 + a4 + a5 + a6 + a7 + a8 + a9 + a10 + a11 + a12 + a13 + a14 + a15 + a16 + a17 + a18 + a19, a3 + a4),
        text::contains(a1 + a2 + a3 + a4 + a5 + a6 + a7 + a8 + a9 + a10 + a11 + a12 + a13 + a14 + a15 + a16 + a17 + a18 + a19, a4 + a5),
        text::contains(a1 + a2 + a3 + a4 + a5 + a6 + a7 + a8 + a9 + a10 + a11 + a12 + a13 + a14 + a15 + a16 + a17 + a18 + a19, a5 + a6),
        text::contains(a1 + a2 + a3 + a4 + a5 + a6 + a7 + a8 + a9 + a10 + a11 + a12 + a13 + a14 + a15 + a16 + a17 + a18 + a19, a6 + a7),
        text::contains(a1 + a2 + a3 + a4 + a5 + a6 + a7 + a8 + a9 + a10 + a11 + a12 + a13 + a14 + a15 + a16 + a17 + a18 + a19, a7 + a8),
        text::contains(a1 + a2 + a3 + a4 + a5 + a6 + a7 + a8 + a9 + a10 + a11 + a12 + a13 + a14 + a15 + a16 + a17 + a18 + a19, a8 + a9),
        text::contains(a1 + a2 + a3 + a4 + a5 + a6 + a7 + a8 + a9 + a10 + a11 + a12 + a13 + a14 + a15 + a16 + a17 + a18 + a19, a9 + a10),
        text::contains(a1 + a2 + a3 + a4 + a5 + a6 + a7 + a8 + a9 + a10 + a11 + a12 + a13 + a14 + a15 + a16 + a17 + a18 + a19, a10 + a11),
        text::contains(a1 + a2 + a3 + a4 + a5 + a6 + a7 + a8 + a9 + a10 + a11 + a12 + a13 + a14 + a15 + a16 + a17 + a18 + a19, a11 + a12),
        text::contains(a1 + a2 + a3 + a4 + a5 + a6 + a7 + a8 + a9 + a10 + a11 + a12 + a13 + a14 + a15 + a16 + a17 + a18 + a19, a12 + a13),
        text::contains(a1 + a2 + a3 + a4 + a5 + a6 + a7 + a8 + a9 + a10 + a11 + a12 + a13 + a14 + a15 + a16 + a17 + a18 + a19, a13 + a14),
        text::contains(a1 + a2 + a3 + a4 + a5 + a6 + a7 + a8 + a9 + a10 + a11 + a12 + a13 + a14 + a15 + a16 + a17 + a18 + a19, a14 + a15),
        text::contains(a1 + a2 + a3 + a4 + a5 + a6 + a7 + a8 + a9 + a10 + a11 + a12 + a13 + a14 + a15 + a16 + a17 + a18 + a19, a15 + a16),
        text::contains(a1 + a2 + a3 + a4 + a5 + a6 + a7 + a8 + a9 + a10 + a11 + a12 + a13 + a14 + a15 + a16 + a17 + a18 + a19, a16 + a17),
        text::contains(a1 + a2 + a3 + a4 + a5 + a6 + a7 + a8 + a9 + a10 + a11 + a12 + a13 + a14 + a15 + a16 + a17 + a18 + a19, a17 + a18),
        text::contains(a1 + a2 + a3 + a4 + a5 + a6 + a7 + a8 + a9 + a10 + a11 + a12 + a13 + a14 + a15 + a16 + a17 + a18 + a19, a18 + a19),
{
    let t = a1 + a2 + a3 + a4 + a5 + a6 + a7 + a8 + a9 + a10 + a11 + a12 + a13 + a14 + a15 + a16 + a17 + a18;
    lemma_run_18(a1, a2, a3, a4, a5, a6, a7, a8, a9, a10, a11, a12, a13, a14, a15, a16, a17, a18);
    texts::lemma_contains_parts(t, a19, a1 + a2);
    texts::lemma_contains_parts(t, a19, a2 + a3);
    texts::lemma_contains_parts(t, a19, a3 + a4);
    texts::lemma_contains_parts(t, a19, a4 + a5);
    texts::lemma_contains_parts(t, a19, a5 + a6);
    texts::lemma_contains_parts(t, a19, a6 + a7);
    texts::lemma_contains_parts(t, a19, a7 + a8);
    texts::lemma_contains_parts(t, a19, a8 + a9);
    texts::lemma_contains_parts(t, a19, a9 + a10);
    texts::lemma_contains_parts(t, a19, a10 + a11);
    texts::lemma_contains_parts(t, a19, a11 + a12);
    texts::lemma_contains_parts(t, a19, a12 + a13);
    texts::lemma_contains_parts(t, a19, a13 + a14);
    texts::lemma_contains_parts(t, a19, a14 + a15);
    texts::lemma_contains_parts(t, a19, a15 + a16);
    texts::lemma_contains_parts(t, a19, a16 + a17);
    texts::lemma_contains_parts(t, a19, a17 + a18);
    let before = a1 + a2 + a3 + a4 + a5 + a6 + a7 + a8 + a9 + a10 + a11 + a12 + a13 + a14 + a15 + a16 + a17;
    let pair = a18 + a19;
    assert(t + a19 =~= before + pair);
    texts::lemma_contains_parts(before, pair, pair);
}

/// Two parts that stand side by side in a text stand in it like that.
pub proof fn lemma_run_20(
    a1: Seq<char>,
    a2: Seq<char>,
    a3: Seq<char>,
    a4: Seq<char>,
    a5: Seq<char>,
    a6: Seq<char>,
    a7: Seq<char>,
    a8: Seq<char>,
    a9: Seq<char>,
    a10: Seq<char>,
    a11: Seq<char>,
    a12: Seq<char>,
    a13: Seq<char>,
    a14: Seq<char>,
    a15: Seq<char>,
    a16: Seq<char>,
    a17: Seq<char>,
    a18: Seq<char>,
    a19: Seq<char>,
    a20: Seq<char>,
)
    ensures
        text::contains(a1 + a2 + a3 + a4 + a5 + a6 + a7 + a8 + a9 + a10 + a11 + a12 + a13 + a14 + a15 + a16 + a17 + a18 + a19 + a20, a1 + a2),
        text::contains(a1 + a2 + a3 + a4 + a5 + a6 + a7 + a8 + a9 + a10 + a11 + a12 + a13 + a14 + a15 + a16 + a17 + a18 + a19 + a20, a2 + a3),
        text::contains(a1 + a2 + a3 + a4 + a5 + a6 + a7 + a8 + a9 + a10 + a11 + a12 + a13 + a14 + a15 + a16 + a17 + a18 + a19 + a20, a3 + a4),
        text::contains(a1 + a2 + a3 + a4 + a5 + a6 + a7 + a8 + a9 + a10 + a11 + a12 + a13 + a14 + a15 + a16 + a17 + a18 + a19 + a20, a4 + a5),
        text::contains(a1 + a2 + a3 + a4 + a5 + a6 + a7 + a8 + a9 + a10 + a11 + a12 + a13 + a14 + a15 + a16 + a17 + a18 + a19 + a20, a5 + a6),
        text::contains(a1 + a2 + a3 + a4 + a5 + a6 + a7 + a8 + a9 + a10 + a11 + a12 + a13 + a14 + a15 + a16 + a17 + a18 + a19 + a20, a6 + a7),
        text::contains(a1 + a2 + a3 + a4 + a5 + a6 + a7 + a8 + a9 + a10 + a11 + a12 + a13 + a14 + a15 + a16 + a17 + a18 + a19 + a20, a7 + a8),
        text::contains(a1 + a2 + a3 + a4 + a5 + a6 + a7 + a8 + a9 + a10 + a11 + a12 + a13 + a14 + a15 + a16 + a17 + a18 + a19 + a20, a8 + a9),
        text::contains(a1 + a2 + a3 + a4 + a5 + a6 + a7 + a8 + a9 + a10 + a11 + a12 + a13 + a14 + a15 + a16 + a17 + a18 + a19 + a20, a9 + a10),
        text::contains(a1 + a2 + a3 + a4 + a5 + a6 + a7 + a8 + a9 + a10 + a11 + a12 + a13 + a14 + a15 + a16 + a17 + a18 + a19 + a20, a10 + a11),
        text::contains(a1 + a2 + a3 + a4 + a5 + a6 + a7 + a8 + a9 + a10 + a11 + a12 + a13 + a14 + a15 + a16 + a17 + a18 + a19 + a20, a11 + a12),
        text::contains(a1 + a2 + a3 + a4 + a5 + a6 + a7 + a8 + a9 + a10 + a11 + a12 + a13 + a14 + a15 + a16 + a17 + a18 + a19 + a20, a12 + a13),
        text::contains(a1 + a2 + a3 + a4 + a5 + a6 + a7 + a8 + a9 + a10 + a11 + a12 + a13 + a14 + a15 + a16 + a17 + a18 + a19 + a20, a13 + a14),
        text::contains(a1 + a2 + a3 + a4 + a5 + a6 + a7 + a8 + a9 + a10 + a11 + a12 + a13 + a14 + a15 + a16 + a17 + a18 + a19 + a20, a14 + a15),
        text::contains(a1 + a2 + a3 + a4 + a5 + a6 + a7 + a8 + a9 + a10 + a11 + a12 + a13 + a14 + a15 + a16 + a17 + a18 + a19 + a20, a15 + a16),
        text::contains(a1 + a2 + a3 + a4 + a5 + a6 + a7 + a8 + a9 + a10 + a11 + a12 + a13 + a14 + a15 + a16 + a17 + a18 + a19 + a20, a16 + a17),
        text::contains(a1 + a2 + a3 + a4 + a5 + a6 + a7 + a8 + a9 + a10 + a11 + a12 + a13 + a14 + a15 + a16 + a17 + a18 + a19 + a20, a17 + a18),
        text::contains(a1 + a2 + a3 + a4 + a5 + a6 + a7 + a8 + a9 + a10 + a11 + a12 + a13 + a14 + a15 + a16 + a17 + a18 + a19 + a20, a18 + a19),
        text::contains(a1 + a2 + a3 + a4 + a5 + a6 + a7 + a8 + a9 + a10 + a11 + a12 + a13 + a14 + a15 + a16 + a17 + a18 + a19 + a20, a19 + a20),
{
    let t = a1 + a2 + a3 + a4 + a5 + a6 + a7 + a8 + a9 + a10 + a11 + a12 + a13 + a14 + a15 + a16 + a17 + a18 + a19;
    lemma_run_19(a1, a2, a3, a4, a5, a6, a7, a8, a9, a10, a11, a12, a13, a14, a15, a16, a17, a18, a19);
    texts::lemma_contains_parts(t, a20, a1 + a2);
    texts::lemma_contains_parts(t, a20, a2 + a3);
    texts::lemma_contains_parts(t, a20, a3 + a4);
    texts::lemma_contains_parts(t, a20, a4 + a5);
    texts::lemma_contains_parts(t, a20, a5 + a6);
    texts::lemma_contains_parts(t, a20, a6 + a7);
    texts::lemma_contains_parts(t, a20, a7 + a8);
    texts::lemma_contains_parts(t, a20, a8 + a9);
    texts::lemma_contains_parts(t, a20, a9 + a10);
    texts::lemma_contains_parts(t, a20, a10 + a11);
    texts::lemma_contains_parts(t, a20, a11 + a12);
    texts::lemma_contains_parts(t, a20, a12 + a13);
    texts::lemma_contains_parts(t, a20, a13 + a14);
    texts::lemma_contains_parts(t, a20, a14 + a15);
    texts::lemma_contains_parts(t, a20, a15 + a16);
    texts::lemma_contains_parts(t, a20, a16 + a17);
    texts::lemma_contains_parts(t, a20, a17 + a18);
    texts::lemma_contains_parts(t, a20, a18 + a19);
    let before = a1 + a2 + a3 + a4 + a5 + a6 + a7 + a8 + a9 + a10 + a11 + a12 + a13 + a14 + a15 + a16 + a17 + a18;
    let pair = a19 + a20;
    assert(t + a20 =~= before + pair);
    texts::lemma_contains_parts(before, pair, pair);
}

/// Two parts that stand side by side in a text stand in it like that.
pub proof fn lemma_run_21(
    a1: Seq<char>,
    a2: Seq<char>,
    a3: Seq<char>,
    a4: Seq<char>,
    a5: Seq<char>,
    a6: Seq<char>,
    a7: Seq<char>,
    a8: Seq<char>,
    a9: Seq<char>,
    a10: Seq<char>,
    a11: Seq<char>,
    a12: Seq<char>,
    a13: Seq<char>,
    a14: Seq<char>,
    a15: Seq<char>,
    a16: Seq<char>,
    a17: Seq<char>,
    a18: Seq<char>,
    a19: Seq<char>,
    a20: Seq<char>,
    a21: Seq<char>,
)
    ensures
        text::contains(a1 + a2 + a3 + a4 + a5 + a6 + a7 + a8 + a9 + a10 + a11 + a12 + a13 + a14 + a15 + a16 + a17 + a18 + a19 + a20 + a21, a1 + a2),
        text::contains(a1 + a2 + a3 + a4 + a5 + a6 + a7 + a8 + a9 + a10 + a11 + a12 + a13 + a14 + a15 + a16 + a17 + a18 + a19 + a20 + a21, a2 + a3),
        text::contains(a1 + a2 + a3 + a4 + a5 + a6 + a7 + a8 + a9 + a10 + a11 + a12 + a13 + a14 + a15 + a16 + a17 + a18 + a19 + a20 + a21, a3 + a4),
        text::contains(a1 + a2 + a3 + a4 + a5 + a6 + a7 + a8 + a9 + a10 + a11 + a12 + a13 + a14 + a15 + a16 + a17 + a18 + a19 + a20 + a21, a4 + a5),
        text::contains(a1 + a2 + a3 + a4 + a5 + a6 + a7 + a8 + a9 + a10 + a11 + a12 + a13 + a14 + a15 + a16 + a17 + a18 + a19 + a20 + a21, a5 + a6),
        text::contains(a1 + a2 + a3 + a4 + a5 + a6 + a7 + a8 + a9 + a10 + a11 + a12 + a13 + a14 + a15 + a16 + a17 + a18 + a19 + a20 + a21, a6 + a7),
        text::contains(a1 + a2 + a3 + a4 + a5 + a6 + a7 + a8 + a9 + a10 + a11 + a12 + a13 + a14 + a15 + a16 + a17 + a18 + a19 + a20 + a21, a7 + a8),
        text::contains(a1 + a2 + a3 + a4 + a5 + a6 + a7 + a8 + a9 + a10 + a11 + a12 + a13 + a14 + a15 + a16 + a17 + a18 + a19 + a20 + a21, a8 + a9),
        text::contains(a1 + a2 + a3 + a4 + a5 + a6 + a7 + a8 + a9 + a10 + a11 + a12 + a13 + a14 + a15 + a16 + a17 + a18 + a19 + a20 + a21, a9 + a10),
        text::contains(a1 + a2 + a3 + a4 + a5 + a6 + a7 + a8 + a9 + a10 + a11 + a12 + a13 + a14 + a15 + a16 + a17 + a18 + a19 + a20 + a21, a10 + a11),
        text::contains(a1 + a2 + a3 + a4 + a5 + a6 + a7 + a8 + a9 + a10 + a11 + a12 + a13 + a14 + a15 + a16 + a17 + a18 + a19 + a20 + a21, a11 + a12),
        text::contains(a1 + a2 + a3 + a4 + a5 + a6 + a7 + a8 + a9 + a10 + a11 + a12 + a13 + a14 + a15 + a16 + a17 + a18 + a19 + a20 + a21, a12 + a13),
        text::contains(a1 + a2 + a3 + a4 + a5 + a6 + a7 + a8 + a9 + a10 + a11 + a12 + a13 + a14 + a15 + a16 + a17 + a18 + a19 + a20 + a21, a13 + a14),
        text::contains(a1 + a2 + a3 + a4 + a5 + a6 + a7 + a8 + a9 + a10 + a11 + a12 + a13 + a14 + a15 + a16 + a17 + a18 + a19 + a20 + a21, a14 + a15),
        text::contains(a1 + a2 + a3 + a4 + a5 + a6 + a7 + a8 + a9 + a10 + a11 + a12 + a13 + a14 + a15 + a16 + a17 + a18 + a19 + a20 + a21, a15 + a16),
        text::contains(a1 + a2 + a3 + a4 + a5 + a6 + a7 + a8 + a9 + a10 + a11 + a12 + a13 + a14 + a15 + a16 + a17 + a18 + a19 + a20 + a21, a16 + a17),
        text::contains(a1 + a2 + a3 + a4 + a5 + a6 + a7 + a8 + a9 + a10 + a11 + a12 + a13 + a14 + a15 + a16 + a17 + a18 + a19 + a20 + a21, a17 + a18),
        text::contains(a1 + a2 + a3 + a4 + a5 + a6 + a7 + a8 + a9 + a10 + a11 + a12 + a13 + a14 + a15 + a16 + a17 + a18 + a19 + a20 + a21, a18 + a19),
        text::contains(a1 + a2 + a3 + a4 + a5 + a6 + a7 + a8 + a9 + a10 + a11 + a12 + a13 + a14 + a15 + a16 + a17 + a18 + a19 + a20 + a21, a19 + a20),
        text::contains(a1 + a2 + a3 + a4 + a5 + a6 + a7 + a8 + a9 + a10 + a11 + a12 + a13 + a14 + a15 + a16 + a17 + a18 + a19 + a20 + a21, a20 + a21),
{
    let t = a1 + a2 + a3 + a4 + a5 + a6 + a7 + a8 + a9 + a10 + a11 + a12 + a13 + a14 + a15 + a16 + a17 + a18 + a19 + a20;
    lemma_run_20(a1, a2, a3, a4, a5, a6, a7, a8, a9, a10, a11, a12, a13, a14, a15, a16, a17, a18, a19, a20);
    texts::lemma_contains_parts(t, a21, a1 + a2);
    texts::lemma_contains_parts(t, a21, a2 + a3);
    texts::lemma_contains_parts(t, a21, a3 + a4);
    texts::lemma_contains_parts(t, a21, a4 + a5);
    texts::lemma_contains_parts(t, a21, a5 + a6);
    texts::lemma_contains_parts(t, a21, a6 + a7);
    texts::lemma_contains_parts(t, a21, a7 + a8);
    texts::lemma_contains_parts(t, a21, a8 + a9);
    texts::lemma_contains_parts(t, a21, a9 + a10);
    texts::lemma_contains_parts(t, a21, a10 + a11);
    texts::lemma_contains_parts(t, a21, a11 + a12);
    texts::lemma_contains_parts(t, a21, a12 + a13);
    texts::lemma_contains_parts(t, a21, a13 + a14);
    texts::lemma_contains_parts(t, a21, a14 + a15);
    texts::lemma_contains_parts(t, a21, a15 + a16);
    texts::lemma_contains_parts(t, a21, a16 + a17);
    texts::lemma_contains_parts(t, a21, a17 + a18);
    texts::lemma_contains_parts(t, a21, a18 + a19);
    texts::lemma_contains_parts(t, a21, a19 + a20);
    let before = a1 + a2 + a3 + a4 + a5 + a6 + a7 + a8 + a9 + a10 + a11 + a12 + a13 + a14 + a15 + a16 + a17 + a18 + a19;
    let pair = a20 + a21;
    assert(t + a21 =~= before + pair);
    texts::lemma_contains_parts(before, pair, pair);
}

} // verus!
