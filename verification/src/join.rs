//! Text that is written piece by piece is the concatenation of the pieces.
//!
//! A writer appends its pieces to what is there, one after another. Its
//! contract speaks of the text in front and of the whole that was appended.
//! The lemmas here say that both are the same, for as many pieces as the
//! writers of this library append at once.

use vstd::prelude::*;

verus! {

/// Joining 3 pieces.
pub proof fn lemma_join3(
    base: Seq<char>,
    a: Seq<char>,
    b: Seq<char>,
    c: Seq<char>,
)
    ensures
        base + a + b + c == base + (a + b + c),
{
    assert(base + a + b + c =~= base + (a + b + c));
}

/// Joining 5 pieces.
pub proof fn lemma_join5(
    base: Seq<char>,
    a: Seq<char>,
    b: Seq<char>,
    c: Seq<char>,
    d: Seq<char>,
    e: Seq<char>,
)
    ensures
        base + a + b + c + d + e == base + (a + b + c + d + e),
{
    assert(base + a + b + c + d + e =~= base + (a + b + c + d + e));
}

/// Joining 7 pieces.
pub proof fn lemma_join7(
    base: Seq<char>,
    a: Seq<char>,
    b: Seq<char>,
    c: Seq<char>,
    d: Seq<char>,
    e: Seq<char>,
    f: Seq<char>,
    g: Seq<char>,
)
    ensures
        base + a + b + c + d + e + f + g == base + (a + b + c + d + e + f + g),
{
    assert(base + a + b + c + d + e + f + g =~= base + (a + b + c + d + e + f + g));
}

/// Joining 11 pieces.
pub proof fn lemma_join11(
    base: Seq<char>,
    a: Seq<char>,
    b: Seq<char>,
    c: Seq<char>,
    d: Seq<char>,
    e: Seq<char>,
    f: Seq<char>,
    g: Seq<char>,
    h: Seq<char>,
    i: Seq<char>,
    j: Seq<char>,
    k: Seq<char>,
)
    ensures
        base + a + b + c + d + e + f + g + h + i + j + k == base + (a + b + c + d + e + f + g + h + i + j + k),
{
    assert(base + a + b + c + d + e + f + g + h + i + j + k =~= base + (a + b + c + d + e + f + g + h + i + j + k));
}

/// Joining 13 pieces.
pub proof fn lemma_join13(
    base: Seq<char>,
    a: Seq<char>,
    b: Seq<char>,
    c: Seq<char>,
    d: Seq<char>,
    e: Seq<char>,
    f: Seq<char>,
    g: Seq<char>,
    h: Seq<char>,
    i: Seq<char>,
    j: Seq<char>,
    k: Seq<char>,
    l: Seq<char>,
    m: Seq<char>,
)
    ensures
        base + a + b + c + d + e + f + g + h + i + j + k + l + m == base + (a + b + c + d + e + f + g + h + i + j + k + l + m),
{
    assert(base + a + b + c + d + e + f + g + h + i + j + k + l + m =~= base + (a + b + c + d + e + f + g + h + i + j + k + l + m));
}

/// Joining 14 pieces.
pub proof fn lemma_join14(
    base: Seq<char>,
    a: Seq<char>,
    b: Seq<char>,
    c: Seq<char>,
    d: Seq<char>,
    e: Seq<char>,
    f: Seq<char>,
    g: Seq<char>,
    h: Seq<char>,
    i: Seq<char>,
    j: Seq<char>,
    k: Seq<char>,
    l: Seq<char>,
    m: Seq<char>,
    n: Seq<char>,
)
    ensures
        base + a + b + c + d + e + f + g + h + i + j + k + l + m + n == base + (a + b + c + d + e + f + g + h + i + j + k + l + m + n),
{
    assert(base + a + b + c + d + e + f + g + h + i + j + k + l + m + n =~= base + (a + b + c + d + e + f + g + h + i + j + k + l + m + n));
}

} // verus!
