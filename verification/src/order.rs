//! Lexicographic order on task identifiers. The registry keeps its entries
//! in this order, so the active-task listing pages in ascending identifier
//! order with an exclusive cursor bound, the way a key-ordered store lists
//! its keys.

use vstd::prelude::*;
use vstd::string::StrSliceExecFns;

verus! {

/// Strict lexicographic order on identifier views: a proper prefix comes
/// first, and otherwise the first differing character decides.
pub open spec fn lex_lt(a: Seq<char>, b: Seq<char>) -> bool
    decreases a.len(),
{
    if b.len() == 0 {
        false
    } else if a.len() == 0 {
        true
    } else if a[0] == b[0] {
        lex_lt(a.drop_first(), b.drop_first())
    } else {
        (a[0] as u32) < (b[0] as u32)
    }
}

/// Nothing precedes itself.
pub proof fn lemma_lex_lt_irreflexive(a: Seq<char>)
    ensures
        !lex_lt(a, a),
    decreases a.len(),
{
    if a.len() > 0 {
        lemma_lex_lt_irreflexive(a.drop_first());
    }
}

/// At most one direction of the order holds.
pub proof fn lemma_lex_lt_asymmetric(a: Seq<char>, b: Seq<char>)
    ensures
        !(lex_lt(a, b) && lex_lt(b, a)),
    decreases a.len(),
{
    if a.len() > 0 && b.len() > 0 && a[0] == b[0] {
        lemma_lex_lt_asymmetric(a.drop_first(), b.drop_first());
    }
}

/// Different identifiers are ordered one way or the other.
pub proof fn lemma_lex_lt_connected(a: Seq<char>, b: Seq<char>)
    ensures
        a == b || lex_lt(a, b) || lex_lt(b, a),
    decreases a.len(),
{
    if a.len() == 0 && b.len() == 0 {
        assert(a =~= b);
    } else if a.len() > 0 && b.len() > 0 && a[0] == b[0] {
        lemma_lex_lt_connected(a.drop_first(), b.drop_first());
        if a.drop_first() == b.drop_first() {
            assert(a.len() == b.len());
            assert forall|i: int| 0 <= i < a.len() implies a[i] == b[i] by {
                if i > 0 {
                    assert(a[i] == a.drop_first()[i - 1]);
                    assert(b[i] == b.drop_first()[i - 1]);
                }
            }
            assert(a =~= b);
        }
    } else if a.len() > 0 && b.len() > 0 {
        vstd::utf8::char_u32_cast(a[0], a[0] as u32);
        vstd::utf8::char_u32_cast(b[0], b[0] as u32);
        assert((a[0] as u32) != (b[0] as u32));
    }
}

/// The order is transitive.
pub proof fn lemma_lex_lt_transitive(a: Seq<char>, b: Seq<char>, c: Seq<char>)
    requires
        lex_lt(a, b),
        lex_lt(b, c),
    ensures
        lex_lt(a, c),
    decreases a.len(),
{
    if a.len() > 0 && b.len() > 0 && c.len() > 0 && a[0] == b[0] && b[0] == c[0] {
        lemma_lex_lt_transitive(a.drop_first(), b.drop_first(), c.drop_first());
    }
}

/// Equal prefixes do not decide the order: it is settled by the remainders.
proof fn lemma_lex_lt_skip(a: Seq<char>, b: Seq<char>, i: int)
    requires
        0 <= i <= a.len(),
        i <= b.len(),
        forall|j: int| 0 <= j < i ==> a[j] == b[j],
    ensures
        lex_lt(a, b) == lex_lt(a.skip(i), b.skip(i)),
    decreases i,
{
    if i > 0 {
        assert(a.skip(0) =~= a);
        assert(a[0] == b[0]);
        assert(a.drop_first().skip(i - 1) =~= a.skip(i));
        assert(b.drop_first().skip(i - 1) =~= b.skip(i));
        assert(forall|j: int| 0 <= j < i - 1 ==> #[trigger] a.drop_first()[j] == a[j + 1]);
        assert(forall|j: int| 0 <= j < i - 1 ==> #[trigger] b.drop_first()[j] == b[j + 1]);
        lemma_lex_lt_skip(a.drop_first(), b.drop_first(), i - 1);
    } else {
        assert(a.skip(0) =~= a);
        assert(b.skip(0) =~= b);
    }
}

/// Whether `a` precedes `b` in identifier order.
pub fn str_lt(a: &String, b: &String) -> (r: bool)
    ensures
        r == lex_lt(a@, b@),
{
    let alen: usize = a.as_str().unicode_len();
    let blen: usize = b.as_str().unicode_len();
    let mut i: usize = 0;
    while i < alen && i < blen
        invariant
            alen == a@.len(),
            blen == b@.len(),
            i <= alen,
            i <= blen,
            forall|j: int| 0 <= j < i ==> a@[j] == b@[j],
        decreases alen - i,
    {
        let ca = a.as_str().get_char(i);
        let cb = b.as_str().get_char(i);
        if ca != cb {
            proof {
                lemma_lex_lt_skip(a@, b@, i as int);
                assert(a@.skip(i as int)[0] == a@[i as int]);
                assert(b@.skip(i as int)[0] == b@[i as int]);
                assert(a@.skip(i as int).len() > 0 && b@.skip(i as int).len() > 0);
            }
            return (ca as u32) < (cb as u32);
        }
        i = i + 1;
    }
    proof {
        lemma_lex_lt_skip(a@, b@, i as int);
        assert(a@.skip(i as int).len() == a@.len() - i);
        assert(b@.skip(i as int).len() == b@.len() - i);
    }
    alen < blen
}

/// The first position in `order` whose identifier follows `c`: where a page
/// with exclusive cursor `c` starts. On an ascending sequence this is the
/// number of identifiers at or before the cursor.
pub open spec fn first_after(order: Seq<Seq<char>>, c: Seq<char>) -> int
    decreases order.len(),
{
    if order.len() == 0 {
        0
    } else if lex_lt(c, order[0]) {
        0
    } else {
        1 + first_after(order.drop_first(), c)
    }
}

/// `first_after` stays within the sequence.
pub proof fn lemma_first_after_bounds(order: Seq<Seq<char>>, c: Seq<char>)
    ensures
        0 <= first_after(order, c) <= order.len(),
    decreases order.len(),
{
    if order.len() > 0 && !lex_lt(c, order[0]) {
        lemma_first_after_bounds(order.drop_first(), c);
    }
}

/// When `first_after` lands inside the sequence, the identifier there does
/// follow the cursor.
pub proof fn lemma_first_after_follows(order: Seq<Seq<char>>, c: Seq<char>)
    ensures
        first_after(order, c) < order.len() ==> lex_lt(c, order[first_after(order, c)]),
    decreases order.len(),
{
    if order.len() > 0 && !lex_lt(c, order[0]) {
        lemma_first_after_follows(order.drop_first(), c);
        lemma_first_after_bounds(order.drop_first(), c);
        if first_after(order, c) < order.len() {
            assert(order.drop_first()[first_after(order.drop_first(), c)] == order[first_after(
                order,
                c,
            )]);
        }
    }
}

/// The position scanned to from the left is `first_after`.
pub proof fn lemma_first_after_at(order: Seq<Seq<char>>, c: Seq<char>, i: int)
    requires
        0 <= i <= order.len(),
        forall|j: int| 0 <= j < i ==> !lex_lt(c, #[trigger] order[j]),
        i < order.len() ==> lex_lt(c, order[i]),
    ensures
        first_after(order, c) == i,
    decreases i,
{
    if i > 0 {
        assert(!lex_lt(c, order[0]));
        assert(forall|j: int| 0 <= j < i - 1 ==> #[trigger] order.drop_first()[j] == order[j + 1]);
        if i < order.len() {
            assert(order.drop_first()[i - 1] == order[i]);
        }
        lemma_first_after_at(order.drop_first(), c, i - 1);
    } else {
        if order.len() > 0 {
            assert(lex_lt(c, order[0]));
        }
    }
}

} // verus!
