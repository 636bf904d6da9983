//! What holds of two operations that were made for the same text: when the
//! two orders of applying them meet in one text, and when transforming
//! changes nothing.

use crate::ot::operations::{overlap_width, OperationModel};
use vstd::prelude::*;

verus! {

/// Both orders are possible and end in the same text: `a`, then `b` rebased
/// across `a`; or `b`, then `a` rebased across `b`.
pub open spec fn converges(a: OperationModel, b: OperationModel, text: Seq<char>) -> bool {
    &&& b.transform(a).valid_on(a.apply_to(text).len() as int)
    &&& a.transform(b).valid_on(b.apply_to(text).len() as int)
    &&& b.transform(a).apply_to(a.apply_to(text)) == a.transform(b).apply_to(b.apply_to(text))
}

/// An insert of `inserted` at `p` falls strictly inside the range that a
/// delete of `length` chars at `q` takes out, and it shows: the delete,
/// applied after the insert, takes out part of what was inserted, where
/// the insert, applied after the delete, keeps all of it.
pub open spec fn insert_torn_by_delete(
    p: int,
    inserted: Seq<char>,
    q: int,
    length: int,
    text: Seq<char>,
) -> bool {
    &&& q < p < q + length
    &&& (inserted + text.skip(p)).skip(q + length - p) != inserted + text.skip(q + length)
}

/// A delete of `l` chars at `p` is wholly covered by a delete of `m` chars
/// at `q`, and the empty delete that is left of it at `p` lies beyond the
/// end of the text that the other delete has shortened.
pub open spec fn delete_stranded(p: int, l: int, q: int, m: int, len: int) -> bool {
    overlap_width(p, l, q, m) == l && p > len - m
}

/// The pairs on which the two orders do not meet.
///
/// - Two inserts at one position, whose texts read differently in the two
///   orders: each is moved behind the other.
/// - An insert torn by a delete (see `insert_torn_by_delete`).
/// - Two deletes of which one is stranded (see `delete_stranded`).
pub open spec fn conflicts(a: OperationModel, b: OperationModel, text: Seq<char>) -> bool {
    match (a, b) {
        (
            OperationModel::Insert { position: p, text: s, .. },
            OperationModel::Insert { position: q, text: t, .. },
        ) => p == q && s + t != t + s,
        (
            OperationModel::Insert { position: p, text: s, .. },
            OperationModel::Delete { position: q, length: l, .. },
        ) => insert_torn_by_delete(p, s, q, l, text),
        (
            OperationModel::Delete { position: p, length: l, .. },
            OperationModel::Insert { position: q, text: t, .. },
        ) => insert_torn_by_delete(q, t, p, l, text),
        (
            OperationModel::Delete { position: p, length: l, .. },
            OperationModel::Delete { position: q, length: m, .. },
        ) => delete_stranded(p, l, q, m, text.len() as int) || delete_stranded(
            q,
            m,
            p,
            l,
            text.len() as int,
        ),
    }
}

proof fn lemma_insert_insert(a: OperationModel, b: OperationModel, text: Seq<char>)
    requires
        a is Insert,
        b is Insert,
        a.valid_on(text.len() as int),
        b.valid_on(text.len() as int),
    ensures
        converges(a, b, text) <==> !conflicts(a, b, text),
{
    let p = a.position();
    let q = b.position();
    let s = a->text;
    let t = b->text;
    let left = b.transform(a).apply_to(a.apply_to(text));
    let right = a.transform(b).apply_to(b.apply_to(text));
    if p < q {
        assert(left =~= right);
    } else if p > q {
        assert(left =~= right);
    } else {
        assert(left.subrange(p, p + s.len() + t.len()) =~= s + t);
        assert(right.subrange(p, p + s.len() + t.len()) =~= t + s);
        if s + t == t + s {
            assert(left =~= text.subrange(0, p) + (s + t) + text.skip(p));
            assert(right =~= text.subrange(0, p) + (t + s) + text.skip(p));
        }
    }
}

proof fn lemma_insert_delete(a: OperationModel, b: OperationModel, text: Seq<char>)
    requires
        a is Insert,
        b is Delete,
        a.valid_on(text.len() as int),
        b.valid_on(text.len() as int),
    ensures
        converges(a, b, text) <==> !conflicts(a, b, text),
        converges(b, a, text) <==> !conflicts(b, a, text),
{
    let p = a.position();
    let s = a->text;
    let q = b.position();
    let l = b->length;
    let left = b.transform(a).apply_to(a.apply_to(text));
    let right = a.transform(b).apply_to(b.apply_to(text));
    if p <= q {
        assert(left =~= right);
    } else if p >= q + l {
        assert(left =~= right);
    } else {
        let k = q + l - p;
        assert(left.skip(q) =~= (s + text.skip(p)).skip(k));
        assert(right.skip(q) =~= s + text.skip(q + l));
        if !insert_torn_by_delete(p, s, q, l, text) {
            assert(left =~= text.subrange(0, q) + left.skip(q));
            assert(right =~= text.subrange(0, q) + right.skip(q));
        }
    }
}

proof fn lemma_delete_delete(a: OperationModel, b: OperationModel, text: Seq<char>)
    requires
        a is Delete,
        b is Delete,
        a.valid_on(text.len() as int),
        b.valid_on(text.len() as int),
    ensures
        converges(a, b, text) <==> !conflicts(a, b, text),
{
    let left = b.transform(a).apply_to(a.apply_to(text));
    let right = a.transform(b).apply_to(b.apply_to(text));
    if !conflicts(a, b, text) {
        assert(left =~= right);
    }
}

/// Two operations made for one text end in one text, whichever is applied
/// first, if the other is rebased across it; unless they conflict.
pub proof fn lemma_convergence(a: OperationModel, b: OperationModel, text: Seq<char>)
    requires
        a.valid_on(text.len() as int),
        b.valid_on(text.len() as int),
        !conflicts(a, b, text),
    ensures
        converges(a, b, text),
{
    lemma_conflicts_exactly(a, b, text);
}

/// The pairs that conflict are exactly those on which the two orders fail to
/// meet: one of the rebased operations no longer lies within the text, or the
/// two texts differ.
pub proof fn lemma_conflicts_exactly(a: OperationModel, b: OperationModel, text: Seq<char>)
    requires
        a.valid_on(text.len() as int),
        b.valid_on(text.len() as int),
    ensures
        converges(a, b, text) <==> !conflicts(a, b, text),
{
    match (a, b) {
        (OperationModel::Insert { .. }, OperationModel::Insert { .. }) => {
            lemma_insert_insert(a, b, text);
        },
        (OperationModel::Insert { .. }, OperationModel::Delete { .. }) => {
            lemma_insert_delete(a, b, text);
        },
        (OperationModel::Delete { .. }, OperationModel::Insert { .. }) => {
            lemma_insert_delete(b, a, text);
        },
        (OperationModel::Delete { .. }, OperationModel::Delete { .. }) => {
            lemma_delete_delete(a, b, text);
        },
    }
}

/// How many chars of the text the operation covers: none for an insert,
/// which stands in a gap, and its length for a delete.
pub open spec fn extent(operation: OperationModel) -> int {
    match operation {
        OperationModel::Insert { .. } => 0,
        OperationModel::Delete { length, .. } => length,
    }
}

/// The ranges that the two operations cover have no position in common.
pub open spec fn ranges_disjoint(a: OperationModel, b: OperationModel) -> bool {
    overlap_width(a.position(), extent(a), b.position(), extent(b)) == 0
}

/// Two operations whose ranges are disjoint, and of which neither moves the
/// other, are left as they are by the transform.
pub proof fn lemma_disjoint_identity(a: OperationModel, b: OperationModel)
    requires
        a.well_formed(),
        b.well_formed(),
        ranges_disjoint(a, b),
        a.transform(b).position() == a.position(),
        b.transform(a).position() == b.position(),
    ensures
        a.transform(b) == a,
        b.transform(a) == b,
{
}

/// The transform changes neither the kind of an operation, nor its revision,
/// nor the text of an insert; and a delete comes out no longer than it went
/// in, and by no more shorter than the other operation deletes.
pub proof fn lemma_transform_keeps(a: OperationModel, b: OperationModel)
    requires
        a.well_formed(),
        b.well_formed(),
    ensures
        a.transform(b).well_formed(),
        a.transform(b).revision() == a.revision(),
        a is Insert ==> a.transform(b) is Insert && a.transform(b)->text == a->text,
        a is Delete ==> a.transform(b) is Delete && 0 <= a.transform(b)->length <= a->length,
        a is Delete ==> a->length - a.transform(b)->length <= extent(b),
{
}

/// An operation changes the length of a text by what it adds or takes out:
/// an insert adds the length of its text, a delete takes out its length.
pub proof fn lemma_length(operation: OperationModel, text: Seq<char>)
    requires
        operation.valid_on(text.len() as int),
    ensures
        operation.apply_to(text).len() == text.len() + operation.growth(),
{
}

} // verus!
