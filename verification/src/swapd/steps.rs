//! Which steps a list holds.
use vstd::prelude::*;

use crate::swapd::runtime::Op;

verus! {

/// A step among those of a list.
pub proof fn lemma_among_two(a: Op, b: Op, op: Op)
    ensures
        seq![a, b].contains(op) <==> (op == a || op == b),
{
    let steps = seq![a, b];
    assert(steps[0] == a);
    assert(steps[1] == b);
    if steps.contains(op) {
        let k = choose|k: int| 0 <= k < steps.len() && steps[k] == op;
        assert(steps[k] == op);
    }
}

/// A step among those of a list.
pub proof fn lemma_among_three(a: Op, b: Op, c: Op, op: Op)
    ensures
        seq![a, b, c].contains(op) <==> (op == a || op == b || op == c),
{
    let steps = seq![a, b, c];
    assert(steps[0] == a);
    assert(steps[1] == b);
    assert(steps[2] == c);
    if steps.contains(op) {
        let k = choose|k: int| 0 <= k < steps.len() && steps[k] == op;
        assert(steps[k] == op);
    }
}

/// A step among those of a list.
pub proof fn lemma_among_four(a: Op, b: Op, c: Op, d: Op, op: Op)
    ensures
        seq![a, b, c, d].contains(op) <==> (op == a || op == b || op == c || op == d),
{
    let steps = seq![a, b, c, d];
    assert(steps[0] == a);
    assert(steps[1] == b);
    assert(steps[2] == c);
    assert(steps[3] == d);
    if steps.contains(op) {
        let k = choose|k: int| 0 <= k < steps.len() && steps[k] == op;
        assert(steps[k] == op);
    }
}

/// A step among those of a list.
pub proof fn lemma_among_five(a: Op, b: Op, c: Op, d: Op, e: Op, op: Op)
    ensures
        seq![a, b, c, d, e].contains(op) <==> (op == a || op == b || op == c || op == d || op == e),
{
    let steps = seq![a, b, c, d, e];
    assert(steps[0] == a);
    assert(steps[1] == b);
    assert(steps[2] == c);
    assert(steps[3] == d);
    assert(steps[4] == e);
    if steps.contains(op) {
        let k = choose|k: int| 0 <= k < steps.len() && steps[k] == op;
        assert(steps[k] == op);
    }
}

/// A step among those of a list.
pub proof fn lemma_among_six(a: Op, b: Op, c: Op, d: Op, e: Op, f: Op, op: Op)
    ensures
        seq![a, b, c, d, e, f].contains(op) <==> (op == a || op == b || op == c || op == d || op == e || op == f),
{
    let steps = seq![a, b, c, d, e, f];
    assert(steps[0] == a);
    assert(steps[1] == b);
    assert(steps[2] == c);
    assert(steps[3] == d);
    assert(steps[4] == e);
    assert(steps[5] == f);
    if steps.contains(op) {
        let k = choose|k: int| 0 <= k < steps.len() && steps[k] == op;
        assert(steps[k] == op);
    }
}

/// A step among those of two lists in a row.
pub proof fn lemma_among_joined(a: Seq<Op>, b: Seq<Op>, op: Op)
    ensures
        (a + b).contains(op) <==> a.contains(op) || b.contains(op),
{
    let both = a + b;
    if both.contains(op) {
        let k = choose|k: int| 0 <= k < both.len() && both[k] == op;
        if k < a.len() {
            assert(a[k] == op);
        } else {
            assert(b[k - a.len()] == op);
        }
    }
    if a.contains(op) {
        let k = choose|k: int| 0 <= k < a.len() && a[k] == op;
        assert(both[k] == op);
    }
    if b.contains(op) {
        let k = choose|k: int| 0 <= k < b.len() && b[k] == op;
        assert(both[k + a.len()] == op);
    }
}

/// A step among those of a list.
pub proof fn lemma_among_one(a: Op, op: Op)
    ensures
        seq![a].contains(op) <==> op == a,
{
    assert(seq![a][0] == a);
}

} // verus!
