//! Immutable byte strings that are shared instead of copied.
use std::sync::Arc;
use vstd::prelude::*;

verus! {

/// Hands out another reference to a shared value with `Arc::clone`; the
/// contract claims that both lead to the same value.
#[verifier::external_body]
pub(crate) fn share<T>(p: &Arc<T>) -> (r: Arc<T>)
    ensures
        r == *p,
{
    Arc::clone(p)
}

/// Bytes of a message, a key set or a transaction, in their wire encoding.
#[derive(Debug, PartialEq, Eq)]
pub struct Blob(pub Arc<Vec<u8>>);

impl View for Blob {
    type V = Seq<u8>;

    open spec fn view(&self) -> Seq<u8> {
        self.0@
    }
}

impl Clone for Blob {
    fn clone(&self) -> (r: Self)
        ensures
            r == *self,
    {
        Blob(share(&self.0))
    }
}

impl Blob {
    pub fn new(bytes: Vec<u8>) -> (r: Blob)
        ensures
            r@ == bytes@,
    {
        Blob(Arc::new(bytes))
    }

    pub fn bytes(&self) -> (r: &Vec<u8>)
        ensures
            r@ == self@,
    {
        &self.0
    }
}

/// The bytes of all parts, one after the other.
pub open spec fn joined(parts: Seq<Blob>) -> Seq<u8>
    decreases parts.len(),
{
    if parts.len() == 0 {
        Seq::empty()
    } else {
        joined(parts.drop_last()) + parts.last()@
    }
}

/// Puts the parts of a message together, in order.
pub fn join(parts: &Vec<Blob>) -> (r: Vec<u8>)
    ensures
        r@ == joined(parts@),
{
    let mut out: Vec<u8> = Vec::new();
    let mut i: usize = 0;
    while i < parts.len()
        invariant
            i <= parts.len(),
            out@ == joined(parts@.take(i as int)),
        decreases parts.len() - i,
    {
        let ghost before = parts@.take(i as int);
        let ghost after = parts@.take(i as int + 1);
        assert(after.drop_last() =~= before);
        let piece: &Vec<u8> = parts[i].bytes();
        append(&mut out, piece);
        i = i + 1;
    }
    assert(parts@.take(parts@.len() as int) =~= parts@);
    out
}

/// Appends a copy of `tail`.
pub fn append(out: &mut Vec<u8>, tail: &Vec<u8>)
    ensures
        final(out)@ == old(out)@ + tail@,
{
    let ghost start = out@;
    let mut j: usize = 0;
    while j < tail.len()
        invariant
            j <= tail.len(),
            out@ == start + tail@.take(j as int),
        decreases tail.len() - j,
    {
        out.push(tail[j]);
        assert(tail@.take(j as int + 1) =~= tail@.take(j as int).push(tail@[j as int]));
        j = j + 1;
        assert(out@ =~= start + tail@.take(j as int));
    }
    assert(tail@.take(tail@.len() as int) =~= tail@);
}

/// Parts are joined in their order, each in full.
pub proof fn law_joined_in_order(before: Seq<Blob>, last: Blob)
    ensures
        joined(Seq::empty()).len() == 0,
        joined(before.push(last)) == joined(before) + last@,
{
    assert(before.push(last).drop_last() =~= before);
}

} // verus!
