//! Checkpoints in parts: cutting them up and putting them together again.
use std::sync::Arc;
use vstd::prelude::*;

use crate::base::{Checksum, ServiceBus, ServiceId, SwapId};
use crate::blob::{append, Blob};
use crate::crypto::{checksum, ripemd160_digest};
use crate::message::{CheckpointMultipartChunk, Request};
use crate::swapd::checkpoint::{Checkpoint, CheckpointState};

verus! {

/// The largest frame of the transport.
pub const MAX_FRAME_SIZE: usize = 65569;

/// Room that is left in a frame for all that goes with a part.
pub const FRAME_MARGIN: usize = 1024;

/// The value of `internet2::transport::MAX_FRAME_SIZE`, as the contract states it.
#[verifier::external_body]
fn max_frame_size() -> (r: usize)
    ensures
        r == MAX_FRAME_SIZE,
{
    internet2::transport::MAX_FRAME_SIZE
}

/// The largest part that is sent in one message.
pub open spec fn max_chunk() -> int {
    MAX_FRAME_SIZE - FRAME_MARGIN
}

/// How large a part may be.
pub fn max_chunk_size() -> (r: usize)
    ensures
        r == max_chunk(),
        r > 0,
{
    max_frame_size() - FRAME_MARGIN
}

/// Some bytes cut into parts of a size; the last may be shorter.
pub open spec fn cut(bytes: Seq<u8>, size: int) -> Seq<Seq<u8>>
    decreases bytes.len(),
{
    if size <= 0 || bytes.len() == 0 {
        Seq::empty()
    } else if bytes.len() <= size {
        seq![bytes]
    } else {
        seq![bytes.take(size)] + cut(bytes.skip(size), size)
    }
}

/// The bytes of all parts, one after the other.
pub open spec fn glued(parts: Seq<Seq<u8>>) -> Seq<u8>
    decreases parts.len(),
{
    if parts.len() == 0 {
        Seq::empty()
    } else {
        parts[0] + glued(parts.drop_first())
    }
}

/// Cutting loses nothing.
pub proof fn law_cut_glued(bytes: Seq<u8>, size: int)
    requires
        size > 0,
    ensures
        glued(cut(bytes, size)) == bytes,
        forall|i: int|
            0 <= i < cut(bytes, size).len() ==> 0 < (#[trigger] cut(bytes, size)[i]).len() <= size,
    decreases bytes.len(),
{
    if bytes.len() == 0 {
        assert(glued(cut(bytes, size)) =~= bytes);
    } else if bytes.len() <= size {
        reveal_with_fuel(glued, 2);
        assert(seq![bytes].drop_first() =~= Seq::<Seq<u8>>::empty());
        assert(glued(seq![bytes]) =~= bytes);
    } else {
        let rest = cut(bytes.skip(size), size);
        law_cut_glued(bytes.skip(size), size);
        let all = cut(bytes, size);
        assert(all.drop_first() =~= rest);
        assert(glued(all) =~= bytes);
        assert forall|i: int| 0 <= i < all.len() implies 0 < (#[trigger] all[i]).len() <= size by {
            if i > 0 {
                assert(all[i] == rest[i - 1]);
            }
        }
    }
}

/// A part and its place.
#[derive(Debug, PartialEq, Eq)]
pub struct CheckpointChunk {
    pub msg_index: usize,
    pub serialized_state_chunk: Blob,
}

impl View for CheckpointChunk {
    type V = (usize, Seq<u8>);

    open spec fn view(&self) -> (usize, Seq<u8>) {
        (self.msg_index, self.serialized_state_chunk@)
    }
}

/// The views of a list of parts.
pub open spec fn parts_of(chunks: Seq<CheckpointChunk>) -> Seq<(usize, Seq<u8>)> {
    chunks.map_values(|c: CheckpointChunk| c@)
}

/// The parts of one checkpoint that have arrived, none of them twice, in order of
/// arrival.
#[derive(Debug, PartialEq, Eq)]
pub struct Chunks(pub Vec<CheckpointChunk>);

impl View for Chunks {
    type V = Seq<(usize, Seq<u8>)>;

    open spec fn view(&self) -> Seq<(usize, Seq<u8>)> {
        parts_of(self.0@)
    }
}

/// A collection of parts with one more in it, unless it was there already.
pub open spec fn with_part(parts: Seq<(usize, Seq<u8>)>, part: (usize, Seq<u8>)) -> Seq<
    (usize, Seq<u8>),
> {
    if parts.contains(part) {
        parts
    } else {
        parts.push(part)
    }
}

/// The parts stand in order of their places.
pub open spec fn ascending(parts: Seq<(usize, Seq<u8>)>) -> bool {
    forall|i: int, j: int| 0 <= i < j < parts.len() ==> parts[i].0 <= parts[j].0
}

/// The bytes of parts, without their places.
pub open spec fn payloads(parts: Seq<(usize, Seq<u8>)>) -> Seq<Seq<u8>> {
    parts.map_values(|p: (usize, Seq<u8>)| p.1)
}

/// Whether some bytes are what a collection of parts makes up: all its parts, one
/// after the other, in order of their places.
pub open spec fn assembles(parts: Seq<(usize, Seq<u8>)>, bytes: Seq<u8>) -> bool {
    exists|ordered: Seq<(usize, Seq<u8>)>|
        {
            &&& #[trigger] ascending(ordered)
            &&& ordered.to_multiset() == parts.to_multiset()
            &&& bytes == glued(payloads(ordered))
        }
}

fn same_content(a: &Vec<u8>, b: &Vec<u8>) -> (r: bool)
    ensures
        r == (a@ == b@),
{
    if a.len() != b.len() {
        return false;
    }
    let mut i: usize = 0;
    while i < a.len()
        invariant
            i <= a.len(),
            a.len() == b.len(),
            forall|j: int| 0 <= j < i ==> a@[j] == b@[j],
        decreases a.len() - i,
    {
        if a[i] != b[i] {
            assert(a@[i as int] != b@[i as int]);
            return false;
        }
        i = i + 1;
    }
    assert(a@ =~= b@);
    true
}

impl Chunks {
    pub fn new() -> (r: Chunks)
        ensures
            r@ == Seq::<(usize, Seq<u8>)>::empty(),
    {
        let r = Chunks(Vec::new());
        assert(r@ =~= Seq::<(usize, Seq<u8>)>::empty());
        r
    }

    /// Puts a part in, unless it is there already.
    pub fn insert(&mut self, chunk: CheckpointChunk)
        ensures
            final(self)@ == with_part(old(self)@, chunk@),
    {
        let mut i: usize = 0;
        while i < self.0.len()
            invariant
                i <= self.0.len(),
                self@ == old(self)@,
                forall|j: int| 0 <= j < i ==> self@[j] != chunk@,
            decreases self.0.len() - i,
        {
            assert(self@[i as int] == self.0@[i as int]@);
            if self.0[i].msg_index == chunk.msg_index && same_content(
                self.0[i].serialized_state_chunk.bytes(),
                chunk.serialized_state_chunk.bytes(),
            ) {
                assert(self@.contains(chunk@));
                return;
            }
            i = i + 1;
        }
        assert(!self@.contains(chunk@));
        self.0.push(chunk);
        assert(self@ =~= old(self)@.push(chunk@));
    }

    /// All parts in order of their places.
    fn ordered(&self) -> (r: Vec<CheckpointChunk>)
        ensures
            ascending(parts_of(r@)),
            parts_of(r@).to_multiset() == self@.to_multiset(),
    {
        broadcast use vstd::seq_lib::group_to_multiset_ensures;

        let mut out: Vec<CheckpointChunk> = Vec::new();
        let mut i: usize = 0;
        assert(parts_of(out@) =~= Seq::<(usize, Seq<u8>)>::empty());
        assert(self@.take(0) =~= Seq::<(usize, Seq<u8>)>::empty());
        while i < self.0.len()
            invariant
                i <= self.0.len(),
                ascending(parts_of(out@)),
                parts_of(out@).to_multiset() == self@.take(i as int).to_multiset(),
            decreases self.0.len() - i,
        {
            let chunk = CheckpointChunk {
                msg_index: self.0[i].msg_index,
                serialized_state_chunk: self.0[i].serialized_state_chunk.clone(),
            };
            proof {
                assert(self@.take(i as int + 1) =~= self@.take(i as int).push(chunk@));
                self@.take(i as int).to_multiset_ensures();
            }
            place(&mut out, chunk);
            i = i + 1;
        }
        assert(self@.take(self@.len() as int) =~= self@);
        out
    }

    /// Puts all parts together in order of their places.
    pub fn assemble(&self) -> (r: Vec<u8>)
        ensures
            assembles(self@, r@),
    {
        let ordered = self.ordered();
        let ghost parts = parts_of(ordered@);
        let mut out: Vec<u8> = Vec::new();
        let mut i: usize = 0;
        assert(payloads(parts).skip(0) =~= payloads(parts));
        while i < ordered.len()
            invariant
                i <= ordered.len(),
                parts == parts_of(ordered@),
                out@ + glued(payloads(parts).skip(i as int)) == glued(payloads(parts)),
            decreases ordered.len() - i,
        {
            let ghost rest = payloads(parts).skip(i as int);
            assert(rest[0] == ordered@[i as int].serialized_state_chunk@);
            assert(rest.drop_first() =~= payloads(parts).skip(i as int + 1));
            let ghost before = out@;
            append(&mut out, ordered[i].serialized_state_chunk.bytes());
            assert(out@ + glued(rest.drop_first()) =~= before + glued(rest));
            i = i + 1;
        }
        assert(payloads(parts).skip(ordered@.len() as int) =~= Seq::<Seq<u8>>::empty());
        assert(out@ =~= glued(payloads(parts)));
        assert(ascending(parts));
        out
    }
}

/// Puts a part behind all parts whose place is not after its own.
fn place(out: &mut Vec<CheckpointChunk>, chunk: CheckpointChunk)
    requires
        ascending(parts_of(old(out)@)),
    ensures
        ascending(parts_of(final(out)@)),
        parts_of(final(out)@).to_multiset() == parts_of(old(out)@).to_multiset().insert(chunk@),
{
    broadcast use vstd::seq_lib::group_to_multiset_ensures;

    let ghost before = parts_of(out@);
    let mut k: usize = out.len();
    while k > 0 && out[k - 1].msg_index > chunk.msg_index
        invariant
            k <= out.len(),
            before == parts_of(out@),
            ascending(before),
            *out == *old(out),
            forall|j: int| k <= j < out.len() ==> (#[trigger] before[j]).0 > chunk.msg_index,
        decreases k,
    {
        assert(before[k - 1] == out@[k - 1]@);
        k = k - 1;
    }
    proof {
        assert forall|j: int| 0 <= j < k implies (#[trigger] before[j]).0 <= chunk.msg_index by {
            assert(before[k - 1] == out@[k - 1]@);
            if j < k - 1 {
                assert(before[j].0 <= before[k - 1].0);
            }
        }
    }
    let ghost part = chunk@;
    out.insert(k, chunk);
    proof {
        let after = parts_of(out@);
        assert(after =~= before.insert(k as int, part));
        assert forall|i: int, j: int| 0 <= i < j < after.len() implies after[i].0 <= after[j].0 by {
            let i2 = if i < k { i } else { i - 1 };
            let j2 = if j < k { j } else { j - 1 };
            if i != k && j != k {
                assert(after[i] == before[i2]);
                assert(after[j] == before[j2]);
                assert(before[i2].0 <= before[j2].0);
            } else if i == k {
                assert(after[j] == before[j2]);
            } else {
                assert(after[i] == before[i2]);
            }
        }
        before.to_multiset_ensures();
        assert(after =~= before.take(k as int).push(part) + before.skip(k as int));
        assert(before =~= before.take(k as int) + before.skip(k as int));
        vstd::seq_lib::lemma_multiset_commutative(
            before.take(k as int).push(part),
            before.skip(k as int),
        );
        vstd::seq_lib::lemma_multiset_commutative(before.take(k as int), before.skip(k as int));
        assert(after.to_multiset() =~= before.to_multiset().insert(part));
    }
}

/// A request on its way over a bus.
#[derive(Debug, PartialEq, Eq)]
pub struct Letter {
    pub bus: ServiceBus,
    pub source: ServiceId,
    pub dest: ServiceId,
    pub request: Request,
}

/// A request from a swap to the database.
pub open spec fn to_database(swap_id: SwapId, request: Request) -> Letter {
    Letter {
        bus: ServiceBus::Ctl,
        source: ServiceId::Swap(swap_id),
        dest: ServiceId::Database,
        request,
    }
}

fn database_letter(swap_id: SwapId, request: Request) -> (r: Letter)
    ensures
        r == to_database(swap_id, request),
{
    Letter {
        bus: ServiceBus::Ctl,
        source: ServiceId::Swap(swap_id),
        dest: ServiceId::Database,
        request,
    }
}

/// Whether a message is one part of a serialized checkpoint.
pub open spec fn is_part(
    chunk: CheckpointMultipartChunk,
    swap_id: SwapId,
    serialized: Seq<u8>,
    i: int,
) -> bool {
    let parts = cut(serialized, max_chunk());
    &&& chunk.swap_id == swap_id
    &&& chunk.checksum.0@ == ripemd160_digest(serialized)
    &&& chunk.msgs_total == parts.len()
    &&& chunk.msg_index == i
    &&& chunk.serialized_state_chunk@ == parts[i]
}

fn copy_range(bytes: &Vec<u8>, from: usize, to: usize) -> (r: Vec<u8>)
    requires
        from <= to <= bytes.len(),
    ensures
        r@ == bytes@.subrange(from as int, to as int),
{
    let mut out: Vec<u8> = Vec::new();
    let mut i: usize = from;
    while i < to
        invariant
            from <= i <= to <= bytes.len(),
            out@ == bytes@.subrange(from as int, i as int),
        decreases to - i,
    {
        out.push(bytes[i]);
        i = i + 1;
        assert(out@ =~= bytes@.subrange(from as int, i as int));
    }
    out
}

fn cut_up(bytes: &Vec<u8>, size: usize) -> (r: Vec<Blob>)
    requires
        size > 0,
    ensures
        r.len() == cut(bytes@, size as int).len(),
        forall|i: int| 0 <= i < r.len() ==> (#[trigger] r@[i])@ == cut(bytes@, size as int)[i],
{
    let ghost all = cut(bytes@, size as int);
    let mut out: Vec<Blob> = Vec::new();
    let mut done: usize = 0;
    assert(bytes@.skip(0) =~= bytes@);
    while done < bytes.len()
        invariant
            done <= bytes.len(),
            size > 0,
            all == cut(bytes@, size as int),
            out.len() + cut(bytes@.skip(done as int), size as int).len() == all.len(),
            forall|i: int| 0 <= i < out.len() ==> (#[trigger] out@[i])@ == all[i],
            forall|i: int|
                0 <= i < cut(bytes@.skip(done as int), size as int).len() ==> (#[trigger] cut(
                    bytes@.skip(done as int),
                    size as int,
                )[i]) == all[out.len() + i],
        decreases bytes.len() - done,
    {
        let ghost rest = bytes@.skip(done as int);
        let ghost parts = cut(rest, size as int);
        let to: usize = if bytes.len() - done <= size {
            bytes.len()
        } else {
            done + size
        };
        let ghost left = bytes@.skip(to as int);
        let piece = copy_range(bytes, done, to);
        proof {
            assert(parts[0] =~= piece@);
            assert(parts[0] == all[out.len() + 0]);
            if to < bytes.len() {
                assert(rest.skip(size as int) =~= left);
                assert(parts == seq![rest.take(size as int)] + cut(left, size as int));
            } else {
                assert(left.len() == 0);
                assert(cut(left, size as int) =~= Seq::empty());
            }
            assert forall|i: int| 0 <= i < cut(left, size as int).len() implies (#[trigger] cut(
                left,
                size as int,
            )[i]) == all[out.len() + 1 + i] by {
                assert(parts[i + 1] == cut(left, size as int)[i]);
                assert(parts[i + 1] == all[out.len() + (i + 1)]);
            }
        }
        out.push(Blob::new(piece));
        done = to;
    }
    assert(bytes@.skip(done as int).len() == 0);
    out
}

/// Whether a letter brings one part of a serialized checkpoint to the database.
pub open spec fn brings_part(letter: Letter, swap_id: SwapId, serialized: Seq<u8>, i: int) -> bool {
    letter.request matches Request::CheckpointMultipartChunk(chunk) && letter == to_database(
        swap_id,
        letter.request,
    ) && is_part(chunk, swap_id, serialized, i)
}

/// The letters that bring a checkpoint to the database, given its serialization: one
/// with the checkpoint where that fits into a message, else one for each of the
/// numbered parts, in order and under the checksum of the whole.
pub fn checkpoint_state(swap_id: SwapId, state: CheckpointState, serialized: &Vec<u8>) -> (r: Vec<
    Letter,
>)
    ensures
        serialized@.len() <= max_chunk() ==> r@ == seq![
            to_database(swap_id, Request::Checkpoint(Arc::new(Checkpoint { swap_id, state }))),
        ],
        serialized@.len() > max_chunk() ==> {
            &&& r.len() == cut(serialized@, max_chunk()).len()
            &&& forall|i: int|
                0 <= i < r.len() ==> brings_part(#[trigger] r@[i], swap_id, serialized@, i)
        },
{
    let size: usize = max_chunk_size();
    if serialized.len() <= size {
        let request = Request::Checkpoint(Arc::new(Checkpoint { swap_id, state }));
        let letters = vec![database_letter(swap_id, request)];
        assert(letters@ =~= seq![
            to_database(swap_id, Request::Checkpoint(Arc::new(Checkpoint { swap_id, state }))),
        ]);
        return letters;
    }
    let sum: Checksum = checksum(serialized);
    let pieces = cut_up(serialized, size);
    let total: usize = pieces.len();
    let mut letters: Vec<Letter> = Vec::new();
    let mut i: usize = 0;
    while i < total
        invariant
            i <= total,
            total == pieces.len(),
            total == cut(serialized@, max_chunk()).len(),
            sum.0@ == ripemd160_digest(serialized@),
            forall|j: int|
                0 <= j < total ==> (#[trigger] pieces@[j])@ == cut(serialized@, max_chunk())[j],
            letters.len() == i,
            forall|j: int|
                0 <= j < i ==> brings_part(#[trigger] letters@[j], swap_id, serialized@, j),
        decreases total - i,
    {
        let chunk = CheckpointMultipartChunk {
            checksum: sum,
            msg_index: i,
            msgs_total: total,
            serialized_state_chunk: pieces[i].clone(),
            swap_id,
        };
        letters.push(database_letter(swap_id, Request::CheckpointMultipartChunk(chunk)));
        i = i + 1;
    }
    letters
}

/// Bytes are cut into as few parts as their number allows: all but the last are full.
pub proof fn law_cut_sizes(bytes: Seq<u8>, size: int)
    requires
        size > 0,
        bytes.len() > 0,
    ensures
        cut(bytes, size).len() > 0,
        (cut(bytes, size).len() - 1) * size < bytes.len() <= cut(bytes, size).len() * size,
        forall|i: int|
            0 <= i < cut(bytes, size).len() - 1 ==> (#[trigger] cut(bytes, size)[i]).len() == size,
        cut(bytes, size).last().len() == bytes.len() - (cut(bytes, size).len() - 1) * size,
    decreases bytes.len(),
{
    let all = cut(bytes, size);
    if bytes.len() <= size {
        assert(all == seq![bytes]);
        assert((all.len() - 1) * size == 0) by (nonlinear_arith)
            requires
                all.len() == 1,
        ;
        assert(all.len() * size == size) by (nonlinear_arith)
            requires
                all.len() == 1,
        ;
    } else {
        let rest = cut(bytes.skip(size), size);
        law_cut_sizes(bytes.skip(size), size);
        assert(all == seq![bytes.take(size)] + rest);
        let m = rest.len() as int;
        assert((all.len() - 1) * size == (m - 1) * size + size) by (nonlinear_arith)
            requires
                all.len() == m + 1,
        ;
        assert(all.len() * size == m * size + size) by (nonlinear_arith)
            requires
                all.len() == m + 1,
        ;
        assert forall|i: int| 0 <= i < all.len() - 1 implies (#[trigger] all[i]).len() == size by {
            if i > 0 {
                assert(all[i] == rest[i - 1]);
            }
        }
        assert(all.last() == rest.last());
    }
}

/// The parts that have been collected after some arrivals.
pub open spec fn collected(arrivals: Seq<(usize, Seq<u8>)>) -> Seq<(usize, Seq<u8>)>
    decreases arrivals.len(),
{
    if arrivals.len() == 0 {
        Seq::empty()
    } else {
        with_part(collected(arrivals.drop_last()), arrivals.last())
    }
}

proof fn lemma_collected(arrivals: Seq<(usize, Seq<u8>)>)
    ensures
        collected(arrivals).no_duplicates(),
        forall|p: (usize, Seq<u8>)|
            #![trigger collected(arrivals).contains(p)]
            collected(arrivals).contains(p) <==> arrivals.contains(p),
    decreases arrivals.len(),
{
    if arrivals.len() > 0 {
        let init = arrivals.drop_last();
        lemma_collected(init);
        let all = collected(arrivals);
        assert forall|p: (usize, Seq<u8>)| #[trigger] all.contains(p) <==> arrivals.contains(p) by {
            if all.contains(p) {
                if p != arrivals.last() {
                    let k = choose|k: int| 0 <= k < all.len() && all[k] == p;
                    if !collected(init).contains(arrivals.last()) {
                        assert(k < collected(init).len());
                    }
                    assert(collected(init)[k] == p);
                    assert(collected(init).contains(p));
                    let j = choose|j: int| 0 <= j < init.len() && init[j] == p;
                    assert(arrivals[j] == p);
                } else {
                    assert(arrivals[arrivals.len() - 1] == p);
                }
            }
            if arrivals.contains(p) {
                let j = choose|j: int| 0 <= j < arrivals.len() && arrivals[j] == p;
                if j < arrivals.len() - 1 {
                    assert(init[j] == p);
                    assert(collected(init).contains(p));
                    let k = choose|k: int|
                        0 <= k < collected(init).len() && collected(init)[k] == p;
                    assert(all[k] == p);
                } else if !collected(init).contains(p) {
                    assert(all[all.len() - 1] == p);
                }
            }
        }
    }
}

/// A strictly rising sequence of numbers below its length counts from zero.
proof fn lemma_counts(s: Seq<(usize, Seq<u8>)>)
    requires
        forall|i: int, j: int| 0 <= i < j < s.len() ==> s[i].0 < s[j].0,
        forall|i: int| 0 <= i < s.len() ==> (#[trigger] s[i]).0 < s.len(),
    ensures
        forall|i: int| 0 <= i < s.len() ==> (#[trigger] s[i]).0 == i,
{
    assert forall|i: int| 0 <= i < s.len() implies (#[trigger] s[i]).0 == i by {
        lemma_counts_up(s, i);
        lemma_counts_down(s, i);
    }
}

proof fn lemma_counts_up(s: Seq<(usize, Seq<u8>)>, i: int)
    requires
        forall|i: int, j: int| 0 <= i < j < s.len() ==> s[i].0 < s[j].0,
        0 <= i < s.len(),
    ensures
        s[i].0 >= i,
    decreases i,
{
    if i > 0 {
        lemma_counts_up(s, i - 1);
        assert(s[i - 1].0 < s[i].0);
    }
}

proof fn lemma_counts_down(s: Seq<(usize, Seq<u8>)>, i: int)
    requires
        forall|i: int, j: int| 0 <= i < j < s.len() ==> s[i].0 < s[j].0,
        forall|i: int| 0 <= i < s.len() ==> (#[trigger] s[i]).0 < s.len(),
        0 <= i < s.len(),
    ensures
        s[i].0 <= i,
    decreases s.len() - i,
{
    if i < s.len() - 1 {
        lemma_counts_down(s, i + 1);
        assert(s[i].0 < s[i + 1].0);
    } else {
        assert(s[i].0 < s.len());
    }
}

/// The numbered parts of some bytes.
pub open spec fn numbered(bytes: Seq<u8>, size: int) -> Seq<(usize, Seq<u8>)> {
    Seq::new(cut(bytes, size).len(), |i: int| (i as usize, cut(bytes, size)[i]))
}

/// However the parts of a checkpoint arrive, in whatever order and however often:
/// the collection is complete exactly when every part has come, and what it then
/// makes up is what was cut up.
pub proof fn law_reassembly(
    bytes: Seq<u8>,
    size: int,
    arrivals: Seq<(usize, Seq<u8>)>,
    assembled: Seq<u8>,
)
    requires
        size > 0,
        cut(bytes, size).len() <= usize::MAX,
        forall|k: int|
            0 <= k < arrivals.len() ==> numbered(bytes, size).contains(#[trigger] arrivals[k]),
    ensures
        collected(arrivals).len() >= cut(bytes, size).len() <==> (forall|i: int|
            0 <= i < cut(bytes, size).len() ==> arrivals.contains(
                #[trigger] numbered(bytes, size)[i],
            )),
        collected(arrivals).len() >= cut(bytes, size).len() && assembles(
            collected(arrivals),
            assembled,
        ) ==> assembled == bytes,
{
    broadcast use vstd::seq_lib::group_to_multiset_ensures;

    let parts = numbered(bytes, size);
    let n = parts.len();
    let have = collected(arrivals);
    lemma_collected(arrivals);
    assert(parts.no_duplicates());
    parts.unique_seq_to_set();
    have.unique_seq_to_set();
    assert forall|p: (usize, Seq<u8>)| have.contains(p) implies parts.contains(p) by {
        let k = choose|k: int| 0 <= k < arrivals.len() && arrivals[k] == p;
        assert(parts.contains(arrivals[k]));
    }
    assert(have.to_set().subset_of(parts.to_set()));
    vstd::set_lib::lemma_len_subset(have.to_set(), parts.to_set());
    if have.len() >= n {
        vstd::set_lib::lemma_subset_equality(have.to_set(), parts.to_set());
        assert forall|i: int| 0 <= i < n implies arrivals.contains(#[trigger] parts[i]) by {
            assert(parts.contains(parts[i]));
            assert(parts.to_set().contains(parts[i]));
            assert(have.to_set().contains(parts[i]));
            assert(have.contains(parts[i]));
        }
        if assembles(have, assembled) {
            let ordered = choose|ordered: Seq<(usize, Seq<u8>)>|
                {
                    &&& #[trigger] ascending(ordered)
                    &&& ordered.to_multiset() == have.to_multiset()
                    &&& assembled == glued(payloads(ordered))
                };
            have.to_multiset_ensures();
            ordered.to_multiset_ensures();
            assert(ordered.len() == n);
            have.lemma_multiset_has_no_duplicates();
            ordered.lemma_multiset_has_no_duplicates_conv();
            assert forall|i: int| 0 <= i < ordered.len() implies parts.contains(
                #[trigger] ordered[i],
            ) by {
                assert(ordered.contains(ordered[i]));
                assert(ordered.to_multiset().count(ordered[i]) > 0);
                assert(have.contains(ordered[i]));
            }
            assert forall|i: int| 0 <= i < ordered.len() implies (#[trigger] ordered[i]).0 < n by {
                let k = choose|k: int| 0 <= k < n && parts[k] == ordered[i];
                assert(parts[k].0 == k);
            }
            assert forall|i: int, j: int| 0 <= i < j < ordered.len() implies ordered[i].0
                < ordered[j].0 by {
                assert(parts.contains(ordered[i]));
                assert(parts.contains(ordered[j]));
                let a = choose|k: int| 0 <= k < n && parts[k] == ordered[i];
                let b = choose|k: int| 0 <= k < n && parts[k] == ordered[j];
                assert(ordered[i].0 <= ordered[j].0);
                assert(ordered[i] != ordered[j]);
            }
            lemma_counts(ordered);
            assert forall|i: int| 0 <= i < n implies #[trigger] ordered[i] == parts[i] by {
                assert(parts.contains(ordered[i]));
                let k = choose|k: int| 0 <= k < n && parts[k] == ordered[i];
                assert(k == i);
            }
            assert(payloads(ordered) =~= cut(bytes, size));
            law_cut_glued(bytes, size);
        }
    } else {
        if forall|i: int| 0 <= i < n ==> arrivals.contains(#[trigger] parts[i]) {
            assert forall|p: (usize, Seq<u8>)| parts.to_set().contains(p) implies have.to_set().contains(
                p,
            ) by {
                let k = choose|k: int| 0 <= k < n && parts[k] == p;
                assert(arrivals.contains(parts[k]));
                assert(have.contains(p));
            }
            assert(parts.to_set() =~= have.to_set());
        }
    }
}

/// Each part holds its own stretch of the bytes: the first starts with them, and each
/// begins where the one before ended.
pub proof fn law_cut_places(bytes: Seq<u8>, size: int, i: int)
    requires
        size > 0,
        0 <= i < cut(bytes, size).len(),
    ensures
        0 <= i * size < bytes.len(),
        cut(bytes, size)[i] == bytes.subrange(
            i * size,
            if (i + 1) * size <= bytes.len() {
                (i + 1) * size
            } else {
                bytes.len() as int
            },
        ),
    decreases bytes.len(),
{
    let all = cut(bytes, size);
    if i == 0 {
        assert(i * size == 0) by (nonlinear_arith)
            requires
                i == 0,
        ;
        assert((i + 1) * size == size) by (nonlinear_arith)
            requires
                i == 0,
        ;
        assert(bytes.take(size) =~= bytes.subrange(0, size) || bytes.len() < size);
        assert(bytes =~= bytes.subrange(0, bytes.len() as int));
    } else {
        let rest = bytes.skip(size);
        let before = (i - 1) * size;
        law_cut_places(rest, size, i - 1);
        assert(all[i] == cut(rest, size)[i - 1]);
        assert(i * size == before + size) by (nonlinear_arith)
            requires
                before == (i - 1) * size,
        ;
        assert((i + 1) * size == before + size + size) by (nonlinear_arith)
            requires
                before == (i - 1) * size,
        ;
        assert(((i - 1) + 1) * size == before + size) by (nonlinear_arith)
            requires
                before == (i - 1) * size,
        ;
        assert(cut(rest, size)[i - 1] =~= bytes.subrange(
            i * size,
            if (i + 1) * size <= bytes.len() {
                (i + 1) * size
            } else {
                bytes.len() as int
            },
        ));
    }
}

/// A checkpoint leaves a margin of 1024 bytes in a frame of 65569. A letter that brings a
/// part goes from the swap to the database on the control bus, and says which part of
/// how many it is, under the digest of the whole.
pub proof fn law_part_labelled(letter: Letter, swap_id: SwapId, serialized: Seq<u8>, i: int)
    requires
        brings_part(letter, swap_id, serialized, i),
    ensures
        max_chunk() == 64545,
        letter.bus == ServiceBus::Ctl,
        letter.source == ServiceId::Swap(swap_id),
        letter.dest == ServiceId::Database,
        letter.request matches Request::CheckpointMultipartChunk(chunk) && chunk.swap_id == swap_id
            && chunk.msg_index == i && chunk.msgs_total == cut(serialized, 64545).len()
            && chunk.serialized_state_chunk@ == cut(serialized, 64545)[i] && chunk.checksum.0@
            == ripemd160_digest(serialized),
{
}

/// A part is collected once: it is there afterwards, those that were there stay in their
/// order, and one that was there before does not count again.
pub proof fn law_part_collected_once(parts: Seq<(usize, Seq<u8>)>, part: (usize, Seq<u8>))
    ensures
        with_part(parts, part).contains(part),
        with_part(parts, part).take(parts.len() as int) == parts,
        with_part(parts, part).len() == if parts.contains(part) {
            parts.len()
        } else {
            parts.len() + 1
        },
        with_part(with_part(parts, part), part) == with_part(parts, part),
{
    if !parts.contains(part) {
        assert(parts.push(part)[parts.len() as int] == part);
    }
    assert(with_part(parts, part).take(parts.len() as int) =~= parts);
}

} // verus!
