//! Chunk arithmetic shared by both transfer directions: files and remote
//! streams are moved in fixed-size chunks, in order, with no gaps and no
//! reordering.
use vstd::prelude::*;

verus! {

/// Fixed transfer chunk size in bytes.
pub const CHUNK_SIZE: u64 = 4096;

/// Length of the next chunk when `written` of `total` bytes have been
/// moved: a full chunk while one remains, the remainder at the end.
pub open spec fn chunk_len_of(total: u64, written: u64) -> int {
    if total - written < CHUNK_SIZE { total - written } else { CHUNK_SIZE as int }
}

/// How many bytes the next read should ask for. Zero exactly when the
/// transfer is complete, so a streaming loop guarded by this value
/// performs zero iterations on an empty source.
pub fn next_chunk_len(total: u64, written: u64) -> (n: u64)
    requires
        written <= total,
    ensures
        n == chunk_len_of(total, written),
        written + n <= total,
        n == 0 <==> written == total,
{
    let rem = total - written;
    if rem < CHUNK_SIZE {
        rem
    } else {
        CHUNK_SIZE
    }
}

/// The chunk lengths a transfer of `remaining` bytes goes through.
pub open spec fn chunk_plan(remaining: int) -> Seq<int>
    decreases remaining,
{
    if remaining <= 0 {
        Seq::empty()
    } else if remaining < CHUNK_SIZE {
        seq![remaining]
    } else {
        seq![CHUNK_SIZE as int] + chunk_plan(remaining - CHUNK_SIZE)
    }
}

/// Sum of a sequence of lengths.
pub open spec fn plan_total(plan: Seq<int>) -> int
    decreases plan.len(),
{
    if plan.len() == 0 {
        0
    } else {
        plan.first() + plan_total(plan.drop_first())
    }
}

/// Law: the chunk plan covers the whole transfer — the chunk lengths sum
/// to exactly the number of bytes to move, every chunk is bounded by the
/// chunk size, and only the final chunk may fall short of it.
pub proof fn lemma_chunk_plan_covers(remaining: int)
    requires
        remaining >= 0,
    ensures
        plan_total(chunk_plan(remaining)) == remaining,
        forall|i: int|
            0 <= i < chunk_plan(remaining).len() ==> 0 < #[trigger] chunk_plan(remaining)[i]
                <= CHUNK_SIZE,
        forall|i: int|
            0 <= i < chunk_plan(remaining).len() - 1 ==> #[trigger] chunk_plan(remaining)[i]
                == CHUNK_SIZE,
    decreases remaining,
{
    if remaining <= 0 {
    } else if remaining < CHUNK_SIZE {
        let p = chunk_plan(remaining);
        assert(p.first() == remaining);
        assert(p.drop_first() =~= Seq::<int>::empty());
        assert(plan_total(p.drop_first()) == 0);
    } else {
        lemma_chunk_plan_covers(remaining - CHUNK_SIZE);
        let rest = chunk_plan(remaining - CHUNK_SIZE);
        assert(chunk_plan(remaining).drop_first() =~= rest);
        assert forall|i: int| 0 <= i < chunk_plan(remaining).len() - 1 implies #[trigger] chunk_plan(
            remaining,
        )[i] == CHUNK_SIZE by {
            if i > 0 {
                assert(chunk_plan(remaining)[i] == rest[i - 1]);
            }
        }
    }
}

/// Concatenation of a sequence of chunks into one byte sequence.
pub open spec fn concat_chunks(cs: Seq<Seq<u8>>) -> Seq<u8>
    decreases cs.len(),
{
    if cs.len() == 0 {
        Seq::empty()
    } else {
        cs.first() + concat_chunks(cs.drop_first())
    }
}

/// The chunks in which a byte sequence is read, in order.
pub open spec fn chunks_of(data: Seq<u8>) -> Seq<Seq<u8>>
    decreases data.len(),
{
    if data.len() == 0 {
        Seq::empty()
    } else if data.len() <= CHUNK_SIZE {
        seq![data]
    } else {
        seq![data.take(CHUNK_SIZE as int)] + chunks_of(data.skip(CHUNK_SIZE as int))
    }
}

/// Law: the chunks in which a byte sequence is read follow the chunk
/// plan of its length — the same number of chunks, each of its planned
/// size.
pub proof fn lemma_chunks_follow_plan(data: Seq<u8>)
    ensures
        chunks_of(data).len() == chunk_plan(data.len() as int).len(),
        forall|i: int|
            0 <= i < chunks_of(data).len() ==> (#[trigger] chunks_of(data)[i]).len()
                == chunk_plan(data.len() as int)[i],
    decreases data.len(),
{
    let cs = chunks_of(data);
    let plan = chunk_plan(data.len() as int);
    if data.len() == 0 {
    } else if data.len() < CHUNK_SIZE {
        assert(cs == seq![data]);
        assert(plan == seq![data.len() as int]);
        assert(cs[0].len() == plan[0]);
    } else if data.len() == CHUNK_SIZE {
        assert(cs == seq![data]);
        assert(chunk_plan(0) == Seq::<int>::empty());
        assert(plan == seq![CHUNK_SIZE as int] + chunk_plan(0));
        assert(plan =~= seq![CHUNK_SIZE as int]);
        assert(cs[0].len() == plan[0]);
    } else {
        let tail = data.skip(CHUNK_SIZE as int);
        lemma_chunks_follow_plan(tail);
        assert(cs == seq![data.take(CHUNK_SIZE as int)] + chunks_of(tail));
        assert(plan == seq![CHUNK_SIZE as int] + chunk_plan(tail.len() as int));
        assert(cs[0].len() == CHUNK_SIZE);
        assert forall|i: int| 0 <= i < cs.len() implies (#[trigger] cs[i]).len() == plan[i] by {
            if i > 0 {
                assert(cs[i] == chunks_of(tail)[i - 1]);
                assert(plan[i] == chunk_plan(tail.len() as int)[i - 1]);
            }
        }
    }
}

/// Law (byte-level round trip): writing out, in order, the chunks in
/// which a byte sequence was read reproduces that byte sequence exactly.
/// A download that stores each received chunk in receipt order therefore
/// ends with content byte-identical to the remote content it was served.
pub proof fn lemma_chunked_round_trip(data: Seq<u8>)
    ensures
        concat_chunks(chunks_of(data)) == data,
    decreases data.len(),
{
    if data.len() == 0 {
        assert(concat_chunks(chunks_of(data)) =~= data);
    } else if data.len() <= CHUNK_SIZE {
        let cs = chunks_of(data);
        assert(cs.first() == data);
        assert(cs.drop_first() =~= Seq::<Seq<u8>>::empty());
        assert(concat_chunks(cs.drop_first()) == Seq::<u8>::empty());
        assert(concat_chunks(cs) =~= data);
    } else {
        let head = data.take(CHUNK_SIZE as int);
        let tail = data.skip(CHUNK_SIZE as int);
        lemma_chunked_round_trip(tail);
        assert(chunks_of(data).drop_first() =~= chunks_of(tail));
        assert(concat_chunks(chunks_of(data)) == head + concat_chunks(chunks_of(tail)));
        assert(head + tail =~= data);
    }
}

} // verus!
