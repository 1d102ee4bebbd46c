//! Fixed-size chunking of a sample stream ahead of the resampler.

use vstd::prelude::*;

verus! {

/// The sample rate recognition works at.
pub const TARGET_SAMPLE_RATE: u32 = 16000;

/// The resampler consumes input in chunks of this many samples.
pub const CHUNK_SIZE: usize = 1024;

/// The rate audio is resampled to.
pub fn target_rate() -> (r: u32)
    ensures
        r == 16000,
{
    TARGET_SAMPLE_RATE
}

/// Whether audio captured at `source_rate` has to be resampled.
pub fn needs_resampling(source_rate: u32) -> (r: bool)
    ensures
        r == (source_rate != 16000),
{
    source_rate != TARGET_SAMPLE_RATE
}

/// `chunks` concatenated.
pub open spec fn concat_chunks<S>(chunks: Seq<Seq<S>>) -> Seq<S>
    decreases chunks.len(),
{
    if chunks.len() == 0 {
        seq![]
    } else {
        concat_chunks(chunks.drop_last()) + chunks.last()
    }
}

/// Accumulates samples and hands them out in full chunks.
pub struct ChunkQueue<S> {
    buffer: Vec<S>,
}

fn copy_range<S: Copy>(v: &Vec<S>, from: usize, to: usize) -> (r: Vec<S>)
    requires
        from <= to <= v.len(),
    ensures
        r@ == v@.subrange(from as int, to as int),
{
    let mut out: Vec<S> = Vec::new();
    let mut i: usize = from;
    while i < to
        invariant
            from <= i <= to <= v.len(),
            out@ == v@.subrange(from as int, i as int),
        decreases to - i,
    {
        out.push(v[i]);
        i = i + 1;
        assert(v@.subrange(from as int, i as int) == v@.subrange(from as int, i - 1).push(v@[i - 1]));
    }
    out
}

impl<S: Copy> ChunkQueue<S> {
    /// The samples waiting for a full chunk.
    pub closed spec fn view(&self) -> Seq<S> {
        self.buffer@
    }

    /// A queue holding no samples.
    pub fn new() -> (r: Self)
        ensures
            r@ == Seq::<S>::empty(),
    {
        ChunkQueue { buffer: Vec::new() }
    }

    /// Adds `input` and takes out every full chunk, oldest first. What is
    /// handed out followed by what stays is what was waiting followed by
    /// `input`; every chunk is full, and less than a chunk stays.
    pub fn push_and_take_chunks(&mut self, input: &[S]) -> (r: Vec<Vec<S>>)
        ensures
            concat_chunks(r@.map_values(|c: Vec<S>| c@)) + final(self)@ == old(self)@ + input@,
            forall|k: int| 0 <= k < r@.len() ==> #[trigger] r@[k]@.len() == CHUNK_SIZE,
            final(self)@.len() < CHUNK_SIZE,
    {
        let mut all: Vec<S> = Vec::new();
        std::mem::swap(&mut all, &mut self.buffer);
        let ghost total = all@ + input@;
        let mut i: usize = 0;
        while i < input.len()
            invariant
                i <= input.len(),
                total == old(self)@ + input@,
                all@ == old(self)@ + input@.take(i as int),
            decreases input.len() - i,
        {
            all.push(input[i]);
            i = i + 1;
            assert(input@.take(i as int) == input@.take(i - 1).push(input@[i - 1]));
        }
        assert(input@.take(input.len() as int) == input@);
        let mut chunks: Vec<Vec<S>> = Vec::new();
        let mut pos: usize = 0;
        while all.len() - pos >= CHUNK_SIZE
            invariant
                pos <= all.len(),
                all@ == total,
                concat_chunks(chunks@.map_values(|c: Vec<S>| c@)) == all@.take(pos as int),
                forall|k: int| 0 <= k < chunks@.len() ==> #[trigger] chunks@[k]@.len() == CHUNK_SIZE,
            decreases all.len() - pos,
        {
            let chunk = copy_range(&all, pos, pos + CHUNK_SIZE);
            let ghost before = chunks@.map_values(|c: Vec<S>| c@);
            chunks.push(chunk);
            proof {
                assert(chunks@.map_values(|c: Vec<S>| c@).drop_last() =~= before);
                assert(all@.take(pos + CHUNK_SIZE) =~= all@.take(pos as int) + all@.subrange(
                    pos as int,
                    pos + CHUNK_SIZE,
                ));
            }
            pos = pos + CHUNK_SIZE;
        }
        self.buffer = copy_range(&all, pos, all.len());
        assert(all@.take(pos as int) + all@.subrange(pos as int, all.len() as int) =~= all@);
        chunks
    }
}

/// The chunk lists of several calls, one after another.
pub open spec fn all_chunks<S>(calls: Seq<Seq<Seq<S>>>) -> Seq<Seq<S>>
    decreases calls.len(),
{
    if calls.len() == 0 {
        seq![]
    } else {
        all_chunks(calls.drop_last()) + calls.last()
    }
}

/// Concatenation distributes over joining chunk lists.
proof fn lemma_concat_add<S>(a: Seq<Seq<S>>, b: Seq<Seq<S>>)
    ensures
        concat_chunks(a + b) == concat_chunks(a) + concat_chunks(b),
    decreases b.len(),
{
    if b.len() == 0 {
        assert(a + b =~= a);
        assert(concat_chunks(b) =~= Seq::<S>::empty());
        assert(concat_chunks(a) + concat_chunks(b) =~= concat_chunks(a));
    } else {
        lemma_concat_add(a, b.drop_last());
        assert((a + b).drop_last() =~= a + b.drop_last());
        assert((a + b).last() == b.last());
        assert(concat_chunks(a) + concat_chunks(b) =~= concat_chunks(a) + concat_chunks(b.drop_last()) + b.last());
    }
}

/// Full chunks concatenate to a whole number of chunks.
proof fn lemma_concat_len<S>(a: Seq<Seq<S>>)
    requires
        forall|k: int| 0 <= k < a.len() ==> #[trigger] a[k].len() == CHUNK_SIZE,
    ensures
        concat_chunks(a).len() == CHUNK_SIZE * a.len(),
    decreases a.len(),
{
    if a.len() > 0 {
        lemma_concat_len(a.drop_last());
        assert(a.last() == a[a.len() - 1]);
    }
}

/// However the samples arrived: when full chunks followed by what is
/// buffered make up all `pushed` samples, and less than a chunk is
/// buffered, then `pushed.len() / CHUNK_SIZE` chunks have been handed out,
/// they are the first samples in order, and the remaining
/// `pushed.len() % CHUNK_SIZE` samples are buffered.
pub proof fn law_chunks_cumulative<S>(handed: Seq<Seq<S>>, buffered: Seq<S>, pushed: Seq<S>)
    requires
        forall|k: int| 0 <= k < handed.len() ==> #[trigger] handed[k].len() == CHUNK_SIZE,
        concat_chunks(handed) + buffered == pushed,
        buffered.len() < CHUNK_SIZE,
    ensures
        handed.len() == pushed.len() / (CHUNK_SIZE as nat),
        buffered.len() == pushed.len() % (CHUNK_SIZE as nat),
        concat_chunks(handed) == pushed.take(CHUNK_SIZE * handed.len()),
        buffered == pushed.skip(CHUNK_SIZE * handed.len()),
{
    lemma_concat_len(handed);
    let n = pushed.len() as int;
    let c = handed.len() as int;
    assert(n == 1024 * c + buffered.len());
    assert(n / 1024 == c && n % 1024 == buffered.len()) by (nonlinear_arith)
        requires
            n == 1024 * c + buffered.len(),
            0 <= buffered.len() < 1024,
            c >= 0,
    ;
    assert(pushed.take(CHUNK_SIZE * handed.len()) =~= concat_chunks(handed));
    assert(pushed.skip(CHUNK_SIZE * handed.len()) =~= buffered);
}

/// A run of [`ChunkQueue::push_and_take_chunks`] calls from an empty queue:
/// call `i` receives `inputs[i]`, hands out `outputs[i]` and leaves
/// `buffers[i + 1]` buffered. After all of them, the chunks handed out in
/// total are the first `n / CHUNK_SIZE` whole chunks of the `n` samples
/// pushed, and `n % CHUNK_SIZE` samples stay buffered.
pub proof fn law_chunk_run<S>(inputs: Seq<Seq<S>>, outputs: Seq<Seq<Seq<S>>>, buffers: Seq<Seq<S>>)
    requires
        outputs.len() == inputs.len(),
        buffers.len() == inputs.len() + 1,
        buffers[0] == Seq::<S>::empty(),
        forall|i: int|
            0 <= i < inputs.len() ==> concat_chunks(#[trigger] outputs[i]) + buffers[i + 1] == buffers[i]
                + inputs[i],
        forall|i: int, k: int|
            0 <= i < inputs.len() && 0 <= k < outputs[i].len() ==> #[trigger] outputs[i][k].len()
                == CHUNK_SIZE,
        forall|i: int| 0 <= i < inputs.len() ==> #[trigger] buffers[i + 1].len() < CHUNK_SIZE,
    ensures
        all_chunks(outputs).len() == concat_chunks(inputs).len() / (CHUNK_SIZE as nat),
        buffers.last().len() == concat_chunks(inputs).len() % (CHUNK_SIZE as nat),
        concat_chunks(all_chunks(outputs)) + buffers.last() == concat_chunks(inputs),
{
    lemma_chunk_run_prefix(inputs, outputs, buffers, inputs.len() as int);
    assert(inputs.take(inputs.len() as int) =~= inputs);
    assert(outputs.take(outputs.len() as int) =~= outputs);
    if inputs.len() == 0 {
        assert(buffers.last() == buffers[0]);
        assert(concat_chunks(all_chunks(outputs)) =~= Seq::<S>::empty());
    }
    law_chunks_cumulative(all_chunks(outputs), buffers.last(), concat_chunks(inputs));
}

/// The first `m` calls of a run: their chunks followed by the buffer after
/// them are the samples pushed so far, and every chunk is full.
proof fn lemma_chunk_run_prefix<S>(inputs: Seq<Seq<S>>, outputs: Seq<Seq<Seq<S>>>, buffers: Seq<Seq<S>>, m: int)
    requires
        0 <= m <= inputs.len(),
        outputs.len() == inputs.len(),
        buffers.len() == inputs.len() + 1,
        buffers[0] == Seq::<S>::empty(),
        forall|i: int|
            0 <= i < inputs.len() ==> concat_chunks(#[trigger] outputs[i]) + buffers[i + 1] == buffers[i]
                + inputs[i],
        forall|i: int, k: int|
            0 <= i < inputs.len() && 0 <= k < outputs[i].len() ==> #[trigger] outputs[i][k].len()
                == CHUNK_SIZE,
    ensures
        concat_chunks(all_chunks(outputs.take(m))) + buffers[m] == concat_chunks(inputs.take(m)),
        forall|k: int|
            0 <= k < all_chunks(outputs.take(m)).len() ==> #[trigger] all_chunks(outputs.take(m))[k].len()
                == CHUNK_SIZE,
    decreases m,
{
    if m == 0 {
        assert(outputs.take(0) =~= Seq::<Seq<Seq<S>>>::empty());
        assert(inputs.take(0) =~= Seq::<Seq<S>>::empty());
        assert(concat_chunks(all_chunks(outputs.take(0))) + buffers[0] =~= Seq::<S>::empty());
    } else {
        lemma_chunk_run_prefix(inputs, outputs, buffers, m - 1);
        let prev = all_chunks(outputs.take(m - 1));
        assert(outputs.take(m).drop_last() =~= outputs.take(m - 1));
        assert(outputs.take(m).last() == outputs[m - 1]);
        assert(inputs.take(m).drop_last() =~= inputs.take(m - 1));
        assert(inputs.take(m).last() == inputs[m - 1]);
        assert(all_chunks(outputs.take(m)) == prev + outputs[m - 1]);
        lemma_concat_add(prev, outputs[m - 1]);
        let p = concat_chunks(prev);
        let o = concat_chunks(outputs[m - 1]);
        assert(concat_chunks(outputs[m - 1]) + buffers[m] == buffers[m - 1] + inputs[m - 1]);
        assert(p + o + buffers[m] =~= p + (o + buffers[m]));
        assert(p + (buffers[m - 1] + inputs[m - 1]) =~= (p + buffers[m - 1]) + inputs[m - 1]);
        assert forall|k: int|
            0 <= k < all_chunks(outputs.take(m)).len() implies #[trigger] all_chunks(outputs.take(m))[k].len()
                == CHUNK_SIZE by {
            if k >= prev.len() {
                assert(all_chunks(outputs.take(m))[k] == outputs[m - 1][k - prev.len()]);
            } else {
                assert(all_chunks(outputs.take(m))[k] == prev[k]);
            }
        }
    }
}

} // verus!
