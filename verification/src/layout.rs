//! Interleaving: several streams of per-vertex data packed into one.

use vstd::prelude::*;
use crate::buffer::Buffer;

verus! {

/// The width of each stream, in list order.
pub open spec fn widths<T>(buffers: Seq<Buffer<T>>) -> Seq<usize> {
    buffers.map_values(|b: Buffer<T>| b.size)
}

/// The sum of the given widths.
pub open spec fn total_width(widths: Seq<usize>) -> nat
    decreases widths.len(),
{
    if widths.len() == 0 {
        0
    } else {
        total_width(widths.drop_last()) + widths.last() as nat
    }
}

/// Whether every stream has a width of at least one.
pub open spec fn widths_positive<T>(buffers: Seq<Buffer<T>>) -> bool {
    forall|k: int| 0 <= k < buffers.len() ==> (#[trigger] buffers[k]).size > 0
}

/// Whether every stream holds at least `count` whole vertices.
pub open spec fn covers<T>(buffers: Seq<Buffer<T>>, count: nat) -> bool {
    forall|k: int| 0 <= k < buffers.len() ==> count <= (#[trigger] buffers[k]).vertex_count()
}

/// All that the streams say of vertex `v`: the share of each stream, in list
/// order.
pub open spec fn vertex_slice<T>(buffers: Seq<Buffer<T>>, v: int) -> Seq<T>
    decreases buffers.len(),
{
    if buffers.len() == 0 {
        Seq::empty()
    } else {
        vertex_slice(buffers.drop_last(), v) + buffers.last().group(v)
    }
}

/// The interleaved stream of the first `count` vertices: vertex after vertex,
/// and within a vertex stream after stream.
pub open spec fn interleaved<T>(buffers: Seq<Buffer<T>>, count: nat) -> Seq<T>
    decreases count,
{
    if count == 0 {
        Seq::empty()
    } else {
        interleaved(buffers, (count - 1) as nat) + vertex_slice(buffers, count - 1)
    }
}

/// The sum of the first `k` widths is at most the sum of all.
pub proof fn lemma_total_width_prefix(widths: Seq<usize>, k: int)
    requires
        0 <= k <= widths.len(),
    ensures
        total_width(widths.take(k)) <= total_width(widths),
    decreases widths.len(),
{
    if k == widths.len() {
        assert(widths.take(k) =~= widths);
    } else {
        lemma_total_width_prefix(widths.drop_last(), k);
        assert(widths.drop_last().take(k) =~= widths.take(k));
    }
}

/// The sum of the first `k + 1` widths is the sum of the first `k` and the
/// width at `k`.
pub proof fn lemma_total_width_step(widths: Seq<usize>, k: int)
    requires
        0 <= k < widths.len(),
    ensures
        total_width(widths.take(k + 1)) == total_width(widths.take(k)) + widths[k],
{
    assert(widths.take(k + 1).drop_last() =~= widths.take(k));
}

/// A vertex below the vertex count of a stream has its whole share inside
/// the stream.
pub proof fn lemma_group_in_bounds(len: int, size: int, v: int)
    requires
        len >= 0,
        size > 0,
        0 <= v < len / size,
    ensures
        0 <= v * size,
        (v + 1) * size <= len,
        (v + 1) * size == v * size + size,
{
    assert((v + 1) * size <= (len / size) * size) by (nonlinear_arith)
        requires
            v + 1 <= len / size,
            size > 0,
    ;
    assert((len / size) * size <= len) by (nonlinear_arith)
        requires
            size > 0,
            len >= 0,
    ;
    assert(0 <= v * size) by (nonlinear_arith)
        requires
            0 <= v,
            size > 0,
    ;
    assert((v + 1) * size == v * size + size) by (nonlinear_arith);
}

/// The share of a vertex that a stream covers is as long as the stream is
/// wide, and holds the stream's elements from the vertex's place on.
pub proof fn lemma_group<T>(buffer: Buffer<T>, v: int)
    requires
        buffer.size > 0,
        0 <= v < buffer.vertex_count(),
    ensures
        buffer.group(v).len() == buffer.size,
        forall|j: int|
            0 <= j < buffer.size ==> #[trigger] buffer.group(v)[j] == buffer.buffer@[v * buffer.size
                + j],
        (v + 1) * buffer.size <= buffer.buffer@.len(),
{
    lemma_group_in_bounds(buffer.buffer@.len() as int, buffer.size as int, v);
}

/// All that the streams say of one vertex is as long as the streams are
/// wide in sum.
pub proof fn lemma_vertex_slice_len<T>(buffers: Seq<Buffer<T>>, v: int)
    requires
        widths_positive(buffers),
        0 <= v,
        covers(buffers, (v + 1) as nat),
    ensures
        vertex_slice(buffers, v).len() == total_width(widths(buffers)),
    decreases buffers.len(),
{
    if buffers.len() > 0 {
        let front = buffers.drop_last();
        assert(widths(front) =~= widths(buffers).drop_last());
        assert forall|k: int| 0 <= k < front.len() implies (#[trigger] front[k]).size > 0 && v + 1
            <= front[k].vertex_count() by {
            assert(front[k] == buffers[k]);
        }
        lemma_vertex_slice_len(front, v);
        lemma_group(buffers.last(), v);
    }
}

/// Within one vertex, the share of stream `k` starts where the widths of the
/// streams before it end.
pub proof fn lemma_vertex_slice_index<T>(buffers: Seq<Buffer<T>>, v: int, k: int, j: int)
    requires
        widths_positive(buffers),
        0 <= v,
        covers(buffers, (v + 1) as nat),
        0 <= k < buffers.len(),
        0 <= j < buffers[k].size,
    ensures
        total_width(widths(buffers).take(k)) + j < vertex_slice(buffers, v).len(),
        vertex_slice(buffers, v)[total_width(widths(buffers).take(k)) + j] == buffers[k].buffer@[v
            * buffers[k].size + j],
    decreases buffers.len(),
{
    let front = buffers.drop_last();
    let last = buffers.len() - 1;
    assert(widths(front) =~= widths(buffers).drop_last());
    assert forall|i: int| 0 <= i < front.len() implies (#[trigger] front[i]).size > 0 && v + 1
        <= front[i].vertex_count() by {
        assert(front[i] == buffers[i]);
    }
    lemma_vertex_slice_len(front, v);
    lemma_vertex_slice_len(buffers, v);
    lemma_group(buffers.last(), v);
    if k == last {
        assert(widths(buffers).take(k) =~= widths(front));
    } else {
        assert(front[k] == buffers[k]);
        lemma_vertex_slice_index(front, v, k, j);
        assert(widths(front).take(k) =~= widths(buffers).take(k));
    }
}

/// The interleaved stream of `count` vertices holds, for each of them, as
/// many scalars as the streams are wide in sum.
pub proof fn lemma_interleaved_len<T>(buffers: Seq<Buffer<T>>, count: nat)
    requires
        widths_positive(buffers),
        covers(buffers, count),
    ensures
        interleaved(buffers, count).len() == count * total_width(widths(buffers)),
    decreases count,
{
    let total = total_width(widths(buffers));
    if count > 0 {
        lemma_interleaved_len(buffers, (count - 1) as nat);
        lemma_vertex_slice_len(buffers, count - 1);
        assert((count - 1) * total + total == count * total) by (nonlinear_arith);
    } else {
        assert(0 * total == 0) by (nonlinear_arith);
    }
}

/// Where an element lands: scalar `j` of vertex `v` in stream `k` stands in
/// the interleaved stream at vertex `v`'s place, behind the shares of the
/// streams before `k`.
pub proof fn lemma_interleaved_index<T>(
    buffers: Seq<Buffer<T>>,
    count: nat,
    v: int,
    k: int,
    j: int,
)
    requires
        widths_positive(buffers),
        covers(buffers, count),
        0 <= v < count,
        0 <= k < buffers.len(),
        0 <= j < buffers[k].size,
    ensures
        0 <= v * total_width(widths(buffers)) + total_width(widths(buffers).take(k)) + j
            < interleaved(buffers, count).len(),
        interleaved(buffers, count)[v * total_width(widths(buffers)) + total_width(
            widths(buffers).take(k),
        ) + j] == buffers[k].buffer@[v * buffers[k].size + j],
    decreases count,
{
    let total = total_width(widths(buffers));
    let offset = total_width(widths(buffers).take(k));
    let front = interleaved(buffers, (count - 1) as nat);
    lemma_interleaved_len(buffers, (count - 1) as nat);
    lemma_interleaved_len(buffers, count);
    lemma_vertex_slice_len(buffers, count - 1);
    lemma_vertex_slice_index(buffers, v, k, j);
    lemma_vertex_slice_len(buffers, v);
    assert(0 <= v * total) by (nonlinear_arith)
        requires
            0 <= v,
            0 <= total,
    ;
    if v == count - 1 {
        assert(front.len() == v * total);
    } else {
        assert((v + 1) * total <= (count - 1) * total) by (nonlinear_arith)
            requires
                v + 1 <= count - 1,
                0 <= total,
        ;
        assert((v + 1) * total == v * total + total) by (nonlinear_arith);
        lemma_interleaved_index(buffers, (count - 1) as nat, v, k, j);
    }
}

impl<T: Copy> Buffer<T> {
    /// How many whole vertices the stream describes.
    pub fn count(&self) -> (n: usize)
        requires
            self.size > 0,
        ensures
            n == self.vertex_count(),
    {
        self.buffer.len() / self.size
    }

    /// Appends the share of vertex `v` to `out`.
    pub fn push_group(&self, out: &mut Vec<T>, v: usize)
        requires
            self.size > 0,
            v < self.vertex_count(),
        ensures
            final(out)@ == old(out)@ + self.group(v as int),
    {
        let len: usize = self.buffer.len();
        proof {
            lemma_group_in_bounds(len as int, self.size as int, v as int);
        }
        let start: usize = v * self.size;
        let mut j: usize = 0;
        while j < self.size
            invariant
                self.size > 0,
                j <= self.size,
                start == v * self.size,
                len == self.buffer@.len(),
                start + self.size <= len,
                out@ == old(out)@ + self.buffer@.subrange(start as int, start + j),
            decreases self.size - j,
        {
            out.push(self.buffer[start + j]);
            proof {
                assert(self.buffer@.subrange(start as int, start + j + 1)
                    =~= self.buffer@.subrange(start as int, start + j).push(
                    self.buffer@[start + j],
                ));
                assert(out@ =~= old(out)@ + self.buffer@.subrange(start as int, start + j + 1));
            }
            j = j + 1;
        }
        proof {
            assert((v + 1) * self.size == start + self.size);
        }
    }
}

/// Appends to `out` all that the streams say of vertex `v`.
pub fn push_vertex<T: Copy>(buffers: &Vec<Buffer<T>>, out: &mut Vec<T>, v: usize)
    requires
        widths_positive(buffers@),
        covers(buffers@, (v + 1) as nat),
    ensures
        final(out)@ == old(out)@ + vertex_slice(buffers@, v as int),
{
    let mut k: usize = 0;
    proof {
        assert(buffers@.take(0) =~= Seq::<Buffer<T>>::empty());
        assert(out@ =~= old(out)@ + vertex_slice(buffers@.take(0), v as int));
    }
    while k < buffers.len()
        invariant
            k <= buffers.len(),
            widths_positive(buffers@),
            covers(buffers@, (v + 1) as nat),
            out@ == old(out)@ + vertex_slice(buffers@.take(k as int), v as int),
        decreases buffers.len() - k,
    {
        let ghost before = out@;
        buffers[k].push_group(out, v);
        proof {
            let next = buffers@.take(k + 1);
            assert(next.drop_last() =~= buffers@.take(k as int));
            assert(next.last() == buffers@[k as int]);
            assert(out@ =~= old(out)@ + vertex_slice(next, v as int));
        }
        k = k + 1;
    }
    proof {
        assert(buffers@.take(buffers@.len() as int) =~= buffers@);
    }
}

/// The interleaved stream of the first `count` vertices of the given
/// streams.
pub fn interleave<T: Copy>(buffers: &Vec<Buffer<T>>, count: usize) -> (out: Vec<T>)
    requires
        widths_positive(buffers@),
        covers(buffers@, count as nat),
    ensures
        out@ == interleaved(buffers@, count as nat),
{
    let mut out: Vec<T> = Vec::new();
    let mut v: usize = 0;
    while v < count
        invariant
            v <= count,
            widths_positive(buffers@),
            covers(buffers@, count as nat),
            out@ == interleaved(buffers@, v as nat),
        decreases count - v,
    {
        push_vertex(buffers, &mut out, v);
        v = v + 1;
    }
    out
}

} // verus!
