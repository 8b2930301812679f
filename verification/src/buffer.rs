//! One stream of per-vertex data, as handed to the mesh builder.

use vstd::prelude::*;

verus! {

/// A flat run of elements together with the number of elements that make up
/// one vertex's share of it.
pub struct Buffer<T> {
    pub buffer: Vec<T>,
    pub size: usize,
}

impl<T> Buffer<T> {
    /// How many whole vertices the stream describes: its length divided by
    /// its width, rounded down.
    pub open spec fn vertex_count(&self) -> nat
        recommends
            self.size > 0,
    {
        ((self.buffer@.len() as int) / (self.size as int)) as nat
    }

    /// The share of vertex `v`: `size` consecutive elements.
    pub open spec fn group(&self, v: int) -> Seq<T>
        recommends
            self.size > 0,
            0 <= v < self.vertex_count(),
    {
        self.buffer@.subrange(v * self.size, (v + 1) * self.size)
    }

    /// A stream over `buffer` in which every vertex takes `size` elements.
    pub fn new(buffer: Vec<T>, size: usize) -> (b: Self)
        ensures
            b.buffer == buffer,
            b.size == size,
    {
        Buffer { buffer, size }
    }
}

} // verus!
