//! A buffer of fixed size that is filled from the front.

use vstd::prelude::*;

verus! {

/// A buffer of fixed size and the position up to which it is filled.
pub struct FixedBuffer<T> {
    inner: Vec<T>,
    position: usize,
}

impl<T: Copy> FixedBuffer<T> {
    /// All of the buffer, filled or not.
    pub closed spec fn contents(&self) -> Seq<T> {
        self.inner@
    }

    /// The position up to which the buffer is filled.
    pub closed spec fn filled(&self) -> nat {
        self.position as nat
    }

    /// Whether the position lies within the buffer.
    pub open spec fn wf(&self) -> bool {
        self.filled() <= self.contents().len()
    }

    /// A buffer of `n` copies of a value, filled up to nothing.
    pub fn new(default_val: T, n: usize) -> (buffer: Self)
        ensures
            buffer.wf(),
            buffer.filled() == 0,
            buffer.contents() == Seq::new(n as nat, |i: int| default_val),
    {
        let mut inner: Vec<T> = Vec::new();
        let mut i: usize = 0;
        while i < n
            invariant
                i <= n,
                inner@ == Seq::new(i as nat, |k: int| default_val),
            decreases n - i,
        {
            inner.push(default_val);
            assert(inner@ =~= Seq::new((i + 1) as nat, |k: int| default_val));
            i += 1;
        }
        FixedBuffer { inner, position: 0 }
    }

    /// Copies a slice into the buffer behind what is filled. The slice must
    /// fit into what remains.
    pub fn append_from_slice(&mut self, src: &[T])
        requires
            old(self).wf(),
            old(self).filled() + src@.len() <= old(self).contents().len(),
        ensures
            final(self).wf(),
            final(self).filled() == old(self).filled() + src@.len(),
            final(self).contents() == old(self).contents().subrange(0, old(self).filled() as int)
                + src@ + old(self).contents().subrange(
                final(self).filled() as int,
                old(self).contents().len() as int,
            ),
    {
        let len = src.len();
        let start = self.position;
        let total = self.inner.len();
        let mut i: usize = 0;
        while i < len
            invariant
                i <= len,
                start + len <= total,
                len == src@.len(),
                start == old(self).position,
                self.position == start,
                start + len <= self.inner@.len(),
                self.inner@.len() == old(self).inner@.len(),
                forall|k: int| 0 <= k < start ==> self.inner@[k] == old(self).inner@[k],
                forall|k: int| start <= k < start + i ==> self.inner@[k] == src@[k - start],
                forall|k: int| start + i <= k < self.inner@.len() ==> self.inner@[k]
                    == old(self).inner@[k],
            decreases len - i,
        {
            self.inner[start + i] = src[i];
            i += 1;
        }
        self.position = start + len;
        assert(self.inner@ =~= old(self).inner@.subrange(0, start as int) + src@ + old(
            self,
        ).inner@.subrange(start + len, old(self).inner@.len() as int));
    }

    /// Counts the buffer as filled up to nothing. What it holds stays.
    pub fn reset(&mut self)
        ensures
            final(self).wf(),
            final(self).filled() == 0,
            final(self).contents() == old(self).contents(),
    {
        self.position = 0;
    }

    /// The position up to which the buffer is filled.
    pub fn position(&self) -> (p: usize)
        ensures
            p == self.filled(),
    {
        self.position
    }

    /// How much room is left behind what is filled.
    pub fn remaining(&self) -> (n: usize)
        requires
            self.wf(),
        ensures
            n == self.contents().len() - self.filled(),
    {
        self.inner.len() - self.position
    }

    /// All of the buffer, filled or not.
    pub fn inner(&self) -> (all: &[T])
        ensures
            all@ == self.contents(),
    {
        self.inner.as_slice()
    }
}

} // verus!
