//! Zero-initialised byte memory of a fixed size whose backing storage grows
//! only as far as the highest byte written, so that a large address space
//! costs nothing until it is used.

use vstd::prelude::*;

verus! {

/// `size` bytes, all zero but those written; `bytes` backs a prefix of them.
pub struct Memory {
    bytes: Vec<u8>,
    size: usize,
}

impl View for Memory {
    type V = Seq<u8>;

    closed spec fn view(&self) -> Seq<u8> {
        Seq::new(
            self.size as nat,
            |i: int|
                if i < self.bytes@.len() {
                    self.bytes@[i]
                } else {
                    0u8
                },
        )
    }
}

impl Memory {
    /// `size` zero bytes.
    pub fn new(size: usize) -> (m: Memory)
        ensures
            m@.len() == size,
            forall|i: int| 0 <= i < size ==> m@[i] == 0,
    {
        Memory { bytes: Vec::new(), size }
    }

    /// The number of bytes fits in a `usize`.
    pub proof fn lemma_len_fits(&self)
        ensures
            self@.len() <= usize::MAX,
    {
    }

    /// The number of bytes.
    pub fn len(&self) -> (n: usize)
        ensures
            n == self@.len(),
    {
        self.size
    }

    /// The byte at `i`.
    pub fn get(&self, i: usize) -> (b: u8)
        requires
            i < self@.len(),
        ensures
            b == self@[i as int],
    {
        if i < self.bytes.len() {
            self.bytes[i]
        } else {
            0
        }
    }

    /// Writes `b` at `i`.
    pub fn set(&mut self, i: usize, b: u8)
        requires
            i < old(self)@.len(),
        ensures
            final(self)@ == old(self)@.update(i as int, b),
    {
        if i >= self.bytes.len() {
            self.bytes.resize(i + 1, 0);
        }
        self.bytes.set(i, b);
        assert(self@ =~= old(self)@.update(i as int, b));
    }

    /// The `n` bytes from `start` on, as a vector.
    pub fn range(&self, start: usize, n: usize) -> (r: Vec<u8>)
        requires
            start + n <= self@.len(),
        ensures
            r@ == self@.subrange(start as int, start + n),
    {
        let mut r: Vec<u8> = Vec::new();
        let mut k: usize = 0;
        while k < n
            invariant
                k <= n,
                start + n <= self@.len(),
                r@ == self@.subrange(start as int, start + k),
            decreases n - k,
        {
            r.push(self.get(start + k));
            k = k + 1;
            assert(r@ =~= self@.subrange(start as int, start + k));
        }
        r
    }
}

} // verus!
