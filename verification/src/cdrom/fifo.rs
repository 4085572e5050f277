use vstd::prelude::*;

verus! {

/// The bytes of a sector.
pub const BYTES_PER_SECTOR: usize = 2352;

/// The data FIFO through which the CPU reads a sector: `len` bytes, of
/// which the first `idx` have been read.
#[derive(Debug, Clone)]
pub struct DataFifo {
    pub values: Vec<u8>,
    pub idx: usize,
    pub len: usize,
}

/// The byte a read of the FIFO gives: 0 when it holds nothing, the last
/// byte again once every byte has been read, else the next byte.
pub open spec fn pop_value(values: Seq<u8>, idx: int, len: int) -> u8 {
    if len == 0 {
        0
    } else if idx == len {
        values[len - 1]
    } else {
        values[idx]
    }
}

/// The read position after a read of the FIFO.
pub open spec fn idx_after_pop(idx: int, len: int) -> int {
    if len == 0 || idx == len {
        idx
    } else {
        idx + 1
    }
}

impl DataFifo {
    /// The buffer is a sector long and holds `len` bytes, `idx` of them
    /// read.
    pub open spec fn wf(&self) -> bool {
        &&& self.values@.len() == BYTES_PER_SECTOR
        &&& self.idx <= self.len <= BYTES_PER_SECTOR
    }

    /// An empty FIFO.
    pub fn new() -> (r: DataFifo)
        ensures
            r.wf(),
            r.idx == 0,
            r.len == 0,
            r.values@ == Seq::new(BYTES_PER_SECTOR as nat, |i: int| 0u8),
    {
        let values = vec![0u8; BYTES_PER_SECTOR];
        assert(values@ =~= Seq::new(BYTES_PER_SECTOR as nat, |i: int| 0u8));
        DataFifo { values, idx: 0, len: 0 }
    }

    /// Fills the FIFO with `slice`, to be read from its first byte.
    pub fn copy_from_slice(&mut self, slice: &[u8])
        requires
            old(self).wf(),
            slice@.len() <= BYTES_PER_SECTOR,
        ensures
            final(self).wf(),
            final(self).values@ == slice@ + old(self).values@.subrange(slice@.len() as int, BYTES_PER_SECTOR as int),
            final(self).idx == 0,
            final(self).len == slice@.len(),
    {
        let n = slice.len();
        let mut i: usize = 0;
        while i < n
            invariant
                n == slice@.len(),
                n <= BYTES_PER_SECTOR,
                i <= n,
                self.values@.len() == BYTES_PER_SECTOR,
                forall|k: int| 0 <= k < i ==> self.values@[k] == slice@[k],
                forall|k: int| n <= k < BYTES_PER_SECTOR ==> self.values@[k] == old(self).values@[k],
            decreases n - i,
        {
            self.values.set(i, slice[i]);
            i = i + 1;
        }
        self.idx = 0;
        self.len = n;
        assert(self.values@ =~= slice@ + old(self).values@.subrange(n as int, BYTES_PER_SECTOR as int));
    }

    /// Reads the next byte. An empty FIFO gives 0, and one whose bytes
    /// have all been read gives its last byte again.
    pub fn pop(&mut self) -> (r: u8)
        requires
            old(self).wf(),
        ensures
            final(self).wf(),
            r == pop_value(old(self).values@, old(self).idx as int, old(self).len as int),
            final(self).idx == idx_after_pop(old(self).idx as int, old(self).len as int),
            final(self).values@ == old(self).values@,
            final(self).len == old(self).len,
    {
        if self.len == 0 {
            return 0;
        } else if self.idx == self.len {
            return self.values[self.len - 1];
        }
        let value = self.values[self.idx];
        self.idx = self.idx + 1;
        value
    }

    /// Whether every byte has been read.
    pub fn fully_consumed(&self) -> (r: bool)
        ensures
            r == (self.idx == self.len),
    {
        self.idx == self.len
    }
}

/// The read position after `k` reads from position `idx` of a FIFO that
/// holds `len` bytes.
pub open spec fn idx_after_pops(idx: int, len: int, k: nat) -> int
    decreases k,
{
    if k == 0 {
        idx
    } else {
        idx_after_pop(idx_after_pops(idx, len, (k - 1) as nat), len)
    }
}

/// After a fill with `len` bytes, `k` reads leave the read position at the
/// smaller of `k` and `len`: the FIFO is fully consumed exactly when at
/// least `len` reads were made.
pub proof fn lemma_consumed_after_reads(len: int, k: nat)
    requires
        0 <= len,
    ensures
        idx_after_pops(0, len, k) == (if k < len { k as int } else { len }),
        (idx_after_pops(0, len, k) == len) <==> k >= len,
    decreases k,
{
    if k > 0 {
        lemma_consumed_after_reads(len, (k - 1) as nat);
    }
}

/// A FIFO filled with `slice` gives back its bytes in order: the `k`-th
/// read after the fill returns `slice[k]`, and once all are read, the last
/// byte again.
pub proof fn lemma_fifo_reads_back(values: Seq<u8>, slice: Seq<u8>, k: int)
    requires
        values.len() == BYTES_PER_SECTOR,
        slice.len() <= BYTES_PER_SECTOR,
        0 <= k,
    ensures
        ({
            let filled = slice + values.subrange(slice.len() as int, BYTES_PER_SECTOR as int);
            let idx = if k < slice.len() { k } else { slice.len() as int };
            &&& k < slice.len() ==> pop_value(filled, idx, slice.len() as int) == slice[k]
                && idx_after_pop(idx, slice.len() as int) == k + 1
            &&& k >= slice.len() && slice.len() > 0 ==> pop_value(filled, idx, slice.len() as int) == slice.last()
            &&& slice.len() == 0 ==> pop_value(filled, idx, 0) == 0
        }),
{
}

} // verus!
