//! Byte-level model of one shared allocation's contents and of the
//! cross-queue visibility rule: the graphics queue and the engine run
//! independently against the same bytes, so after a graphics-side write the
//! caller must drain the graphics queue before the engine may observe the
//! memory. Engine operations block to completion, so no wait is owed after
//! them.

use vstd::prelude::*;

verus! {

/// What the shared bytes look like after writing `data` at `off`.
pub open spec fn written(mem: Seq<u8>, off: int, data: Seq<u8>) -> Seq<u8> {
    mem.update_subrange_with(off, data)
}

/// The `len` bytes of the shared memory starting at `off`.
pub open spec fn read_back(mem: Seq<u8>, off: int, len: int) -> Seq<u8> {
    mem.subrange(off, off + len)
}

/// Writing a pattern and then reading the same range yields exactly that
/// pattern: the two views are backed by the identical bytes, so a
/// graphics-side write, once drained, is what the engine side reads.
pub proof fn lemma_round_trip(mem: Seq<u8>, off: int, data: Seq<u8>)
    requires
        0 <= off,
        off + data.len() <= mem.len(),
    ensures
        read_back(written(mem, off, data), off, data.len() as int) == data,
{
    let w = written(mem, off, data);
    assert(read_back(w, off, data.len() as int) =~= data);
}

/// A write outside a range leaves that range's bytes untouched: disjoint
/// ranges of the shared memory are independent.
pub proof fn lemma_disjoint_write_preserved(mem: Seq<u8>, off: int, data: Seq<u8>, r_off: int, r_len: int)
    requires
        0 <= off,
        off + data.len() <= mem.len(),
        0 <= r_off,
        r_off + r_len <= mem.len(),
        0 <= r_len,
        r_off + r_len <= off || off + data.len() <= r_off,
    ensures
        read_back(written(mem, off, data), r_off, r_len) == read_back(mem, r_off, r_len),
{
    assert(read_back(written(mem, off, data), r_off, r_len) =~= read_back(mem, r_off, r_len));
}

/// The modeled contents of one shared allocation, together with whether
/// the graphics queue has been drained since the last graphics-side
/// submission. A freshly allocated buffer has a pending zero-fill
/// submission, so it starts undrained.
pub struct SharedMemory {
    bytes: Vec<u8>,
    graphics_synced: bool,
}

impl SharedMemory {
    /// The bytes both views address.
    pub closed spec fn contents(&self) -> Seq<u8> {
        self.bytes@
    }

    /// True when no graphics-side submission is pending, so the engine
    /// side may observe the bytes.
    pub closed spec fn synced(&self) -> bool {
        self.graphics_synced
    }

    /// A fresh allocation: `len` zero bytes with the zero-fill submission
    /// still in flight.
    pub fn new_zeroed(len: usize) -> (m: SharedMemory)
        ensures
            m.contents() == Seq::new(len as nat, |i: int| 0u8),
            !m.synced(),
    {
        let bytes: Vec<u8> = vec![0u8; len];
        proof {
            assert(bytes@ =~= Seq::new(len as nat, |i: int| 0u8));
        }
        SharedMemory { bytes, graphics_synced: false }
    }

    pub fn len(&self) -> (n: usize)
        ensures
            n == self.contents().len(),
    {
        self.bytes.len()
    }

    pub fn is_synced(&self) -> (s: bool)
        ensures
            s == self.synced(),
    {
        self.graphics_synced
    }

    /// A graphics-side write of `data` at `offset`. It is submitted to the
    /// graphics queue, so the memory becomes undrained until the next
    /// drain.
    pub fn graphics_write(&mut self, offset: usize, data: &Vec<u8>)
        requires
            offset + data@.len() <= old(self).contents().len(),
        ensures
            final(self).contents() == written(old(self).contents(), offset as int, data@),
            !final(self).synced(),
    {
        let n = self.bytes.len();
        let mut i: usize = 0;
        while i < data.len()
            invariant
                offset + data@.len() <= n,
                n == self.bytes@.len(),
                0 <= i <= data@.len(),
                self.bytes@.len() == old(self).contents().len(),
                forall|j: int| 0 <= j < i ==> self.bytes@[offset + j] == data@[j],
                forall|j: int| 0 <= j < self.bytes@.len() && !(offset <= j < offset + i)
                    ==> self.bytes@[j] == old(self).contents()[j],
            decreases data@.len() - i,
        {
            let b = data[i];
            self.bytes[offset + i] = b;
            i += 1;
        }
        self.graphics_synced = false;
        proof {
            assert(self.bytes@ =~= written(old(self).contents(), offset as int, data@));
        }
    }

    /// Drain the graphics queue: wait until every prior graphics-side
    /// submission has retired. Afterwards the engine side may read.
    pub fn drain_graphics(&mut self)
        ensures
            final(self).contents() == old(self).contents(),
            final(self).synced(),
    {
        self.graphics_synced = true;
    }

    /// An engine-side read of `len` bytes at `offset`. Demands that the
    /// graphics queue was drained first; the engine call itself blocks to
    /// completion, so the memory stays drained.
    pub fn compute_read(&self, offset: usize, len: usize) -> (r: Vec<u8>)
        requires
            self.synced(),
            offset + len <= self.contents().len(),
        ensures
            r@ == read_back(self.contents(), offset as int, len as int),
    {
        let mut r: Vec<u8> = Vec::new();
        let n = self.bytes.len();
        let mut i: usize = 0;
        while i < len
            invariant
                offset + len <= n,
                n == self.bytes@.len(),
                0 <= i <= len,
                r@.len() == i,
                forall|j: int| 0 <= j < i ==> r@[j] == self.bytes@[offset + j],
            decreases len - i,
        {
            let b = self.bytes[offset + i];
            r.push(b);
            i += 1;
        }
        proof {
            assert(r@ =~= read_back(self.contents(), offset as int, len as int));
        }
        r
    }

    /// An engine-side write of `data` at `offset`. Only allowed after the
    /// graphics queue was drained, and blocks to completion, so the memory
    /// stays drained.
    pub fn compute_write(&mut self, offset: usize, data: &Vec<u8>)
        requires
            old(self).synced(),
            offset + data@.len() <= old(self).contents().len(),
        ensures
            final(self).contents() == written(old(self).contents(), offset as int, data@),
            final(self).synced(),
    {
        let n = self.bytes.len();
        let mut i: usize = 0;
        while i < data.len()
            invariant
                offset + data@.len() <= n,
                n == self.bytes@.len(),
                0 <= i <= data@.len(),
                self.bytes@.len() == old(self).contents().len(),
                self.graphics_synced == old(self).synced(),
                forall|j: int| 0 <= j < i ==> self.bytes@[offset + j] == data@[j],
                forall|j: int| 0 <= j < self.bytes@.len() && !(offset <= j < offset + i)
                    ==> self.bytes@[j] == old(self).contents()[j],
            decreases data@.len() - i,
        {
            let b = data[i];
            self.bytes[offset + i] = b;
            i += 1;
        }
        proof {
            assert(self.bytes@ =~= written(old(self).contents(), offset as int, data@));
        }
    }
}

} // verus!
