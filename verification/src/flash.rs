//! An in-memory model of the node's byte-addressable, erase-before-write
//! non-volatile memory.
//!
//! The storage technology erases whole granules to all-ones and lets a
//! write only clear bits inside an already erased region: a write lands
//! as the bitwise AND of the old contents and the new bytes. Writes move
//! in 4-byte words; erasure moves in 4096-byte granules. These are hard
//! constraints of the device, not design choices, and the configuration
//! store is built on top of them.

use vstd::prelude::*;

verus! {

/// Size in bytes of the smallest erasable block.
pub const ERASE_GRANULE: usize = 4096;

/// Alignment in bytes that writes must respect.
pub const WRITE_ALIGN: usize = 4;

/// Value of an erased byte.
pub const ERASED_BYTE: u8 = 0xff;

/// How a storage operation can fail.
#[derive(Clone, Copy, Debug, PartialEq, Eq, Structural)]
pub enum FlashError {
    /// The requested range reaches beyond the device.
    OutOfBounds,
    /// The requested range breaks the granule or word alignment the
    /// operation demands.
    NotAligned,
}

/// The non-volatile memory: a flat run of bytes with NOR-flash
/// write-and-erase semantics.
pub struct Flash {
    mem: Vec<u8>,
}

impl View for Flash {
    type V = Seq<u8>;

    closed spec fn view(&self) -> Seq<u8> {
        self.mem@
    }
}

impl Flash {
    /// A fresh device of `size` bytes, fully erased.
    pub fn new(size: usize) -> (f: Flash)
        ensures
            f@.len() == size,
            forall|i: int| 0 <= i < size ==> f@[i] == ERASED_BYTE,
    {
        let mut mem: Vec<u8> = Vec::new();
        while mem.len() < size
            invariant
                mem@.len() <= size,
                forall|i: int| 0 <= i < mem@.len() ==> mem@[i] == ERASED_BYTE,
            decreases size - mem@.len(),
        {
            mem.push(ERASED_BYTE);
        }
        Flash { mem }
    }

    /// Size of the device in bytes.
    pub fn len(&self) -> (n: usize)
        ensures
            n == self@.len(),
    {
        self.mem.len()
    }

    /// Erase the bytes in `[from, to)` to all-ones. Both bounds must sit
    /// on a granule boundary and inside the device; a refused erase
    /// leaves the contents untouched.
    pub fn try_erase(&mut self, from: usize, to: usize) -> (r: Result<(), FlashError>)
        ensures
            r is Ok <==> (from % ERASE_GRANULE == 0 && to % ERASE_GRANULE == 0 && from <= to
                <= old(self)@.len()),
            !(from % ERASE_GRANULE == 0 && to % ERASE_GRANULE == 0) ==> r == Err::<(), FlashError>(
                FlashError::NotAligned,
            ),
            r is Err ==> *final(self) == *old(self),
            r is Ok ==> final(self)@.len() == old(self)@.len(),
            r is Ok ==> forall|i: int| 0 <= i < from ==> final(self)@[i] == old(self)@[i],
            r is Ok ==> forall|i: int| from <= i < to ==> final(self)@[i] == ERASED_BYTE,
            r is Ok ==> forall|i: int|
                to <= i < old(self)@.len() ==> final(self)@[i] == old(self)@[i],
    {
        if from % ERASE_GRANULE != 0 || to % ERASE_GRANULE != 0 {
            return Err(FlashError::NotAligned);
        }
        if from > to || to > self.mem.len() {
            return Err(FlashError::OutOfBounds);
        }
        let mut i = from;
        while i < to
            invariant
                from <= i <= to <= self.mem@.len(),
                self.mem@.len() == old(self)@.len(),
                forall|j: int| 0 <= j < from ==> self.mem@[j] == old(self)@[j],
                forall|j: int| from <= j < i ==> self.mem@[j] == ERASED_BYTE,
                forall|j: int| i <= j < self.mem@.len() ==> self.mem@[j] == old(self)@[j],
            decreases to - i,
        {
            self.mem.set(i, ERASED_BYTE);
            i = i + 1;
        }
        Ok(())
    }

    /// Write `data` starting at `offset`. The range must be word-aligned
    /// and inside the device. Each written byte lands as the AND of the
    /// old byte and the new one, so only a previously erased region takes
    /// the data verbatim. A refused write leaves the contents untouched.
    pub fn try_write(&mut self, offset: usize, data: &[u8]) -> (r: Result<(), FlashError>)
        ensures
            r is Ok <==> (offset % WRITE_ALIGN == 0 && data@.len() % (WRITE_ALIGN as nat) == 0 && offset
                + data@.len() <= old(self)@.len()),
            !(offset % WRITE_ALIGN == 0 && data@.len() % (WRITE_ALIGN as nat) == 0) ==> r == Err::<
                (),
                FlashError,
            >(FlashError::NotAligned),
            r is Err ==> *final(self) == *old(self),
            r is Ok ==> final(self)@.len() == old(self)@.len(),
            r is Ok ==> forall|i: int| 0 <= i < offset ==> final(self)@[i] == old(self)@[i],
            r is Ok ==> forall|i: int|
                offset <= i < offset + data@.len() ==> final(self)@[i] == (old(self)@[i] & data@[i
                    - offset]),
            r is Ok ==> forall|i: int|
                offset + data@.len() <= i < old(self)@.len() ==> final(self)@[i] == old(self)@[i],
    {
        if offset % WRITE_ALIGN != 0 || data.len() % WRITE_ALIGN != 0 {
            return Err(FlashError::NotAligned);
        }
        let n = self.mem.len();
        if offset > n || data.len() > n - offset {
            return Err(FlashError::OutOfBounds);
        }
        assert(offset + data@.len() <= n <= usize::MAX);
        let mut i: usize = 0;
        while i < data.len()
            invariant
                0 <= i <= data@.len(),
                offset + data@.len() <= usize::MAX,
                offset + data@.len() <= self.mem@.len(),
                self.mem@.len() == old(self)@.len(),
                forall|j: int| 0 <= j < offset ==> self.mem@[j] == old(self)@[j],
                forall|j: int|
                    offset <= j < offset + i ==> self.mem@[j] == (old(self)@[j] & data@[j
                        - offset]),
                forall|j: int|
                    offset + i <= j < self.mem@.len() ==> self.mem@[j] == old(self)@[j],
            decreases data@.len() - i,
        {
            let b = self.mem[offset + i] & data[i];
            self.mem.set(offset + i, b);
            i = i + 1;
        }
        Ok(())
    }

    /// Read `len` bytes starting at `offset`, or refuse a range that
    /// reaches beyond the device.
    pub fn try_read(&self, offset: usize, len: usize) -> (r: Result<Vec<u8>, FlashError>)
        ensures
            r is Ok <==> offset + len <= self@.len(),
            r is Err ==> r == Err::<Vec<u8>, FlashError>(FlashError::OutOfBounds),
            r is Ok ==> r->Ok_0@ == self@.subrange(offset as int, offset + len),
    {
        let n = self.mem.len();
        if offset > n || len > n - offset {
            return Err(FlashError::OutOfBounds);
        }
        assert(offset + len <= n <= usize::MAX);
        let mut out: Vec<u8> = Vec::new();
        let mut i: usize = 0;
        while i < len
            invariant
                0 <= i <= len,
                offset + len <= usize::MAX,
                offset + len <= self.mem@.len(),
                out@.len() == i,
                forall|j: int| 0 <= j < i ==> out@[j] == self.mem@[offset + j],
            decreases len - i,
        {
            out.push(self.mem[offset + i]);
            i = i + 1;
        }
        assert(out@ =~= self@.subrange(offset as int, offset + len));
        Ok(out)
    }
}

} // verus!
