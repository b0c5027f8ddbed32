//! Device buffers and host-to-device upload.
//!
//! A buffer reserves a fixed number of bytes with a usage, and tracks how
//! many of them are in use.  `upload` stages bytes into the reserved
//! region through a transient staging copy that completes before the call
//! returns, so the model holds the region's contents directly: what the
//! device sees is exactly `data`.

use vstd::prelude::*;

verus! {

/// Buffer-usage bits, as the device encodes them.
pub const BUFFER_USAGE_TRANSFER_SRC: u32 = 0x1;

pub const BUFFER_USAGE_TRANSFER_DST: u32 = 0x2;

pub const BUFFER_USAGE_UNIFORM_BUFFER: u32 = 0x10;

pub const BUFFER_USAGE_INDEX_BUFFER: u32 = 0x40;

pub const BUFFER_USAGE_VERTEX_BUFFER: u32 = 0x80;

/// A device memory region of fixed reserved size.
#[derive(Debug)]
pub struct Buffer {
    /// Usage bits; transfer-destination is always added so staging copies
    /// can reach the region.
    pub usage: u32,
    pub reserved_size: usize,
    pub used_size: usize,
    /// The bytes the device region holds.
    pub data: Vec<u8>,
}

/// A buffer's bookkeeping is consistent.
pub open spec fn buffer_wf(b: Buffer) -> bool {
    &&& b.data@.len() == b.reserved_size
    &&& b.used_size <= b.reserved_size
}

/// `s` with `d` written at `offset`, all other bytes unchanged.
pub open spec fn write_bytes(s: Seq<u8>, offset: int, d: Seq<u8>) -> Seq<u8>
    recommends
        0 <= offset,
        offset + d.len() <= s.len(),
{
    s.subrange(0, offset) + d + s.subrange(offset + d.len() as int, s.len() as int)
}

impl Buffer {
    /// Reserve `size` zeroed bytes for the given usage.
    pub fn new(size: usize, usage: u32) -> (r: Self)
        ensures
            buffer_wf(r),
            r.reserved_size == size,
            r.used_size == 0,
            r.usage == usage | BUFFER_USAGE_TRANSFER_DST,
            forall|i: int| 0 <= i < size ==> r.data@[i] == 0u8,
    {
        let mut data: Vec<u8> = Vec::new();
        let mut i: usize = 0;
        while i < size
            invariant
                i <= size,
                data@.len() == i,
                forall|j: int| 0 <= j < i ==> data@[j] == 0u8,
            decreases size - i,
        {
            data.push(0);
            i = i + 1;
        }
        Buffer { usage: usage | BUFFER_USAGE_TRANSFER_DST, reserved_size: size, used_size: 0, data }
    }

    /// Write `data` into the region at byte `offset`; the copy is complete
    /// when the call returns.
    pub fn upload(&mut self, data: &[u8], offset: usize)
        requires
            buffer_wf(*old(self)),
            offset + data@.len() <= old(self).reserved_size,
        ensures
            buffer_wf(*final(self)),
            final(self).reserved_size == old(self).reserved_size,
            final(self).usage == old(self).usage,
            final(self).used_size == data@.len(),
            final(self).data@ == write_bytes(old(self).data@, offset as int, data@),
    {
        let n = data.len();
        let mut i: usize = 0;
        while i < n
            invariant
                buffer_wf(*self),
                n == data@.len(),
                i <= n,
                offset + n <= self.reserved_size,
                self.reserved_size == old(self).reserved_size,
                self.usage == old(self).usage,
                self.used_size == old(self).used_size,
                self.data@.len() == old(self).data@.len(),
                forall|j: int|
                    0 <= j < self.data@.len() && !(offset <= j < offset + i) ==> self.data@[j]
                        == old(self).data@[j],
                forall|j: int| 0 <= j < i ==> self.data@[offset + j] == data@[j],
            decreases n - i,
        {
            let b = data[i];
            self.data.set(offset + i, b);
            i = i + 1;
        }
        self.used_size = n;
        proof {
            assert(self.data@ =~= write_bytes(old(self).data@, offset as int, data@));
        }
    }

    /// Read `len` bytes of the region starting at `offset`.
    pub fn read_region(&self, offset: usize, len: usize) -> (r: Vec<u8>)
        requires
            buffer_wf(*self),
            offset + len <= self.reserved_size,
        ensures
            r@ == self.data@.subrange(offset as int, offset + len),
    {
        let mut r: Vec<u8> = Vec::new();
        let mut i: usize = 0;
        while i < len
            invariant
                buffer_wf(*self),
                offset + len <= self.reserved_size,
                i <= len,
                r@.len() == i,
                forall|j: int| 0 <= j < i ==> r@[j] == self.data@[offset + j],
            decreases len - i,
        {
            r.push(self.data[offset + i]);
            i = i + 1;
        }
        proof {
            assert(r@ =~= self.data@.subrange(offset as int, offset + len));
        }
        r
    }
}

/// Uploading bytes and reading the same region back yields them unchanged,
/// byte for byte, for any non-empty payload that fits the region.
pub proof fn lemma_upload_round_trip(s: Seq<u8>, d: Seq<u8>, offset: int)
    requires
        0 <= offset,
        offset + d.len() <= s.len(),
        d.len() > 0,
    ensures
        write_bytes(s, offset, d).subrange(offset, offset + d.len() as int) == d,
        write_bytes(s, offset, d).len() == s.len(),
{
    assert(write_bytes(s, offset, d).subrange(offset, offset + d.len() as int) =~= d);
}

} // verus!
