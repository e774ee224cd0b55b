//! The host/guest memory bridge.
//!
//! The guest module owns its heap: the host can only ask the guest's
//! exported allocator for a range and must later ask it to free that
//! range, exactly once. Every host-held reference to guest memory is a
//! handle carrying an offset, a length and an ownership flag; reads and
//! writes are bounds-checked against the handle. Releasing an owning
//! handle records one deallocation request for the shell to forward to
//! the guest's exported deallocation function; a borrowing handle
//! records none.

use vstd::prelude::*;

verus! {

use vstd::utf8::{valid_utf8, decode_utf8, encode_utf8};

/// A pointer-sized guest value: an offset into the guest's linear
/// memory.
pub type WasmPtr = u32;

/// An (offset, length) byte range inside the guest's linear memory.
/// Not an owning value by itself.
#[derive(Debug, Clone, Copy, PartialEq, Eq, Structural)]
pub struct MemoryLocation {
    pub offset: WasmPtr,
    pub length: WasmPtr,
}

impl MemoryLocation {
    /// The range starting at `offset`, `length` bytes long.
    pub fn new(offset: WasmPtr, length: WasmPtr) -> (loc: MemoryLocation)
        ensures
            loc.offset == offset,
            loc.length == length,
    {
        MemoryLocation { offset, length }
    }

    /// The range as an (offset, length) pair.
    pub fn as_tuple(&self) -> (r: (WasmPtr, WasmPtr))
        ensures
            r == (self.offset, self.length),
    {
        (self.offset, self.length)
    }

    /// The range as the signed pair the guest's calling convention
    /// carries.
    pub fn as_wasm_tuple(&self) -> (r: (i32, i32))
        ensures
            r.0 == self.offset as i32,
            r.1 == self.length as i32,
    {
        (self.offset as i32, self.length as i32)
    }
}

/// A scoped view over a range of guest memory. An owning handle must be
/// released (one deallocation request) or explicitly converted back to
/// a raw location (ownership moves out, no request); a borrowing handle
/// wraps a caller-owned range and never triggers deallocation.
#[derive(Debug)]
pub struct MemoryHandle {
    /// The range this handle gives access to.
    pub location: MemoryLocation,
    /// Whether releasing this handle must request a guest-side
    /// deallocation of the range.
    pub should_dealloc: bool,
}

/// Holds when `post` is `pre` with `bytes` written at `at` and every
/// other byte unchanged.
pub open spec fn written(pre: Seq<u8>, post: Seq<u8>, at: int, bytes: Seq<u8>) -> bool {
    &&& post.len() == pre.len()
    &&& (forall|i: int| at <= i < at + bytes.len() ==> post[i] == bytes[i - at])
    &&& (forall|i: int| 0 <= i < pre.len() && !(at <= i < at + bytes.len()) ==> post[i] == pre[i])
}

/// Writing a range and reading it back yields the bytes written.
pub proof fn lemma_write_then_read(pre: Seq<u8>, post: Seq<u8>, at: int, bytes: Seq<u8>)
    requires
        0 <= at,
        at + bytes.len() <= pre.len(),
        written(pre, post, at, bytes),
    ensures
        post.subrange(at, at + bytes.len()) == bytes,
{
    assert(post.subrange(at, at + bytes.len()) =~= bytes);
}

/// Writing the encoding of `text` into guest memory leaves that range
/// holding valid UTF-8 that decodes back to `text` unchanged: echoing
/// stored text out of memory is lossless.
pub proof fn lemma_memory_text_roundtrip(pre: Seq<u8>, post: Seq<u8>, at: int, text: Seq<char>)
    requires
        0 <= at,
        at + encode_utf8(text).len() <= pre.len(),
        written(pre, post, at, encode_utf8(text)),
    ensures
        valid_utf8(post.subrange(at, at + encode_utf8(text).len())),
        decode_utf8(post.subrange(at, at + encode_utf8(text).len())) == text,
{
    lemma_write_then_read(pre, post, at, encode_utf8(text));
    vstd::utf8::encode_utf8_valid_utf8(text);
    vstd::utf8::encode_utf8_decode_utf8(text);
}

/// Releasing an owning handle requests exactly one deallocation, with
/// the handle's own offset: one new entry in the request log and no
/// other change to it.
pub proof fn lemma_release_deallocs_once(
    pre: Seq<WasmPtr>,
    post: Seq<WasmPtr>,
    h: MemoryHandle,
)
    requires
        h.should_dealloc,
        post == pre.push(h.location.offset),
    ensures
        post.len() == pre.len() + 1,
        post.last() == h.location.offset,
        forall|i: int| 0 <= i < pre.len() ==> post[i] == pre[i],
{
}

/// The bridge to the guest's linear memory: the memory's bytes, and the
/// log of deallocation requests owed to the guest's exported
/// deallocation function, in the order they became due. The shell
/// forwards each request exactly once and drains the log.
pub struct RobotMemory {
    /// The guest's linear memory.
    pub data: Vec<u8>,
    /// Offsets whose guest-side deallocation is owed, oldest first.
    pub dealloc_requests: Vec<WasmPtr>,
}

impl RobotMemory {
    /// A bridge over a zeroed linear memory of `size` bytes, with
    /// nothing owed.
    pub fn new(size: usize) -> (m: RobotMemory)
        ensures
            m.data@.len() == size,
            forall|i: int| 0 <= i < size ==> m.data@[i] == 0u8,
            m.dealloc_requests@.len() == 0,
    {
        RobotMemory { data: vec![0u8; size], dealloc_requests: Vec::new() }
    }

    /// Wraps a range the host owns: releasing the handle will request
    /// the guest-side deallocation of `location`. Used for ranges the
    /// guest's allocator handed out at the host's request.
    pub fn get_owned(&self, location: MemoryLocation) -> (h: MemoryHandle)
        ensures
            h.location == location,
            h.should_dealloc,
    {
        MemoryHandle { location, should_dealloc: true }
    }

    /// Wraps a caller-supplied range without taking ownership:
    /// releasing the handle requests nothing.
    pub fn get(&self, location: MemoryLocation) -> (h: MemoryHandle)
        ensures
            h.location == location,
            !h.should_dealloc,
    {
        MemoryHandle { location, should_dealloc: false }
    }
}

impl MemoryHandle {
    /// Whether the handle's range lies inside the memory.
    pub open spec fn in_bounds(&self, mem: RobotMemory) -> bool {
        self.location.offset + self.location.length <= mem.data@.len()
    }

    /// Writes `bytes` into the handle's range, `offset` bytes past its
    /// start. Writing past the end of the range would be a host-side
    /// bug, so the bounds are demanded, not checked.
    pub fn write(&self, mem: &mut RobotMemory, bytes: &Vec<u8>, offset: WasmPtr)
        requires
            bytes@.len() + offset <= self.location.length,
            self.in_bounds(*old(mem)),
        ensures
            written(
                old(mem).data@,
                final(mem).data@,
                self.location.offset + offset,
                bytes@,
            ),
            final(mem).dealloc_requests == old(mem).dealloc_requests,
    {
        let memlen: usize = mem.data.len();
        let base: usize = self.location.offset as usize + offset as usize;
        let mut i: usize = 0;
        while i < bytes.len()
            invariant
                i <= bytes@.len(),
                base == self.location.offset + offset,
                bytes@.len() + offset <= self.location.length,
                self.in_bounds(*mem),
                mem.data@.len() == old(mem).data@.len(),
                memlen == mem.data@.len(),
                forall|k: int| base <= k < base + i ==> mem.data@[k] == bytes@[k - base],
                forall|k: int|
                    0 <= k < mem.data@.len() && !(base <= k < base + i) ==> mem.data@[k] == old(
                        mem,
                    ).data@[k],
                mem.dealloc_requests == old(mem).dealloc_requests,
            decreases bytes@.len() - i,
        {
            mem.data.set(base + i, bytes[i]);
            i = i + 1;
        }
    }

    /// Reads the handle's whole range.
    pub fn read(&self, mem: &RobotMemory) -> (r: Vec<u8>)
        requires
            self.in_bounds(*mem),
        ensures
            r@ == mem.data@.subrange(
                self.location.offset as int,
                self.location.offset + self.location.length,
            ),
    {
        let memlen: usize = mem.data.len();
        let mut r: Vec<u8> = Vec::new();
        let mut i: usize = 0;
        while i < self.location.length as usize
            invariant
                i <= self.location.length,
                self.in_bounds(*mem),
                memlen == mem.data@.len(),
                r@.len() == i,
                forall|k: int| 0 <= k < i ==> r@[k] == mem.data@[self.location.offset + k],
            decreases self.location.length - i,
        {
            r.push(mem.data[self.location.offset as usize + i]);
            i = i + 1;
        }
        proof {
            assert(r@ =~= mem.data@.subrange(
                self.location.offset as int,
                self.location.offset + self.location.length,
            ));
        }
        r
    }

    /// Reads a guest-stored little-endian word, `offset` bytes past the
    /// handle's start. Used where the guest hands the host a pointer to
    /// a stored counter, such as a periodic delay's previous wake time.
    pub fn read_u32_le(&self, mem: &RobotMemory, offset: WasmPtr) -> (r: u32)
        requires
            self.in_bounds(*mem),
            offset + 4 <= self.location.length,
        ensures
            r == vstd::bytes::spec_u32_from_le_bytes(
                mem.data@.subrange(
                    self.location.offset + offset,
                    self.location.offset + offset + 4,
                ),
            ),
    {
        let memlen: usize = mem.data.len();
        let base: usize = self.location.offset as usize + offset as usize;
        let mut word: Vec<u8> = Vec::new();
        word.push(mem.data[base]);
        word.push(mem.data[base + 1]);
        word.push(mem.data[base + 2]);
        word.push(mem.data[base + 3]);
        proof {
            assert(word@ =~= mem.data@.subrange(
                self.location.offset + offset,
                self.location.offset + offset + 4,
            ));
        }
        vstd::bytes::u32_from_le_bytes(word.as_slice())
    }

    /// Reads the handle's range as text, replacing invalid sequences;
    /// valid UTF-8 decodes exactly.
    pub fn to_text(&self, mem: &RobotMemory) -> (r: String)
        requires
            self.in_bounds(*mem),
        ensures
            ({
                let bytes = mem.data@.subrange(
                    self.location.offset as int,
                    self.location.offset + self.location.length,
                );
                &&& r@ == crate::text::utf8_lossy(bytes)
                &&& (valid_utf8(bytes) ==> r@ == decode_utf8(bytes))
            }),
    {
        let bytes = self.read(mem);
        crate::text::decode_utf8_lossy(&bytes)
    }

    /// Transfers ownership of the range out of the handle: the caller
    /// takes over the duty to free it, and no deallocation request is
    /// recorded for it.
    pub fn into_raw(self) -> (loc: MemoryLocation)
        ensures
            loc == self.location,
    {
        self.location
    }

    /// Gives the handle up. An owning handle records exactly one
    /// deallocation request, with the range's original offset; a
    /// borrowing handle records nothing. Memory content is untouched.
    pub fn release(self, mem: &mut RobotMemory)
        ensures
            final(mem).data == old(mem).data,
            self.should_dealloc ==> final(mem).dealloc_requests@ == old(
                mem,
            ).dealloc_requests@.push(self.location.offset),
            !self.should_dealloc ==> final(mem).dealloc_requests == old(mem).dealloc_requests,
    {
        if self.should_dealloc {
            mem.dealloc_requests.push(self.location.offset);
        }
    }
}

} // verus!
