use vstd::prelude::*;

verus! {

/// The four little-endian bytes of a length prefix.
pub open spec fn le_bytes(n: u32) -> Seq<u8> {
    seq![
        (n & 0xff) as u8,
        ((n >> 8u32) & 0xff) as u8,
        ((n >> 16u32) & 0xff) as u8,
        ((n >> 24u32) & 0xff) as u8,
    ]
}

/// The little-endian value of four bytes.
pub open spec fn le_value(b0: u8, b1: u8, b2: u8, b3: u8) -> u32 {
    (b0 as u32) | ((b1 as u32) << 8u32) | ((b2 as u32) << 16u32) | ((b3 as u32) << 24u32)
}

/// The length that a wire buffer declares in its first four bytes.
pub open spec fn declared_len(w: Seq<u8>) -> nat
    recommends
        w.len() >= 4,
{
    le_value(w[0], w[1], w[2], w[3]) as nat
}

/// The wire form of a payload: its length as four little-endian bytes, then the payload.
pub open spec fn wire_of(b: Seq<u8>) -> Seq<u8>
    recommends
        b.len() <= u32::MAX,
{
    le_bytes(b.len() as u32) + b
}

/// Whether a wire buffer holds the whole payload that its prefix declares.
pub open spec fn well_framed(w: Seq<u8>) -> bool {
    w.len() >= 4 && w.len() >= 4 + declared_len(w)
}

/// The payload that a wire buffer carries; a malformed buffer carries none.
pub open spec fn payload_of(w: Seq<u8>) -> Seq<u8> {
    if well_framed(w) {
        w.subrange(4, 4 + declared_len(w) as int)
    } else {
        Seq::empty()
    }
}

/// Reading back the four bytes of a length gives the length.
pub proof fn lemma_le_round_trip(n: u32)
    ensures
        le_value(le_bytes(n)[0], le_bytes(n)[1], le_bytes(n)[2], le_bytes(n)[3]) == n,
{
    assert(((n & 0xff) as u8 as u32) | ((((n >> 8u32) & 0xff) as u8 as u32) << 8u32) | ((((n
        >> 16u32) & 0xff) as u8 as u32) << 16u32) | ((((n >> 24u32) & 0xff) as u8 as u32)
        << 24u32) == n) by (bit_vector);
}

/// Decoding the wire form of any payload gives the payload back.
pub proof fn lemma_decode_encode(b: Seq<u8>)
    requires
        b.len() <= u32::MAX,
    ensures
        payload_of(wire_of(b)) == b,
{
    let w = wire_of(b);
    lemma_le_round_trip(b.len() as u32);
    assert(declared_len(w) == b.len());
    assert(w.subrange(4, 4 + b.len() as int) =~= b);
}

/// A buffer shorter than four bytes, or shorter than its prefix and the
/// length it declares, decodes to nothing.
pub proof fn lemma_truncated_is_empty(w: Seq<u8>)
    requires
        w.len() < 4 || w.len() < 4 + declared_len(w),
    ensures
        payload_of(w) == Seq::<u8>::empty(),
{
}

/// Reads the length that four little-endian bytes hold.
fn read_le(b0: u8, b1: u8, b2: u8, b3: u8) -> (r: u32)
    ensures
        r == le_value(b0, b1, b2, b3),
{
    (b0 as u32) | ((b1 as u32) << 8u32) | ((b2 as u32) << 16u32) | ((b3 as u32) << 24u32)
}

/// Appends the four little-endian bytes of `n`.
fn push_le(out: &mut Vec<u8>, n: u32)
    ensures
        final(out)@ == old(out)@ + le_bytes(n),
{
    out.push((n & 0xff) as u8);
    out.push(((n >> 8u32) & 0xff) as u8);
    out.push(((n >> 16u32) & 0xff) as u8);
    out.push(((n >> 24u32) & 0xff) as u8);
    assert(final(out)@ =~= old(out)@ + le_bytes(n));
}

/// Appends the bytes of `src`.
fn push_all(out: &mut Vec<u8>, src: &[u8])
    ensures
        final(out)@ == old(out)@ + src@,
{
    let ghost start = out@;
    let mut i: usize = 0;
    while i < src.len()
        invariant
            i <= src@.len(),
            out@ == start + src@.subrange(0, i as int),
        decreases src@.len() - i,
    {
        out.push(src[i]);
        i = i + 1;
        assert(out@ =~= start + src@.subrange(0, i as int));
    }
    assert(src@.subrange(0, i as int) =~= src@);
}

/// The length-prefixed buffer codec shared by host and guest, with the guest's
/// linear memory as an arena of bytes and the blocks allocated in it.
pub struct Memory {
    bytes: Vec<u8>,
    blocks: Vec<(usize, usize)>,
}

impl Memory {
    /// The bytes of linear memory.
    pub closed spec fn bytes_view(&self) -> Seq<u8> {
        self.bytes@
    }

    /// The live blocks, as (offset, size), in the order they were allocated.
    pub closed spec fn blocks_view(&self) -> Seq<(usize, usize)> {
        self.blocks@
    }

    /// Every live block lies inside linear memory.
    pub open spec fn wf(&self) -> bool {
        forall|i: int|
            0 <= i < self.blocks_view().len() ==> #[trigger] self.blocks_view()[i].0
                + self.blocks_view()[i].1 <= self.bytes_view().len()
    }

    /// An empty linear memory with no block allocated.
    pub fn empty() -> (r: Memory)
        ensures
            r.wf(),
            r.bytes_view() == Seq::<u8>::empty(),
            r.blocks_view() == Seq::<(usize, usize)>::empty(),
    {
        Memory { bytes: Vec::new(), blocks: Vec::new() }
    }

    /// A linear memory that holds `bytes`, with no block allocated.
    pub fn from_bytes(bytes: Vec<u8>) -> (r: Memory)
        ensures
            r.wf(),
            r.bytes_view() == bytes@,
            r.blocks_view() == Seq::<(usize, usize)>::empty(),
    {
        Memory { bytes, blocks: Vec::new() }
    }

    /// The bytes of linear memory.
    pub fn as_bytes(&self) -> (r: &[u8])
        ensures
            r@ == self.bytes_view(),
    {
        self.bytes.as_slice()
    }

    /// The live blocks, as (offset, size).
    pub fn live_blocks(&self) -> (r: Vec<(usize, usize)>)
        ensures
            r@ == self.blocks_view(),
    {
        let mut r: Vec<(usize, usize)> = Vec::new();
        let mut i: usize = 0;
        while i < self.blocks.len()
            invariant
                i <= self.blocks@.len(),
                r@ == self.blocks@.subrange(0, i as int),
            decreases self.blocks@.len() - i,
        {
            r.push(self.blocks[i]);
            i = i + 1;
            assert(r@ =~= self.blocks@.subrange(0, i as int));
        }
        assert(r@ =~= self.blocks@);
        r
    }

    /// Reserves `len` zeroed bytes at the end of linear memory and returns
    /// their offset; the caller later releases them with `mem_dealloc`.
    pub fn mem_alloc(&mut self, len: usize) -> (r: usize)
        requires
            old(self).wf(),
            old(self).bytes_view().len() + len <= usize::MAX,
        ensures
            final(self).wf(),
            r == old(self).bytes_view().len(),
            forall|i: int|
                0 <= i < old(self).blocks_view().len() ==> #[trigger] old(self).blocks_view()[i].0
                    + old(self).blocks_view()[i].1 <= r,
            final(self).bytes_view() == old(self).bytes_view() + Seq::new(len as nat, |i: int| 0u8),
            final(self).blocks_view() == old(self).blocks_view().push((r, len)),
    {
        let ptr = self.bytes.len();
        let ghost start = self.bytes@;
        let mut i: usize = 0;
        while i < len
            invariant
                i <= len,
                ptr == start.len(),
                ptr + len <= usize::MAX,
                self.bytes@ == start + Seq::new(i as nat, |k: int| 0u8),
                self.blocks@ == old(self).blocks@,
            decreases len - i,
        {
            self.bytes.push(0u8);
            i = i + 1;
            assert(self.bytes@ =~= start + Seq::new(i as nat, |k: int| 0u8));
        }
        self.blocks.push((ptr, len));
        assert forall|j: int| 0 <= j < self.blocks@.len() implies #[trigger] self.blocks@[j].0
            + self.blocks@[j].1 <= self.bytes@.len() by {
            if j < old(self).blocks@.len() {
                assert(self.blocks@[j] == old(self).blocks@[j]);
            }
        }
        ptr
    }

    /// Releases the first live block at `ptr` of `size` bytes. Releasing a
    /// block that was not allocated, or with another size, is a caller error.
    pub fn mem_dealloc(&mut self, ptr: usize, size: usize)
        requires
            old(self).wf(),
            old(self).blocks_view().contains((ptr, size)),
        ensures
            final(self).wf(),
            final(self).bytes_view() == old(self).bytes_view(),
            exists|i: int|
                0 <= i < old(self).blocks_view().len() && old(self).blocks_view()[i] == (ptr, size)
                    && (forall|j: int| 0 <= j < i ==> old(self).blocks_view()[j] != (ptr, size))
                    && final(self).blocks_view() == old(self).blocks_view().remove(i),
    {
        let mut i: usize = 0;
        while i < self.blocks.len() && !(self.blocks[i].0 == ptr && self.blocks[i].1 == size)
            invariant
                i <= self.blocks@.len(),
                self.blocks@.contains((ptr, size)),
                forall|j: int| 0 <= j < i ==> self.blocks@[j] != (ptr, size),
            decreases self.blocks@.len() - i,
        {
            i = i + 1;
        }
        if i == self.blocks.len() {
            let ghost k = choose|k: int| 0 <= k < self.blocks@.len() && self.blocks@[k] == (ptr, size);
            assert(self.blocks@[k] != (ptr, size));
        }
        let ghost before = self.blocks@;
        self.blocks.remove(i);
        assert(before[i as int] == (ptr, size));
        assert(self.blocks@ == before.remove(i as int));
        assert forall|j: int| 0 <= j < self.blocks@.len() implies #[trigger] self.blocks@[j].0
            + self.blocks@[j].1 <= self.bytes@.len() by {
            if j < i {
                assert(self.blocks@[j] == before[j]);
            } else {
                assert(self.blocks@[j] == before[j + 1]);
            }
        }
    }

    /// Writes `data` into a new block of `4 + data.len()` bytes, behind the
    /// length `len` as four little-endian bytes, and returns the block's offset.
    pub fn new(&mut self, len: usize, data: &[u8]) -> (r: usize)
        requires
            old(self).wf(),
            len <= u32::MAX,
            old(self).bytes_view().len() + 4 + data@.len() <= usize::MAX,
        ensures
            final(self).wf(),
            r == old(self).bytes_view().len(),
            final(self).bytes_view() == old(self).bytes_view() + le_bytes(len as u32) + data@,
            len == data@.len() ==> final(self).bytes_view() == old(self).bytes_view() + wire_of(
                data@,
            ),
            final(self).blocks_view() == old(self).blocks_view().push((r, (4 + data@.len()) as usize)),
    {
        let mut buffer: Vec<u8> = Vec::new();
        push_le(&mut buffer, len as u32);
        push_all(&mut buffer, data);
        let ptr = self.mem_alloc(buffer.len());
        let ghost start = old(self).bytes@;
        let mut i: usize = 0;
        while i < buffer.len()
            invariant
                i <= buffer@.len(),
                ptr == start.len(),
                buffer@ == le_bytes(len as u32) + data@,
                ptr + buffer@.len() <= usize::MAX,
                self.bytes@.len() == start.len() + buffer@.len(),
                forall|k: int| 0 <= k < start.len() ==> self.bytes@[k] == start[k],
                forall|k: int| 0 <= k < i ==> self.bytes@[ptr + k] == buffer@[k],
                forall|j: int|
                    0 <= j < self.blocks@.len() ==> #[trigger] self.blocks@[j].0 + self.blocks@[j].1
                        <= self.bytes@.len(),
                self.blocks@ == old(self).blocks@.push((ptr, buffer@.len() as usize)),
            decreases buffer@.len() - i,
        {
            self.bytes.set(ptr + i, buffer[i]);
            i = i + 1;
        }
        assert(self.bytes@ =~= start + buffer@);
        assert(len == data@.len() ==> le_bytes(len as u32) + data@ == wire_of(data@));
        ptr
    }

    /// Reads the length prefix at offset `ptr`; with fewer than four bytes
    /// left there it reads as zero.
    pub fn export_length(&self, ptr: usize) -> (r: usize)
        ensures
            ptr + 4 <= self.bytes_view().len() ==> r == declared_len(
                self.bytes_view().subrange(ptr as int, ptr + 4),
            ),
            ptr + 4 > self.bytes_view().len() ==> r == 0,
    {
        if ptr > self.bytes.len() || self.bytes.len() - ptr < 4 {
            return 0;
        }
        read_le(self.bytes[ptr], self.bytes[ptr + 1], self.bytes[ptr + 2], self.bytes[ptr + 3])
            as usize
    }

    /// Copies out the payload of the wire buffer that starts at offset `ptr`;
    /// an offset past the end, or a buffer cut short by the end of memory,
    /// gives an empty payload.
    pub fn decode_ptr(&self, ptr: usize) -> (r: Vec<u8>)
        ensures
            ptr <= self.bytes_view().len() ==> r@ == payload_of(
                self.bytes_view().subrange(ptr as int, self.bytes_view().len() as int),
            ),
            ptr > self.bytes_view().len() ==> r@ == Seq::<u8>::empty(),
    {
        if ptr > self.bytes.len() {
            return Vec::new();
        }
        let ghost w = self.bytes@.subrange(ptr as int, self.bytes@.len() as int);
        if self.bytes.len() - ptr < 4 {
            return Vec::new();
        }
        let size = self.export_length(ptr);
        assert(self.bytes@.subrange(ptr as int, ptr + 4) =~= w.subrange(0, 4));
        if self.bytes.len() - ptr - 4 < size {
            return Vec::new();
        }
        let start = ptr + 4;
        let end = start + size;
        let mut out: Vec<u8> = Vec::new();
        let mut i: usize = start;
        while i < end
            invariant
                start <= i <= end <= self.bytes@.len(),
                start == ptr + 4,
                end == start + declared_len(w),
                w == self.bytes@.subrange(ptr as int, self.bytes@.len() as int),
                out@ == self.bytes@.subrange(start as int, i as int),
            decreases end - i,
        {
            out.push(self.bytes[i]);
            i = i + 1;
            assert(out@ =~= self.bytes@.subrange(start as int, i as int));
        }
        assert(out@ =~= w.subrange(4, 4 + declared_len(w) as int));
        out
    }

    /// Encodes a payload: its length as four little-endian bytes, then the payload.
    pub fn encode(bytes: &[u8]) -> (r: Vec<u8>)
        requires
            bytes@.len() <= u32::MAX,
        ensures
            r@ == wire_of(bytes@),
            r@.len() == 4 + bytes@.len(),
    {
        let len_val = bytes.len() as u32;
        let mut buffer: Vec<u8> = Vec::new();
        push_le(&mut buffer, len_val);
        push_all(&mut buffer, bytes);
        buffer
    }

    /// Decodes a wire buffer; a buffer shorter than its prefix and the length
    /// it declares gives an empty payload.
    pub fn decode(encoded: &[u8]) -> (r: Vec<u8>)
        ensures
            r@ == payload_of(encoded@),
    {
        if encoded.len() < 4 {
            return Vec::new();
        }
        let input_len = read_le(encoded[0], encoded[1], encoded[2], encoded[3]) as usize;
        if encoded.len() - 4 < input_len {
            return Vec::new();
        }
        let end = 4 + input_len;
        let mut out: Vec<u8> = Vec::new();
        let mut i: usize = 4;
        while i < end
            invariant
                4 <= i <= end <= encoded@.len(),
                end == 4 + declared_len(encoded@),
                out@ == encoded@.subrange(4, i as int),
            decreases end - i,
        {
            out.push(encoded[i]);
            i = i + 1;
            assert(out@ =~= encoded@.subrange(4, i as int));
        }
        out
    }

    /// Reads a length prefix; anything but exactly four bytes reads as zero.
    pub fn decode_len(len: &[u8]) -> (r: usize)
        ensures
            len@.len() == 4 ==> r == declared_len(len@),
            len@.len() != 4 ==> r == 0,
    {
        if len.len() != 4 {
            return 0;
        }
        read_le(len[0], len[1], len[2], len[3]) as usize
    }
}

} // verus!
