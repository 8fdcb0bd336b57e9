//! Device buffers as the host sees them: a length in bytes, and the
//! elements that can be read out of a buffer's bytes.

use vstd::prelude::*;

verus! {

/// Bytes of one element. Every kernel works on 32-bit floats.
pub const ELEMENT_BYTES: u64 = 4;

/// A region of memory that host and device both see. Its length is fixed
/// when it is made.
#[derive(Clone, Copy, Debug, PartialEq, Eq, Structural)]
pub struct Buffer {
    /// Length in bytes.
    pub length: u64,
}

impl Buffer {
    /// The buffer that holds exactly `elements` elements.
    pub open spec fn of_elements(elements: nat) -> Buffer {
        Buffer { length: (elements * ELEMENT_BYTES) as u64 }
    }

    /// True when the first `elements` elements lie inside the buffer.
    pub open spec fn holds_spec(self, elements: nat) -> bool {
        elements * ELEMENT_BYTES <= self.length
    }

    /// A buffer for `elements` elements, neither shorter nor longer.
    pub fn for_elements(elements: usize) -> (buffer: Buffer)
        requires
            elements * ELEMENT_BYTES <= u64::MAX,
        ensures
            buffer == Buffer::of_elements(elements as nat),
            buffer.holds_spec(elements as nat),
    {
        Buffer { length: elements as u64 * ELEMENT_BYTES }
    }

    /// Whether `elements` elements can be read from the buffer without
    /// leaving it.
    pub fn holds(&self, elements: usize) -> (fits: bool)
        ensures
            fits == self.holds_spec(elements as nat),
    {
        elements as u64 <= self.length / ELEMENT_BYTES
    }
}

/// The element that starts at byte `4 * i`. The device and its host store
/// an element with its low byte first.
pub open spec fn element_at(bytes: Seq<u8>, i: int) -> u32
    recommends
        0 <= i,
        4 * i + 4 <= bytes.len(),
{
    (bytes[4 * i] + bytes[4 * i + 1] * 0x100 + bytes[4 * i + 2] * 0x1_0000 + bytes[4 * i + 3]
        * 0x100_0000) as u32
}

/// The first `count` elements of a buffer's bytes, as bit patterns.
pub open spec fn elements_of(bytes: Seq<u8>, count: nat) -> Seq<u32> {
    Seq::new(count, |i: int| element_at(bytes, i))
}

/// Copies the first `count` elements out of a buffer's bytes, as bit
/// patterns, after checking that the buffer is long enough for them.
/// Bytes past the last element are left unread.
pub fn read_elements(bytes: &[u8], count: usize) -> (elements: Option<Vec<u32>>)
    ensures
        elements is Some <==> count * ELEMENT_BYTES <= bytes@.len(),
        elements matches Some(v) ==> v@ == elements_of(bytes@, count as nat),
{
    let total: usize = bytes.len();
    if count > total / 4 {
        return None;
    }
    let mut out: Vec<u32> = Vec::new();
    let mut i: usize = 0;
    while i < count
        invariant
            i <= count,
            count * 4 <= total == bytes@.len(),
            out@ == elements_of(bytes@, i as nat),
        decreases count - i,
    {
        let at: usize = 4 * i;
        let b0: u32 = bytes[at] as u32;
        let b1: u32 = bytes[at + 1] as u32;
        let b2: u32 = bytes[at + 2] as u32;
        let b3: u32 = bytes[at + 3] as u32;
        let word: u32 = b0 + b1 * 0x100 + b2 * 0x1_0000 + b3 * 0x100_0000;
        out.push(word);
        i = i + 1;
        assert(out@ =~= elements_of(bytes@, i as nat));
    }
    Some(out)
}

} // verus!
