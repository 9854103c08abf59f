//! Sizing and write planning for one GPU buffer.
//!
//! A buffer is described by its capacity in bytes. Each frame the content
//! that has to reach it is either written over the start of the existing
//! buffer or, when it no longer fits, placed in a freshly allocated, larger
//! buffer. This module decides which, and with which bytes and sizes; the
//! caller carries the decision out on the device.

use crate::bytes::{big_endian, little_endian};
use vstd::arithmetic::power2::{is_pow2, is_pow2_equiv, lemma2_to64_rest};
use vstd::prelude::*;

verus! {

/// Byte alignment that host-to-buffer copies have to respect.
pub const COPY_ALIGNMENT: u64 = 4;

/// Capacity asked for when a buffer is first created.
pub const INITIAL_CAPACITY: u64 = 4096;

/// Largest content length, and the largest capacity, a buffer can have.
pub const MAX_CAPACITY: u64 = 0x8000_0000_0000_0000;

/// The capacities a buffer may have: powers of two that are whole multiples
/// of the copy alignment.
pub open spec fn is_buffer_size(n: int) -> bool {
    is_pow2(n) && n % (COPY_ALIGNMENT as int) == 0
}

/// `capacity` is the least buffer size that holds `size` bytes.
pub open spec fn is_least_buffer_size(capacity: int, size: int) -> bool {
    &&& is_buffer_size(capacity)
    &&& capacity >= size
    &&& forall|m: int| is_buffer_size(m) && m >= size ==> capacity <= m
}

/// Number of zero bytes that bring a content of `len` bytes up to the next
/// multiple of the copy alignment.
pub open spec fn padding(len: nat) -> nat {
    let rest = len % (COPY_ALIGNMENT as nat);
    if rest == 0 {
        0
    } else {
        (COPY_ALIGNMENT - rest) as nat
    }
}

/// `contents` followed by the zero bytes that align its length.
pub open spec fn zero_padded(contents: Seq<u8>) -> Seq<u8> {
    contents + Seq::new(padding(contents.len()), |i: int| 0u8)
}

/// What has to happen to a buffer in one frame.
#[derive(Debug, PartialEq, Eq)]
pub enum BufferWrite {
    /// Nothing is uploaded; the buffer keeps its content.
    Untouched,
    /// `contents` is written into the existing buffer, starting at offset 0.
    InPlace { contents: Vec<u8> },
    /// A new buffer of `size` bytes takes the place of the old one; it is
    /// created mapped, and `contents` is copied to its start.
    Replace { size: u64, contents: Vec<u8> },
}

impl BufferWrite {
    /// Whether this is the write that a buffer of `capacity` bytes needs in
    /// order to take `contents`.
    pub open spec fn is_plan_for(self, capacity: u64, contents: Seq<u8>) -> bool {
        if capacity >= contents.len() {
            self matches BufferWrite::InPlace { contents: written }
                && written@ == zero_padded(contents)
        } else {
            self matches BufferWrite::Replace { size, contents: copied }
                && is_least_buffer_size(size as int, contents.len() as int)
                && copied@ == contents
        }
    }

    /// Whether a buffer of `capacity` bytes needs this write in order to take
    /// the memory image of `values`, `width` bytes each.
    pub open spec fn is_plan_for_image(self, capacity: u64, values: Seq<int>, width: nat) -> bool {
        self.is_plan_for(capacity, little_endian(values, width)) || self.is_plan_for(
            capacity,
            big_endian(values, width),
        )
    }

    /// Capacity of the buffer once the write has been carried out on a buffer
    /// of `capacity` bytes.
    pub open spec fn spec_capacity_after(&self, capacity: u64) -> u64 {
        match self {
            BufferWrite::Replace { size, .. } => *size,
            _ => capacity,
        }
    }

    /// Capacity of the buffer once the write has been carried out on a buffer
    /// of `capacity` bytes.
    #[verifier::when_used_as_spec(spec_capacity_after)]
    pub fn capacity_after(&self, capacity: u64) -> (after: u64)
        ensures
            after == self.spec_capacity_after(capacity),
    {
        match self {
            BufferWrite::Replace { size, .. } => *size,
            _ => capacity,
        }
    }

    /// Whether the write allocates a new buffer.
    pub fn replaces(&self) -> (b: bool)
        ensures
            b == (self is Replace),
    {
        match self {
            BufferWrite::Replace { .. } => true,
            _ => false,
        }
    }
}

/// Reads `wgpu::COPY_BUFFER_ALIGNMENT`, which that crate defines as the
/// constant 4.
#[verifier::external_body]
fn copy_buffer_alignment() -> (alignment: u64)
    ensures
        alignment == COPY_ALIGNMENT,
{
    wgpu::COPY_BUFFER_ALIGNMENT
}

proof fn lemma_pow2_even(n: int)
    requires
        is_pow2(n),
        n > 1,
    ensures
        n % 2 == 0,
        is_pow2(n / 2),
{
    reveal(is_pow2);
}

proof fn lemma_pow2_double(n: int)
    requires
        is_pow2(n),
    ensures
        is_pow2(2 * n),
{
    reveal(is_pow2);
    assert(n > 0);
    assert((2 * n) / 2 == n);
}

/// Between a power of two and its double lies no other power of two.
proof fn lemma_pow2_gap(a: int, b: int)
    requires
        is_pow2(a),
        is_pow2(b),
        a < b,
    ensures
        2 * a <= b,
    decreases a,
{
    reveal(is_pow2);
    if a > 1 {
        lemma_pow2_gap(a / 2, b / 2);
    }
}

proof fn lemma_max_capacity_is_pow2()
    ensures
        is_pow2(MAX_CAPACITY as int),
{
    lemma2_to64_rest();
    vstd::arithmetic::power::lemma_pow_positive(2, 63);
    assert(vstd::arithmetic::power::pow(2, 63) == MAX_CAPACITY as int);
    is_pow2_equiv(MAX_CAPACITY as int);
}

/// Buffer sizes are at least one alignment unit.
pub proof fn lemma_buffer_size_floor(n: int)
    requires
        is_buffer_size(n),
    ensures
        n >= COPY_ALIGNMENT,
{
    reveal(is_pow2);
}

/// A buffer size is the least one for every content length above its half,
/// and the alignment unit for every content length up to itself.
pub proof fn lemma_buffer_size_is_least(capacity: int, size: int)
    requires
        is_buffer_size(capacity),
        size <= capacity,
        capacity == COPY_ALIGNMENT || capacity / 2 < size,
    ensures
        is_least_buffer_size(capacity, size),
{
    assert forall|m: int| is_buffer_size(m) && m >= size implies capacity <= m by {
        lemma_buffer_size_floor(m);
        if capacity != COPY_ALIGNMENT {
            lemma_buffer_size_floor(capacity);
            lemma_pow2_even(capacity);
            if capacity / 2 < m {
                lemma_pow2_gap(capacity / 2, m);
            }
        }
    }
}

/// The least buffer size for a given content length is unique.
pub proof fn lemma_least_buffer_size_unique(a: int, b: int, size: int)
    requires
        is_least_buffer_size(a, size),
        is_least_buffer_size(b, size),
    ensures
        a == b,
{
}

/// Smallest capacity that is a power of two, a multiple of the copy
/// alignment, and at least `size`.
pub fn next_copy_buffer_size(size: u64) -> (capacity: u64)
    requires
        size <= MAX_CAPACITY,
    ensures
        is_least_buffer_size(capacity as int, size as int),
        capacity <= MAX_CAPACITY,
{
    let mut capacity: u64 = copy_buffer_alignment();
    proof {
        assert(is_pow2(4)) by {
            reveal_with_fuel(is_pow2, 3);
        }
    }
    while capacity < size
        invariant
            size <= MAX_CAPACITY,
            COPY_ALIGNMENT <= capacity <= MAX_CAPACITY,
            is_buffer_size(capacity as int),
            capacity == COPY_ALIGNMENT || capacity / 2 < size,
        decreases MAX_CAPACITY - capacity,
    {
        proof {
            lemma_max_capacity_is_pow2();
            lemma_pow2_gap(capacity as int, MAX_CAPACITY as int);
            lemma_pow2_double(capacity as int);
        }
        capacity = capacity * 2;
    }
    proof {
        lemma_buffer_size_is_least(capacity as int, size as int);
    }
    capacity
}

/// The bytes handed to an in-place write: `slice`, zero-padded at its tail
/// up to the next multiple of the copy alignment.
pub fn write_buffer(slice: &[u8]) -> (write: BufferWrite)
    ensures
        write matches BufferWrite::InPlace { contents } && contents@ == zero_padded(slice@),
{
    let alignment: u64 = copy_buffer_alignment();
    let mut contents: Vec<u8> = Vec::new();
    let mut i: usize = 0;
    while i < slice.len()
        invariant
            i <= slice.len(),
            contents@ == slice@.subrange(0, i as int),
        decreases slice.len() - i,
    {
        contents.push(slice[i]);
        i = i + 1;
    }
    assert(contents@ == slice@);
    let rest: u64 = (slice.len() as u64) % alignment;
    let mut missing: u64 = if rest == 0 {
        0
    } else {
        alignment - rest
    };
    let ghost total = padding(slice@.len());
    while missing > 0
        invariant
            missing <= total,
            contents@ == slice@ + Seq::new((total - missing) as nat, |i: int| 0u8),
        decreases missing,
    {
        contents.push(0u8);
        missing = missing - 1;
    }
    BufferWrite::InPlace { contents }
}

/// The replacement for a buffer that `contents` has outgrown: a new buffer
/// of the least buffer size that holds `contents`, with `contents` at its
/// start.
pub fn create_oversized_buffer(contents: &[u8]) -> (write: BufferWrite)
    requires
        contents@.len() <= MAX_CAPACITY,
    ensures
        write matches BufferWrite::Replace { size, contents: copied } && is_least_buffer_size(
            size as int,
            contents@.len() as int,
        ) && copied@ == contents@,
{
    let size: u64 = next_copy_buffer_size(contents.len() as u64);
    let mut copied: Vec<u8> = Vec::new();
    let mut i: usize = 0;
    while i < contents.len()
        invariant
            i <= contents.len(),
            copied@ == contents@.subrange(0, i as int),
        decreases contents.len() - i,
    {
        copied.push(contents[i]);
        i = i + 1;
    }
    assert(copied@ == contents@);
    BufferWrite::Replace { size, contents: copied }
}

/// Decides how `contents` reaches a buffer of `capacity` bytes: over the
/// start of the existing buffer when it fits, else into a new, larger one.
pub fn plan_write(capacity: u64, contents: &[u8]) -> (write: BufferWrite)
    requires
        contents@.len() <= MAX_CAPACITY,
    ensures
        write.is_plan_for(capacity, contents@),
{
    if capacity >= contents.len() as u64 {
        write_buffer(contents)
    } else {
        create_oversized_buffer(contents)
    }
}

/// An in-place write fits the buffer it is planned for, padding included.
pub proof fn lemma_in_place_write_fits(capacity: u64, contents: Seq<u8>)
    requires
        is_buffer_size(capacity as int),
        capacity >= contents.len(),
    ensures
        zero_padded(contents).len() <= capacity,
        zero_padded(contents).len() % (COPY_ALIGNMENT as nat) == 0,
{
}

/// Writing never shrinks a buffer, and leaves its capacity a buffer size
/// that holds the content.
pub proof fn lemma_capacity_after_write(write: BufferWrite, capacity: u64, contents: Seq<u8>)
    requires
        is_buffer_size(capacity as int),
        write.is_plan_for(capacity, contents),
    ensures
        is_buffer_size(write.capacity_after(capacity) as int),
        write.capacity_after(capacity) >= capacity,
        write.capacity_after(capacity) >= contents.len(),
{
}

/// Content that a buffer has outgrown never goes into that buffer: the
/// plan is a new buffer of the least size that holds the content, larger
/// than the old one, with the content as it is.
pub proof fn lemma_outgrown_buffer_is_replaced(write: BufferWrite, capacity: u64, contents: Seq<u8>)
    requires
        write.is_plan_for(capacity, contents),
        contents.len() > capacity,
    ensures
        write matches BufferWrite::Replace { size, contents: copied } && is_least_buffer_size(
            size as int,
            contents.len() as int,
        ) && size > capacity && copied@ == contents,
        !(write is InPlace),
{
}

/// Content that fits a buffer is written into it and never replaces it.
pub proof fn lemma_fitting_content_is_written_in_place(
    write: BufferWrite,
    capacity: u64,
    contents: Seq<u8>,
)
    requires
        write.is_plan_for(capacity, contents),
        contents.len() <= capacity,
    ensures
        write matches BufferWrite::InPlace { contents: written } && written@ == zero_padded(
            contents,
        ),
        !(write is Replace),
{
}

/// Once a buffer has been sized for some content, content of the same
/// length is written in place and the capacity stays as it is.
pub proof fn lemma_same_length_overwrites(
    first: BufferWrite,
    second: BufferWrite,
    capacity: u64,
    contents: Seq<u8>,
    again: Seq<u8>,
)
    requires
        first.is_plan_for(capacity, contents),
        second.is_plan_for(first.capacity_after(capacity), again),
        again.len() == contents.len(),
    ensures
        second is InPlace,
        second.capacity_after(first.capacity_after(capacity)) == first.capacity_after(capacity),
{
}

} // verus!
