//! The byte image of integer data: the bytes that a run of 16-bit indices
//! or 32-bit scalars occupies in memory, which is what a buffer upload
//! copies to the device.

use vstd::arithmetic::power::pow;
use vstd::prelude::*;

verus! {

/// The value of the byte at position `place` of a number, position 0 being
/// the least significant.
pub open spec fn byte_at(value: int, place: nat) -> u8 {
    ((value / pow(0x100, place)) % 0x100) as u8
}

/// The numbers of `values`, `width` bytes each, least significant byte
/// first.
pub open spec fn little_endian(values: Seq<int>, width: nat) -> Seq<u8> {
    Seq::new(
        values.len() * width,
        |k: int| byte_at(values[k / (width as int)], (k % (width as int)) as nat),
    )
}

/// The numbers of `values`, `width` bytes each, most significant byte
/// first.
pub open spec fn big_endian(values: Seq<int>, width: nat) -> Seq<u8> {
    Seq::new(
        values.len() * width,
        |k: int| byte_at(values[k / (width as int)], (width - 1 - k % (width as int)) as nat),
    )
}

/// `bytes` is what `values`, `width` bytes each, look like in the memory of
/// a little-endian or of a big-endian machine.
pub open spec fn is_memory_image(bytes: Seq<u8>, values: Seq<int>, width: nat) -> bool {
    bytes == little_endian(values, width) || bytes == big_endian(values, width)
}

/// 32-bit scalars as numbers.
pub open spec fn word_values(words: Seq<u32>) -> Seq<int> {
    words.map_values(|word: u32| word as int)
}

/// 16-bit indices as numbers.
pub open spec fn index_values(indices: Seq<u16>) -> Seq<int> {
    indices.map_values(|index: u16| index as int)
}

/// Views `words` as the bytes it occupies, through `bytemuck::cast_slice`.
/// That function reinterprets the memory of the slice, so the result is
/// four bytes for each scalar, in the byte order of the machine. It cannot
/// fail for a target of single bytes.
#[verifier::external_body]
pub(crate) fn words_as_bytes(words: &[u32]) -> (bytes: &[u8])
    ensures
        is_memory_image(bytes@, word_values(words@), 4),
{
    bytemuck::cast_slice(words)
}

/// Views `indices` as the bytes it occupies, through
/// `bytemuck::cast_slice`. That function reinterprets the memory of the
/// slice, so the result is two bytes for each index, in the byte order of
/// the machine. It cannot fail for a target of single bytes.
#[verifier::external_body]
pub(crate) fn indices_as_bytes(indices: &[u16]) -> (bytes: &[u8])
    ensures
        is_memory_image(bytes@, index_values(indices@), 2),
{
    bytemuck::cast_slice(indices)
}

/// A memory image holds `width` bytes for each number.
pub proof fn lemma_memory_image_len(bytes: Seq<u8>, values: Seq<int>, width: nat)
    requires
        is_memory_image(bytes, values, width),
    ensures
        bytes.len() == values.len() * width,
{
}

} // verus!
