//! Batch entries: which stretch of the shared index buffer each shape of a
//! frame produced, and the rectangle its draw is clipped to.

use crate::tessellation::{Bound, GeometryFault};
use vstd::prelude::*;

verus! {

/// Most indices one frame can hold.
pub const MAX_INDEX_COUNT: usize = 65535;

/// The indices `start_index..end_index` of the index buffer, drawn clipped
/// to `clip_rect`.
#[derive(Copy, Clone, Debug, PartialEq, Eq)]
pub struct BatchEntry {
    pub start_index: usize,
    pub end_index: usize,
    pub clip_rect: Bound,
}

/// Why a frame could not be prepared. `shape` is the position, in the list
/// of shapes, of the shape that could not be taken in.
#[derive(Copy, Clone, Debug, PartialEq, Eq)]
pub enum PrepareError {
    /// The geometry of the shape was refused.
    Geometry { shape: usize, fault: GeometryFault },
    /// With the shape the frame would hold more than [`MAX_INDEX_COUNT`]
    /// indices.
    IndexOverflow { shape: usize },
}

impl BatchEntry {
    /// Whether index `k` of the index buffer belongs to this entry.
    pub open spec fn contains(self, k: int) -> bool {
        self.start_index <= k < self.end_index
    }
}

/// The index count up to which `entries` reach: where the last of them
/// ends, or 0 where there is none.
pub open spec fn end_of(entries: Seq<BatchEntry>) -> int {
    if entries.len() == 0 {
        0
    } else {
        entries.last().end_index as int
    }
}

/// The entries lie end to end: the first starts at index 0 and each of the
/// others where the one before it ends.
pub open spec fn contiguous(entries: Seq<BatchEntry>) -> bool {
    forall|i: int|
        0 <= i < entries.len() ==> {
            &&& (#[trigger] entries[i]).start_index <= entries[i].end_index
            &&& entries[i].start_index == end_of(entries.take(i))
        }
}

/// The entries cover the indices `0..total` without gap or overlap, in
/// their order.
pub open spec fn covers(entries: Seq<BatchEntry>, total: int) -> bool {
    contiguous(entries) && end_of(entries) == total
}

/// What `record` makes of the outcome of one shape's tessellation, for a
/// frame that holds `entries` so far: the entries afterwards, and the
/// error, if the shape could not be taken in.
pub open spec fn recorded(
    entries: Seq<BatchEntry>,
    outcome: Result<(), GeometryFault>,
    index_count: usize,
    clip_rect: Bound,
) -> (Seq<BatchEntry>, Option<PrepareError>) {
    match outcome {
        Err(fault) => (
            entries,
            Some(PrepareError::Geometry { shape: entries.len() as usize, fault }),
        ),
        Ok(()) => if index_count > MAX_INDEX_COUNT {
            (entries, Some(PrepareError::IndexOverflow { shape: entries.len() as usize }))
        } else {
            (
                entries.push(
                    BatchEntry {
                        start_index: end_of(entries) as usize,
                        end_index: index_count,
                        clip_rect,
                    },
                ),
                None,
            )
        },
    }
}

/// Takes note of one shape. `outcome` is how its tessellation ended
/// and `index_count` the number of indices the frame holds now. A shape
/// that was tessellated gets the entry that reaches from the end of the
/// entries so far to `index_count`; one that was refused, or that takes the
/// frame beyond [`MAX_INDEX_COUNT`] indices, gets none and is reported.
pub fn record(
    entries: &mut Vec<BatchEntry>,
    outcome: Result<(), GeometryFault>,
    index_count: usize,
    clip_rect: Bound,
) -> (result: Result<(), PrepareError>)
    requires
        contiguous(old(entries)@),
        end_of(old(entries)@) <= index_count,
    ensures
        final(entries)@ == recorded(old(entries)@, outcome, index_count, clip_rect).0,
        result == match recorded(old(entries)@, outcome, index_count, clip_rect).1 {
            Some(error) => Err::<(), PrepareError>(error),
            None => Ok(()),
        },
        contiguous(final(entries)@),
        result is Ok ==> covers(final(entries)@, index_count as int),
{
    let shape: usize = entries.len();
    match outcome {
        Err(fault) => Err(PrepareError::Geometry { shape, fault }),
        Ok(()) => {
            if index_count > MAX_INDEX_COUNT {
                Err(PrepareError::IndexOverflow { shape })
            } else {
                let start_index: usize = if shape == 0 {
                    0
                } else {
                    entries[shape - 1].end_index
                };
                let ghost before = entries@;
                entries.push(BatchEntry { start_index, end_index: index_count, clip_rect });
                proof {
                    assert forall|i: int| 0 <= i < entries@.len() implies {
                        &&& (#[trigger] entries@[i]).start_index <= entries@[i].end_index
                        &&& entries@[i].start_index == end_of(entries@.take(i))
                    } by {
                        assert(entries@.take(i) == before.take(i));
                        if i == before.len() {
                            assert(before.take(i) == before);
                        }
                    }
                }
                Ok(())
            }
        },
    }
}

/// In entries that lie end to end, an earlier entry ends at or before the
/// start of a later one.
pub proof fn lemma_contiguous_ordered(entries: Seq<BatchEntry>, i: int, j: int)
    requires
        contiguous(entries),
        0 <= i < j < entries.len(),
    ensures
        entries[i].end_index <= entries[j].start_index,
    decreases j - i,
{
    assert(entries.take(j).last() == entries[j - 1]);
    if i < j - 1 {
        lemma_contiguous_ordered(entries, i, j - 1);
    }
}

/// No entry of entries that lie end to end reaches beyond the last one.
pub proof fn lemma_entries_within(entries: Seq<BatchEntry>, i: int)
    requires
        contiguous(entries),
        0 <= i < entries.len(),
    ensures
        entries[i].start_index <= entries[i].end_index <= end_of(entries),
{
    let last = entries.len() - 1;
    if i < last {
        lemma_contiguous_ordered(entries, i, last);
        assert(entries[last].start_index <= entries[last].end_index);
    }
}

/// Entries that cover `0..total` partition it: every index below `total`
/// belongs to one entry, and to no other.
pub proof fn lemma_cover_is_partition(entries: Seq<BatchEntry>, total: int, k: int)
    requires
        covers(entries, total),
        0 <= k < total,
    ensures
        exists|i: int| 0 <= i < entries.len() && (#[trigger] entries[i]).contains(k),
        forall|i: int, j: int|
            0 <= i < entries.len() && 0 <= j < entries.len() && (#[trigger] entries[i]).contains(k)
                && (#[trigger] entries[j]).contains(k) ==> i == j,
{
    lemma_cover_reaches(entries, entries.len() as int, k);
    assert forall|i: int, j: int|
        0 <= i < entries.len() && 0 <= j < entries.len() && (#[trigger] entries[i]).contains(k)
            && (#[trigger] entries[j]).contains(k) implies i == j by {
        if i < j {
            lemma_contiguous_ordered(entries, i, j);
        } else if j < i {
            lemma_contiguous_ordered(entries, j, i);
        }
    }
}

/// Every index below the end of the first `n` entries belongs to one of
/// them.
proof fn lemma_cover_reaches(entries: Seq<BatchEntry>, n: int, k: int)
    requires
        contiguous(entries),
        0 <= n <= entries.len(),
        0 <= k < end_of(entries.take(n)),
    ensures
        exists|i: int| 0 <= i < n && (#[trigger] entries[i]).contains(k),
    decreases n,
{
    assert(n > 0);
    assert(entries.take(n).last() == entries[n - 1]);
    if entries[n - 1].contains(k) {
    } else {
        lemma_cover_reaches(entries, n - 1, k);
    }
}

} // verus!
