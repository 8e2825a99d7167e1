//! A fixed-width bit set that records which regions of a buffer are dirty.

use vstd::prelude::*;

verus! {

/// Number of flags held by one block of the bit set.
pub const DIRTY_FLAG_BITS_PER_BLOCK: usize = 64;

/// A bit set of `64 * N` dirty flags, stored as `N` blocks of 64 bits.
///
/// A set flag means that the region with that index has diverged from its
/// remote copy and has to be copied again.
#[derive(Clone, Copy)]
pub struct DirtyFlags<const N: usize> {
    blocks: [u64; N],
}

/// Whether bit `bit` of `block` is set.
pub open spec fn bit_is_set(block: u64, bit: u64) -> bool {
    (block >> bit) & 1 == 1
}

proof fn lemma_bit_after_or(block: u64, bit: u64, other: u64)
    requires
        bit < 64,
        other < 64,
    ensures
        bit_is_set(block | (1u64 << bit), other) == (other == bit || bit_is_set(block, other)),
{
    assert(((block | (1u64 << bit)) >> other) & 1 == 1 <==> (other == bit || (block >> other) & 1
        == 1)) by (bit_vector)
        requires
            bit < 64,
            other < 64,
    ;
}

proof fn lemma_no_bit_in_zero(bit: u64)
    requires
        bit < 64,
    ensures
        !bit_is_set(0, bit),
{
    assert((0u64 >> bit) & 1 != 1) by (bit_vector)
        requires
            bit < 64,
    ;
}

impl<const N: usize> View for DirtyFlags<N> {
    type V = Seq<bool>;

    /// The flags in index order: entry `i` tells whether region `i` is marked.
    closed spec fn view(&self) -> Seq<bool> {
        Seq::new(
            (64 * N) as nat,
            |i: int| bit_is_set(self.blocks@[i / 64], (i % 64) as u64),
        )
    }
}

impl<const N: usize> DirtyFlags<N> {
    /// Number of flags in the set.
    pub open spec fn spec_size() -> nat {
        (64 * N) as nat
    }

    /// The set always holds exactly `64 * N` flags.
    pub proof fn lemma_len(&self)
        ensures
            self@.len() == Self::spec_size(),
    {
    }

    /// Number of flags in the set.
    pub fn size() -> (n: usize)
        requires
            Self::spec_size() <= usize::MAX,
        ensures
            n == Self::spec_size(),
    {
        DIRTY_FLAG_BITS_PER_BLOCK * N
    }

    /// A set with every flag clear.
    pub fn new() -> (flags: Self)
        ensures
            flags@.len() == Self::spec_size(),
            forall|i: int| 0 <= i < flags@.len() ==> !flags@[i],
    {
        let flags = DirtyFlags { blocks: [0u64;N] };
        proof {
            assert forall|i: int| 0 <= i < flags@.len() implies !flags@[i] by {
                lemma_no_bit_in_zero((i % 64) as u64);
            }
        }
        flags
    }

    /// Sets flag `idx` and leaves every other flag as it was.
    ///
    /// An index outside the set is a caller error, ruled out by the
    /// precondition; compiled callers that break it abort on the block lookup.
    pub fn mark(&mut self, idx: usize)
        requires
            idx < Self::spec_size(),
        ensures
            final(self)@ == old(self)@.update(idx as int, true),
    {
        let block_idx = idx / DIRTY_FLAG_BITS_PER_BLOCK;
        let bit_idx = idx % DIRTY_FLAG_BITS_PER_BLOCK;
        let before: u64 = self.blocks[block_idx];
        self.blocks[block_idx] = before | (1u64 << bit_idx);
        proof {
            assert forall|i: int| 0 <= i < self@.len() implies self@[i] == old(self)@.update(
                idx as int,
                true,
            )[i] by {
                if i / 64 == block_idx as int {
                    lemma_bit_after_or(before, bit_idx as u64, (i % 64) as u64);
                }
            }
            assert(self@ =~= old(self)@.update(idx as int, true));
        }
    }

    /// Reads flag `idx`.
    pub fn is_marked(&self, idx: usize) -> (marked: bool)
        requires
            idx < Self::spec_size(),
        ensures
            marked == self@[idx as int],
    {
        let block: u64 = self.blocks[idx / DIRTY_FLAG_BITS_PER_BLOCK];
        let shifted: u64 = block >> ((idx % DIRTY_FLAG_BITS_PER_BLOCK) as u64);
        assert((shifted & 1 != 0) == (shifted & 1 == 1)) by (bit_vector);
        shifted & 1 != 0
    }

    /// All flags in index order.
    pub fn iter_bits(&self) -> (bits: Vec<bool>)
        requires
            Self::spec_size() <= usize::MAX,
        ensures
            bits@ == self@,
    {
        let total = Self::size();
        let mut bits: Vec<bool> = Vec::new();
        let mut i: usize = 0;
        while i < total
            invariant
                total == Self::spec_size(),
                i <= total,
                bits@ == self@.take(i as int),
            decreases total - i,
        {
            bits.push(self.is_marked(i));
            i += 1;
            assert(bits@ =~= self@.take(i as int));
        }
        assert(bits@ =~= self@);
        bits
    }

    /// The indices of the set flags, in ascending order.
    pub fn iter_marked(&self) -> (marked: Vec<usize>)
        requires
            Self::spec_size() <= usize::MAX,
        ensures
            is_ascending(marked@),
            forall|k: int| 0 <= k < marked@.len() ==> marked@[k] < self@.len() && self@[marked@[k] as int],
            forall|i: int| 0 <= i < self@.len() && self@[i] ==> marked@.contains(i as usize),
    {
        let total = Self::size();
        let mut marked: Vec<usize> = Vec::new();
        let mut i: usize = 0;
        while i < total
            invariant
                total == Self::spec_size(),
                total == self@.len(),
                i <= total,
                is_ascending(marked@),
                forall|k: int| 0 <= k < marked@.len() ==> marked@[k] < i && self@[marked@[k] as int],
                forall|j: int| 0 <= j < i && self@[j] ==> marked@.contains(j as usize),
            decreases total - i,
        {
            if self.is_marked(i) {
                let ghost before = marked@;
                marked.push(i);
                proof {
                    assert forall|j: int| 0 <= j < i + 1 && self@[j] implies marked@.contains(
                        j as usize,
                    ) by {
                        if j < i {
                            let k = choose|k: int| 0 <= k < before.len() && before[k] == j as usize;
                            assert(marked@[k] == j as usize);
                        } else {
                            assert(marked@[before.len() as int] == i);
                        }
                    }
                }
            }
            i += 1;
        }
        marked
    }

    /// Clears every flag.
    pub fn clear(&mut self)
        ensures
            final(self)@.len() == Self::spec_size(),
            forall|i: int| 0 <= i < final(self)@.len() ==> !final(self)@[i],
    {
        let mut b: usize = 0;
        while b < N
            invariant
                b <= N,
                forall|j: int| 0 <= j < b ==> self.blocks@[j] == 0,
            decreases N - b,
        {
            self.blocks[b] = 0u64;
            b += 1;
        }
        proof {
            assert forall|i: int| 0 <= i < self@.len() implies !self@[i] by {
                lemma_no_bit_in_zero((i % 64) as u64);
            }
        }
    }
}

impl<const N: usize> Default for DirtyFlags<N> {
    /// A set with every flag clear.
    fn default() -> (flags: Self)
        ensures
            flags@.len() == Self::spec_size(),
            forall|i: int| 0 <= i < flags@.len() ==> !flags@[i],
    {
        DirtyFlags::new()
    }
}

/// Each entry is strictly greater than the one before it.
pub open spec fn is_ascending(s: Seq<usize>) -> bool {
    forall|a: int, b: int| 0 <= a < b < s.len() ==> s[a] < s[b]
}

} // verus!
