use vstd::prelude::*;

verus! {

// The allocator boundary the box consumes, modeled safely: a block of raw
// storage is an owned byte vector, so an address is the block's identity
// and a zero-size "allocation" is the empty block. Exhaustion needs no
// failure signal in this model: if memory truly runs out, constructing the
// vector aborts the process, which is exactly the fatal out-of-memory
// policy the box specifies. A block is released by dropping it; no caller
// releases storage by hand, so a release can never be missed or doubled.

/// Request a fresh block of `size` bytes at alignment `align`. Callers
/// learn the block's size and nothing of its contents, as from a real
/// allocator, whose fresh blocks arrive with arbitrary bytes.
pub(crate) fn allocate(size: usize, align: usize) -> (block: Vec<u8>)
    requires
        align >= 1,
    ensures
        block@.len() == size,
{
    let block: Vec<u8> = vec![0u8; size];
    block
}

/// Grow or shrink `block` from `old_size` to `new_size` bytes at alignment
/// `align`. As a reallocation promises, the bytes below
/// `min(old_size, new_size)` keep their values (possibly at a new address);
/// any bytes above are arbitrary.
pub(crate) fn reallocate(block: &mut Vec<u8>, old_size: usize, new_size: usize, align: usize)
    requires
        old(block)@.len() == old_size,
        align >= 1,
    ensures
        final(block)@.len() == new_size,
        forall|i: int|
            0 <= i < old_size && i < new_size ==> final(block)@[i] == old(block)@[i],
{
    block.resize(new_size, 0u8);
    proof {
        if new_size <= old_size {
            assert forall|i: int| 0 <= i < old_size && i < new_size implies block@[i] == old(
                block,
            )@[i] by {
                assert(block@[i] == old(block)@.subrange(0, new_size as int)[i]);
            }
        } else {
            assert forall|i: int| 0 <= i < old_size && i < new_size implies block@[i] == old(
                block,
            )@[i] by {
                assert(block@.subrange(0, old_size as int)[i] == old(block)@[i]);
            }
        }
    }
}

} // verus!
