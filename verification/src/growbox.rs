use crate::storage;
use crate::value::Value;
use crate::value::ValueView;
use vstd::math::max;
use vstd::pervasive::VecAdditionalExecFns;
use vstd::prelude::*;
use vstd::slice::slice_subrange;

verus! {

/// Everything observable about a box: the stored value's bytes, the
/// metadata word of a wide owning reference (`None` for a thin one), the
/// allocation size, the stored value's alignment, and how many values the
/// box has destroyed in place so far.
#[verifier::ext_equal]
pub struct GrowView {
    pub value: Seq<u8>,
    pub meta: Option<usize>,
    pub capacity: nat,
    pub align: nat,
    pub destructions: nat,
}

impl GrowView {
    /// The interface view of the value currently stored.
    pub open spec fn stored(self) -> ValueView {
        ValueView { bytes: self.value, meta: self.meta }
    }

    /// Whether the box's owning reference is wide (carries a metadata word).
    pub open spec fn is_wide(self) -> bool {
        self.meta is Some
    }
}

/// A single-slot growable box. It owns one block of raw storage, always at
/// least as large as the footprint of the one value living inside it, and
/// yields that value only as its interface view. The owning reference is a
/// block plus an optional metadata word: the word sits beside the address,
/// never inside the block, so growth can relocate the block while the word
/// stays untouched.
///
/// Destroying a value is an observable event here: the box counts the
/// in-place destructions `set` performs, so a replacement can be checked to
/// destroy the previous value exactly once.
pub struct Grow {
    /// The owned allocation. Its length is always `capacity`; the empty
    /// block is the sentinel that stands in for a real address while the
    /// capacity is zero, so a zero-size request never reaches the allocator.
    block: Vec<u8>,
    /// The allocation size in bytes.
    capacity: usize,
    /// The metadata word of a wide owning reference; `None` for a thin box.
    meta: Option<usize>,
    /// The footprint size of the value currently stored.
    live: usize,
    /// The alignment of the value currently stored.
    align: usize,
    /// How many values this box has destroyed in place.
    destroyed: usize,
}

impl View for Grow {
    type V = GrowView;

    closed spec fn view(&self) -> GrowView {
        GrowView {
            value: self.block@.subrange(0, self.live as int),
            meta: self.meta,
            capacity: self.capacity as nat,
            align: self.align as nat,
            destructions: self.destroyed as nat,
        }
    }
}

/// Copy `src` over the front of `dst`, leaving the bytes past `src`'s end
/// as they were: the byte copy that writes a value into an allocation.
fn write_bytes(dst: &mut Vec<u8>, src: &Vec<u8>)
    requires
        src@.len() <= old(dst)@.len(),
    ensures
        final(dst)@.len() == old(dst)@.len(),
        final(dst)@.subrange(0, src@.len() as int) == src@,
        forall|i: int| src@.len() <= i < old(dst)@.len() ==> final(dst)@[i] == old(dst)@[i],
{
    let n = src.len();
    let mut i: usize = 0;
    while i < n
        invariant
            i <= n,
            n == src@.len(),
            dst@.len() == old(dst)@.len(),
            n <= dst@.len(),
            forall|j: int| 0 <= j < i ==> dst@[j] == src@[j],
            forall|j: int| i <= j < dst@.len() ==> dst@[j] == old(dst)@[j],
        decreases n - i,
    {
        dst.set(i, src[i]);
        i += 1;
    }
    proof {
        assert(dst@.subrange(0, n as int) =~= src@);
    }
}

/// Allocate a fresh block when the box still holds the sentinel, or ask the
/// allocator to reallocate the existing block otherwise. Either way the
/// surviving bytes are the ones below `min(old_size, size)`; the metadata
/// word is no concern of this step, since it lives beside the address.
fn alloc_or_realloc(block: &mut Vec<u8>, size: usize, old_size: usize, align: usize)
    requires
        old(block)@.len() == old_size,
        align >= 1,
    ensures
        final(block)@.len() == size,
        forall|i: int| 0 <= i < old_size && i < size ==> final(block)@[i] == old(block)@[i],
{
    if old_size == 0 {
        *block = storage::allocate(size, align);
    } else {
        storage::reallocate(block, old_size, size, align);
    }
}

impl Grow {
    /// A box is well formed when the block is exactly the recorded
    /// capacity, the stored value fits inside it, and the recorded
    /// alignment is a real alignment.
    pub closed spec fn wf(self) -> bool {
        &&& self.block@.len() == self.capacity
        &&& self.live <= self.capacity
        &&& self.align >= 1
    }

    /// Create a box around `v` with an allocation of
    /// `max(capacity, v's footprint)` bytes, letting a caller pre-size the
    /// storage to absorb later replacements without reallocation. When that
    /// size is zero, no allocation is requested: the box keeps the sentinel
    /// and records capacity zero.
    pub fn with_capacity(v: Value, capacity: usize) -> (g: Grow)
        requires
            v.wf(),
        ensures
            g.wf(),
            g@.stored() == v@,
            g@.capacity == max(capacity as int, v@.footprint_size() as int),
            g@.align == v.align_spec(),
            g@.destructions == 0,
    {
        let f = v.footprint();
        let size = if capacity > f.size {
            capacity
        } else {
            f.size
        };
        let (bytes, align, meta) = v.into_parts();
        let block: Vec<u8> = if size == 0 {
            Vec::new()
        } else {
            let mut b = storage::allocate(size, align);
            write_bytes(&mut b, &bytes);
            b
        };
        let g = Grow { block, capacity: size, meta, live: f.size, align, destroyed: 0 };
        proof {
            assert(g@.stored().bytes =~= v@.bytes);
        }
        g
    }

    /// Create a box sized exactly to `v`'s footprint. A value of zero
    /// footprint gets the sentinel: no allocation is requested and the
    /// recorded capacity is zero.
    pub fn new(v: Value) -> (g: Grow)
        requires
            v.wf(),
        ensures
            g.wf(),
            g@.stored() == v@,
            g@.capacity == v@.footprint_size(),
            g@.align == v.align_spec(),
            g@.destructions == 0,
    {
        Grow::with_capacity(v, 0)
    }

    /// The current allocation size in bytes. A pure accessor.
    pub fn capacity_bytes(&self) -> (n: usize)
        ensures
            n == self@.capacity,
    {
        self.capacity
    }

    /// Ensure at least `size` bytes of capacity. A request at or below the
    /// current capacity changes nothing at all — capacity is monotonic and
    /// this operation never shrinks. A larger request reallocates the block
    /// at the stored value's alignment: the capacity becomes exactly
    /// `size`, while the value's bytes, the metadata word, and the
    /// destruction count are untouched.
    pub fn grow(&mut self, size: usize)
        requires
            old(self).wf(),
        ensures
            final(self).wf(),
            final(self)@ == (GrowView {
                capacity: max(old(self)@.capacity as int, size as int) as nat,
                ..old(self)@
            }),
            size <= old(self)@.capacity ==> *final(self) == *old(self),
    {
        if size > self.capacity {
            alloc_or_realloc(&mut self.block, size, self.capacity, self.align);
            self.capacity = size;
            proof {
                assert(self@.value =~= old(self)@.value);
            }
        }
    }

    /// Run the stored value's cleanup while its bytes are still intact.
    /// In this model a destruction is a counted event: the bytes stay in
    /// the block (they are dead until overwritten), and the count says the
    /// cleanup ran exactly once.
    fn destroy_in_place(&mut self)
        requires
            old(self).destroyed < usize::MAX,
        ensures
            final(self)@ == (GrowView {
                destructions: old(self)@.destructions + 1,
                ..old(self)@
            }),
            final(self).wf() == old(self).wf(),
    {
        self.destroyed = self.destroyed + 1;
    }

    /// How many values this box has destroyed in place over its lifetime.
    pub fn destructions(&self) -> (n: usize)
        ensures
            n == self@.destructions,
    {
        self.destroyed
    }

    /// Replace the stored value with `v`, whatever `v`'s footprint: grow
    /// the capacity to cover it (which may reallocate and never shrinks),
    /// destroy the current value in place while its bytes are still its
    /// own, then write `v`'s bytes and — only for a wide reference — its
    /// metadata word. Address and metadata move as two independent fields:
    /// growth may have relocated the block, while the word beside it is
    /// unrelated to the storage address.
    pub fn set(&mut self, v: Value)
        requires
            old(self).wf(),
            v.wf(),
            v@.is_wide() == old(self)@.is_wide(),
            old(self)@.destructions < usize::MAX,
        ensures
            final(self).wf(),
            final(self)@.stored() == v@,
            final(self)@.capacity == max(
                old(self)@.capacity as int,
                v@.footprint_size() as int,
            ),
            final(self)@.align == v.align_spec(),
            final(self)@.destructions == old(self)@.destructions + 1,
            final(self)@.is_wide() == old(self)@.is_wide(),
    {
        let f = v.footprint();
        self.grow(f.size);
        let (bytes, align, meta) = v.into_parts();
        self.destroy_in_place();
        write_bytes(&mut self.block, &bytes);
        self.live = f.size;
        self.align = align;
        if let Some(word) = meta {
            self.meta = Some(word);
        }
        proof {
            assert(self@.stored().bytes =~= v@.bytes);
        }
    }

    /// The interface view of the stored value: a borrow of its bytes.
    /// Valid until the next operation that may relocate the block.
    pub fn value_bytes(&self) -> (r: &[u8])
        requires
            self.wf(),
        ensures
            r@ == self@.value,
    {
        slice_subrange(self.block.as_slice(), 0, self.live)
    }

    /// The metadata word that rides beside the address; `None` for a thin
    /// box.
    pub fn metadata_word(&self) -> (r: Option<usize>)
        ensures
            r == self@.meta,
    {
        self.meta
    }

    /// Write one byte of the stored value in place: the mutable face of the
    /// interface view. No destruction, no growth, no reallocation — only
    /// the addressed byte of the value changes.
    pub fn set_value_byte(&mut self, i: usize, b: u8)
        requires
            old(self).wf(),
            i < old(self)@.value.len(),
        ensures
            final(self).wf(),
            final(self)@ == (GrowView { value: old(self)@.value.update(i as int, b), ..old(self)@ }),
    {
        self.block.set(i, b);
        proof {
            assert(self@.value =~= old(self)@.value.update(i as int, b));
        }
    }
}

} // verus!
