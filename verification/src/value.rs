use vstd::prelude::*;

verus! {

/// The footprint of a value's in-memory representation: its size in bytes
/// and the alignment its bytes require. For an interface-typed value the
/// footprint is a run-time quantity, derived from the concrete value at
/// the call site, not from the interface.
pub struct Footprint {
    pub size: usize,
    pub align: usize,
}

impl Footprint {
    /// An alignment is at least one byte.
    pub open spec fn wf(self) -> bool {
        self.align >= 1
    }
}

/// What a value looks like through the interface: its raw bytes and, when
/// the reference to it is wide, the metadata word that rides beside the
/// address. Two values are observationally equal exactly when their views
/// are equal.
#[verifier::ext_equal]
pub struct ValueView {
    pub bytes: Seq<u8>,
    pub meta: Option<usize>,
}

impl ValueView {
    /// Whether this value is reached through a wide (two-word) reference.
    pub open spec fn is_wide(self) -> bool {
        self.meta is Some
    }

    /// The footprint size, in bytes, of the value this view describes.
    pub open spec fn footprint_size(self) -> nat {
        self.bytes.len()
    }
}

/// A concrete value about to enter a box, captured before type erasure:
/// its raw bytes, the alignment those bytes require, and, when the value
/// will be reached through a wide reference, its metadata word (an element
/// count, or an implementation descriptor for a callable).
pub struct Value {
    bytes: Vec<u8>,
    align: usize,
    meta: Option<usize>,
}

impl View for Value {
    type V = ValueView;

    closed spec fn view(&self) -> ValueView {
        ValueView { bytes: self.bytes@, meta: self.meta }
    }
}

impl Value {
    /// The alignment this value's bytes require.
    pub closed spec fn align_spec(self) -> nat {
        self.align as nat
    }

    /// A value is well formed when its alignment is a real alignment.
    pub open spec fn wf(self) -> bool {
        self.align_spec() >= 1
    }

    /// A value reached through a thin (one-word) reference: raw bytes and
    /// their alignment, no metadata word.
    pub fn thin(bytes: Vec<u8>, align: usize) -> (v: Value)
        requires
            align >= 1,
        ensures
            v.wf(),
            v@ == (ValueView { bytes: bytes@, meta: None }),
            v.align_spec() == align,
    {
        Value { bytes, align, meta: None }
    }

    /// A value reached through a wide (two-word) reference: raw bytes,
    /// their alignment, and the metadata word.
    pub fn wide(bytes: Vec<u8>, align: usize, meta: usize) -> (v: Value)
        requires
            align >= 1,
        ensures
            v.wf(),
            v@ == (ValueView { bytes: bytes@, meta: Some(meta) }),
            v.align_spec() == align,
    {
        Value { bytes, align, meta: Some(meta) }
    }

    /// Capture this value's footprint. This happens at the call sites of
    /// the box's constructors and of `set`, before the value is erased
    /// behind the interface.
    pub fn footprint(&self) -> (f: Footprint)
        ensures
            f.size == self@.footprint_size(),
            f.align == self.align_spec(),
            self.wf() ==> f.wf(),
    {
        Footprint { size: self.bytes.len(), align: self.align }
    }

    /// Whether this value is reached through a wide reference.
    pub fn is_wide(&self) -> (r: bool)
        ensures
            r == self@.is_wide(),
    {
        self.meta.is_some()
    }

    /// Split the value into the three fields a box stores separately:
    /// bytes, alignment, metadata word.
    pub(crate) fn into_parts(self) -> (parts: (Vec<u8>, usize, Option<usize>))
        ensures
            parts.0@ == self@.bytes,
            parts.1 == self.align_spec(),
            parts.2 == self@.meta,
    {
        let Value { bytes, align, meta } = self;
        (bytes, align, meta)
    }
}

} // verus!
