//! A growable single-slot box: one heap block that owns exactly one value
//! whose concrete shape may change at run time, reached only through an
//! abstract interface view (its raw bytes plus, for wide references, a
//! metadata word). The box supports caller-controlled over-allocation
//! (`with_capacity`, `grow`) and in-place replacement (`set`) that reuses
//! the block when it is large enough and reallocates otherwise.
//!
//! Raw storage is modeled as an owned block of bytes, so every step of the
//! choreography — sizing the allocation to the value's footprint, keeping
//! the metadata word beside (never inside) the block, destroying the old
//! value before its bytes are overwritten — is verified rather than trusted.

mod growbox;
mod storage;
mod value;

pub use growbox::Grow;
pub use growbox::GrowView;
pub use value::Footprint;
pub use value::Value;
pub use value::ValueView;
