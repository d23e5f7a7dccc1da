//! Tagged, reference-counted pointers and atomic slots that hold them.
//!
//! A tag is a small integer kept in the low bits of a pointer that the
//! pointee's alignment leaves at zero. The `codec` module packs and unpacks
//! such tags, `handle` defines the owned handle `TaggedArc`, and `slot`
//! defines the lock-free slots `AtomicArc` and `AtomicOptionArc`.
pub mod codec;
pub mod handle;
pub mod ordering;
pub mod slot;

pub use codec::{compose_tag, decompose_tag, ensure_aligned, low_bits};
pub use handle::TaggedArc;
pub use ordering::{is_load_ordering, is_store_ordering};
pub use slot::{Atomic, AtomicArc, AtomicOptionArc};
