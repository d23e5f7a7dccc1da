use crate::codec::{
    address_bits, compose_tag, decompose_tag, lemma_compose_decompose, low_bits, tag_bits,
    tagged_word, type_mask,
};
use std::sync::Arc;
use vstd::layout::*;
use vstd::prelude::*;

verus! {

/// Relies on `Arc::as_ptr`: the address of the shared value, which is a
/// valid pointer to `T` and so is non-null and aligned for `T`.
#[verifier::external_body]
fn address_of<T>(a: &Arc<T>) -> (r: usize)
    ensures
        r != 0,
        tag_bits(r, type_mask::<T>()) == 0,
{
    Arc::as_ptr(a) as usize
}

/// Relies on `Arc::into_raw`: the strong reference leaves the `Arc` without a
/// change of the count, so the value stays alive for as long as the word that
/// names it is not turned back into an `Arc`.
#[verifier::external_body]
fn leak_into_word<T>(a: Arc<T>) -> (r: usize)
    ensures
        r != 0,
        tag_bits(r, type_mask::<T>()) == 0,
{
    Arc::into_raw(a) as usize
}

/// Relies on `Arc::clone`: a new strong reference to the same value.
#[verifier::external_body]
pub(crate) fn share<T>(a: &Arc<T>) -> (r: Arc<T>)
    ensures
        r == *a,
{
    Arc::clone(a)
}

/// An owned strong reference to a shared `T` together with a tag.
///
/// Semantically the handle is one machine word: the address of the pointee
/// with the tag in the low bits that the alignment of `T` leaves free. The
/// handle owns exactly one strong reference, released when it is dropped.
pub struct TaggedArc<T> {
    arc: Arc<T>,
    data: usize,
}

impl<T> TaggedArc<T> {
    /// The word of the handle: the pointee's address with the tag in its low
    /// bits.
    pub closed spec fn word(&self) -> usize {
        self.data
    }

    /// The shared value the handle refers to.
    pub closed spec fn value(&self) -> T {
        *self.arc
    }

    /// The address part of the word.
    pub open spec fn address(&self) -> usize {
        address_bits(self.word(), type_mask::<T>())
    }

    /// The tag part of the word.
    pub open spec fn tag_value(&self) -> usize {
        tag_bits(self.word(), type_mask::<T>())
    }

    #[verifier::type_invariant]
    spec fn inv(self) -> bool {
        address_bits(self.data, type_mask::<T>()) != 0
    }

    /// Allocates `val` and returns a handle with tag zero.
    pub fn new(val: T) -> (r: Self)
        ensures
            r.value() == val,
            r.tag_value() == 0,
    {
        Self::from_arc(Arc::new(val))
    }

    /// Allocates `val` and returns a handle with the given tag, truncated to
    /// the bits that the alignment of `T` leaves free.
    pub fn new_with_tag(val: T, tag: usize) -> (r: Self)
        ensures
            r.value() == val,
            r.tag_value() == tag_bits(tag, type_mask::<T>()),
    {
        Self::compose(Arc::new(val), tag)
    }

    /// Takes over the strong reference of `val`, with tag zero; the count is
    /// unchanged.
    pub fn from_arc(val: Arc<T>) -> (r: Self)
        ensures
            r.value() == *val,
            r.tag_value() == 0,
    {
        let data = address_of(&val);
        proof {
            let m = type_mask::<T>();
            assert(data & m == 0 && data != 0 ==> data & !m == data) by (bit_vector);
        }
        TaggedArc { arc: val, data }
    }

    /// Takes over the strong reference of `ptr` and tags it with `tag`,
    /// truncated to the bits that the alignment of `T` leaves free.
    pub fn compose(ptr: Arc<T>, tag: usize) -> (r: Self)
        ensures
            r.value() == *ptr,
            r.tag_value() == tag_bits(tag, type_mask::<T>()),
    {
        let raw = address_of(&ptr);
        let data = compose_tag::<T>(raw, tag);
        layout_for_type_is_valid::<T>();
        proof {
            lemma_compose_decompose::<T>(raw, tag);
        }
        TaggedArc { arc: ptr, data }
    }

    /// Gives up the handle and returns its strong reference; the tag is
    /// dropped and the count is unchanged.
    pub fn into_arc(self) -> (r: Arc<T>)
        ensures
            *r == self.value(),
    {
        self.arc
    }

    /// Gives up the handle and returns its strong reference and its tag.
    pub fn decompose(ptr: TaggedArc<T>) -> (r: (Arc<T>, usize))
        ensures
            *r.0 == ptr.value(),
            r.1 == ptr.tag_value(),
    {
        let tag = ptr.tag();
        (ptr.arc, tag)
    }

    /// The word of the handle, which keeps its reference.
    pub fn as_usize(&self) -> (r: usize)
        ensures
            r == self.word(),
    {
        self.data
    }

    /// Gives up the handle and returns its word. The strong reference moves
    /// into the word and is never released: this library has no way back
    /// from a word to a handle, so the pointee is leaked for good.
    pub fn into_usize(self) -> (r: usize)
        ensures
            r == self.word(),
    {
        let data = self.data;
        let _ = leak_into_word(self.arc);
        data
    }

    /// The address of the pointee, without the tag.
    pub fn as_raw(&self) -> (r: usize)
        ensures
            r == self.address(),
            r != 0,
            tag_bits(r, type_mask::<T>()) == 0,
    {
        proof {
            use_type_invariant(self);
        }
        let (raw, _) = decompose_tag::<T>(self.data);
        proof {
            let m = type_mask::<T>();
            let w = self.data;
            assert(raw == w & !m ==> raw & m == 0) by (bit_vector);
        }
        raw
    }

    /// Gives up the handle and returns the address of the pointee, without
    /// the tag. As with `into_usize`, the strong reference is never
    /// released, so the pointee is leaked for good.
    pub fn into_raw(self) -> (r: usize)
        ensures
            r == self.address(),
            r != 0,
    {
        let raw = self.as_raw();
        let _ = leak_into_word(self.arc);
        raw
    }

    /// The tag of the handle.
    pub fn tag(&self) -> (r: usize)
        ensures
            r == self.tag_value(),
            r <= type_mask::<T>(),
    {
        let (_, tag) = decompose_tag::<T>(self.data);
        proof {
            let m = type_mask::<T>();
            let w = self.data;
            assert(tag == w & m ==> tag <= m) by (bit_vector);
        }
        tag
    }

    /// The same reference with its tag replaced by `tag`, truncated to the
    /// bits that the alignment of `T` leaves free. The address and the count
    /// are unchanged.
    pub fn with_tag(self, tag: usize) -> (r: Self)
        ensures
            r.value() == self.value(),
            r.word() == tagged_word(self.word(), tag, type_mask::<T>()),
            r.address() == self.address(),
            r.tag_value() == tag_bits(tag, type_mask::<T>()),
    {
        proof {
            use_type_invariant(&self);
        }
        let data = compose_tag::<T>(self.data, tag);
        proof {
            let m = type_mask::<T>();
            let w = self.data;
            assert(((w & !m) | (tag & m)) & !m == w & !m && ((w & !m) | (tag & m)) & m == tag & m)
                by (bit_vector);
        }
        TaggedArc { arc: self.arc, data }
    }
}

impl<T> Clone for TaggedArc<T> {
    /// A new handle with the same word: the count of the pointee goes up by
    /// one, and the two handles are released independently.
    fn clone(&self) -> (r: Self)
        ensures
            r.word() == self.word(),
            r.value() == self.value(),
    {
        proof {
            use_type_invariant(self);
        }
        TaggedArc { arc: share(&self.arc), data: self.data }
    }
}

/// Two handles to the same pointee with different tags have different
/// words, so a slot's word comparison tells them apart even though the
/// pointee is one and the same.
pub proof fn lemma_tag_distinguishes<T>(a: TaggedArc<T>, b: TaggedArc<T>)
    requires
        a.address() == b.address(),
        a.tag_value() != b.tag_value(),
    ensures
        a.word() != b.word(),
{
}

/// A handle's word is its address with its tag in the free low bits, so two
/// handles with the same address and tag have the same word.
pub proof fn lemma_word_parts<T>(a: TaggedArc<T>, b: TaggedArc<T>)
    requires
        a.address() == b.address(),
        a.tag_value() == b.tag_value(),
    ensures
        a.word() == b.word(),
{
    let m = type_mask::<T>();
    let x = a.word();
    let y = b.word();
    assert(x & !m == y & !m && x & m == y & m ==> x == y) by (bit_vector);
}

} // verus!
