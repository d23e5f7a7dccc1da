use vstd::arithmetic::power::*;
use vstd::arithmetic::power2::*;
use vstd::bits::*;
use vstd::layout::*;
use vstd::prelude::*;

verus! {

/// The bits of `word` outside `mask`: the address part of a tagged word.
pub open spec fn address_bits(word: usize, mask: usize) -> usize {
    word & !mask
}

/// The bits of `word` under `mask`: the tag part of a tagged word.
pub open spec fn tag_bits(word: usize, mask: usize) -> usize {
    word & mask
}

/// `word` with the bits under `mask` replaced by those of `tag`.
pub open spec fn tagged_word(word: usize, tag: usize, mask: usize) -> usize {
    address_bits(word, mask) | tag_bits(tag, mask)
}

/// The mask of the low address bits that the alignment of `T` leaves free.
pub open spec fn type_mask<T>() -> usize {
    (align_of::<T>() - 1) as usize
}

/// Returns a bitmask containing the unused least significant bits of an
/// aligned pointer to `T`: the alignment of `T` minus one. For an alignment
/// of one the mask is zero and every tag truncates to zero.
pub fn low_bits<T>() -> (r: usize)
    ensures
        r == type_mask::<T>(),
        r as int + 1 == align_of::<T>(),
{
    broadcast use align_nonzero;

    let align = std::mem::align_of::<T>();
    align - 1
}

/// Asserts that `raw` has all the low bits of an aligned pointer to `T` at
/// zero, the condition under which a tag can be packed into it. An
/// unaligned word is a contract violation, left out by the precondition.
pub fn ensure_aligned<T>(raw: usize)
    requires
        tag_bits(raw, type_mask::<T>()) == 0,
{
}

/// Given a tagged pointer `data`, returns the same pointer, but tagged with
/// `tag`. The tag is truncated to the unused bits of a pointer to `T`.
pub fn compose_tag<T>(data: usize, tag: usize) -> (r: usize)
    ensures
        r == tagged_word(data, tag, type_mask::<T>()),
{
    let mask = low_bits::<T>();
    (data & !mask) | (tag & mask)
}

/// Decomposes a tagged pointer `data` into the pointer and the tag.
pub fn decompose_tag<T>(data: usize) -> (r: (usize, usize))
    ensures
        r.0 == address_bits(data, type_mask::<T>()),
        r.1 == tag_bits(data, type_mask::<T>()),
{
    let mask = low_bits::<T>();
    (data & !mask, data & mask)
}

/// For a power of two `align`, keeping the bits under `align - 1` is the
/// remainder of a division by `align`.
proof fn lemma_mask_is_mod(t: usize, align: usize)
    requires
        is_pow2(align as int),
    ensures
        align > 0,
        t & ((align - 1) as usize) == t % align,
{
    broadcast use is_pow2_equiv;

    assert(is_pow2_exists(align as int));
    let e: nat = choose|e: nat| pow(2, e) == align as int;
    lemma_pow2_pos(e);
    assert(pow2(e) == align);
    unsigned_int_max_values();
    if e >= usize::BITS {
        if e > usize::BITS {
            lemma_pow2_strictly_increases(usize::BITS as nat, e);
        }
        assert(false);
    }
    lemma_usize_low_bits_mask_is_mod(t, e);
}

/// Decomposing a composed word gives back the aligned pointer and the tag
/// reduced modulo the alignment: tag bits beyond the mask are discarded, the
/// pointer is untouched.
pub proof fn lemma_compose_decompose<T>(p: usize, t: usize)
    requires
        align_of::<T>() <= usize::MAX,
        tag_bits(p, type_mask::<T>()) == 0,
    ensures
        address_bits(tagged_word(p, t, type_mask::<T>()), type_mask::<T>()) == p,
        tag_bits(tagged_word(p, t, type_mask::<T>()), type_mask::<T>()) == tag_bits(t, type_mask::<T>()),
        tag_bits(t, type_mask::<T>()) as int == t as int % align_of::<T>() as int,
{
    broadcast use align_properties;

    let m = type_mask::<T>();
    assert(((p & !m) | (t & m)) & !m == p && ((p & !m) | (t & m)) & m == t & m) by (bit_vector)
        requires
            p & m == 0,
    ;
    lemma_mask_is_mod(t, align_of::<T>() as usize);
}

} // verus!
