use std::sync::Arc;
use tagged_arc::{compose_tag, decompose_tag, ensure_aligned, low_bits};

#[test]
fn atomic_low_bits_of_arc() {
    // The mask is the alignment minus one: an `Arc` is aligned to 8 bytes.
    let align = low_bits::<Arc<i8>>();
    println!("{:b}", &align);
    assert_eq!(align, (1 << 3) - 1);
}

#[test]
fn atomic_tag() {
    let ptr = Arc::new(1i32);
    let raw = Arc::into_raw(ptr) as usize;
    let tag = 0b01;
    let tagged = compose_tag::<i32>(raw, tag);
    let (raw1, tag1) = decompose_tag::<i32>(tagged);

    println!("raw: 0x{:x}", &raw);
    println!("tag: 0x{:x}", &tag);
    println!("tagged: 0x{:x}", &tagged);
    println!("raw1: 0x{:x}", &raw1);
    println!("tag1: 0x{:x}", &tag1);
    assert_eq!(raw, raw1);
    assert_eq!(tag, tag1);
}

#[test]
fn pointer_low_bits_of_arc() {
    let align = low_bits::<Arc<i8>>();
    println!("{:b}", &align);
    assert_eq!(align, (1 << 3) - 1);
}

#[test]
fn pointer_tag() {
    let ptr = Arc::new(1i32);
    let raw = Arc::into_raw(ptr) as usize;
    let tag = 0b01;
    let tagged = compose_tag::<i32>(raw, tag);
    let (raw1, tag1) = decompose_tag::<i32>(tagged);

    println!("raw: 0x{:x}", &raw);
    println!("tag: 0x{:x}", &tag);
    println!("tagged: 0x{:x}", &tagged);
    println!("raw1: 0x{:x}", &raw1);
    println!("tag1: 0x{:x}", &tag1);
    assert_eq!(raw, raw1);
    assert_eq!(tag, tag1);
}

#[test]
fn tag_low_bits_of_arc() {
    let align = low_bits::<Arc<&str>>();
    println!("{:b}", &align);
    assert_eq!(align, (1 << 3) - 1);
}

#[test]
fn tag_tag() {
    let ptr = Arc::new(1);
    let raw = Arc::into_raw(ptr) as usize;
    let tag = 0b01;
    let tagged = compose_tag::<Arc<&str>>(raw, tag);
    let (raw1, tag1) = decompose_tag::<Arc<&str>>(tagged);

    println!("raw: 0x{:x}", &raw);
    println!("tag: 0x{:x}", &tag);
    println!("tagged: 0x{:x}", &tagged);
    println!("raw1: 0x{:x}", &raw1);
    println!("tag1: 0x{:x}", &tag1);
    assert_eq!(raw, raw1);
    assert_eq!(tag, tag1);
}

#[test]
fn test_raw_addr() {
    let val = 23;

    let first = Arc::new(val);
    println!("Arc: {:p}", first);
    let raw = Arc::into_raw(first);
    println!("*const T: {:p}", raw);
    let data = raw as usize;
    println!("usize: 0x{:x}", data);
    let nzeros = data.trailing_zeros();
    println!("trailing zeros in bin: {:?}", nzeros);

    let align = std::mem::align_of::<Arc<i32>>();
    println!("align: {:?}", &align);
    let mask = low_bits::<Arc<i32>>();
    println!("low bits mask of Arc<&str>: {:?}", mask);
}

#[test]
fn check_align() {
    let ptr = Arc::new("data");
    let align = std::mem::align_of_val(&ptr);
    println!("{:?}", align);
    let align = std::mem::align_of::<Arc<u8>>();
    println!("{:?}", align);
}

#[test]
fn neighbor_ptr() {
    let first = Arc::new(1);
    let second = Arc::new(2);

    println!("{:p}", first);
    println!("{:p}", second);
}

#[test]
fn size_of_option_arc() {
    let size = std::mem::size_of::<Option<Arc<std::num::NonZeroUsize>>>();
    println!("{:?}", &size);
    assert_eq!(size, std::mem::size_of::<usize>());
}

struct ArcWrapper<T>(Arc<T>);

#[test]
fn size_of_option_wrapper_arc() {
    let size = std::mem::size_of::<ArcWrapper<&str>>();
    println!("{:?}", size);
    let wrapper = ArcWrapper(Arc::new("data"));
    assert_eq!(*wrapper.0, "data");
}

#[test]
fn test_size_of_ptrs() {
    let val = "12313231312321";
    let arc_ptr = Arc::new(val);
    let box_ptr = Box::new(val);

    println!("size(Arc) {:?}", std::mem::size_of_val(&arc_ptr));
    println!("size(Box) {:?}", std::mem::size_of_val(&box_ptr));

    let raw_arc = Arc::into_raw(arc_ptr);
    let raw_box = Box::into_raw(box_ptr);
    println!("size(raw Arc) {:?}", std::mem::size_of_val(&raw_arc));
    println!("size(raw Box) {:?}", std::mem::size_of_val(&raw_box));
}

#[test]
fn mask_of_byte_aligned_type_is_zero() {
    assert_eq!(low_bits::<u8>(), 0);
    assert_eq!(compose_tag::<u8>(0x1001, 0xff), 0x1001);
    assert_eq!(decompose_tag::<u8>(0x1001), (0x1001, 0));
}

#[test]
fn mask_follows_alignment() {
    assert_eq!(low_bits::<u16>(), 1);
    assert_eq!(low_bits::<u32>(), 3);
    assert_eq!(low_bits::<u64>(), std::mem::align_of::<u64>() - 1);
}

#[test]
fn compose_truncates_and_replaces_tag() {
    // An 8-byte alignment leaves three tag bits.
    assert_eq!(compose_tag::<Arc<u8>>(0x1000, 0b1011), 0x1003);
    assert_eq!(compose_tag::<Arc<u8>>(0x1005, 0b010), 0x1002);
    assert_eq!(decompose_tag::<Arc<u8>>(0x1007), (0x1000, 7));
}

#[test]
fn round_trip_keeps_pointer_and_reduces_tag() {
    for tag in 0..40usize {
        let word = compose_tag::<Arc<u8>>(0x7f08, tag);
        assert_eq!(decompose_tag::<Arc<u8>>(word), (0x7f08, tag % 8));
    }
}

#[test]
fn alignment_check() {
    ensure_aligned::<u32>(0x1000);
    ensure_aligned::<u64>(0x2000);
    ensure_aligned::<u8>(0x1003);
    let arc = Arc::new(1u32);
    ensure_aligned::<u32>(Arc::as_ptr(&arc) as usize);
    assert_eq!(compose_tag::<u32>(0x1000, 0), 0x1000);
}
