use kvm_bindings::kvm_cpuid2;
use kvm_bindings::kvm_cpuid_entry2;
use kvm_ioctls::vec_with_array_field;
use kvm_ioctls::vec_with_size_in_bytes;
use std::mem::size_of;

#[test]
fn size_in_bytes_of_zero_gives_an_empty_vector() {
    let v = vec_with_size_in_bytes::<u64>(0);
    assert!(v.is_empty());
}

#[test]
fn size_in_bytes_rounds_up_to_whole_elements() {
    assert_eq!(vec_with_size_in_bytes::<u64>(1).len(), 1);
    assert_eq!(vec_with_size_in_bytes::<u64>(7).len(), 1);
    assert_eq!(vec_with_size_in_bytes::<u64>(8).len(), 1);
    assert_eq!(vec_with_size_in_bytes::<u64>(9).len(), 2);
    assert_eq!(vec_with_size_in_bytes::<u64>(16).len(), 2);
    assert_eq!(vec_with_size_in_bytes::<u64>(17).len(), 3);
}

#[test]
fn size_in_bytes_of_single_bytes_is_exact() {
    assert_eq!(vec_with_size_in_bytes::<u8>(13).len(), 13);
}

#[test]
fn size_in_bytes_covers_the_request_with_less_than_one_element_to_spare() {
    let mut size: usize = 0;
    while size < 200 {
        let v = vec_with_size_in_bytes::<u32>(size);
        assert!(v.len() * size_of::<u32>() >= size);
        assert!(v.len() * size_of::<u32>() < size + size_of::<u32>());
        size += 1;
    }
}

#[test]
fn size_in_bytes_fills_with_default_values() {
    let v = vec_with_size_in_bytes::<u32>(10);
    assert_eq!(v, vec![0u32, 0, 0]);
    let w = vec_with_size_in_bytes::<(u16, bool)>(8);
    assert_eq!(w, vec![(0u16, false), (0u16, false)]);
}

#[test]
fn array_field_with_no_elements_is_one_header() {
    assert_eq!(vec_with_array_field::<u64, u32>(0).len(), 1);
    assert_eq!(vec_with_array_field::<kvm_cpuid2, kvm_cpuid_entry2>(0).len(), 1);
}

#[test]
fn array_field_counts_the_header_and_the_elements() {
    // 8 bytes of header and 3 * 4 bytes of elements are 20 bytes: three headers.
    assert_eq!(vec_with_array_field::<u64, u32>(3).len(), 3);
    // 1 byte of header and 3 * 4 bytes of elements are 13 bytes.
    assert_eq!(vec_with_array_field::<u8, u32>(3).len(), 13);
    // 4 bytes of header and 5 single bytes are 9 bytes: three headers.
    assert_eq!(vec_with_array_field::<u32, u8>(5).len(), 3);
}

#[test]
fn array_field_for_cpuid_is_one_unit_and_five_for_each_entry() {
    assert_eq!(size_of::<kvm_cpuid2>(), 8);
    assert_eq!(size_of::<kvm_cpuid_entry2>(), 40);
    assert_eq!(vec_with_array_field::<kvm_cpuid2, kvm_cpuid_entry2>(1).len(), 6);
    assert_eq!(vec_with_array_field::<kvm_cpuid2, kvm_cpuid_entry2>(4).len(), 21);
    assert_eq!(vec_with_array_field::<kvm_cpuid2, kvm_cpuid_entry2>(80).len(), 401);
}

#[test]
fn array_field_capacity_is_at_least_header_plus_elements() {
    let mut count: usize = 0;
    while count < 100 {
        let v = vec_with_array_field::<u64, u16>(count);
        assert!(v.len() * size_of::<u64>() >= size_of::<u64>() + count * size_of::<u16>());
        let w = vec_with_array_field::<kvm_cpuid2, kvm_cpuid_entry2>(count);
        assert!(
            w.len() * size_of::<kvm_cpuid2>()
                >= size_of::<kvm_cpuid2>() + count * size_of::<kvm_cpuid_entry2>()
        );
        count += 1;
    }
}

#[test]
fn array_field_fills_with_default_headers() {
    let v = vec_with_array_field::<kvm_cpuid2, kvm_cpuid_entry2>(2);
    assert_eq!(v.len(), 11);
    for unit in v.iter() {
        assert_eq!(unit.nent, 0);
        assert_eq!(unit.padding, 0);
    }
}
