//! What this library takes on trust from the `kvm_bindings` and `libc` crates.
//!
//! The CPUID types declared here are read by the verifier field by field, so
//! nothing is assumed about their shape. What is assumed is stated item by item
//! below: the value that the derived `Default` of a header gives, the sizes of the
//! two structures in memory, and the values of the constants of `mmap`.
use vstd::prelude::*;
use vstd::layout::size_of;
use kvm_bindings::__IncompleteArrayField;
use kvm_bindings::kvm_cpuid2;
use kvm_bindings::kvm_cpuid_entry2;

verus! {

/// One CPUID entry: ten 32-bit words, all of them public fields.
#[verifier::external_type_specification]
pub struct ExKvmCpuidEntry2(kvm_cpuid_entry2);

/// The zero-length marker that stands where a structure's trailing array begins.
/// Nothing is known of a value of it and nothing is asked of one.
#[verifier::external_type_specification]
#[verifier::external_body]
#[verifier::reject_recursive_types(T)]
pub struct ExIncompleteArrayField<T>(__IncompleteArrayField<T>);

/// The CPUID header: the entry count, a padding word, and the marker of the
/// trailing array.
#[verifier::external_type_specification]
pub struct ExKvmCpuid2(kvm_cpuid2);

/// `kvm_cpuid2::default()`, which `kvm_bindings` derives: both words of the header
/// are zero.
pub assume_specification[ <kvm_cpuid2 as Default>::default ]() -> (header: kvm_cpuid2)
    ensures
        header.nent == 0,
        header.padding == 0,
;

/// `==` on two entries, which `kvm_bindings` derives: it holds exactly when every
/// field of the one equals that field of the other.
pub assume_specification[ <kvm_cpuid_entry2 as PartialEq>::eq ](
    a: &kvm_cpuid_entry2,
    b: &kvm_cpuid_entry2,
) -> (equal: bool)
    ensures
        equal == (*a == *b),
;

/// `size_of::<kvm_cpuid2>()`: a header takes 8 bytes, which `kvm_bindings` asserts
/// of its own layout at compile time.
#[verifier::external_body]
pub(crate) fn cpuid_header_bytes() -> (bytes: usize)
    ensures
        bytes == 8,
        bytes == size_of::<kvm_cpuid2>(),
{
    core::mem::size_of::<kvm_cpuid2>()
}

/// `size_of::<kvm_cpuid_entry2>()`: an entry takes 40 bytes, which `kvm_bindings`
/// asserts of its own layout at compile time.
#[verifier::external_body]
pub(crate) fn cpuid_entry_bytes() -> (bytes: usize)
    ensures
        bytes == 40,
        bytes == size_of::<kvm_cpuid_entry2>(),
{
    core::mem::size_of::<kvm_cpuid_entry2>()
}

/// `libc::PROT_READ`: pages may be read. Its value is 1.
#[verifier::external_body]
pub(crate) fn prot_read() -> (flag: i32)
    ensures
        flag == 1,
{
    libc::PROT_READ
}

/// `libc::PROT_WRITE`: pages may be written. Its value is 2.
#[verifier::external_body]
pub(crate) fn prot_write() -> (flag: i32)
    ensures
        flag == 2,
{
    libc::PROT_WRITE
}

/// `libc::MAP_SHARED`: updates to the mapping are shared with whoever else maps
/// the same region. Its value is 1.
#[verifier::external_body]
pub(crate) fn map_shared() -> (flag: i32)
    ensures
        flag == 1,
{
    libc::MAP_SHARED
}

/// `libc::MAP_FAILED`, the address that `mmap` returns when it fails, as an
/// integer: all bits set.
#[verifier::external_body]
pub(crate) fn map_failed() -> (addr: usize)
    ensures
        addr == usize::MAX,
{
    libc::MAP_FAILED as usize
}

} // verus!
