//! What holds of every CPUID list, stated over the same spec functions as the
//! contracts of its operations.
use vstd::prelude::*;
use vstd::std_specs::cmp::PartialEqSpec;
use kvm_bindings::kvm_cpuid_entry2;
use crate::cpuid::zero_entry;
use crate::cpuid::CpuId;

verus! {

/// The live entries are as many as the header claims or as were allocated,
/// whichever is less: never more than were allocated, whatever the header claims.
pub proof fn lemma_entries_within_allocation(cpuid: CpuId)
    ensures
        cpuid.entries().len() == cpuid.live_len(),
        cpuid.entries().len() <= cpuid.allocated_len(),
        cpuid.entries().len() <= cpuid.nent(),
{
    cpuid.lemma_storage_len();
}

/// Right after `new(max_entries)` every allocated entry is live, so there are
/// exactly `max_entries` of them, each zero, provided that `max_entries` fits the
/// header's 32-bit count.
pub proof fn lemma_new_has_all_entries_live(cpuid: CpuId, max_entries: usize)
    requires
        cpuid.is_new(max_entries),
        max_entries <= u32::MAX,
    ensures
        cpuid.entries().len() == max_entries,
        cpuid.entries() == Seq::new(max_entries as nat, |i: int| zero_entry()),
{
    cpuid.lemma_storage_len();
    assert(cpuid.entries() =~= Seq::new(max_entries as nat, |i: int| zero_entry()));
}

/// A header count above the allocated length is not believed: the live entries
/// are then exactly the allocated ones.
pub proof fn lemma_oversized_count_is_clamped(cpuid: CpuId)
    requires
        cpuid.nent() > cpuid.allocated_len(),
    ensures
        cpuid.entries().len() == cpuid.allocated_len(),
        cpuid.entries() == cpuid.storage(),
{
    cpuid.lemma_storage_len();
    assert(cpuid.entries() =~= cpuid.storage());
}

/// Writing an entry into a copy makes the copy differ from its original in that
/// entry alone: there the copy holds what was written and the original what it
/// held before, and everywhere else the two still agree.
pub proof fn lemma_write_to_copy_leaves_original(
    original: CpuId,
    copy: CpuId,
    written: CpuId,
    index: int,
    entry: kvm_cpuid_entry2,
)
    requires
        copy.is_copy_of(&original),
        0 <= index < copy.live_len(),
        written.is_write_to(&copy, index, entry),
    ensures
        written.storage()[index] == entry,
        original.storage()[index] == copy.storage()[index],
        forall|j: int|
            0 <= j < original.allocated_len() && j != index ==> written.storage()[j]
                == #[trigger] original.storage()[j],
        written.allocated_len() == original.allocated_len(),
{
    copy.lemma_storage_len();
}

/// Two containers with the same allocated length and the same entries compare
/// equal.
pub proof fn lemma_eq_of_same_contents(a: CpuId, b: CpuId)
    requires
        a.allocated_len() == b.allocated_len(),
        a.storage() == b.storage(),
    ensures
        a.eq_spec(&b),
{
}

/// Two containers with different allocated lengths compare unequal, whatever
/// their entries hold.
pub proof fn lemma_ne_of_different_allocation(a: CpuId, b: CpuId)
    requires
        a.allocated_len() != b.allocated_len(),
    ensures
        !a.eq_spec(&b),
{
}

/// Equality looks at the allocated lengths alone. Both lists of entries that it
/// compares are read from the left operand, and they are the same list once the
/// allocated lengths agree.
pub proof fn lemma_eq_is_same_allocation(a: CpuId, b: CpuId)
    ensures
        a.eq_spec(&b) <==> a.allocated_len() == b.allocated_len(),
{
}

} // verus!
