//! The CPUID list handed to and filled in by the kernel.
use vstd::prelude::*;
use vstd::std_specs::cmp::PartialEqSpecImpl;
use kvm_bindings::kvm_cpuid2;
use kvm_bindings::kvm_cpuid_entry2;
use crate::bindings::cpuid_entry_bytes;
use crate::bindings::cpuid_header_bytes;
use crate::fam::array_field_bytes;
use crate::fam::units_for_bytes;
use crate::fam::vec_with_array_field;

verus! {

/// The size of the header, `kvm_cpuid2`, in bytes.
pub const HEADER_BYTES: usize = 8;

/// The size of one entry, `kvm_cpuid_entry2`, in bytes.
pub const ENTRY_BYTES: usize = 40;

/// The number of header-sized units that one entry is laid over.
pub const UNITS_PER_ENTRY: usize = 5;

/// The entry that is laid over the five units of `units` that start at `first`.
///
/// A unit holds two 32-bit words, its `nent` and its `padding`, in that order in
/// memory; an entry is ten words in the order of its fields.
pub open spec fn entry_of_units(units: Seq<kvm_cpuid2>, first: int) -> kvm_cpuid_entry2 {
    kvm_cpuid_entry2 {
        function: units[first].nent,
        index: units[first].padding,
        flags: units[first + 1].nent,
        eax: units[first + 1].padding,
        ebx: units[first + 2].nent,
        ecx: units[first + 2].padding,
        edx: units[first + 3].nent,
        padding: [units[first + 3].padding, units[first + 4].nent, units[first + 4].padding],
    }
}

/// Entry `i` of the trailing array that is laid over `units`: the header is unit
/// zero, and each entry takes the next five units.
pub open spec fn stored_entry(units: Seq<kvm_cpuid2>, i: int) -> kvm_cpuid_entry2 {
    entry_of_units(units, 1 + UNITS_PER_ENTRY * i)
}

/// The entry whose ten words are all zero.
pub open spec fn zero_entry() -> kvm_cpuid_entry2 {
    kvm_cpuid_entry2 {
        function: 0,
        index: 0,
        flags: 0,
        eax: 0,
        ebx: 0,
        ecx: 0,
        edx: 0,
        padding: [0u32, 0u32, 0u32],
    }
}

/// Wrapper for `kvm_cpuid2`, which has a zero length array at the end.
/// Hides the zero length array behind a bounds check.
pub struct CpuId {
    /// The buffer: the first element is the header, the others are the storage
    /// of the entries.
    kvm_cpuid: Vec<kvm_cpuid2>,
    /// Number of `kvm_cpuid_entry2` structs that the buffer has room for.
    allocated_len: usize,
}

/// A buffer for a header and `count` entries is exactly one unit for the header
/// and five for each entry.
pub proof fn lemma_buffer_units(count: nat)
    ensures
        units_for_bytes(
            array_field_bytes(HEADER_BYTES as nat, ENTRY_BYTES as nat, count),
            HEADER_BYTES as nat,
        ) == 1 + UNITS_PER_ENTRY * count,
{
}

/// Reads the entry that is laid over the five units of `units` that start at `first`.
fn read_entry(units: &Vec<kvm_cpuid2>, first: usize) -> (entry: kvm_cpuid_entry2)
    requires
        first + 4 < units.len(),
    ensures
        entry == entry_of_units(units@, first as int),
{
    kvm_cpuid_entry2 {
        function: units[first].nent,
        index: units[first].padding,
        flags: units[first + 1].nent,
        eax: units[first + 1].padding,
        ebx: units[first + 2].nent,
        ecx: units[first + 2].padding,
        edx: units[first + 3].nent,
        padding: [units[first + 3].padding, units[first + 4].nent, units[first + 4].padding],
    }
}

/// Writes `entry` over the five units of `units` that start at `first`, and leaves
/// every other unit as it was.
fn write_entry(units: &mut Vec<kvm_cpuid2>, first: usize, entry: kvm_cpuid_entry2)
    requires
        first + 4 < old(units).len(),
    ensures
        final(units)@.len() == old(units)@.len(),
        entry_of_units(final(units)@, first as int) == entry,
        forall|k: int|
            0 <= k < old(units)@.len() && !(first <= k < first + 5) ==> #[trigger] final(units)@[k]
                == old(units)@[k],
    no_unwind
{
    units[first].nent = entry.function;
    units[first].padding = entry.index;
    units[first + 1].nent = entry.flags;
    units[first + 1].padding = entry.eax;
    units[first + 2].nent = entry.ebx;
    units[first + 2].padding = entry.ecx;
    units[first + 3].nent = entry.edx;
    units[first + 3].padding = entry.padding[0];
    units[first + 4].nent = entry.padding[1];
    units[first + 4].padding = entry.padding[2];
    assert(entry_of_units(units@, first as int).padding =~= entry.padding);
}

/// Whether two lists of entries have the same length and the same entry at each
/// position.
fn same_entries(a: &Vec<kvm_cpuid_entry2>, b: &Vec<kvm_cpuid_entry2>) -> (same: bool)
    ensures
        same == (a@ == b@),
{
    if a.len() != b.len() {
        return false;
    }
    let mut i: usize = 0;
    while i < a.len()
        invariant
            i <= a.len(),
            a.len() == b.len(),
            a@.take(i as int) == b@.take(i as int),
        decreases a.len() - i,
    {
        if !(a[i] == b[i]) {
            assert(a@[i as int] != b@[i as int]);
            return false;
        }
        i = i + 1;
        assert(a@.take(i as int) =~= a@.take(i - 1).push(a@[i - 1]));
        assert(b@.take(i as int) =~= b@.take(i - 1).push(b@[i - 1]));
    }
    assert(a@ =~= a@.take(a.len() as int));
    assert(b@ =~= b@.take(b.len() as int));
    true
}

impl CpuId {
    #[verifier::type_invariant]
    spec fn buffer_fits(self) -> bool {
        self.kvm_cpuid.len() == 1 + UNITS_PER_ENTRY * self.allocated_len
    }

    /// The number of entries that the buffer has room for, fixed at construction.
    pub closed spec fn allocated_len(&self) -> nat {
        self.allocated_len as nat
    }

    /// The entry count that the header holds. Nothing bounds it: the kernel may
    /// have written any value here.
    pub closed spec fn nent(&self) -> u32 {
        self.kvm_cpuid@[0].nent
    }

    /// The padding word of the header.
    pub closed spec fn padding(&self) -> u32 {
        self.kvm_cpuid@[0].padding
    }

    /// All the entries that the buffer has room for, live or not.
    pub closed spec fn storage(&self) -> Seq<kvm_cpuid_entry2> {
        Seq::new(
            self.allocated_len as nat,
            |i: int| stored_entry(self.kvm_cpuid@, i),
        )
    }

    /// The size of the buffer in bytes: what the header and the storage of the
    /// entries take together.
    pub closed spec fn buffer_bytes(&self) -> nat {
        self.kvm_cpuid@.len() * HEADER_BYTES as nat
    }

    /// The storage holds one entry for each that was allocated.
    pub proof fn lemma_storage_len(&self)
        ensures
            self.storage().len() == self.allocated_len(),
    {
    }

    /// The number of live entries: what the header claims, but never more than the
    /// buffer has room for.
    pub open spec fn live_len(&self) -> nat {
        if self.nent() as nat > self.allocated_len() {
            self.allocated_len()
        } else {
            self.nent() as nat
        }
    }

    /// The live entries: the first `live_len()` entries of the storage.
    pub open spec fn entries(&self) -> Seq<kvm_cpuid_entry2> {
        self.storage().take(self.live_len() as int)
    }

    /// What `new(array_len)` returns: a buffer of exactly the bytes of one header
    /// and `array_len` entries, all the entries zero, and a header that claims
    /// `array_len` of them, cut down to its low 32 bits where that does not fit the
    /// header's count.
    pub open spec fn is_new(&self, array_len: usize) -> bool {
        &&& self.allocated_len() == array_len
        &&& self.buffer_bytes() == array_field_bytes(
            HEADER_BYTES as nat,
            ENTRY_BYTES as nat,
            array_len as nat,
        )
        &&& self.nent() == array_len as u32
        &&& self.padding() == 0
        &&& self.storage() == Seq::new(array_len as nat, |i: int| zero_entry())
    }

    /// What `clone()` returns for `original`: a buffer of the same size, the same
    /// allocated length, the same header and the same entries, live or not.
    pub open spec fn is_copy_of(&self, original: &CpuId) -> bool {
        &&& self.allocated_len() == original.allocated_len()
        &&& self.buffer_bytes() == original.buffer_bytes()
        &&& self.nent() == original.nent()
        &&& self.padding() == original.padding()
        &&& self.storage() == original.storage()
    }

    /// What `set_entry(index, entry)` turns `before` into: the header's count is
    /// cut down to the allocated length, the entry at `index` is `entry`, and
    /// nothing else has changed.
    pub open spec fn is_write_to(
        &self,
        before: &CpuId,
        index: int,
        entry: kvm_cpuid_entry2,
    ) -> bool {
        &&& self.allocated_len() == before.allocated_len()
        &&& self.buffer_bytes() == before.buffer_bytes()
        &&& self.nent() == before.live_len()
        &&& self.padding() == before.padding()
        &&& self.storage() == before.storage().update(index, entry)
    }

    /// Creates a new `CpuId` structure that can contain at most `array_len` KVM CPUID entries.
    ///
    /// The buffer is one header and `array_len` entries long. An `array_len` for
    /// which that is more than `isize::MAX` bytes, the most that a vector can span,
    /// is excluded.
    pub fn new(array_len: usize) -> (cpuid: CpuId)
        requires
            HEADER_BYTES + array_len * ENTRY_BYTES <= isize::MAX,
        ensures
            cpuid.is_new(array_len),
    {
        // The allocator sizes the buffer by the sizes of the two structures.
        let _header_bytes: usize = cpuid_header_bytes();
        let _entry_bytes: usize = cpuid_entry_bytes();
        proof {
            lemma_buffer_units(array_len as nat);
        }
        let mut kvm_cpuid = vec_with_array_field::<kvm_cpuid2, kvm_cpuid_entry2>(array_len);
        kvm_cpuid[0].nent = #[verifier::truncate] (array_len as u32);
        let cpuid = CpuId { kvm_cpuid, allocated_len: array_len };
        assert(cpuid.storage() =~= Seq::new(array_len as nat, |i: int| zero_entry()));
        cpuid
    }

    /// Reads the first `count` entries of the storage.
    fn stored_entries(&self, count: usize) -> (entries: Vec<kvm_cpuid_entry2>)
        requires
            count <= self.allocated_len(),
        ensures
            entries@ == self.storage().take(count as int),
    {
        proof {
            use_type_invariant(self);
        }
        let mut entries: Vec<kvm_cpuid_entry2> = Vec::with_capacity(count);
        let mut i: usize = 0;
        while i < count
            invariant
                i <= count <= self.allocated_len,
                self.kvm_cpuid.len() == 1 + UNITS_PER_ENTRY * self.allocated_len,
                entries@ == self.storage().take(i as int),
            decreases count - i,
        {
            let entry = read_entry(&self.kvm_cpuid, 1 + UNITS_PER_ENTRY * i);
            entries.push(entry);
            i = i + 1;
            assert(entries@ =~= self.storage().take(i as int));
        }
        entries
    }

    /// Cuts the header's entry count down to the allocated length if it exceeds it.
    fn clamp_nent(&mut self)
        ensures
            final(self).allocated_len() == old(self).allocated_len(),
            final(self).buffer_bytes() == old(self).buffer_bytes(),
            final(self).nent() == old(self).live_len(),
            final(self).padding() == old(self).padding(),
            final(self).storage() == old(self).storage(),
    {
        proof {
            use_type_invariant(&*self);
        }
        if self.kvm_cpuid[0].nent as usize > self.allocated_len {
            self.kvm_cpuid[0].nent = self.allocated_len as u32;
        }
        assert(self.storage() =~= old(self).storage());
    }

    /// Get the entries so they can be inspected before passing to the VCPU.
    ///
    /// The header's entry count is first cut down to the allocated length if it
    /// exceeds it, as it may after the kernel has written the header. The result
    /// holds the live entries in order: as many as the header then claims, and so
    /// never more than were allocated. To change one, use `set_entry`.
    pub fn mut_entries_slice(&mut self) -> (entries: Vec<kvm_cpuid_entry2>)
        ensures
            final(self).allocated_len() == old(self).allocated_len(),
            final(self).buffer_bytes() == old(self).buffer_bytes(),
            final(self).nent() == old(self).live_len(),
            final(self).padding() == old(self).padding(),
            final(self).storage() == old(self).storage(),
            entries@ == old(self).entries(),
            entries@ == final(self).entries(),
            entries@.len() <= old(self).allocated_len(),
    {
        self.clamp_nent();
        proof {
            use_type_invariant(&*self);
        }
        let nent: usize = self.kvm_cpuid[0].nent as usize;
        self.stored_entries(nent)
    }

    /// Writes `entry` over the live entry at `index`.
    ///
    /// The header's entry count is first cut down to the allocated length, as for
    /// `mut_entries_slice`, so `index` counts among the entries that
    /// `mut_entries_slice` returns. No other entry changes.
    pub fn set_entry(&mut self, index: usize, entry: kvm_cpuid_entry2)
        requires
            index < old(self).live_len(),
        ensures
            final(self).is_write_to(old(self), index as int, entry),
            final(self).entries() == old(self).entries().update(index as int, entry),
    {
        self.clamp_nent();
        proof {
            use_type_invariant(&*self);
        }
        let ghost before = self.kvm_cpuid@;
        write_entry(&mut self.kvm_cpuid, 1 + UNITS_PER_ENTRY * index, entry);
        assert(self.storage() =~= old(self).storage().update(index as int, entry)) by {
            // An entry other than the one written lies over units that were left alone.
            assert forall|j: int| 0 <= j < self.allocated_len && j != index implies
                #[trigger] stored_entry(self.kvm_cpuid@, j) == stored_entry(before, j) by {}
        }
        assert(self.entries() =~= old(self).entries().update(index as int, entry));
    }

    /// Get a reference to the header so it can be passed to the kernel as a pointer.
    ///
    /// The buffer that the header begins spans the header and all the allocated
    /// entries, so the kernel may read that far and no farther.
    pub fn as_ptr(&self) -> (header: &kvm_cpuid2)
        ensures
            header.nent == self.nent(),
            header.padding == self.padding(),
            self.buffer_bytes() == array_field_bytes(
                HEADER_BYTES as nat,
                ENTRY_BYTES as nat,
                self.allocated_len(),
            ),
    {
        proof {
            use_type_invariant(self);
        }
        &self.kvm_cpuid[0]
    }

    /// Get a mutable reference to the header so it can be passed to the kernel as a
    /// mutable pointer.
    ///
    /// Whatever is written to the header through the reference is what the header
    /// holds afterwards; the entries and the allocated length stay as they were.
    /// The buffer that the header begins spans the header and all the allocated
    /// entries, so the kernel may write that far and no farther.
    pub fn as_mut_ptr(&mut self) -> (header: &mut kvm_cpuid2)
        ensures
            header.nent == old(self).nent(),
            header.padding == old(self).padding(),
            old(self).buffer_bytes() == array_field_bytes(
                HEADER_BYTES as nat,
                ENTRY_BYTES as nat,
                old(self).allocated_len(),
            ),
            final(self).nent() == final(header).nent,
            final(self).padding() == final(header).padding,
            final(self).allocated_len() == old(self).allocated_len(),
            final(self).buffer_bytes() == old(self).buffer_bytes(),
            final(self).storage() == old(self).storage(),
    {
        proof {
            use_type_invariant(&*self);
        }
        &mut self.kvm_cpuid[0]
    }
}

impl Clone for CpuId {
    /// Makes a copy with a buffer of its own: the same allocated length, the same
    /// header and the same entries, live or not.
    fn clone(&self) -> (copy: Self)
        ensures
            copy.is_copy_of(self),
    {
        proof {
            use_type_invariant(self);
        }
        let units: usize = self.kvm_cpuid.len();
        let mut kvm_cpuid: Vec<kvm_cpuid2> = Vec::with_capacity(units);
        let mut filled: usize = 0;
        while filled < units
            invariant
                filled <= units,
                kvm_cpuid.len() == filled,
            decreases units - filled,
        {
            kvm_cpuid.push(kvm_cpuid2::default());
            filled = filled + 1;
        }
        let mut copied: usize = 0;
        while copied < units
            invariant
                copied <= units,
                units == self.kvm_cpuid.len(),
                kvm_cpuid.len() == units,
                forall|k: int|
                    0 <= k < copied ==> (#[trigger] kvm_cpuid@[k]).nent == self.kvm_cpuid@[k].nent
                        && kvm_cpuid@[k].padding == self.kvm_cpuid@[k].padding,
            decreases units - copied,
        {
            kvm_cpuid[copied].nent = self.kvm_cpuid[copied].nent;
            kvm_cpuid[copied].padding = self.kvm_cpuid[copied].padding;
            copied = copied + 1;
        }
        let copy = CpuId { kvm_cpuid, allocated_len: self.allocated_len };
        assert(copy.storage() =~= self.storage());
        copy
    }
}

impl PartialEq for CpuId {
    /// Compares the allocated lengths, and then the entries of `self` taken up to
    /// its own allocated length with the entries of `self` taken up to the
    /// allocated length of `other`. The entries of `other` are not read.
    fn eq(&self, other: &CpuId) -> (equal: bool) {
        if self.allocated_len != other.allocated_len {
            return false;
        }
        let entries = self.stored_entries(self.allocated_len);
        let other_entries = self.stored_entries(other.allocated_len);
        same_entries(&entries, &other_entries)
    }
}

impl PartialEqSpecImpl for CpuId {
    open spec fn obeys_eq_spec() -> bool {
        true
    }

    open spec fn eq_spec(&self, other: &CpuId) -> bool {
        &&& self.allocated_len() == other.allocated_len()
        &&& self.storage().take(self.allocated_len() as int) == self.storage().take(
            other.allocated_len() as int,
        )
    }
}

} // verus!
