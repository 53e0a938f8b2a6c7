//! Safe handling of the two awkward data structures of the KVM interface: structures
//! that end in a flexible array member, and the `kvm_run` page shared with the kernel.
pub mod bindings;
pub mod cpuid;
pub mod fam;
pub mod kvm_run;
pub mod laws;

pub use cpuid::CpuId;
pub use fam::vec_with_array_field;
pub use fam::vec_with_size_in_bytes;
pub use kvm_run::KvmRunWrapper;
pub use kvm_run::MmapError;
pub use kvm_run::MmapRequest;
