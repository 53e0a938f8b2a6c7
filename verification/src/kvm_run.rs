//! The `kvm_run` page that the kernel shares with user space for each VCPU.
//!
//! The page is obtained by mapping the VCPU's file descriptor. This module decides
//! what is asked of the mapping call and what becomes of its answer; the call itself
//! is made by the caller, who hands the address back.
use vstd::prelude::*;
use crate::bindings::map_failed;
use crate::bindings::map_shared;
use crate::bindings::prot_read;
use crate::bindings::prot_write;

verus! {

/// The arguments of one call of `mmap`, in the order in which it takes them.
#[derive(Clone, Copy, Debug, PartialEq, Eq, Structural)]
pub struct MmapRequest {
    /// The address asked for; zero leaves the choice to the kernel.
    pub addr: usize,
    /// The number of bytes to map.
    pub len: usize,
    /// The protection of the pages.
    pub prot: i32,
    /// The kind of mapping.
    pub flags: i32,
    /// The file descriptor that backs the mapping.
    pub fd: i32,
    /// Where in the file the mapping starts.
    pub offset: i64,
}

/// The mapping could not be established.
#[derive(Clone, Copy, Debug, PartialEq, Eq, Structural)]
pub struct MmapError {
    /// The error code that the operating system reported for the failed call.
    pub os_error: i32,
}

/// A safe wrapper over the `kvm_run` struct.
///
/// It holds the address of the mapped page and nothing else, and never changes it,
/// so it may be shared between threads freely. What it cannot do is keep two
/// threads from using the page itself at once: that is for them to arrange.
pub struct KvmRunWrapper {
    kvm_run_ptr: usize,
}

impl KvmRunWrapper {
    /// The address of the mapped page.
    pub closed spec fn addr(&self) -> usize {
        self.kvm_run_ptr
    }

    /// The call of `mmap` that maps the first `size` bytes of `fd`: shared with the
    /// kernel, readable and writable, at an address of the kernel's choice.
    pub fn mmap_request(fd: i32, size: usize) -> (request: MmapRequest)
        ensures
            request == (MmapRequest { addr: 0, len: size, prot: 3, flags: 1, fd: fd, offset: 0 }),
    {
        let read: i32 = prot_read();
        let write: i32 = prot_write();
        assert(1i32 | 2i32 == 3i32) by (bit_vector);
        MmapRequest {
            addr: 0,
            len: size,
            prot: read | write,
            flags: map_shared(),
            fd: fd,
            offset: 0,
        }
    }

    /// Turns the answer of `mmap` into a wrapper.
    ///
    /// `addr` is the address that the call returned and `os_error` the error code
    /// that the operating system held right after it. The call has failed exactly
    /// when it returned `MAP_FAILED`, the address with all bits set; the error then
    /// carries `os_error`. Any other address is that of the mapped page.
    pub fn from_mmap_result(addr: usize, os_error: i32) -> (result: Result<KvmRunWrapper, MmapError>)
        ensures
            addr == usize::MAX ==> result == Err::<KvmRunWrapper, MmapError>(
                MmapError { os_error: os_error },
            ),
            addr != usize::MAX ==> result is Ok && result->Ok_0.addr() == addr,
    {
        if addr == map_failed() {
            return Err(MmapError { os_error: os_error });
        }
        Ok(KvmRunWrapper { kvm_run_ptr: addr })
    }

    /// Returns the address of the mapped page, as given at construction.
    pub fn address(&self) -> (addr: usize)
        ensures
            addr == self.addr(),
    {
        self.kvm_run_ptr
    }
}

} // verus!
