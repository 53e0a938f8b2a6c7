use kvm_ioctls::KvmRunWrapper;
use kvm_ioctls::MmapError;
use kvm_ioctls::MmapRequest;

#[test]
fn mmap_request_is_shared_read_write_at_any_address() {
    let request = KvmRunWrapper::mmap_request(7, 4096);
    assert_eq!(
        request,
        MmapRequest { addr: 0, len: 4096, prot: 3, flags: 1, fd: 7, offset: 0 }
    );
    assert_eq!(request.prot, libc::PROT_READ | libc::PROT_WRITE);
    assert_eq!(request.flags, libc::MAP_SHARED);
}

#[test]
fn mmap_request_passes_the_descriptor_and_the_size_on() {
    let request = KvmRunWrapper::mmap_request(-1, 0);
    assert_eq!(request.fd, -1);
    assert_eq!(request.len, 0);
    let request = KvmRunWrapper::mmap_request(i32::MAX, usize::MAX);
    assert_eq!(request.fd, i32::MAX);
    assert_eq!(request.len, usize::MAX);
}

#[test]
fn failed_mapping_gives_the_os_error() {
    let result = KvmRunWrapper::from_mmap_result(usize::MAX, 9);
    assert_eq!(result.err(), Some(MmapError { os_error: 9 }));
    let result = KvmRunWrapper::from_mmap_result(libc::MAP_FAILED as usize, 12);
    assert_eq!(result.err(), Some(MmapError { os_error: 12 }));
}

#[test]
fn successful_mapping_keeps_the_address() {
    let wrapper = KvmRunWrapper::from_mmap_result(0x7f00_0000_1000, 9).ok().unwrap();
    assert_eq!(wrapper.address(), 0x7f00_0000_1000);
    assert_eq!(wrapper.address(), 0x7f00_0000_1000);
}

#[test]
fn every_address_but_the_failure_mark_is_a_mapping() {
    assert!(KvmRunWrapper::from_mmap_result(0, 0).is_ok());
    assert!(KvmRunWrapper::from_mmap_result(4096, 22).is_ok());
    assert!(KvmRunWrapper::from_mmap_result(usize::MAX - 1, 0).is_ok());
    assert!(KvmRunWrapper::from_mmap_result(usize::MAX, 0).is_err());
}
