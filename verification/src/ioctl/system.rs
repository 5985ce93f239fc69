use vstd::prelude::*;
use crate::io::fd::File;
use crate::io::ioctl::{
    ioctl_no_arg, ioctl_write, lemma_ioc_fields, spec_ioc, IoDevice, IoctlReq, IoctlReqNoArgs,
    IoctlReqWrite, _IO, _IOW,
};
use crate::ioctl::vm::KvmVm;

verus! {

/// The device type marker for the main KVM file descriptor, typically
/// obtained by opening `/dev/kvm`.
#[derive(Debug)]
pub struct KvmSystem;

impl IoDevice for KvmSystem {

}

/// The type byte of every KVM request code.
pub const KVMIO: u64 = 0xAE;

/// Identifies the version of the KVM API used by the current kernel. The
/// stable API always answers 12.
#[allow(non_snake_case)]
pub fn KVM_GET_API_VERSION() -> (req: IoctlReqNoArgs<KvmSystem, i32>)
    ensures
        req.spec_request() == spec_ioc(0, KVMIO, 0x00, 0),
        req.spec_request() == 0xAE00,
{
    proof {
        lemma_ioc_fields(0, KVMIO, 0x00, 0);
    }
    ioctl_no_arg(_IO(KVMIO, 0x00))
}

/// Creates a new virtual machine and obtains the file that represents it.
#[allow(non_snake_case)]
pub fn KVM_CREATE_VM() -> (req: IoctlReqNoArgs<KvmSystem, File<KvmVm>>)
    ensures
        req.spec_request() == spec_ioc(0, KVMIO, 0x01, 0),
        req.spec_request() == 0xAE01,
{
    proof {
        lemma_ioc_fields(0, KVMIO, 0x01, 0);
    }
    ioctl_no_arg(_IO(KVMIO, 0x01))
}

/// Queries whether the KVM subsystem supports a particular extension. Zero
/// means no support; a nonzero answer may carry more meaning.
#[allow(non_snake_case)]
pub fn KVM_CHECK_EXTENSION() -> (req: IoctlReqWrite<KvmSystem, i32, i32>)
    ensures
        req.spec_request() == spec_ioc(1, KVMIO, 0x03, 4),
        req.spec_request() == 0x4004_AE03,
{
    proof {
        lemma_ioc_fields(1, KVMIO, 0x03, 4);
    }
    ioctl_write(_IOW(KVMIO, 0x03, 4))
}

/// Returns the size of the shared memory region through which `KVM_RUN`
/// communicates with userspace for each vCPU.
#[allow(non_snake_case)]
pub fn KVM_GET_VCPU_MMAP_SIZE() -> (req: IoctlReqNoArgs<KvmSystem, i32>)
    ensures
        req.spec_request() == spec_ioc(0, KVMIO, 0x04, 0),
        req.spec_request() == 0xAE04,
{
    proof {
        lemma_ioc_fields(0, KVMIO, 0x04, 0);
    }
    ioctl_no_arg(_IO(KVMIO, 0x04))
}

} // verus!
