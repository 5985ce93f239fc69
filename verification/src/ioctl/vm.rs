use vstd::prelude::*;
use crate::io::fd::File;
use crate::io::ioctl::{
    ioctl_write, ioctl_write_val, lemma_ioc_fields, spec_ioc, IoDevice, IoctlReq, IoctlReqWrite,
    IoctlReqWriteVal, _IO, _IOW,
};
use crate::ioctl::system::KVMIO;
use crate::ioctl::vcpu::KvmVcpu;
use crate::raw::kvm_userspace_memory_region;

verus! {

/// The device type marker for a KVM virtual machine file descriptor.
#[derive(Debug)]
pub struct KvmVm;

impl IoDevice for KvmVm {

}

/// Queries whether the KVM subsystem supports a particular extension for a
/// specific VM.
#[allow(non_snake_case)]
pub fn KVM_CHECK_EXTENSION() -> (req: IoctlReqWrite<KvmVm, i32, i32>)
    ensures
        req.spec_request() == spec_ioc(1, KVMIO, 0x03, 4),
        req.spec_request() == 0x4004_AE03,
{
    proof {
        lemma_ioc_fields(1, KVMIO, 0x03, 4);
    }
    ioctl_write(_IOW(KVMIO, 0x03, 4))
}

/// Creates a new virtual CPU for an existing virtual machine and obtains
/// the file that represents it. The argument is the vCPU id.
#[allow(non_snake_case)]
pub fn KVM_CREATE_VCPU() -> (req: IoctlReqWriteVal<KvmVm, i32, File<KvmVcpu>>)
    ensures
        req.spec_request() == spec_ioc(0, KVMIO, 0x41, 0),
        req.spec_request() == 0xAE41,
{
    proof {
        lemma_ioc_fields(0, KVMIO, 0x41, 0);
    }
    ioctl_write_val(_IO(KVMIO, 0x41))
}

/// Creates, modifies or deletes a guest physical memory slot.
#[allow(non_snake_case)]
pub fn KVM_SET_USER_MEMORY_REGION() -> (req: IoctlReqWrite<KvmVm, kvm_userspace_memory_region, i32>)
    ensures
        req.spec_request() == spec_ioc(1, KVMIO, 0x46, 32),
        req.spec_request() == 0x4020_AE46,
{
    proof {
        lemma_ioc_fields(1, KVMIO, 0x46, 32);
    }
    ioctl_write(_IOW(KVMIO, 0x46, 32))
}

/// Tracks writes to the region if set in the `flags` of a memory slot.
pub const KVM_MEM_LOG_DIRTY_PAGES: u32 = 1;

/// Marks the region as read-only if set in the `flags` of a memory slot.
pub const KVM_MEM_READONLY: u32 = 2;

} // verus!
