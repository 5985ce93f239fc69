use vstd::prelude::*;
use crate::io::ioctl::{
    ioctl_no_arg, ioctl_read, ioctl_write, lemma_ioc_fields, spec_ioc, IoDevice, IoctlReq,
    IoctlReqNoArgs, IoctlReqRead, IoctlReqWrite, _IO, _IOR, _IOW,
};
use crate::ioctl::system::KVMIO;
use crate::raw::kvm_regs;

verus! {

/// The device type marker for a KVM virtual CPU file descriptor.
#[derive(Debug)]
pub struct KvmVcpu;

impl IoDevice for KvmVcpu {

}

/// Runs the vCPU until it exits. The call passes no payload; what the
/// kernel has to say it writes into the shared control page.
#[allow(non_snake_case)]
pub fn KVM_RUN() -> (req: IoctlReqNoArgs<KvmVcpu, i32>)
    ensures
        req.spec_request() == spec_ioc(0, KVMIO, 0x80, 0),
        req.spec_request() == 0xAE80,
{
    proof {
        lemma_ioc_fields(0, KVMIO, 0x80, 0);
    }
    ioctl_no_arg(_IO(KVMIO, 0x80))
}

/// Reads the whole register set of the vCPU.
#[allow(non_snake_case)]
pub fn KVM_GET_REGS() -> (req: IoctlReqRead<KvmVcpu, kvm_regs>)
    ensures
        req.spec_request() == spec_ioc(2, KVMIO, 0x81, 144),
        req.spec_request() == 0x8090_AE81,
{
    proof {
        lemma_ioc_fields(2, KVMIO, 0x81, 144);
    }
    ioctl_read(_IOR(KVMIO, 0x81, 144))
}

/// Writes the whole register set of the vCPU.
#[allow(non_snake_case)]
pub fn KVM_SET_REGS() -> (req: IoctlReqWrite<KvmVcpu, kvm_regs, i32>)
    ensures
        req.spec_request() == spec_ioc(1, KVMIO, 0x82, 144),
        req.spec_request() == 0x4090_AE82,
{
    proof {
        lemma_ioc_fields(1, KVMIO, 0x82, 144);
    }
    ioctl_write(_IOW(KVMIO, 0x82, 144))
}

} // verus!
