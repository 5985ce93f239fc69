use vstd::prelude::*;
use crate::io::ioctl::IoDevice;

verus! {

/// The device type marker for a KVM device file descriptor.
#[derive(Debug)]
pub struct KvmDevice;

impl IoDevice for KvmDevice {

}

} // verus!
