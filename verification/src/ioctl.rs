//! The `ioctl` requests of the KVM interface, as typed request values.
//!
//! They are grouped as the kernel documentation groups them: requests on
//! the system handle, on a VM handle, on a vCPU handle and on a device
//! handle.

/// Requests on the KVM system handle.
pub mod system;

/// Requests on a VM handle.
pub mod vm;

/// Requests on a vCPU handle.
pub mod vcpu;

/// Requests on a device handle.
pub mod device;
