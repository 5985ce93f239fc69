//! A userspace control plane for the Linux KVM interface.
//!
//! The library lets a host process create a guest, back it with host
//! memory, and drive it through cycles of running and exiting: open the
//! subsystem ([`kvm::Kvm`]), create a machine ([`kvm::VirtualMachine`]),
//! register guest memory ([`kvm::MemoryRegion`]), create a vCPU
//! ([`kvm::VirtualCpu`]), map its control page and run it
//! ([`kvm::VirtualCpuRunner`]).
//!
//! The library never enters the kernel itself. Every operation comes in two
//! halves: one whose name ends in `_call`, which says as a plain
//! [`sys::call::Syscall`] value what the host has to ask of the kernel, and
//! one that takes the raw word the kernel answered with, and the bytes it
//! wrote where it wrote any, and says what they mean. The host makes each
//! call it is handed once and hands the answer back; it decides nothing.
//!
//! Structures that the kernel reads or writes have the layout that it gives
//! them on x86-64, where numbers lie least significant byte first.

pub mod sys;
pub mod io;
pub mod raw;
pub mod ioctl;
pub mod kvm;
