//! File handles, request builders and the other pieces that sit between the
//! raw system call words and the KVM objects.

pub mod result;
pub mod seek;
pub mod poll;
pub mod ioctl;
pub mod fcntl;
pub mod sockopt;
pub mod fd;
pub mod direntry;
pub mod socket;
pub mod tty;
pub mod ptr;
pub mod sync;
