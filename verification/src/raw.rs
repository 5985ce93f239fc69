//! The data structures exchanged with the KVM `ioctl` requests, with the
//! layout the kernel gives them on x86-64.

use vstd::prelude::*;
use crate::sys::layout::{
    byte_at, encode_words, le_u16, le_u32, le_u64, lemma_le_u32_at, lemma_le_u64_at,
    lemma_words_le, lemma_u32_le, lemma_u64_le, push_u32, push_u64, read_u16, read_u32, read_u64,
    read_u8, u32_le, u64_le, words_le, Layout,
};

verus! {

/// The descriptor of one guest-physical memory slot, as
/// `KVM_SET_USER_MEMORY_REGION` takes it.
#[allow(non_camel_case_types)]
#[derive(Clone, Copy, Debug, PartialEq, Eq, Structural)]
pub struct kvm_userspace_memory_region {
    pub slot: u32,
    pub flags: u32,
    pub guest_phys_addr: u64,
    /// In bytes.
    pub memory_size: u64,
    /// Start of the userspace allocated memory.
    pub userspace_addr: u64,
}

impl Layout for kvm_userspace_memory_region {
    open spec fn spec_size() -> nat {
        32
    }

    open spec fn spec_encode(&self) -> Seq<u8> {
        u32_le(self.slot) + u32_le(self.flags) + u64_le(self.guest_phys_addr) + u64_le(
            self.memory_size,
        ) + u64_le(self.userspace_addr)
    }

    open spec fn spec_decode(bytes: Seq<u8>) -> Self {
        kvm_userspace_memory_region {
            slot: le_u32(bytes, 0) as u32,
            flags: le_u32(bytes, 4) as u32,
            guest_phys_addr: le_u64(bytes, 8) as u64,
            memory_size: le_u64(bytes, 16) as u64,
            userspace_addr: le_u64(bytes, 24) as u64,
        }
    }

    proof fn lemma_round_trip(&self) {
        let a = u32_le(self.slot);
        let b = u32_le(self.flags);
        let c = u64_le(self.guest_phys_addr);
        let d = u64_le(self.memory_size);
        let e = u64_le(self.userspace_addr);
        let all = self.spec_encode();
        lemma_u32_le(self.slot);
        lemma_u32_le(self.flags);
        lemma_u64_le(self.guest_phys_addr);
        lemma_u64_le(self.memory_size);
        lemma_u64_le(self.userspace_addr);
        assert(all =~= Seq::<u8>::empty() + a + (b + c + d + e));
        lemma_le_u32_at(Seq::empty(), self.slot, b + c + d + e);
        assert(all =~= a + b + (c + d + e));
        lemma_le_u32_at(a, self.flags, c + d + e);
        assert(all =~= (a + b) + c + (d + e));
        lemma_le_u64_at(a + b, self.guest_phys_addr, d + e);
        assert(all =~= (a + b + c) + d + e);
        lemma_le_u64_at(a + b + c, self.memory_size, e);
        assert(all =~= (a + b + c + d) + e + Seq::<u8>::empty());
        lemma_le_u64_at(a + b + c + d, self.userspace_addr, Seq::empty());
    }

    fn size() -> (n: usize) {
        32
    }

    fn encode(&self) -> (bytes: Vec<u8>) {
        let mut v: Vec<u8> = Vec::new();
        push_u32(&mut v, self.slot);
        push_u32(&mut v, self.flags);
        push_u64(&mut v, self.guest_phys_addr);
        push_u64(&mut v, self.memory_size);
        push_u64(&mut v, self.userspace_addr);
        assert(v@ =~= self.spec_encode());
        v
    }

    fn decode(bytes: &[u8]) -> (value: Self) {
        kvm_userspace_memory_region {
            slot: read_u32(bytes, 0),
            flags: read_u32(bytes, 4),
            guest_phys_addr: read_u64(bytes, 8),
            memory_size: read_u64(bytes, 16),
            userspace_addr: read_u64(bytes, 24),
        }
    }
}

/// The general-purpose, program-counter and flags registers of a vCPU,
/// exchanged wholesale by `KVM_GET_REGS` and `KVM_SET_REGS`.
#[allow(non_camel_case_types)]
#[derive(Clone, Copy, Debug, PartialEq, Eq, Structural)]
pub struct kvm_regs {
    pub rax: u64,
    pub rbx: u64,
    pub rcx: u64,
    pub rdx: u64,
    pub rsi: u64,
    pub rdi: u64,
    pub rsp: u64,
    pub rbp: u64,
    pub r8: u64,
    pub r9: u64,
    pub r10: u64,
    pub r11: u64,
    pub r12: u64,
    pub r13: u64,
    pub r14: u64,
    pub r15: u64,
    pub rip: u64,
    pub rflags: u64,
}

impl kvm_regs {
    /// The registers in the order in which they lie in memory.
    pub open spec fn spec_words(&self) -> Seq<u64> {
        seq![
            self.rax,
            self.rbx,
            self.rcx,
            self.rdx,
            self.rsi,
            self.rdi,
            self.rsp,
            self.rbp,
            self.r8,
            self.r9,
            self.r10,
            self.r11,
            self.r12,
            self.r13,
            self.r14,
            self.r15,
            self.rip,
            self.rflags,
        ]
    }

    /// A register set with every register zero.
    pub fn zeroed() -> (regs: Self)
        ensures
            regs.spec_words() == Seq::new(18, |i: int| 0u64),
    {
        let regs = kvm_regs {
            rax: 0,
            rbx: 0,
            rcx: 0,
            rdx: 0,
            rsi: 0,
            rdi: 0,
            rsp: 0,
            rbp: 0,
            r8: 0,
            r9: 0,
            r10: 0,
            r11: 0,
            r12: 0,
            r13: 0,
            r14: 0,
            r15: 0,
            rip: 0,
            rflags: 0,
        };
        assert(regs.spec_words() =~= Seq::new(18, |i: int| 0u64));
        regs
    }
}

impl Layout for kvm_regs {
    open spec fn spec_size() -> nat {
        144
    }

    open spec fn spec_encode(&self) -> Seq<u8> {
        words_le(self.spec_words())
    }

    open spec fn spec_decode(bytes: Seq<u8>) -> Self {
        kvm_regs {
            rax: le_u64(bytes, 0) as u64,
            rbx: le_u64(bytes, 8) as u64,
            rcx: le_u64(bytes, 16) as u64,
            rdx: le_u64(bytes, 24) as u64,
            rsi: le_u64(bytes, 32) as u64,
            rdi: le_u64(bytes, 40) as u64,
            rsp: le_u64(bytes, 48) as u64,
            rbp: le_u64(bytes, 56) as u64,
            r8: le_u64(bytes, 64) as u64,
            r9: le_u64(bytes, 72) as u64,
            r10: le_u64(bytes, 80) as u64,
            r11: le_u64(bytes, 88) as u64,
            r12: le_u64(bytes, 96) as u64,
            r13: le_u64(bytes, 104) as u64,
            r14: le_u64(bytes, 112) as u64,
            r15: le_u64(bytes, 120) as u64,
            rip: le_u64(bytes, 128) as u64,
            rflags: le_u64(bytes, 136) as u64,
        }
    }

    proof fn lemma_round_trip(&self) {
        let w = self.spec_words();
        lemma_words_le(w, 0);
        lemma_words_le(w, 1);
        lemma_words_le(w, 2);
        lemma_words_le(w, 3);
        lemma_words_le(w, 4);
        lemma_words_le(w, 5);
        lemma_words_le(w, 6);
        lemma_words_le(w, 7);
        lemma_words_le(w, 8);
        lemma_words_le(w, 9);
        lemma_words_le(w, 10);
        lemma_words_le(w, 11);
        lemma_words_le(w, 12);
        lemma_words_le(w, 13);
        lemma_words_le(w, 14);
        lemma_words_le(w, 15);
        lemma_words_le(w, 16);
        lemma_words_le(w, 17);
    }

    fn size() -> (n: usize) {
        144
    }

    fn encode(&self) -> (bytes: Vec<u8>) {
        let words: [u64; 18] = [
            self.rax,
            self.rbx,
            self.rcx,
            self.rdx,
            self.rsi,
            self.rdi,
            self.rsp,
            self.rbp,
            self.r8,
            self.r9,
            self.r10,
            self.r11,
            self.r12,
            self.r13,
            self.r14,
            self.r15,
            self.rip,
            self.rflags,
        ];
        assert(words@ =~= self.spec_words());
        encode_words(words.as_slice())
    }

    fn decode(bytes: &[u8]) -> (value: Self) {
        kvm_regs {
            rax: read_u64(bytes, 0),
            rbx: read_u64(bytes, 8),
            rcx: read_u64(bytes, 16),
            rdx: read_u64(bytes, 24),
            rsi: read_u64(bytes, 32),
            rdi: read_u64(bytes, 40),
            rsp: read_u64(bytes, 48),
            rbp: read_u64(bytes, 56),
            r8: read_u64(bytes, 64),
            r9: read_u64(bytes, 72),
            r10: read_u64(bytes, 80),
            r11: read_u64(bytes, 88),
            r12: read_u64(bytes, 96),
            r13: read_u64(bytes, 104),
            r14: read_u64(bytes, 112),
            r15: read_u64(bytes, 120),
            rip: read_u64(bytes, 128),
            rflags: read_u64(bytes, 136),
        }
    }
}

/// The exit reason of an exit for which the kernel gives only the
/// hardware's own reason.
pub const KVM_EXIT_UNKNOWN: u32 = 0;

pub const KVM_EXIT_EXCEPTION: u32 = 1;

pub const KVM_EXIT_IO: u32 = 2;

pub const KVM_EXIT_HYPERCALL: u32 = 3;

pub const KVM_EXIT_DEBUG: u32 = 4;

pub const KVM_EXIT_HLT: u32 = 5;

pub const KVM_EXIT_MMIO: u32 = 6;

pub const KVM_EXIT_IRQ_WINDOW_OPEN: u32 = 7;

pub const KVM_EXIT_SHUTDOWN: u32 = 8;

pub const KVM_EXIT_FAIL_ENTRY: u32 = 9;

pub const KVM_EXIT_INTR: u32 = 10;

pub const KVM_EXIT_INTERNAL_ERROR: u32 = 17;

/// The size of the fixed header of the control page.
pub const KVM_RUN_HEADER_SIZE: usize = 32;

/// The size of the reason-tagged payload area that follows the header.
pub const KVM_RUN_PAYLOAD_SIZE: usize = 256;

/// The size of the control page structure: header and payload area.
pub const KVM_RUN_SIZE: usize = 288;

/// The payload of an exit whose reason the kernel does not know.
#[derive(Clone, Copy, Debug, PartialEq, Eq, Structural)]
pub struct ExitUnknown {
    pub hardware_exit_reason: u64,
}

/// The payload of a failed guest entry.
#[derive(Clone, Copy, Debug, PartialEq, Eq, Structural)]
pub struct ExitFailEntry {
    pub hardware_entry_failure_reason: u64,
    pub cpu: u32,
}

/// The payload of an exit on an exception.
#[derive(Clone, Copy, Debug, PartialEq, Eq, Structural)]
pub struct ExitException {
    pub exception: u32,
    pub error_code: u32,
}

/// The payload of an exit on a port I/O access.
#[derive(Clone, Copy, Debug, PartialEq, Eq, Structural)]
pub struct ExitIo {
    pub direction: u8,
    pub size: u8,
    pub port: u16,
    pub count: u32,
    pub data_offset: u64,
}

/// The payload of an exit on a memory-mapped I/O access.
#[derive(Clone, Copy, Debug)]
pub struct ExitMmio {
    pub phys_addr: u64,
    pub data: [u8; 8],
    pub len: u32,
    pub is_write: u8,
}

/// The payload of an exit, decoded according to the exit reason. Only the
/// variant that the exit reason selects is ever read from the control page.
#[derive(Clone, Copy, Debug)]
pub enum ExitDetails {
    Hw(ExitUnknown),
    FailEntry(ExitFailEntry),
    Ex(ExitException),
    Io(ExitIo),
    Mmio(ExitMmio),
    /// An exit reason whose payload this library does not interpret.
    Other,
}

/// The eight bytes at `off`, bytes beyond the end reading as zero.
pub open spec fn bytes8(b: Seq<u8>, off: int) -> Seq<u8> {
    Seq::new(8, |i: int| byte_at(b, off + i) as u8)
}

/// Reads the eight bytes at `off`.
pub fn read_bytes8(b: &[u8], off: usize) -> (r: [u8; 8])
    ensures
        r@ == bytes8(b@, off as int),
{
    let r: [u8; 8] = [
        read_u8(b, off, 0),
        read_u8(b, off, 1),
        read_u8(b, off, 2),
        read_u8(b, off, 3),
        read_u8(b, off, 4),
        read_u8(b, off, 5),
        read_u8(b, off, 6),
        read_u8(b, off, 7),
    ];
    assert(r@ =~= bytes8(b@, off as int));
    r
}

impl ExitDetails {
    /// Whether `self` is what the payload area of `page` holds for exit
    /// reason `exit_reason`: the variant is the one the reason selects, and
    /// each of its fields is read from its place in the payload area, which
    /// begins at byte 32 of the page.
    pub open spec fn decodes(self, exit_reason: u32, page: Seq<u8>) -> bool {
        if exit_reason == KVM_EXIT_UNKNOWN {
            self matches ExitDetails::Hw(d) && d.hardware_exit_reason == le_u64(page, 32)
        } else if exit_reason == KVM_EXIT_FAIL_ENTRY {
            self matches ExitDetails::FailEntry(d) && d.hardware_entry_failure_reason == le_u64(
                page,
                32,
            ) && d.cpu == le_u32(page, 40)
        } else if exit_reason == KVM_EXIT_EXCEPTION {
            self matches ExitDetails::Ex(d) && d.exception == le_u32(page, 32) && d.error_code
                == le_u32(page, 36)
        } else if exit_reason == KVM_EXIT_IO {
            self matches ExitDetails::Io(d) && d.direction == byte_at(page, 32) && d.size
                == byte_at(page, 33) && d.port == le_u16(page, 34) && d.count == le_u32(page, 36)
                && d.data_offset == le_u64(page, 40)
        } else if exit_reason == KVM_EXIT_MMIO {
            self matches ExitDetails::Mmio(d) && d.phys_addr == le_u64(page, 32) && d.data@
                == bytes8(page, 40) && d.len == le_u32(page, 48) && d.is_write == byte_at(page, 52)
        } else {
            self is Other
        }
    }

    /// Reads from the payload area of `page` the variant that `exit_reason`
    /// selects, and nothing else.
    pub fn decode(exit_reason: u32, page: &[u8]) -> (d: ExitDetails)
        ensures
            d.decodes(exit_reason, page@),
    {
        if exit_reason == KVM_EXIT_UNKNOWN {
            ExitDetails::Hw(ExitUnknown { hardware_exit_reason: read_u64(page, 32) })
        } else if exit_reason == KVM_EXIT_FAIL_ENTRY {
            ExitDetails::FailEntry(
                ExitFailEntry {
                    hardware_entry_failure_reason: read_u64(page, 32),
                    cpu: read_u32(page, 40),
                },
            )
        } else if exit_reason == KVM_EXIT_EXCEPTION {
            ExitDetails::Ex(
                ExitException { exception: read_u32(page, 32), error_code: read_u32(page, 36) },
            )
        } else if exit_reason == KVM_EXIT_IO {
            ExitDetails::Io(
                ExitIo {
                    direction: read_u8(page, 32, 0),
                    size: read_u8(page, 33, 0),
                    port: read_u16(page, 34),
                    count: read_u32(page, 36),
                    data_offset: read_u64(page, 40),
                },
            )
        } else if exit_reason == KVM_EXIT_MMIO {
            ExitDetails::Mmio(
                ExitMmio {
                    phys_addr: read_u64(page, 32),
                    data: read_bytes8(page, 40),
                    len: read_u32(page, 48),
                    is_write: read_u8(page, 52, 0),
                },
            )
        } else {
            ExitDetails::Other
        }
    }
}

/// The control page shared between the kernel and userspace for one vCPU:
/// the fixed header, and the payload decoded according to the exit reason.
#[allow(non_camel_case_types)]
#[derive(Clone, Copy, Debug)]
pub struct kvm_run {
    pub request_interrupt_window: u8,
    pub immediate_exit: u8,
    pub padding1: [u8; 6],
    pub exit_reason: u32,
    pub ready_for_interrupt_injection: u8,
    pub if_flag: u8,
    pub flags: u16,
    pub cr8: u64,
    pub apic_base: u64,
    pub exit_details: ExitDetails,
}

impl kvm_run {
    /// Whether `self` is what `page` holds: each header field is read from
    /// its place in the first 32 bytes, and the payload is the variant that
    /// the exit reason selects.
    pub open spec fn decodes(self, page: Seq<u8>) -> bool {
        &&& self.request_interrupt_window == byte_at(page, 0)
        &&& self.immediate_exit == byte_at(page, 1)
        &&& self.padding1@ == Seq::new(6, |i: int| byte_at(page, 2 + i) as u8)
        &&& self.exit_reason == le_u32(page, 8)
        &&& self.ready_for_interrupt_injection == byte_at(page, 12)
        &&& self.if_flag == byte_at(page, 13)
        &&& self.flags == le_u16(page, 14)
        &&& self.cr8 == le_u64(page, 16)
        &&& self.apic_base == le_u64(page, 24)
        &&& self.exit_details.decodes(self.exit_reason, page)
    }

    /// The byte at index `i` of the header: the two request flags, six
    /// bytes of padding, the exit reason, the two readiness flags, `flags`,
    /// and the two 64-bit registers, each number least significant byte
    /// first.
    pub open spec fn spec_header_byte(self, i: int) -> u8 {
        if i == 0 {
            self.request_interrupt_window
        } else if i == 1 {
            self.immediate_exit
        } else if i < 8 {
            self.padding1@[i - 2]
        } else if i < 12 {
            u32_le(self.exit_reason)[i - 8]
        } else if i == 12 {
            self.ready_for_interrupt_injection
        } else if i == 13 {
            self.if_flag
        } else if i < 16 {
            crate::sys::layout::u16_le(self.flags)[i - 14]
        } else if i < 24 {
            u64_le(self.cr8)[i - 16]
        } else {
            u64_le(self.apic_base)[i - 24]
        }
    }

    /// The 32 bytes of the header, as they lie in the control page.
    pub open spec fn spec_header(self) -> Seq<u8> {
        Seq::new(32, |i: int| self.spec_header_byte(i))
    }

    /// Reads the control page.
    pub fn decode(page: &[u8]) -> (run: kvm_run)
        ensures
            run.decodes(page@),
    {
        let exit_reason: u32 = read_u32(page, 8);
        let padding1: [u8; 6] = [
            read_u8(page, 2, 0),
            read_u8(page, 2, 1),
            read_u8(page, 2, 2),
            read_u8(page, 2, 3),
            read_u8(page, 2, 4),
            read_u8(page, 2, 5),
        ];
        assert(padding1@ =~= Seq::new(6, |i: int| byte_at(page@, 2 + i) as u8));
        kvm_run {
            request_interrupt_window: read_u8(page, 0, 0),
            immediate_exit: read_u8(page, 1, 0),
            padding1,
            exit_reason,
            ready_for_interrupt_injection: read_u8(page, 12, 0),
            if_flag: read_u8(page, 13, 0),
            flags: read_u16(page, 14),
            cr8: read_u64(page, 16),
            apic_base: read_u64(page, 24),
            exit_details: ExitDetails::decode(exit_reason, page),
        }
    }

    /// The bytes of the header.
    pub fn header(&self) -> (bytes: Vec<u8>)
        ensures
            bytes@ == self.spec_header(),
            bytes@.len() == 32,
    {
        let mut v: Vec<u8> = Vec::new();
        v.push(self.request_interrupt_window);
        v.push(self.immediate_exit);
        v.push(self.padding1[0]);
        v.push(self.padding1[1]);
        v.push(self.padding1[2]);
        v.push(self.padding1[3]);
        v.push(self.padding1[4]);
        v.push(self.padding1[5]);
        let ghost v8 = v@;
        push_u32(&mut v, self.exit_reason);
        let ghost v12 = v@;
        v.push(self.ready_for_interrupt_injection);
        v.push(self.if_flag);
        let ghost v14 = v@;
        crate::sys::layout::push_u16(&mut v, self.flags);
        let ghost v16 = v@;
        push_u64(&mut v, self.cr8);
        let ghost v24 = v@;
        push_u64(&mut v, self.apic_base);
        proof {
            lemma_u32_le(self.exit_reason);
            crate::sys::layout::lemma_u16_le(self.flags);
            lemma_u64_le(self.cr8);
            lemma_u64_le(self.apic_base);
            assert(v8.len() == 8);
            assert(v12.len() == 12);
            assert(v14.len() == 14);
            assert(v16.len() == 16);
            assert(v24.len() == 24);
            assert(v@.len() == 32);
            assert forall|i: int| 0 <= i < 32 implies v@[i] == self.spec_header_byte(i) by {
                if i < 8 {
                    assert(v@[i] == v8[i]);
                } else if i < 12 {
                    assert(v@[i] == v12[i]);
                } else if i < 14 {
                    assert(v@[i] == v14[i]);
                } else if i < 16 {
                    assert(v@[i] == v16[i]);
                } else if i < 24 {
                    assert(v@[i] == v24[i]);
                }
            }
            assert(v@ =~= self.spec_header());
        }
        v
    }

    /// Writes the header into the first 32 bytes of `page` and leaves the
    /// rest of the page as it was. A page shorter than the header is left
    /// unchanged.
    pub fn store_header(&self, page: &mut [u8])
        ensures
            old(page)@.len() >= 32 ==> final(page)@ == self.spec_header() + old(page)@.subrange(
                32,
                old(page)@.len() as int,
            ),
            old(page)@.len() < 32 ==> final(page)@ == old(page)@,
    {
        if page.len() < 32 {
            return ;
        }
        let h = self.header();
        let mut i: usize = 0;
        while i < 32
            invariant
                i <= 32,
                h@.len() == 32,
                page@.len() == old(page)@.len(),
                page@.len() >= 32,
                forall|j: int| 0 <= j < i ==> page@[j] == h@[j],
                forall|j: int| i <= j < page@.len() ==> page@[j] == old(page)@[j],
            decreases 32 - i,
        {
            page[i] = h[i];
            i += 1;
        }
        assert(page@ =~= self.spec_header() + old(page)@.subrange(32, old(page)@.len() as int));
    }
}

/// A control page into which a header was stored reads back with the same
/// header fields; the payload is read as the stored exit reason directs.
pub proof fn lemma_header_round_trip(run: kvm_run, rest: Seq<u8>, back: kvm_run)
    requires
        back.decodes(run.spec_header() + rest),
    ensures
        back.request_interrupt_window == run.request_interrupt_window,
        back.immediate_exit == run.immediate_exit,
        back.padding1@ == run.padding1@,
        back.exit_reason == run.exit_reason,
        back.ready_for_interrupt_injection == run.ready_for_interrupt_injection,
        back.if_flag == run.if_flag,
        back.flags == run.flags,
        back.cr8 == run.cr8,
        back.apic_base == run.apic_base,
{
    let h = run.spec_header();
    let page = h + rest;
    assert(h.len() == 32);
    assert forall|i: int| 0 <= i < 32 implies page[i] == run.spec_header_byte(i) by {
        assert(page[i] == h[i]);
    }
    assert forall|i: int| 0 <= i < 4 implies page[8 + i] == #[trigger] u32_le(
        run.exit_reason,
    )[i] by {
        assert(page[8 + i] == run.spec_header_byte(8 + i));
    }
    crate::sys::layout::lemma_le_u32_window(page, 8, run.exit_reason);
    assert forall|i: int| 0 <= i < 2 implies page[14 + i] == #[trigger] crate::sys::layout::u16_le(
        run.flags,
    )[i] by {
        assert(page[14 + i] == run.spec_header_byte(14 + i));
    }
    crate::sys::layout::lemma_le_u16_window(page, 14, run.flags);
    assert forall|i: int| 0 <= i < 8 implies page[16 + i] == #[trigger] u64_le(run.cr8)[i] by {
        assert(page[16 + i] == run.spec_header_byte(16 + i));
    }
    crate::sys::layout::lemma_le_u64_window(page, 16, run.cr8);
    assert forall|i: int| 0 <= i < 8 implies page[24 + i] == #[trigger] u64_le(
        run.apic_base,
    )[i] by {
        assert(page[24 + i] == run.spec_header_byte(24 + i));
    }
    crate::sys::layout::lemma_le_u64_window(page, 24, run.apic_base);
    assert(page[0] == run.spec_header_byte(0));
    assert(page[1] == run.spec_header_byte(1));
    assert(page[12] == run.spec_header_byte(12));
    assert(page[13] == run.spec_header_byte(13));
    assert forall|i: int| 0 <= i < 6 implies back.padding1@[i] == run.padding1@[i] by {
        assert(page[2 + i] == run.spec_header_byte(2 + i));
    }
    assert(back.padding1@ =~= run.padding1@);
}

/// Storing a header leaves the payload area alone: what the payload area
/// holds for an exit reason after the store, it held before.
pub proof fn lemma_store_keeps_payload(
    run: kvm_run,
    page: Seq<u8>,
    exit_reason: u32,
    details: ExitDetails,
)
    requires
        page.len() >= 32,
        details.decodes(exit_reason, run.spec_header() + page.subrange(32, page.len() as int)),
    ensures
        details.decodes(exit_reason, page),
{
    let stored = run.spec_header() + page.subrange(32, page.len() as int);
    assert(run.spec_header().len() == 32);
    assert forall|i: int| 32 <= i implies byte_at(stored, i) == byte_at(page, i) by {
        if i < page.len() {
            assert(stored[i] == page.subrange(32, page.len() as int)[i - 32]);
        }
    }
    assert forall|i: int| 0 <= i < 8 implies bytes8(stored, 40)[i] == bytes8(page, 40)[i] by {
        assert(byte_at(stored, 40 + i) == byte_at(page, 40 + i));
    }
    assert(bytes8(stored, 40) =~= bytes8(page, 40));
    assert(byte_at(stored, 32) == byte_at(page, 32));
    assert(byte_at(stored, 33) == byte_at(page, 33));
    assert(byte_at(stored, 34) == byte_at(page, 34));
    assert(byte_at(stored, 35) == byte_at(page, 35));
    assert(byte_at(stored, 36) == byte_at(page, 36));
    assert(byte_at(stored, 37) == byte_at(page, 37));
    assert(byte_at(stored, 38) == byte_at(page, 38));
    assert(byte_at(stored, 39) == byte_at(page, 39));
    assert(byte_at(stored, 40) == byte_at(page, 40));
    assert(byte_at(stored, 41) == byte_at(page, 41));
    assert(byte_at(stored, 42) == byte_at(page, 42));
    assert(byte_at(stored, 43) == byte_at(page, 43));
    assert(byte_at(stored, 44) == byte_at(page, 44));
    assert(byte_at(stored, 45) == byte_at(page, 45));
    assert(byte_at(stored, 46) == byte_at(page, 46));
    assert(byte_at(stored, 47) == byte_at(page, 47));
    assert(byte_at(stored, 48) == byte_at(page, 48));
    assert(byte_at(stored, 49) == byte_at(page, 49));
    assert(byte_at(stored, 50) == byte_at(page, 50));
    assert(byte_at(stored, 51) == byte_at(page, 51));
    assert(byte_at(stored, 52) == byte_at(page, 52));
}

} // verus!
