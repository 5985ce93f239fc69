//! The KVM objects: the subsystem handle, virtual machines, virtual CPUs,
//! the runner that drives a vCPU, and guest memory regions.

use vstd::prelude::*;
use crate::io::fd::{
    lemma_file_of, mmap_result, spec_int_result, spec_mmap_result, spec_unit_result, CPath, File,
    OpenOptions,
};
use crate::io::ioctl::IoctlReq;
use crate::io::result::{check, spec_check, Error};
use crate::ioctl::system::{
    KvmSystem, KVM_CHECK_EXTENSION, KVM_CREATE_VM, KVM_GET_API_VERSION, KVM_GET_VCPU_MMAP_SIZE,
};
use crate::ioctl::vcpu::{KvmVcpu, KVM_GET_REGS, KVM_RUN, KVM_SET_REGS};
use crate::ioctl::vm::{KvmVm, KVM_CREATE_VCPU, KVM_SET_USER_MEMORY_REGION};
use crate::raw::{kvm_regs, kvm_run, kvm_userspace_memory_region, KVM_RUN_SIZE};
use crate::sys::call::{Arg, Op, Syscall};
use crate::sys::args::AsRawV;
use crate::sys::layout::Layout;
use crate::sys::result::{is_error_word, ENOMEM};
use crate::sys::types::{AT_FDCWD, MAP_ANONYMOUS, MAP_SHARED, PROT_READ, PROT_WRITE};

verus! {

/// The version that the stable KVM API reports. Callers are expected to
/// refuse to go on with any other; the library itself reports the version
/// and leaves that decision to them.
pub const KVM_API_VERSION: i32 = 12;

/// The path of the KVM device node, with its terminating zero byte:
/// `/dev/kvm`.
pub open spec fn dev_kvm_path() -> Seq<u8> {
    seq![0x2fu8, 0x64u8, 0x65u8, 0x76u8, 0x2fu8, 0x6bu8, 0x76u8, 0x6du8, 0x00u8]
}

/// What becomes of a mapping when its owner gives it up.
#[derive(Clone, Copy, Debug, PartialEq, Eq, Structural)]
pub enum Teardown {
    /// The kernel released the mapping.
    Released,
    /// The kernel refused to release the mapping. There is no way to go on
    /// safely with address space that is believed released and is not: the
    /// host must abort the process.
    Abort(Error),
}

/// What an answer to `munmap` means for the owner of the mapping.
pub open spec fn spec_teardown(raw: u64) -> Teardown {
    match spec_check(raw) {
        Ok(_) => Teardown::Released,
        Err(e) => Teardown::Abort(e),
    }
}

/// Reads the kernel's answer to a `munmap` on teardown.
pub fn teardown(raw: u64) -> (t: Teardown)
    ensures
        t == spec_teardown(raw),
        t is Released <==> !is_error_word(raw),
{
    match check(raw) {
        Ok(_) => Teardown::Released,
        Err(e) => Teardown::Abort(e),
    }
}

/// The kernel's whole KVM subsystem: the entry point for obtaining all
/// other KVM objects.
#[derive(Debug)]
pub struct Kvm {
    f: File<KvmSystem>,
    api_version: Option<i32>,
}

impl Kvm {
    /// The descriptor of the subsystem handle.
    pub closed spec fn spec_fd(&self) -> i32 {
        self.f.spec_fd()
    }

    /// The API version that the kernel last reported through this handle,
    /// once it was queried.
    pub closed spec fn spec_api_version(&self) -> Option<i32> {
        self.api_version
    }

    /// The call that opens the KVM device `/dev/kvm` read-write and
    /// close-on-exec.
    pub fn open_call() -> (c: Syscall)
        ensures
            c.op == (Op::Openat { dirfd: AT_FDCWD, flags: 0o2000002, mode: 0 }),
            c.data@ == dev_kvm_path(),
    {
        let mut path: Vec<u8> = Vec::new();
        path.push(0x2f);
        path.push(0x64);
        path.push(0x65);
        path.push(0x76);
        path.push(0x2f);
        path.push(0x6b);
        path.push(0x76);
        path.push(0x6d);
        path.push(0x00);
        assert(path@ =~= dev_kvm_path());
        let opts = OpenOptions::read_write().close_on_exec();
        assert(0o2i32 | 0o2000000i32 == 0o2000002i32) by (bit_vector);
        assert(crate::io::fd::is_c_string(path@));
        let p = CPath::from_bytes_with_nul(path);
        File::open_call(&p.unwrap(), opts)
    }

    /// What the kernel's answer to [`Self::open_call`] means: the subsystem
    /// handle, or the kernel's error code where `/dev/kvm` cannot be
    /// opened, such as when KVM is not enabled in the kernel. Every answer
    /// yields one or the other.
    pub fn open(raw: u64) -> (r: Result<Self, Error>)
        ensures
            r is Err <==> is_error_word(raw),
            match spec_int_result(raw) {
                Ok(fd) => r is Ok && r->Ok_0.spec_fd() == fd && r->Ok_0.spec_api_version()
                    is None,
                Err(e) => r is Err && r->Err_0 == e,
            },
    {
        match File::<()>::open(raw) {
            Ok(f) => Ok(Self::from_file(f.to_device(KvmSystem))),
            Err(e) => Err(e),
        }
    }

    /// Wraps the given already-opened file in a `Kvm` object, of which no
    /// API version is known yet.
    pub fn from_file(f: File<KvmSystem>) -> (kvm: Self)
        ensures
            kvm.spec_fd() == f.spec_fd(),
            kvm.spec_api_version() is None,
    {
        Kvm { f, api_version: None }
    }

    /// The call that asks for the version of the KVM API.
    pub fn get_api_version_call(&self) -> (c: Syscall)
        ensures
            c.op == (Op::Ioctl { fd: self.spec_fd(), request: 0xAE00, arg: Arg::Void }),
            c.data@ == Seq::<u8>::empty(),
    {
        self.f.ioctl_call(&KVM_GET_API_VERSION(), &())
    }

    /// What the kernel's answer to [`Self::get_api_version_call`] means:
    /// the version number as the kernel gave it, which the handle keeps.
    /// The stable API always answers [`KVM_API_VERSION`]; another version
    /// is reported like any other and not refused here: whether to go on
    /// with it is the caller's decision.
    pub fn get_api_version(&mut self, raw: u64) -> (r: Result<i32, Error>)
        ensures
            r == spec_int_result(raw),
            final(self).spec_fd() == old(self).spec_fd(),
            final(self).spec_api_version() == match r {
                Ok(version) => Some(version),
                Err(_) => old(self).spec_api_version(),
            },
    {
        let r = self.f.ioctl(&KVM_GET_API_VERSION(), &(), raw, &[]);
        match r {
            Ok(version) => {
                self.api_version = Some(version);
            },
            Err(_) => {},
        }
        r
    }

    /// The API version that the kernel last reported through this handle;
    /// none before the first successful query.
    #[verifier::when_used_as_spec(spec_api_version)]
    pub fn api_version(&self) -> (v: Option<i32>)
        ensures
            v == self.spec_api_version(),
    {
        self.api_version
    }

    /// Whether the kernel has reported the version of the stable API.
    pub fn has_stable_api(&self) -> (b: bool)
        ensures
            b == (self.spec_api_version() == Some(KVM_API_VERSION)),
    {
        match self.api_version {
            Some(version) => version == KVM_API_VERSION,
            None => false,
        }
    }

    /// The call that asks whether the subsystem supports extension `ext`.
    pub fn check_extension_call(&self, ext: i32) -> (c: Syscall)
        ensures
            c.op == (Op::Ioctl { fd: self.spec_fd(), request: 0x4004_AE03, arg: Arg::In }),
            c.data@ == ext.spec_encode(),
    {
        self.f.ioctl_call(&KVM_CHECK_EXTENSION(), &ext)
    }

    /// What the kernel's answer to [`Self::check_extension_call`] means:
    /// zero for an unsupported extension, nonzero for a supported one.
    pub fn check_extension(&self, ext: i32, raw: u64) -> (r: Result<i32, Error>)
        ensures
            r == spec_int_result(raw),
    {
        self.f.ioctl(&KVM_CHECK_EXTENSION(), &ext, raw, &[])
    }

    /// The call that creates a new virtual machine.
    pub fn create_vm_call(&self) -> (c: Syscall)
        ensures
            c.op == (Op::Ioctl { fd: self.spec_fd(), request: 0xAE01, arg: Arg::Void }),
            c.data@ == Seq::<u8>::empty(),
    {
        self.f.ioctl_call(&KVM_CREATE_VM(), &())
    }

    /// What the kernel's answer to [`Self::create_vm_call`] means: a
    /// virtual machine on the new handle, with no memory slot registered,
    /// or the kernel's error code.
    pub fn create_vm(&self, raw: u64) -> (r: Result<VirtualMachine<'_>, Error>)
        ensures
            match spec_int_result(raw) {
                Ok(fd) => r is Ok && r->Ok_0.spec_fd() == fd && r->Ok_0.spec_kvm() == self
                    && r->Ok_0.slots() == Map::<u32, kvm_userspace_memory_region>::empty(),
                Err(e) => r is Err && r->Err_0 == e,
            },
    {
        match self.f.ioctl(&KVM_CREATE_VM(), &(), raw, &[]) {
            Ok(f) => {
                proof {
                    let fd = spec_int_result(raw)->Ok_0;
                    lemma_file_of::<KvmVm>(fd);
                }
                Ok(VirtualMachine::from_file(f, self))
            },
            Err(e) => Err(e),
        }
    }

    /// The call that asks how many bytes the shared control page of each
    /// vCPU spans.
    pub fn get_vcpu_mmap_size_call(&self) -> (c: Syscall)
        ensures
            c.op == (Op::Ioctl { fd: self.spec_fd(), request: 0xAE04, arg: Arg::Void }),
            c.data@ == Seq::<u8>::empty(),
    {
        self.f.ioctl_call(&KVM_GET_VCPU_MMAP_SIZE(), &())
    }

    /// What the kernel's answer to [`Self::get_vcpu_mmap_size_call`] means.
    pub fn get_vcpu_mmap_size(&self, raw: u64) -> (r: Result<i32, Error>)
        ensures
            r == spec_int_result(raw),
    {
        self.f.ioctl(&KVM_GET_VCPU_MMAP_SIZE(), &(), raw, &[])
    }

    /// Gives the handle up: the call that closes its descriptor.
    pub fn close_call(self) -> (c: Syscall)
        ensures
            c.op == (Op::Close { fd: self.spec_fd() }),
            c.data@ == Seq::<u8>::empty(),
    {
        self.f.close_call()
    }
}

/// The descriptor registered for slot `id` in a list of registrations: the
/// latest one that names the slot.
pub open spec fn lookup(s: Seq<kvm_userspace_memory_region>, id: u32) -> Option<
    kvm_userspace_memory_region,
>
    decreases s.len(),
{
    if s.len() == 0 {
        None
    } else if s.last().slot == id {
        Some(s.last())
    } else {
        lookup(s.drop_last(), id)
    }
}

/// The slot table that a list of registrations stands for.
pub open spec fn slot_map(s: Seq<kvm_userspace_memory_region>) -> Map<
    u32,
    kvm_userspace_memory_region,
> {
    Map::new(|id: u32| lookup(s, id) is Some, |id: u32| lookup(s, id)->Some_0)
}

/// The slot table after the kernel accepted `desc`: a descriptor of size
/// zero deletes its slot; any other replaces what the slot held.
pub open spec fn apply_slot(
    slots: Map<u32, kvm_userspace_memory_region>,
    desc: kvm_userspace_memory_region,
) -> Map<u32, kvm_userspace_memory_region> {
    if desc.memory_size == 0 {
        slots.remove(desc.slot)
    } else {
        slots.insert(desc.slot, desc)
    }
}

/// Registering a slot with a size and then registering it again with size
/// zero leaves the slot gone and the rest of the table as it was; the slot
/// can then be registered afresh.
pub proof fn lemma_register_then_delete(
    slots: Map<u32, kvm_userspace_memory_region>,
    first: kvm_userspace_memory_region,
    second: kvm_userspace_memory_region,
    third: kvm_userspace_memory_region,
)
    requires
        first.memory_size != 0,
        second.memory_size == 0,
        third.memory_size != 0,
        second.slot == first.slot,
        third.slot == first.slot,
    ensures
        apply_slot(slots, first).dom().contains(first.slot),
        apply_slot(slots, first)[first.slot] == first,
        apply_slot(apply_slot(slots, first), second) == slots.remove(first.slot),
        !apply_slot(apply_slot(slots, first), second).dom().contains(first.slot),
        apply_slot(apply_slot(apply_slot(slots, first), second), third) == slots.insert(
            first.slot,
            third,
        ),
{
    assert(apply_slot(apply_slot(slots, first), second) =~= slots.remove(first.slot));
    assert(apply_slot(apply_slot(apply_slot(slots, first), second), third) =~= slots.insert(
        first.slot,
        third,
    ));
}

/// Slot ids are unique: registering one slot changes no other, and
/// registering a slot again replaces what it held.
pub proof fn lemma_slots_independent(
    slots: Map<u32, kvm_userspace_memory_region>,
    desc: kvm_userspace_memory_region,
    again: kvm_userspace_memory_region,
    other: u32,
)
    requires
        other != desc.slot,
        again.slot == desc.slot,
    ensures
        apply_slot(slots, desc).dom().contains(other) == slots.dom().contains(other),
        slots.dom().contains(other) ==> apply_slot(slots, desc)[other] == slots[other],
        apply_slot(apply_slot(slots, desc), again) == apply_slot(slots, again),
{
    assert(apply_slot(apply_slot(slots, desc), again) =~= apply_slot(slots, again));
}

/// The registrations in `s` that do not name slot `id`, in their order.
fn without_slot(s: &Vec<kvm_userspace_memory_region>, id: u32) -> (out: Vec<
    kvm_userspace_memory_region,
>)
    ensures
        slot_map(out@) == slot_map(s@).remove(id),
{
    let mut out: Vec<kvm_userspace_memory_region> = Vec::new();
    let mut i: usize = 0;
    while i < s.len()
        invariant
            i <= s.len(),
            forall|x: u32|
                #[trigger] lookup(out@, x) == if x == id {
                    None
                } else {
                    lookup(s@.subrange(0, i as int), x)
                },
        decreases s.len() - i,
    {
        let e = s[i];
        let ghost prev_out = out@;
        let ghost prev = s@.subrange(0, i as int);
        let ghost next = s@.subrange(0, i + 1);
        proof {
            assert(next.drop_last() =~= prev);
            assert(next.last() == e);
        }
        if e.slot != id {
            out.push(e);
            proof {
                assert(out@.drop_last() =~= prev_out);
                assert(out@.last() == e);
            }
        }
        proof {
            assert forall|x: u32|
                #[trigger] lookup(out@, x) == if x == id {
                    None
                } else {
                    lookup(next, x)
                } by {
                assert(lookup(next, x) == if e.slot == x {
                    Some(e)
                } else {
                    lookup(prev, x)
                });
                if e.slot != id {
                    assert(lookup(out@, x) == if e.slot == x {
                        Some(e)
                    } else {
                        lookup(prev_out, x)
                    });
                }
            }
        }
        i += 1;
    }
    proof {
        assert(s@.subrange(0, i as int) =~= s@);
        assert(slot_map(out@) =~= slot_map(s@).remove(id));
    }
    out
}

/// An individual virtual machine created through a [`Kvm`] object.
///
/// The machine keeps the table of the memory slots that the kernel accepted
/// through it: slot ids are unique, registering an id again replaces what
/// it held, and registering size zero deletes it.
#[derive(Debug)]
pub struct VirtualMachine<'a> {
    f: File<KvmVm>,
    kvm: &'a Kvm,
    slots: Vec<kvm_userspace_memory_region>,
}

impl<'a> VirtualMachine<'a> {
    /// The descriptor of the VM handle.
    pub closed spec fn spec_fd(&self) -> i32 {
        self.f.spec_fd()
    }

    /// The subsystem handle through which the machine was created.
    pub closed spec fn spec_kvm(&self) -> &'a Kvm {
        self.kvm
    }

    /// The memory slots now registered, by slot id.
    pub closed spec fn slots(&self) -> Map<u32, kvm_userspace_memory_region> {
        slot_map(self.slots@)
    }

    /// Wraps the given already-opened file in a `VirtualMachine` object
    /// with no memory slot registered.
    pub fn from_file(f: File<KvmVm>, kvm: &'a Kvm) -> (vm: Self)
        ensures
            vm.spec_fd() == f.spec_fd(),
            vm.spec_kvm() == kvm,
            vm.slots() == Map::<u32, kvm_userspace_memory_region>::empty(),
    {
        let vm = VirtualMachine { f, kvm, slots: Vec::new() };
        assert(vm.slots() =~= Map::<u32, kvm_userspace_memory_region>::empty());
        vm
    }

    /// The descriptor registered for slot `id`, if there is one.
    pub fn slot(&self, id: u32) -> (r: Option<kvm_userspace_memory_region>)
        ensures
            r is Some <==> self.slots().dom().contains(id),
            r is Some ==> r->Some_0 == self.slots()[id],
    {
        let mut i: usize = self.slots.len();
        assert(self.slots@.subrange(0, i as int) =~= self.slots@);
        while i > 0
            invariant
                i <= self.slots.len(),
                lookup(self.slots@, id) == lookup(self.slots@.subrange(0, i as int), id),
            decreases i,
        {
            let ghost cur = self.slots@.subrange(0, i as int);
            proof {
                assert(cur.drop_last() =~= self.slots@.subrange(0, i - 1));
                assert(cur.last() == self.slots@[i - 1]);
            }
            i -= 1;
            if self.slots[i].slot == id {
                return Some(self.slots[i]);
            }
        }
        None
    }

    /// The call that asks whether the subsystem supports extension `ext`
    /// for this VM.
    pub fn check_extension_call(&self, ext: i32) -> (c: Syscall)
        ensures
            c.op == (Op::Ioctl { fd: self.spec_fd(), request: 0x4004_AE03, arg: Arg::In }),
            c.data@ == ext.spec_encode(),
    {
        self.f.ioctl_call(&crate::ioctl::vm::KVM_CHECK_EXTENSION(), &ext)
    }

    /// What the kernel's answer to [`Self::check_extension_call`] means.
    pub fn check_extension(&self, ext: i32, raw: u64) -> (r: Result<i32, Error>)
        ensures
            r == spec_int_result(raw),
    {
        self.f.ioctl(&crate::ioctl::vm::KVM_CHECK_EXTENSION(), &ext, raw, &[])
    }

    /// The call that creates the vCPU with id `cpu_id` for this VM. Ids
    /// start at zero; the kernel enforces its own limit on them and refuses
    /// an id that is already taken.
    pub fn create_vcpu_call(&self, cpu_id: i32) -> (c: Syscall)
        ensures
            c.op == (Op::Ioctl {
                fd: self.spec_fd(),
                request: 0xAE41,
                arg: Arg::Value(cpu_id.spec_to_raw_arg()),
            }),
            c.data@ == Seq::<u8>::empty(),
    {
        self.f.ioctl_call(&KVM_CREATE_VCPU(), &cpu_id)
    }

    /// What the kernel's answer to [`Self::create_vcpu_call`] means: a vCPU
    /// on the new handle, or the kernel's error code.
    pub fn create_vcpu(&self, cpu_id: i32, raw: u64) -> (r: Result<VirtualCpu<'a>, Error>)
        ensures
            match spec_int_result(raw) {
                Ok(fd) => r is Ok && r->Ok_0.spec_fd() == fd && r->Ok_0.spec_kvm()
                    == self.spec_kvm() && r->Ok_0.spec_id() == cpu_id,
                Err(e) => r is Err && r->Err_0 == e,
            },
    {
        match self.f.ioctl(&KVM_CREATE_VCPU(), &cpu_id, raw, &[]) {
            Ok(f) => {
                proof {
                    let fd = spec_int_result(raw)->Ok_0;
                    lemma_file_of::<KvmVcpu>(fd);
                }
                Ok(VirtualCpu::from_file(f, self.kvm, cpu_id))
            },
            Err(e) => Err(e),
        }
    }

    /// The descriptor that registers `host_region` at `guest_phys_addr` in
    /// slot `slot`.
    pub open spec fn spec_descriptor(
        slot: u32,
        flags: u32,
        guest_phys_addr: u64,
        host_region: &MemoryRegion,
    ) -> kvm_userspace_memory_region {
        kvm_userspace_memory_region {
            slot,
            flags,
            guest_phys_addr,
            memory_size: host_region.spec_len() as u64,
            userspace_addr: host_region.spec_addr() as u64,
        }
    }

    /// Builds the descriptor that registers `host_region` at
    /// `guest_phys_addr` in slot `slot`.
    pub fn descriptor(slot: u32, flags: u32, guest_phys_addr: u64, host_region: &MemoryRegion) -> (d:
        kvm_userspace_memory_region)
        ensures
            d == Self::spec_descriptor(slot, flags, guest_phys_addr, host_region),
    {
        kvm_userspace_memory_region {
            slot,
            flags,
            guest_phys_addr,
            memory_size: host_region.len() as u64,
            userspace_addr: host_region.addr() as u64,
        }
    }

    /// The call that sets memory slot `slot` of the VM to refer to the
    /// given memory region.
    pub fn set_guest_memory_region_call(
        &self,
        slot: u32,
        flags: u32,
        guest_phys_addr: u64,
        host_region: &MemoryRegion,
    ) -> (c: Syscall)
        ensures
            c.op == (Op::Ioctl { fd: self.spec_fd(), request: 0x4020_AE46, arg: Arg::In }),
            c.data@ == Self::spec_descriptor(
                slot,
                flags,
                guest_phys_addr,
                host_region,
            ).spec_encode(),
    {
        let desc = Self::descriptor(slot, flags, guest_phys_addr, host_region);
        self.f.ioctl_call(&KVM_SET_USER_MEMORY_REGION(), &desc)
    }

    /// What the kernel's answer to [`Self::set_guest_memory_region_call`]
    /// means. Where the kernel accepted the descriptor, the slot table
    /// follows it: a region of length zero deletes the slot, any other
    /// replaces what the slot held. Where the kernel refused, its error
    /// code is returned and the table stays as it was.
    ///
    /// The region must outlive the VM: the guest and the kernel refer to
    /// the mapping by its host address for as long as the slot stands.
    pub fn set_guest_memory_region<'r: 'a>(
        &mut self,
        slot: u32,
        flags: u32,
        guest_phys_addr: u64,
        host_region: &'r mut MemoryRegion,
        raw: u64,
    ) -> (r: Result<(), Error>)
        ensures
            r == spec_unit_result(raw),
            final(self).spec_fd() == old(self).spec_fd(),
            final(self).spec_kvm() == old(self).spec_kvm(),
            r is Ok ==> final(self).slots() == apply_slot(
                old(self).slots(),
                Self::spec_descriptor(slot, flags, guest_phys_addr, old(host_region)),
            ),
            r is Err ==> final(self).slots() == old(self).slots(),
            *final(host_region) == *old(host_region),
    {
        let desc = Self::descriptor(slot, flags, guest_phys_addr, host_region);
        match check(raw) {
            Ok(_) => {
                let mut slots = without_slot(&self.slots, slot);
                if desc.memory_size != 0 {
                    let ghost before = slots@;
                    slots.push(desc);
                    proof {
                        assert(slots@.drop_last() =~= before);
                        assert(slots@.last() == desc);
                        assert(slot_map(slots@) =~= slot_map(before).insert(slot, desc));
                    }
                }
                self.slots = slots;
                Ok(())
            },
            Err(e) => Err(e),
        }
    }

    /// Gives the handle up: the call that closes its descriptor.
    pub fn close_call(self) -> (c: Syscall)
        ensures
            c.op == (Op::Close { fd: self.spec_fd() }),
            c.data@ == Seq::<u8>::empty(),
    {
        self.f.close_call()
    }
}

/// A virtual CPU belonging to a [`VirtualMachine`].
#[derive(Debug)]
pub struct VirtualCpu<'a> {
    f: File<KvmVcpu>,
    kvm: &'a Kvm,
    id: i32,
}

/// What the kernel's answer to a register read means: the register set
/// that the kernel wrote, or the kernel's error code.
pub open spec fn spec_regs_result(raw: u64, temp_mem: Seq<u8>) -> Result<kvm_regs, Error> {
    match spec_check(raw) {
        Ok(_) => Ok(kvm_regs::spec_decode(temp_mem)),
        Err(e) => Err(e),
    }
}

impl<'a> VirtualCpu<'a> {
    /// The descriptor of the vCPU handle.
    pub closed spec fn spec_fd(&self) -> i32 {
        self.f.spec_fd()
    }

    /// The subsystem handle through which the vCPU's machine was created.
    pub closed spec fn spec_kvm(&self) -> &'a Kvm {
        self.kvm
    }

    /// The id of the vCPU within its machine.
    pub closed spec fn spec_id(&self) -> i32 {
        self.id
    }

    /// Wraps the given already-opened file in a `VirtualCpu` object with
    /// the given id.
    pub fn from_file(f: File<KvmVcpu>, kvm: &'a Kvm, id: i32) -> (cpu: Self)
        ensures
            cpu.spec_fd() == f.spec_fd(),
            cpu.spec_kvm() == kvm,
            cpu.spec_id() == id,
    {
        VirtualCpu { f, kvm, id }
    }

    /// The id of the vCPU within its machine.
    #[verifier::when_used_as_spec(spec_id)]
    pub fn id(&self) -> (id: i32)
        ensures
            id == self.spec_id(),
    {
        self.id
    }

    /// The call that reads the current register values of this vCPU.
    pub fn get_regs_call(&self) -> (c: Syscall)
        ensures
            c.op == (Op::Ioctl {
                fd: self.spec_fd(),
                request: 0x8090_AE81,
                arg: Arg::Out { len: 144 },
            }),
            c.data@ == Seq::<u8>::empty(),
    {
        self.f.ioctl_call(&KVM_GET_REGS(), &())
    }

    /// What the kernel's answer to [`Self::get_regs_call`] means, with the
    /// bytes the kernel wrote in `temp_mem`.
    pub fn get_regs(&self, raw: u64, temp_mem: &[u8]) -> (r: Result<kvm_regs, Error>)
        ensures
            r == spec_regs_result(raw, temp_mem@),
    {
        self.f.ioctl(&KVM_GET_REGS(), &(), raw, temp_mem)
    }

    /// The call that sets the register values of this vCPU.
    pub fn set_regs_call(&self, new: &kvm_regs) -> (c: Syscall)
        ensures
            c.op == (Op::Ioctl { fd: self.spec_fd(), request: 0x4090_AE82, arg: Arg::In }),
            c.data@ == new.spec_encode(),
    {
        self.f.ioctl_call(&KVM_SET_REGS(), new)
    }

    /// What the kernel's answer to [`Self::set_regs_call`] means.
    pub fn set_regs(&self, new: &kvm_regs, raw: u64) -> (r: Result<(), Error>)
        ensures
            r == spec_unit_result(raw),
    {
        match self.f.ioctl(&KVM_SET_REGS(), new, raw, &[]) {
            Ok(_) => Ok(()),
            Err(e) => Err(e),
        }
    }

    /// Gives the handle up: the call that closes its descriptor.
    pub fn close_call(self) -> (c: Syscall)
        ensures
            c.op == (Op::Close { fd: self.spec_fd() }),
            c.data@ == Seq::<u8>::empty(),
    {
        self.f.close_call()
    }
}

/// A page-aligned host memory region that can be mapped into the guest
/// memory space of a [`VirtualMachine`].
#[derive(Debug)]
pub struct MemoryRegion {
    addr: usize,
    length: usize,
}

impl MemoryRegion {
    /// The host address at which the region is mapped.
    pub closed spec fn spec_addr(&self) -> usize {
        self.addr
    }

    /// The length of the region in bytes.
    pub closed spec fn spec_len(&self) -> usize {
        self.length
    }

    /// The call that allocates a new memory region of `length` bytes: an
    /// anonymous, shared, read-write mapping that no file backs.
    pub fn new_call(length: usize) -> (c: Syscall)
        ensures
            c.op == (Op::Mmap { addr: 0, length, prot: 0x3, flags: 0x21, fd: -1i32, offset: 0 }),
            c.data@ == Seq::<u8>::empty(),
    {
        assert(0x1i32 | 0x2i32 == 0x3i32 && 0x1i32 | 0x20i32 == 0x21i32) by (bit_vector);
        Syscall::plain(
            Op::Mmap {
                addr: 0,
                length,
                prot: PROT_READ | PROT_WRITE,
                flags: MAP_SHARED | MAP_ANONYMOUS,
                fd: -1,
                offset: 0,
            },
        )
    }

    /// What the kernel's answer to [`Self::new_call`] means: the region at
    /// the address the kernel chose, or the kernel's error code where the
    /// mapping cannot be established.
    pub fn new(length: usize, raw: u64) -> (r: Result<Self, Error>)
        ensures
            match spec_mmap_result(raw) {
                Ok(addr) => r is Ok && r->Ok_0.spec_addr() == addr && r->Ok_0.spec_len()
                    == length,
                Err(e) => r is Err && r->Err_0 == e,
            },
    {
        match mmap_result(raw) {
            Ok(addr) => Ok(MemoryRegion { addr, length }),
            Err(e) => Err(e),
        }
    }

    #[verifier::when_used_as_spec(spec_addr)]
    pub fn addr(&self) -> (a: usize)
        ensures
            a == self.spec_addr(),
    {
        self.addr
    }

    #[verifier::when_used_as_spec(spec_len)]
    pub fn len(&self) -> (n: usize)
        ensures
            n == self.spec_len(),
    {
        self.length
    }

    /// Gives the region up: the one call that unmaps it. The answer goes to
    /// [`teardown`]; a failed unmap must abort the process.
    pub fn unmap_call(self) -> (c: Syscall)
        ensures
            c.op == (Op::Munmap { addr: self.spec_addr(), length: self.spec_len() }),
            c.data@ == Seq::<u8>::empty(),
    {
        Syscall::plain(Op::Munmap { addr: self.addr, length: self.length })
    }
}

/// What the answer to the control page size query means for a runner: the
/// number of bytes to map, the kernel's error code, or "out of memory"
/// where the kernel offers fewer bytes than the control page structure
/// needs.
pub open spec fn spec_runner_len(raw: u64) -> Result<usize, Error> {
    match spec_int_result(raw) {
        Ok(n) => spec_checked_len(n as usize),
        Err(e) => Err(e),
    }
}

/// A control page of `mmap_size` bytes is usable if and only if it spans
/// the whole control page structure.
pub open spec fn spec_checked_len(mmap_size: usize) -> Result<usize, Error> {
    if mmap_size < KVM_RUN_SIZE {
        Err(Error(ENOMEM))
    } else {
        Ok(mmap_size)
    }
}

impl<'a> VirtualCpu<'a> {
    /// The first call on the way to a runner: the query for the size of
    /// the shared control page, made on the subsystem handle.
    pub fn to_runner_call(&self) -> (c: Syscall)
        ensures
            c.op == (Op::Ioctl {
                fd: self.spec_kvm().spec_fd(),
                request: 0xAE04,
                arg: Arg::Void,
            }),
            c.data@ == Seq::<u8>::empty(),
    {
        self.kvm.get_vcpu_mmap_size_call()
    }

    /// What the kernel's answer to [`Self::to_runner_call`] means. Where
    /// the query failed, or the kernel offers fewer bytes than the control
    /// page structure needs, nothing is mapped: the error comes back
    /// together with the vCPU, untouched. Otherwise the vCPU goes into a
    /// [`PendingRunner`], which names the mapping to make.
    pub fn to_runner(self, raw: u64) -> (r: Result<PendingRunner<'a>, (Error, VirtualCpu<'a>)>)
        ensures
            match spec_runner_len(raw) {
                Ok(len) => r is Ok && r->Ok_0.spec_vcpu() == self && r->Ok_0.spec_len() == len,
                Err(e) => r is Err && r->Err_0 == (e, self),
            },
            raw < KVM_RUN_SIZE ==> r is Err && r->Err_0 == (Error(ENOMEM), self),
    {
        match self.kvm.get_vcpu_mmap_size(raw) {
            Ok(mmap_size) => VirtualCpuRunner::new(
                self,
                #[verifier::truncate]
                (mmap_size as usize),
            ),
            Err(e) => Err((e, self)),
        }
    }
}

/// A vCPU on its way to a runner: the size of the control page is known
/// and spans the control page structure; the page is yet to be mapped.
#[derive(Debug)]
pub struct PendingRunner<'a> {
    vcpu: VirtualCpu<'a>,
    len: usize,
}

impl<'a> PendingRunner<'a> {
    #[verifier::type_invariant]
    spec fn well_formed(&self) -> bool {
        self.len >= KVM_RUN_SIZE
    }

    /// The vCPU that the runner will drive.
    pub closed spec fn spec_vcpu(&self) -> VirtualCpu<'a> {
        self.vcpu
    }

    /// The number of bytes to map.
    pub closed spec fn spec_len(&self) -> usize {
        self.len
    }

    /// The number of bytes to map, which span the control page structure.
    pub fn len(&self) -> (n: usize)
        ensures
            n == self.spec_len(),
            n >= KVM_RUN_SIZE,
    {
        proof {
            use_type_invariant(self);
        }
        self.len
    }

    /// The call that maps the control page: the vCPU handle, from offset
    /// zero, read-write and shared.
    pub fn mmap_call(&self) -> (c: Syscall)
        ensures
            c.op == (Op::Mmap {
                addr: 0,
                length: self.spec_len(),
                prot: 0x3,
                flags: 0x1,
                fd: self.spec_vcpu().spec_fd(),
                offset: 0,
            }),
            c.data@ == Seq::<u8>::empty(),
    {
        assert(0x1i32 | 0x2i32 == 0x3i32) by (bit_vector);
        self.vcpu.f.mmap_raw_call(0, self.len, 0, PROT_READ | PROT_WRITE, MAP_SHARED)
    }

    /// What the kernel's answer to [`Self::mmap_call`] means: a runner that
    /// owns both the vCPU and the mapping and is ready to run, or the
    /// kernel's error code together with the vCPU, untouched.
    pub fn finish(self, raw: u64) -> (r: Result<VirtualCpuRunner<'a>, (Error, VirtualCpu<'a>)>)
        ensures
            match spec_mmap_result(raw) {
                Ok(addr) => r is Ok && r->Ok_0.spec_vcpu() == self.spec_vcpu()
                    && r->Ok_0.spec_run() == addr && r->Ok_0.spec_run_len() == self.spec_len()
                    && r->Ok_0.spec_state() == RunnerState::Ready,
                Err(e) => r is Err && r->Err_0 == (e, self.spec_vcpu()),
            },
    {
        proof {
            use_type_invariant(&self);
        }
        match mmap_result(raw) {
            Ok(addr) => Ok(
                VirtualCpuRunner {
                    vcpu: self.vcpu,
                    run: addr,
                    run_len: self.len,
                    state: RunnerState::Ready,
                },
            ),
            Err(e) => Err((e, self.vcpu)),
        }
    }
}

/// Where a runner stands in its life.
#[derive(Clone, Copy, Debug, PartialEq, Eq, Structural)]
pub enum RunnerState {
    /// Registers and memory may be set; the vCPU may be run.
    Ready,
    /// The run request is with the kernel; the host thread that makes it
    /// is blocked until the guest exits.
    Running,
    /// The run request returned; the control page holds the exit.
    Exited,
    /// The control page was given up; the runner does nothing more.
    Closed,
}

/// The state after the run request was handed out in state `s`: a runner
/// that is ready or has exited starts running; any other stays as it is.
pub open spec fn spec_after_run_call(s: RunnerState) -> RunnerState {
    match s {
        RunnerState::Ready | RunnerState::Exited => RunnerState::Running,
        _ => s,
    }
}

/// The state after the kernel answered the run request with `raw` in state
/// `s`: a running runner has exited where the kernel reports success and is
/// ready again where it reports failure; any other stays as it is.
pub open spec fn spec_after_run(s: RunnerState, raw: u64) -> RunnerState {
    if s == RunnerState::Running {
        if is_error_word(raw) {
            RunnerState::Ready
        } else {
            RunnerState::Exited
        }
    } else {
        s
    }
}

/// Whether a runner in state `s` that is given up hands out the unmap of
/// its control page: every runner but a closed one.
pub open spec fn spec_close_unmaps(s: RunnerState) -> bool {
    s != RunnerState::Closed
}

/// The state after a runner was given up: closed, whatever it was.
pub open spec fn spec_after_close(s: RunnerState) -> RunnerState {
    RunnerState::Closed
}

/// The control page of a runner is unmapped exactly once: giving the
/// runner up hands out the unmap unless the runner is closed already, the
/// runner is closed from then on, and nothing brings a closed runner back:
/// neither a request to run nor an answer to one.
pub proof fn lemma_unmaps_exactly_once(s: RunnerState, raw: u64)
    ensures
        spec_close_unmaps(s) <==> s != RunnerState::Closed,
        !spec_close_unmaps(spec_after_close(s)),
        spec_after_close(spec_after_close(s)) == RunnerState::Closed,
        spec_after_run_call(RunnerState::Closed) == RunnerState::Closed,
        spec_after_run(RunnerState::Closed, raw) == RunnerState::Closed,
{
}

/// A run goes from ready or exited to running, and from running to exited
/// where the kernel reports success and back to ready where it reports
/// failure.
pub proof fn lemma_run_cycle(s: RunnerState, raw: u64)
    requires
        s == RunnerState::Ready || s == RunnerState::Exited,
    ensures
        spec_after_run_call(s) == RunnerState::Running,
        !is_error_word(raw) ==> spec_after_run(spec_after_run_call(s), raw) == RunnerState::Exited,
        is_error_word(raw) ==> spec_after_run(spec_after_run_call(s), raw) == RunnerState::Ready,
        spec_after_run_call(spec_after_run_call(s)) == RunnerState::Running,
{
}

/// The control page after `run` was written back into `page`: the header
/// of `run` in the first 32 bytes and the rest as it was. A page shorter
/// than the header stays as it was.
pub open spec fn spec_stored(run: kvm_run, page: Seq<u8>) -> Seq<u8> {
    if page.len() >= 32 {
        run.spec_header() + page.subrange(32, page.len() as int)
    } else {
        page
    }
}

/// Registers read, changed by the caller's function and waiting to be
/// written back.
pub struct ModifiedRegs<R> {
    /// What the caller's function returned.
    pub value: R,
    /// The registers as the caller's function left them.
    pub regs: kvm_regs,
    /// The call that writes them back.
    pub set_call: Syscall,
}

impl<R> ModifiedRegs<R> {
    /// What the kernel's answer to [`Self::set_call`] means: the value of
    /// the caller's function where the registers were written, the
    /// kernel's error code otherwise.
    pub fn finish(self, raw: u64) -> (r: Result<R, Error>)
        ensures
            match spec_check(raw) {
                Ok(_) => r is Ok && r->Ok_0 == self.value,
                Err(e) => r is Err && r->Err_0 == e,
            },
    {
        match check(raw) {
            Ok(_) => Ok(self.value),
            Err(e) => Err(e),
        }
    }
}

/// Applies `f` to a register set and returns what it returned together
/// with the registers as it left them.
fn apply_to_regs<R>(read: kvm_regs, f: impl FnOnce(&mut kvm_regs) -> R) -> (out: (R, kvm_regs))
    requires
        forall|m: &mut kvm_regs| *m == read ==> f.requires((m,)),
    ensures
        exists|m: &mut kvm_regs|
            *m == read && *final(m) == out.1 && #[trigger] f.ensures((m,), out.0),
{
    let mut regs = read;
    let value = f(&mut regs);
    assert(exists|m: &mut kvm_regs|
        *m == read && *final(m) == regs && #[trigger] f.ensures((m,), value));
    let ghost w = choose|m: &mut kvm_regs|
        *m == read && *final(m) == regs && #[trigger] f.ensures((m,), value);
    let out = (value, regs);
    assert(out.1 == regs);
    assert(*final(w) == out.1);
    assert(f.ensures((w,), out.0));
    out
}

/// A [`VirtualCpu`] together with the control page that the kernel shares
/// with userspace, which is what it takes to run it.
#[derive(Debug)]
pub struct VirtualCpuRunner<'a> {
    vcpu: VirtualCpu<'a>,
    run: usize,
    run_len: usize,
    state: RunnerState,
}

impl<'a> VirtualCpuRunner<'a> {
    #[verifier::type_invariant]
    spec fn well_formed(&self) -> bool {
        self.run_len >= KVM_RUN_SIZE
    }

    /// The vCPU that the runner drives.
    pub closed spec fn spec_vcpu(&self) -> VirtualCpu<'a> {
        self.vcpu
    }

    /// The address at which the control page is mapped.
    pub closed spec fn spec_run(&self) -> usize {
        self.run
    }

    /// The number of bytes mapped.
    pub closed spec fn spec_run_len(&self) -> usize {
        self.run_len
    }

    /// Where the runner stands in its life.
    pub closed spec fn spec_state(&self) -> RunnerState {
        self.state
    }

    /// Checks that a control page of `mmap_size` bytes spans the control
    /// page structure. A smaller page cannot safely be read as that
    /// structure: it is refused with "out of memory", nothing is mapped,
    /// and the vCPU comes back untouched.
    pub fn new(cpu: VirtualCpu<'a>, mmap_size: usize) -> (r: Result<
        PendingRunner<'a>,
        (Error, VirtualCpu<'a>),
    >)
        ensures
            match spec_checked_len(mmap_size) {
                Ok(len) => r is Ok && r->Ok_0.spec_vcpu() == cpu && r->Ok_0.spec_len() == len,
                Err(e) => r is Err && r->Err_0 == (e, cpu),
            },
            r is Err <==> mmap_size < KVM_RUN_SIZE,
    {
        if KVM_RUN_SIZE > mmap_size {
            return Err((Error::new(ENOMEM), cpu));
        }
        Ok(PendingRunner { vcpu: cpu, len: mmap_size })
    }

    #[verifier::when_used_as_spec(spec_state)]
    pub fn state(&self) -> (s: RunnerState)
        ensures
            s == self.spec_state(),
    {
        self.state
    }

    /// The address at which the control page is mapped, and its length.
    pub fn control_page(&self) -> (r: (usize, usize))
        ensures
            r.0 == self.spec_run(),
            r.1 == self.spec_run_len(),
            r.1 >= KVM_RUN_SIZE,
    {
        proof {
            use_type_invariant(self);
        }
        (self.run, self.run_len)
    }

    /// The call that reads the current register values of this vCPU.
    pub fn get_regs_call(&self) -> (c: Syscall)
        ensures
            c.op == (Op::Ioctl {
                fd: self.spec_vcpu().spec_fd(),
                request: 0x8090_AE81,
                arg: Arg::Out { len: 144 },
            }),
            c.data@ == Seq::<u8>::empty(),
    {
        self.vcpu.get_regs_call()
    }

    /// What the kernel's answer to [`Self::get_regs_call`] means.
    pub fn get_regs(&self, raw: u64, temp_mem: &[u8]) -> (r: Result<kvm_regs, Error>)
        ensures
            r == spec_regs_result(raw, temp_mem@),
    {
        self.vcpu.get_regs(raw, temp_mem)
    }

    /// The call that sets the register values of this vCPU.
    pub fn set_regs_call(&self, new: &kvm_regs) -> (c: Syscall)
        ensures
            c.op == (Op::Ioctl {
                fd: self.spec_vcpu().spec_fd(),
                request: 0x4090_AE82,
                arg: Arg::In,
            }),
            c.data@ == new.spec_encode(),
    {
        self.vcpu.set_regs_call(new)
    }

    /// What the kernel's answer to [`Self::set_regs_call`] means.
    pub fn set_regs(&self, new: &kvm_regs, raw: u64) -> (r: Result<(), Error>)
        ensures
            r == spec_unit_result(raw),
    {
        self.vcpu.set_regs(new, raw)
    }

    /// The first call of a register modification: the register read.
    pub fn modify_regs_call(&self) -> (c: Syscall)
        ensures
            c.op == (Op::Ioctl {
                fd: self.spec_vcpu().spec_fd(),
                request: 0x8090_AE81,
                arg: Arg::Out { len: 144 },
            }),
            c.data@ == Seq::<u8>::empty(),
    {
        self.get_regs_call()
    }

    /// Modifies the register values of this vCPU: given the kernel's
    /// answer to [`Self::modify_regs_call`], applies `f` to the registers
    /// read and hands back the call that writes them. Where the read
    /// failed, `f` has no part in the result. Reading and writing are two
    /// calls: nothing else may run this vCPU in between.
    pub fn modify_regs<R>(
        &self,
        raw: u64,
        temp_mem: &[u8],
        f: impl FnOnce(&mut kvm_regs) -> R,
    ) -> (r: Result<ModifiedRegs<R>, Error>)
        requires
            spec_regs_result(raw, temp_mem@) is Ok ==> forall|m: &mut kvm_regs|
                *m == spec_regs_result(raw, temp_mem@)->Ok_0 ==> f.requires((m,)),
        ensures
            match spec_regs_result(raw, temp_mem@) {
                Ok(read) => r is Ok && (exists|m: &mut kvm_regs|
                    *m == read && *final(m) == r->Ok_0.regs && #[trigger] f.ensures(
                        (m,),
                        r->Ok_0.value,
                    )) && r->Ok_0.set_call.op == (Op::Ioctl {
                    fd: self.spec_vcpu().spec_fd(),
                    request: 0x4090_AE82,
                    arg: Arg::In,
                }) && r->Ok_0.set_call.data@ == r->Ok_0.regs.spec_encode(),
                Err(e) => r is Err && r->Err_0 == e,
            },
    {
        match self.get_regs(raw, temp_mem) {
            Ok(read) => {
                let (value, regs) = apply_to_regs(read, f);
                let ghost w = choose|m: &mut kvm_regs|
                    *m == read && *final(m) == regs && #[trigger] f.ensures((m,), value);
                let set_call = self.set_regs_call(&regs);
                let modified = ModifiedRegs { value, regs, set_call };
                assert(f.ensures((w,), modified.value));
                Ok(modified)
            },
            Err(e) => Err(e),
        }
    }

    /// Grants `f` access to the control page between runs: `page` is the
    /// mapped page; `f` sees it decoded and may change header fields, such
    /// as `immediate_exit`; the header is then written back. The payload
    /// area is the kernel's to write and stays as it was.
    pub fn with_raw_run_state<R>(&mut self, page: &mut [u8], f: impl FnOnce(&mut kvm_run) -> R) -> (r: R)
        requires
            forall|m: &mut kvm_run| (*m).decodes(old(page)@) ==> f.requires((m,)),
        ensures
            exists|m: &mut kvm_run|
                (*m).decodes(old(page)@) && #[trigger] f.ensures((m,), r) && final(page)@
                    == spec_stored(*final(m), old(page)@),
            *final(self) == *old(self),
    {
        let mut run = kvm_run::decode(page);
        let r = f(&mut run);
        run.store_header(page);
        r
    }

    /// The exit that the control page holds, decoded. Only after a run
    /// that the kernel reported as successful is there one to read: in any
    /// other state the contents of the page mean nothing and none is
    /// returned.
    pub fn exit(&self, page: &[u8]) -> (r: Option<kvm_run>)
        ensures
            r is Some <==> self.spec_state() == RunnerState::Exited,
            r is Some ==> r->Some_0.decodes(page@),
    {
        match self.state {
            RunnerState::Exited => Some(kvm_run::decode(page)),
            _ => None,
        }
    }

    /// Hands out the call that runs the vCPU until it exits, where the
    /// runner is ready or has exited, and moves on to running. This call
    /// blocks the thread that makes it for as long as the guest runs;
    /// nothing here interrupts it from another thread. A runner that is
    /// running or closed hands out nothing and stays as it is.
    pub fn run_raw_call(&mut self) -> (c: Option<Syscall>)
        ensures
            c is Some <==> (old(self).spec_state() == RunnerState::Ready || old(self).spec_state()
                == RunnerState::Exited),
            c is Some ==> c->Some_0.op == (Op::Ioctl {
                fd: old(self).spec_vcpu().spec_fd(),
                request: 0xAE80,
                arg: Arg::Void,
            }) && c->Some_0.data@ == Seq::<u8>::empty(),
            final(self).spec_state() == spec_after_run_call(old(self).spec_state()),
            final(self).spec_vcpu() == old(self).spec_vcpu(),
            final(self).spec_run() == old(self).spec_run(),
            final(self).spec_run_len() == old(self).spec_run_len(),
    {
        proof {
            use_type_invariant(&*self);
        }
        match self.state {
            RunnerState::Ready | RunnerState::Exited => {
                let c = self.vcpu.f.ioctl_call(&KVM_RUN(), &());
                self.state = RunnerState::Running;
                Some(c)
            },
            _ => None,
        }
    }

    /// What the kernel's answer to the run request means. On success the
    /// runner has exited and the control page holds the exit; on failure
    /// the kernel's error code is returned verbatim and the runner is ready
    /// again.
    pub fn run_raw(&mut self, raw: u64) -> (r: Result<(), Error>)
        ensures
            r == spec_unit_result(raw),
            final(self).spec_state() == spec_after_run(old(self).spec_state(), raw),
            final(self).spec_vcpu() == old(self).spec_vcpu(),
            final(self).spec_run() == old(self).spec_run(),
            final(self).spec_run_len() == old(self).spec_run_len(),
    {
        proof {
            use_type_invariant(&*self);
        }
        match self.vcpu.f.ioctl(&KVM_RUN(), &(), raw, &[]) {
            Ok(_) => {
                match self.state {
                    RunnerState::Running => {
                        self.state = RunnerState::Exited;
                    },
                    _ => {},
                }
                Ok(())
            },
            Err(e) => {
                match self.state {
                    RunnerState::Running => {
                        self.state = RunnerState::Ready;
                    },
                    _ => {},
                }
                Err(e)
            },
        }
    }

    /// Gives the runner up. A runner that is not yet closed hands out, in
    /// this order, the one call that unmaps its control page and the call
    /// that closes the vCPU handle, and is closed from then on; a closed
    /// runner hands out nothing. The answer to the unmap goes to
    /// [`teardown`]: a failed unmap must abort the process.
    pub fn close(&mut self) -> (c: Option<(Syscall, Syscall)>)
        ensures
            c is Some <==> spec_close_unmaps(old(self).spec_state()),
            c is Some ==> c->Some_0.0.op == (Op::Munmap {
                addr: old(self).spec_run(),
                length: old(self).spec_run_len(),
            }) && c->Some_0.0.data@ == Seq::<u8>::empty() && c->Some_0.1.op == (Op::Close {
                fd: old(self).spec_vcpu().spec_fd(),
            }) && c->Some_0.1.data@ == Seq::<u8>::empty(),
            final(self).spec_state() == spec_after_close(old(self).spec_state()),
            final(self).spec_vcpu() == old(self).spec_vcpu(),
            final(self).spec_run() == old(self).spec_run(),
            final(self).spec_run_len() == old(self).spec_run_len(),
    {
        proof {
            use_type_invariant(&*self);
        }
        match self.state {
            RunnerState::Closed => None,
            _ => {
                let unmap = Syscall::plain(Op::Munmap { addr: self.run, length: self.run_len });
                let close = self.vcpu.f.close_call();
                self.state = RunnerState::Closed;
                Some((unmap, close))
            },
        }
    }
}

} // verus!
