use linux_kvm::io::result::Error;
use linux_kvm::kvm::{teardown, Kvm, MemoryRegion, RunnerState, Teardown, KVM_API_VERSION};
use linux_kvm::raw::{kvm_regs, ExitDetails, KVM_EXIT_SHUTDOWN};
use linux_kvm::sys::call::{Arg, Op};
use linux_kvm::sys::layout::Layout;

/// The raw word with which the kernel reports error number `errno`.
fn error_word(errno: i32) -> u64 {
    (-(errno as i64)) as u64
}

#[test]
fn open_without_subsystem_is_an_error() {
    // ENODEV, as on a system where KVM is not enabled.
    let r = Kvm::open(error_word(19));
    assert_eq!(r.err(), Some(Error(19)));
    // ENOENT, where the device node does not exist at all.
    let r = Kvm::open(error_word(2));
    assert_eq!(r.err(), Some(Error(2)));
}

#[test]
fn open_call_names_the_device_node() {
    let c = Kvm::open_call();
    assert_eq!(c.op, Op::Openat { dirfd: -100, flags: 0o2000002, mode: 0 });
    assert_eq!(c.data, b"/dev/kvm\0".to_vec());
}

#[test]
fn api_version_is_reported_verbatim() {
    let mut kvm = Kvm::open(3).unwrap();
    let c = kvm.get_api_version_call();
    assert_eq!(c.op, Op::Ioctl { fd: 3, request: 0xAE00, arg: Arg::Void });
    assert!(c.data.is_empty());
    assert_eq!(kvm.api_version(), None);
    assert!(!kvm.has_stable_api());
    assert_eq!(kvm.get_api_version(12), Ok(KVM_API_VERSION));
    assert_eq!(kvm.get_api_version(12), Ok(12));
    assert_eq!(kvm.api_version(), Some(12));
    assert!(kvm.has_stable_api());
    // Another version is reported, not refused.
    assert_eq!(kvm.get_api_version(11), Ok(11));
    assert_eq!(kvm.api_version(), Some(11));
    assert!(!kvm.has_stable_api());
    // A failed query leaves what was known.
    assert_eq!(kvm.get_api_version(error_word(25)), Err(Error(25)));
    assert_eq!(kvm.api_version(), Some(11));
}

#[test]
fn end_to_end_run_of_an_undefined_instruction() {
    let mut kvm = Kvm::open(3).unwrap();
    assert_eq!(kvm.get_api_version(12), Ok(12));

    let c = kvm.create_vm_call();
    assert_eq!(c.op, Op::Ioctl { fd: 3, request: 0xAE01, arg: Arg::Void });
    let mut vm = kvm.create_vm(4).unwrap();

    let c = MemoryRegion::new_call(4096);
    assert_eq!(
        c.op,
        Op::Mmap { addr: 0, length: 4096, prot: 3, flags: 0x21, fd: -1, offset: 0 }
    );
    let mut mem = MemoryRegion::new(4096, 0x7f00_0000_0000).unwrap();
    assert_eq!(mem.addr(), 0x7f00_0000_0000);
    assert_eq!(mem.len(), 4096);

    // The host writes "UD2" (0x0f 0x0b) at offset 0 of the region and
    // registers it at guest-physical address 0.
    let c = vm.set_guest_memory_region_call(0, 0, 0, &mem);
    assert_eq!(c.op, Op::Ioctl { fd: 4, request: 0x4020_AE46, arg: Arg::In });
    let mut expected = Vec::new();
    expected.extend_from_slice(&0u32.to_le_bytes());
    expected.extend_from_slice(&0u32.to_le_bytes());
    expected.extend_from_slice(&0u64.to_le_bytes());
    expected.extend_from_slice(&4096u64.to_le_bytes());
    expected.extend_from_slice(&0x7f00_0000_0000u64.to_le_bytes());
    assert_eq!(c.data, expected);
    assert_eq!(c.data.len(), 32);
    assert_eq!(vm.set_guest_memory_region(0, 0, 0, &mut mem, 0), Ok(()));
    assert_eq!(vm.slot(0).map(|d| d.memory_size), Some(4096));

    let c = vm.create_vcpu_call(0);
    assert_eq!(c.op, Op::Ioctl { fd: 4, request: 0xAE41, arg: Arg::Value(0) });
    let cpu = vm.create_vcpu(0, 5).unwrap();
    assert_eq!(cpu.id(), 0);

    let c = cpu.to_runner_call();
    assert_eq!(c.op, Op::Ioctl { fd: 3, request: 0xAE04, arg: Arg::Void });
    let pending = cpu.to_runner(12288).ok().unwrap();
    assert_eq!(pending.len(), 12288);
    let c = pending.mmap_call();
    assert_eq!(
        c.op,
        Op::Mmap { addr: 0, length: 12288, prot: 3, flags: 1, fd: 5, offset: 0 }
    );
    let mut runner = pending.finish(0x7f00_0001_0000).ok().unwrap();
    assert_eq!(runner.state(), RunnerState::Ready);
    assert_eq!(runner.control_page(), (0x7f00_0001_0000, 12288));

    // Set the program counter to the mapped guest address.
    let c = runner.modify_regs_call();
    assert_eq!(
        c.op,
        Op::Ioctl { fd: 5, request: 0x8090_AE81, arg: Arg::Out { len: 144 } }
    );
    let mut initial = kvm_regs::zeroed();
    initial.rflags = 2;
    let modified = runner
        .modify_regs(0, &initial.encode(), |regs: &mut kvm_regs| {
            regs.rip = 0;
            regs.rsp = 0x800;
            7u8
        })
        .unwrap();
    assert_eq!(modified.regs.rip, 0);
    assert_eq!(modified.regs.rsp, 0x800);
    assert_eq!(modified.regs.rflags, 2);
    assert_eq!(modified.set_call.op, Op::Ioctl { fd: 5, request: 0x4090_AE82, arg: Arg::In });
    assert_eq!(modified.set_call.data, modified.regs.encode());
    assert_eq!(modified.finish(0), Ok(7u8));

    // Run once; the kernel writes the exit into the control page.
    let c = runner.run_raw_call().unwrap();
    assert_eq!(c.op, Op::Ioctl { fd: 5, request: 0xAE80, arg: Arg::Void });
    assert_eq!(runner.state(), RunnerState::Running);
    let mut page = vec![0u8; 12288];
    page[8..12].copy_from_slice(&KVM_EXIT_SHUTDOWN.to_le_bytes());
    assert_eq!(runner.run_raw(0), Ok(()));
    assert_eq!(runner.state(), RunnerState::Exited);
    let exit = runner.exit(&page).unwrap();
    assert_ne!(exit.exit_reason, 0);
    assert_eq!(exit.exit_reason, 8);
    assert!(matches!(exit.exit_details, ExitDetails::Other));

    // Teardown: unmap the control page, then close the vCPU.
    let (unmap, close) = runner.close().unwrap();
    assert_eq!(unmap.op, Op::Munmap { addr: 0x7f00_0001_0000, length: 12288 });
    assert_eq!(close.op, Op::Close { fd: 5 });
    assert_eq!(teardown(0), Teardown::Released);

    // Only now that the runner and the machine are gone can the region
    // that backs the guest's memory be given up.
    assert_eq!(vm.close_call().op, Op::Close { fd: 4 });
    let unmap = mem.unmap_call();
    assert_eq!(unmap.op, Op::Munmap { addr: 0x7f00_0000_0000, length: 4096 });
    assert_eq!(kvm.close_call().op, Op::Close { fd: 3 });
}

#[test]
fn memory_slot_round_trip() {
    let kvm = Kvm::open(3).unwrap();
    let mut vm = kvm.create_vm(4).unwrap();
    let mut mem = MemoryRegion::new(4096, 0x7f00_0000_0000).unwrap();
    let mut none = MemoryRegion::new(0, 0x7f00_0000_0000).unwrap();
    let mut again = MemoryRegion::new(4096, 0x7f00_0000_2000).unwrap();

    assert!(vm.slot(0).is_none());
    assert_eq!(vm.set_guest_memory_region(0, 0, 0, &mut mem, 0), Ok(()));
    let held = vm.slot(0).unwrap();
    assert_eq!(held.slot, 0);
    assert_eq!(held.flags, 0);
    assert_eq!(held.guest_phys_addr, 0);
    assert_eq!(held.memory_size, 4096);
    assert_eq!(held.userspace_addr, 0x7f00_0000_0000);

    // Registering the same slot with length zero deletes it.
    let c = vm.set_guest_memory_region_call(0, 0, 0, &none);
    assert_eq!(&c.data[16..24], &0u64.to_le_bytes());
    assert_eq!(vm.set_guest_memory_region(0, 0, 0, &mut none, 0), Ok(()));
    assert!(vm.slot(0).is_none());

    // The slot can be registered afresh.
    assert_eq!(vm.set_guest_memory_region(0, 0, 0, &mut again, 0), Ok(()));
    assert_eq!(vm.slot(0).map(|d| d.userspace_addr), Some(0x7f00_0000_2000));
}

#[test]
fn memory_slots_are_independent_and_replaced() {
    let kvm = Kvm::open(3).unwrap();
    let mut vm = kvm.create_vm(4).unwrap();
    let mut a = MemoryRegion::new(4096, 0x1000_0000).unwrap();
    let mut b = MemoryRegion::new(8192, 0x2000_0000).unwrap();
    let mut c = MemoryRegion::new(16384, 0x3000_0000).unwrap();
    assert_eq!(vm.set_guest_memory_region(0, 0, 0, &mut a, 0), Ok(()));
    assert_eq!(vm.set_guest_memory_region(1, 2, 0x10_0000, &mut b, 0), Ok(()));
    assert_eq!(vm.slot(0).map(|d| d.memory_size), Some(4096));
    assert_eq!(vm.slot(1).map(|d| (d.memory_size, d.flags)), Some((8192, 2)));
    // Replacing slot 0 leaves slot 1 alone.
    assert_eq!(vm.set_guest_memory_region(0, 1, 0x20_0000, &mut c, 0), Ok(()));
    assert_eq!(
        vm.slot(0).map(|d| (d.memory_size, d.flags, d.guest_phys_addr)),
        Some((16384, 1, 0x20_0000))
    );
    assert_eq!(vm.slot(1).map(|d| d.memory_size), Some(8192));
    assert!(vm.slot(2).is_none());
}

#[test]
fn refused_registration_leaves_the_table_alone() {
    let kvm = Kvm::open(3).unwrap();
    let mut vm = kvm.create_vm(4).unwrap();
    let mut a = MemoryRegion::new(4096, 0x1000_0000).unwrap();
    let mut b = MemoryRegion::new(4097, 0x2000_0000).unwrap();
    let mut c = MemoryRegion::new(4096, 0x3000_0000).unwrap();
    assert_eq!(vm.set_guest_memory_region(0, 0, 0, &mut a, 0), Ok(()));
    // The kernel rejects a misaligned size with EINVAL.
    assert_eq!(
        vm.set_guest_memory_region(0, 0, 0, &mut b, error_word(22)),
        Err(Error(22))
    );
    assert_eq!(vm.slot(0).map(|d| d.memory_size), Some(4096));
    // Unknown flag bits are a kernel-level error too.
    assert_eq!(
        vm.set_guest_memory_region(1, 0x8000, 0, &mut c, error_word(22)),
        Err(Error(22))
    );
    assert!(vm.slot(1).is_none());
}

#[test]
fn to_runner_refuses_a_short_control_page() {
    let kvm = Kvm::open(3).unwrap();
    let vm = kvm.create_vm(4).unwrap();

    // Fewer bytes than the fixed header.
    let cpu = vm.create_vcpu(0, 5).unwrap();
    let (e, cpu) = cpu.to_runner(16).err().unwrap();
    assert_eq!(e, Error(12));
    // The vCPU comes back and is as usable as before.
    assert_eq!(cpu.get_regs_call().op, Op::Ioctl {
        fd: 5,
        request: 0x8090_AE81,
        arg: Arg::Out { len: 144 }
    });

    // A whole header, but not the whole structure.
    let (e, cpu) = cpu.to_runner(287).err().unwrap();
    assert_eq!(e, Error(12));
    let (e, cpu) = cpu.to_runner(0).err().unwrap();
    assert_eq!(e, Error(12));

    // Exactly the structure is enough.
    let pending = cpu.to_runner(288).ok().unwrap();
    assert_eq!(pending.len(), 288);
}

#[test]
fn to_runner_hands_kernel_errors_on() {
    let kvm = Kvm::open(3).unwrap();
    let vm = kvm.create_vm(4).unwrap();
    let cpu = vm.create_vcpu(0, 5).unwrap();
    // The size query fails.
    let (e, cpu) = cpu.to_runner(error_word(9)).err().unwrap();
    assert_eq!(e, Error(9));
    // The mapping fails.
    let pending = cpu.to_runner(12288).ok().unwrap();
    let (e, cpu) = pending.finish(error_word(12)).err().unwrap();
    assert_eq!(e, Error(12));
    assert_eq!(cpu.close_call().op, Op::Close { fd: 5 });
}

#[test]
fn runner_is_unmapped_exactly_once() {
    let kvm = Kvm::open(3).unwrap();
    let vm = kvm.create_vm(4).unwrap();
    let cpu = vm.create_vcpu(0, 5).unwrap();
    let mut runner = cpu.to_runner(12288).ok().unwrap().finish(0x5000_0000).ok().unwrap();

    let mut unmaps = 0;
    for _ in 0..3 {
        if let Some((unmap, close)) = runner.close() {
            assert_eq!(unmap.op, Op::Munmap { addr: 0x5000_0000, length: 12288 });
            assert_eq!(close.op, Op::Close { fd: 5 });
            unmaps += 1;
        }
        assert_eq!(runner.state(), RunnerState::Closed);
    }
    assert_eq!(unmaps, 1);
    // A closed runner does not run.
    assert!(runner.run_raw_call().is_none());
    assert_eq!(runner.state(), RunnerState::Closed);
    assert_eq!(runner.run_raw(0), Ok(()));
    assert_eq!(runner.state(), RunnerState::Closed);
}

#[test]
fn failed_unmap_must_abort() {
    assert_eq!(teardown(0), Teardown::Released);
    assert_eq!(teardown(error_word(22)), Teardown::Abort(Error(22)));
    let mem = MemoryRegion::new(4096, 0x7f00_0000_0000).unwrap();
    let c = mem.unmap_call();
    assert_eq!(c.op, Op::Munmap { addr: 0x7f00_0000_0000, length: 4096 });
}

#[test]
fn create_vcpu_twice_surfaces_the_kernel_error() {
    let kvm = Kvm::open(3).unwrap();
    let vm = kvm.create_vm(4).unwrap();
    let first = vm.create_vcpu(0, 5);
    assert!(first.is_ok());
    // The kernel answers the second creation of id 0 with EEXIST.
    let c = vm.create_vcpu_call(0);
    assert_eq!(c.op, Op::Ioctl { fd: 4, request: 0xAE41, arg: Arg::Value(0) });
    let second = vm.create_vcpu(0, error_word(17));
    assert_eq!(second.err(), Some(Error(17)));
}

#[test]
fn run_states() {
    let kvm = Kvm::open(3).unwrap();
    let vm = kvm.create_vm(4).unwrap();
    let cpu = vm.create_vcpu(1, 6).unwrap();
    let mut runner = cpu.to_runner(4096).ok().unwrap().finish(0x6000_0000).ok().unwrap();
    let page = vec![0u8; 4096];

    // Nothing to read before a run.
    assert!(runner.exit(&page).is_none());
    assert!(runner.run_raw_call().is_some());
    // A running runner hands out no second run.
    assert!(runner.run_raw_call().is_none());
    assert_eq!(runner.state(), RunnerState::Running);
    assert!(runner.exit(&page).is_none());
    // A failed run is surfaced verbatim and leaves nothing to read.
    assert_eq!(runner.run_raw(error_word(4)), Err(Error(4)));
    assert_eq!(runner.state(), RunnerState::Ready);
    assert!(runner.exit(&page).is_none());
    // A successful run can be followed by another.
    assert!(runner.run_raw_call().is_some());
    assert_eq!(runner.run_raw(0), Ok(()));
    assert_eq!(runner.state(), RunnerState::Exited);
    assert!(runner.exit(&page).is_some());
    assert!(runner.run_raw_call().is_some());
    assert_eq!(runner.state(), RunnerState::Running);
}

#[test]
fn check_extension_and_mmap_size() {
    let kvm = Kvm::open(3).unwrap();
    let c = kvm.check_extension_call(7);
    assert_eq!(c.op, Op::Ioctl { fd: 3, request: 0x4004_AE03, arg: Arg::In });
    assert_eq!(c.data, 7i32.to_le_bytes().to_vec());
    assert_eq!(kvm.check_extension(7, 0), Ok(0));
    assert_eq!(kvm.check_extension(7, 1), Ok(1));
    assert_eq!(kvm.check_extension(7, 255), Ok(255));
    let vm = kvm.create_vm(9).unwrap();
    let c = vm.check_extension_call(-1);
    assert_eq!(c.op, Op::Ioctl { fd: 9, request: 0x4004_AE03, arg: Arg::In });
    assert_eq!(c.data, vec![0xff, 0xff, 0xff, 0xff]);
    assert_eq!(vm.check_extension(-1, error_word(22)), Err(Error(22)));
    let c = kvm.get_vcpu_mmap_size_call();
    assert_eq!(c.op, Op::Ioctl { fd: 3, request: 0xAE04, arg: Arg::Void });
    assert_eq!(kvm.get_vcpu_mmap_size(12288), Ok(12288));
    assert_eq!(kvm.close_call().op, Op::Close { fd: 3 });
}

#[test]
fn registers_are_exchanged_wholesale() {
    let kvm = Kvm::open(3).unwrap();
    let vm = kvm.create_vm(4).unwrap();
    let cpu = vm.create_vcpu(0, 5).unwrap();
    let mut regs = kvm_regs::zeroed();
    regs.rax = 0x0102_0304_0506_0708;
    regs.rip = 0x1000;
    regs.rflags = 2;
    let bytes = regs.encode();
    assert_eq!(bytes.len(), 144);
    assert_eq!(&bytes[0..8], &[8, 7, 6, 5, 4, 3, 2, 1]);
    assert_eq!(&bytes[128..136], &0x1000u64.to_le_bytes());
    assert_eq!(&bytes[136..144], &2u64.to_le_bytes());
    assert_eq!(cpu.get_regs(0, &bytes), Ok(regs));
    assert_eq!(cpu.get_regs(error_word(14), &bytes), Err(Error(14)));
    let c = cpu.set_regs_call(&regs);
    assert_eq!(c.op, Op::Ioctl { fd: 5, request: 0x4090_AE82, arg: Arg::In });
    assert_eq!(c.data, bytes);
    assert_eq!(cpu.set_regs(&regs, 0), Ok(()));
    assert_eq!(cpu.set_regs(&regs, error_word(22)), Err(Error(22)));
}

#[test]
fn modify_regs_stops_at_a_failed_read() {
    let kvm = Kvm::open(3).unwrap();
    let vm = kvm.create_vm(4).unwrap();
    let cpu = vm.create_vcpu(0, 5).unwrap();
    let runner = cpu.to_runner(4096).ok().unwrap().finish(0x6000_0000).ok().unwrap();
    let r = runner.modify_regs(error_word(9), &[], |regs: &mut kvm_regs| {
        regs.rip = 1;
    });
    assert_eq!(r.err(), Some(Error(9)));
    // A failed write loses the function's value.
    let m = runner
        .modify_regs(0, &kvm_regs::zeroed().encode(), |regs: &mut kvm_regs| {
            regs.rbx = 5;
            "done"
        })
        .unwrap();
    assert_eq!(m.regs.rbx, 5);
    assert_eq!(m.finish(error_word(5)), Err(Error(5)));
}
