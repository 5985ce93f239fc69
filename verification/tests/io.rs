use linux_kvm::io::direntry::{
    dir_entry_from_buf, try_read_entry, DirEntries, DirEntryType, DirStep, Range,
};
use linux_kvm::io::fcntl::{
    fcntl_cmd_const_ptr, FcntlCmd, F_DUPFD, F_DUPFD_CLOEXEC, F_GETFD, F_GETLK, F_SETFD, F_SETFL,
};
use linux_kvm::io::fd::{CPath, File, OpenOptions, MAX_COUNT};
use linux_kvm::io::ioctl::{
    ioctl_write_val, ioctl_writeread, IoctlReq, IoctlReqWriteRead, IoctlReqWriteVal, _IO, _IOC,
    _IOR, _IOW, _IOWR,
};
use linux_kvm::io::poll::{poll, poll_call, split_timeout, PollRequest, PollResponse};
use linux_kvm::io::ptr::{ensure_reprs_possible, UserMut, UserPtr};
use linux_kvm::io::result::{check, Error};
use linux_kvm::io::seek::SeekFrom;
use linux_kvm::io::socket::ip::{
    IpAddr, Ipv4Addr, Ipv6Addr, SockAddrIp, SockAddrIpv4, SockAddrIpv6, AF_INET, AF_INET6,
};
use linux_kvm::io::socket::{
    socket_protocol, SockAddr, SocketProtocol, TcpSocketDevice, SIOCATMARK, SIOCGSTAMP, SIOCINQ,
    SIOCOUTQ,
};
use linux_kvm::io::sockopt::{SO_ACCEPTCONN, SO_DOMAIN, SO_DONTROUTE, SO_KEEPALIVE};
use linux_kvm::io::sync::{
    exchange_took_lock, found_after_exchange, keeps_spinning, looks_free, must_mark, needs_wake,
    took_lock, Futex, LockStep, CONTENDED, LOCKED, UNLOCKED,
};
use linux_kvm::io::tty::{WindowSize, TIOCGWINSZ, TIOCSWINSZ};
use linux_kvm::ioctl::system::{
    KVMIO, KVM_CHECK_EXTENSION, KVM_CREATE_VM, KVM_GET_API_VERSION, KVM_GET_VCPU_MMAP_SIZE,
};
use linux_kvm::ioctl::vcpu::{KVM_GET_REGS, KVM_RUN, KVM_SET_REGS};
use linux_kvm::ioctl::vm::{
    KVM_CREATE_VCPU, KVM_MEM_LOG_DIRTY_PAGES, KVM_MEM_READONLY, KVM_SET_USER_MEMORY_REGION,
};
use linux_kvm::raw::{kvm_regs, kvm_userspace_memory_region};
use linux_kvm::sys::call::{Arg, Op};
use linux_kvm::sys::layout::Layout;
use linux_kvm::sys::types::{flock, sock_type, timeval};

fn error_word(errno: i32) -> u64 {
    (-(errno as i64)) as u64
}

/// One `getdents64` record.
fn record(ino: u64, off: i64, typ: u8, name: &[u8]) -> Vec<u8> {
    let unpadded = 19 + name.len() + 1;
    let reclen = (unpadded + 7) / 8 * 8;
    let mut v = Vec::new();
    v.extend_from_slice(&ino.to_le_bytes());
    v.extend_from_slice(&off.to_le_bytes());
    v.extend_from_slice(&(reclen as u16).to_le_bytes());
    v.push(typ);
    v.extend_from_slice(name);
    v.resize(reclen, 0);
    v
}

#[test]
fn request_codes_follow_the_numbering_scheme() {
    assert_eq!(_IOC(0, 0, 0, 0), 0);
    assert_eq!(_IOC(3, 0xff, 0xff, 0x3fff), 0xffff_ffff);
    assert_eq!(_IO(0xAE, 0x00), 0xAE00);
    assert_eq!(_IO(0xAE, 0x80), 0xAE80);
    assert_eq!(_IOW(0xAE, 0x46, 32), 0x4020_AE46);
    assert_eq!(_IOR(0xAE, 0x81, 144), 0x8090_AE81);
    assert_eq!(_IOWR(0xAE, 0x05, 8), 0xC008_AE05);
    assert_eq!(_IOR(0x89, 0x06, 16), 0x8010_8906);
}

#[test]
fn kvm_requests_have_their_codes() {
    assert_eq!(KVMIO, 0xAE);
    assert_eq!(KVM_GET_API_VERSION().prepare_ioctl_args(&()).0, 0xAE00);
    assert_eq!(KVM_CREATE_VM().prepare_ioctl_args(&()).0, 0xAE01);
    assert_eq!(KVM_CHECK_EXTENSION().prepare_ioctl_args(&1).0, 0x4004_AE03);
    assert_eq!(KVM_GET_VCPU_MMAP_SIZE().prepare_ioctl_args(&()).0, 0xAE04);
    assert_eq!(
        linux_kvm::ioctl::vm::KVM_CHECK_EXTENSION().prepare_ioctl_args(&1).0,
        0x4004_AE03
    );
    let (code, arg, data) = KVM_CREATE_VCPU().prepare_ioctl_args(&2);
    assert_eq!((code, arg), (0xAE41, Arg::Value(2)));
    assert!(data.is_empty());
    let d = kvm_userspace_memory_region {
        slot: 1,
        flags: KVM_MEM_READONLY | KVM_MEM_LOG_DIRTY_PAGES,
        guest_phys_addr: 0,
        memory_size: 4096,
        userspace_addr: 0x1000,
    };
    let (code, arg, data) = KVM_SET_USER_MEMORY_REGION().prepare_ioctl_args(&d);
    assert_eq!((code, arg), (0x4020_AE46, Arg::In));
    assert_eq!(data, d.encode());
    assert_eq!(data[4], 3);
    assert_eq!(
        KVM_RUN().prepare_ioctl_args(&()),
        (0xAE80, Arg::Void, Vec::new())
    );
    assert_eq!(
        KVM_GET_REGS().prepare_ioctl_args(&()),
        (0x8090_AE81, Arg::Out { len: 144 }, Vec::new())
    );
    let regs = kvm_regs::zeroed();
    assert_eq!(
        KVM_SET_REGS().prepare_ioctl_args(&regs),
        (0x4090_AE82, Arg::In, vec![0u8; 144])
    );
    assert_eq!(KVM_GET_REGS().prepare_ioctl_result(0, &(), &[5]).rax, 5);
    assert_eq!(KVM_GET_API_VERSION().prepare_ioctl_result(12, &(), &[]), 12);
    assert_eq!(KVM_CREATE_VM().prepare_ioctl_result(7, &(), &[]).fd(), 7);
}

#[test]
fn other_requests_have_their_codes() {
    assert_eq!(SIOCGSTAMP().prepare_ioctl_args(&()).0, 0x8010_8906);
    assert_eq!(SIOCGSTAMP().prepare_ioctl_args(&()).1, Arg::Out { len: 16 });
    assert_eq!(SIOCINQ().prepare_ioctl_args(&()).0, 0x541B);
    assert_eq!(SIOCATMARK().prepare_ioctl_args(&()).0, 0x8905);
    assert_eq!(SIOCOUTQ().prepare_ioctl_args(&()).0, 0x5411);
    assert_eq!(TIOCGWINSZ().prepare_ioctl_args(&()).0, 0x5413);
    let ws = WindowSize { ws_row: 24, ws_col: 80, ws_xpixel: 0, ws_ypixel: 0x0102 };
    let (code, arg, data) = TIOCSWINSZ().prepare_ioctl_args(&ws);
    assert_eq!((code, arg), (0x5414, Arg::In));
    assert_eq!(data, vec![24, 0, 80, 0, 0, 0, 2, 1]);
    assert_eq!(WindowSize::decode(&data), ws);
    assert_eq!(TIOCGWINSZ().prepare_ioctl_result(0, &(), &data), ws);
    let tv = timeval { tv_sec: -1, tv_usec: 500_000 };
    let bytes = tv.encode();
    assert_eq!(&bytes[..8], &[0xff; 8]);
    assert_eq!(&bytes[8..], &500_000i64.to_le_bytes());
    assert_eq!(timeval::decode(&bytes), tv);
}

#[test]
fn ioctl_on_a_socket_reads_the_queue() {
    let f: File<TcpSocketDevice> = File::from_fd(8);
    let c = f.ioctl_call(&SIOCINQ(), &());
    assert_eq!(c.op, Op::Ioctl { fd: 8, request: 0x541B, arg: Arg::Out { len: 4 } });
    assert_eq!(f.ioctl(&SIOCINQ(), &(), 0, &517i32.to_le_bytes()), Ok(517));
    assert_eq!(f.ioctl(&SIOCINQ(), &(), error_word(22), &[0; 4]), Err(Error(22)));
}

#[test]
fn open_options_set_their_bits() {
    assert_eq!(OpenOptions::read_only().into_raw_flags(), 0);
    assert_eq!(OpenOptions::write_only().into_raw_flags(), 1);
    assert_eq!(OpenOptions::read_write().into_raw_flags(), 2);
    assert_eq!(OpenOptions::read_write().close_on_exec().into_raw_flags(), 0o2000002);
    assert_eq!(OpenOptions::read_only().append().into_raw_flags(), 0o2000);
    assert_eq!(OpenOptions::write_only().create().into_raw_flags(), 0o101);
    assert_eq!(OpenOptions::read_only().direct().into_raw_flags(), 0o40000);
    assert_eq!(OpenOptions::read_only().directory().into_raw_flags(), 0o200000);
    assert_eq!(OpenOptions::write_only().create().excl().into_raw_flags(), 0o301);
    assert_eq!(OpenOptions::read_only().no_atime().into_raw_flags(), 0o1000000);
    assert_eq!(OpenOptions::read_only().no_controlling_tty().into_raw_flags(), 0o400);
    assert_eq!(OpenOptions::read_only().no_follow_symlinks().into_raw_flags(), 0o400000);
    assert_eq!(OpenOptions::read_only().nonblocking().into_raw_flags(), 0o4000);
    assert_eq!(OpenOptions::read_only().path_only().into_raw_flags(), 0o10000000);
    assert_eq!(OpenOptions::write_only().sync().into_raw_flags(), 0o4010001);
    assert_eq!(OpenOptions::read_write().temp_file().into_raw_flags(), 0o20200002);
    assert_eq!(OpenOptions::write_only().truncate().into_raw_flags(), 0o1001);
    assert_eq!(OpenOptions::read_only().bit_or(0x30).into_raw_flags(), 0x30);
    // Setting an option twice is setting it once; the order does not matter.
    assert_eq!(
        OpenOptions::read_write().append().append().into_raw_flags(),
        OpenOptions::read_write().append().into_raw_flags()
    );
    assert_eq!(
        OpenOptions::read_write().append().truncate().into_raw_flags(),
        OpenOptions::read_write().truncate().append().into_raw_flags()
    );
}

#[test]
fn paths_end_in_their_only_zero_byte() {
    assert!(CPath::from_bytes_with_nul(b"/dev/kvm\0".to_vec()).is_some());
    assert!(CPath::from_bytes_with_nul(b"\0".to_vec()).is_some());
    assert!(CPath::from_bytes_with_nul(b"".to_vec()).is_none());
    assert!(CPath::from_bytes_with_nul(b"/dev/kvm".to_vec()).is_none());
    assert!(CPath::from_bytes_with_nul(b"/dev\0kvm\0".to_vec()).is_none());
    assert!(CPath::from_bytes_with_nul(b"\0\0".to_vec()).is_none());
    let p = CPath::from_bytes_with_nul(b"a\0".to_vec()).unwrap();
    assert_eq!(p.as_bytes(), &vec![b'a', 0]);
    assert_eq!(p.to_bytes(), vec![b'a', 0]);
}

#[test]
fn files_open_and_close() {
    let path = CPath::from_bytes_with_nul(b"test.txt\0".to_vec()).unwrap();
    let c = File::open_call(&path, OpenOptions::read_only());
    assert_eq!(c.op, Op::Openat { dirfd: -100, flags: 0, mode: 0 });
    assert_eq!(c.data, b"test.txt\0".to_vec());
    let c = File::open_with_mode_call(&path, OpenOptions::write_only().create(), 0o644);
    assert_eq!(c.op, Op::Openat { dirfd: -100, flags: 0o101, mode: 0o644 });
    let c = File::open_raw_call(&path, 0o2, 0);
    assert_eq!(c.op, Op::Openat { dirfd: -100, flags: 2, mode: 0 });
    let c = File::create_raw_call(&path, 0o666);
    assert_eq!(c.op, Op::Openat { dirfd: -100, flags: 0o1101, mode: 0o666 });
    assert_eq!(c.data, b"test.txt\0".to_vec());

    let f = File::create_raw(5).unwrap();
    assert_eq!(f.fd(), 5);
    assert_eq!(File::open(error_word(2)).err(), Some(Error(2)));
    assert_eq!(File::open_with_mode(error_word(13)).err(), Some(Error(13)));
    assert_eq!(File::open_raw(6).unwrap().into_raw_fd(), 6);

    let c = f.open_relative_call(&path, OpenOptions::read_only().directory());
    assert_eq!(c.op, Op::Openat { dirfd: 5, flags: 0o200000, mode: 0 });
    let c = f.open_relative_with_mode_call(&path, OpenOptions::read_write().create(), 0o600);
    assert_eq!(c.op, Op::Openat { dirfd: 5, flags: 0o102, mode: 0o600 });
    let c = f.open_relative_raw_call(&path, 1, 2);
    assert_eq!(c.op, Op::Openat { dirfd: 5, flags: 1, mode: 2 });
    assert_eq!(f.open_relative(7).unwrap().fd(), 7);
    assert_eq!(f.open_relative_with_mode(8).unwrap().fd(), 8);
    assert_eq!(f.open_relative_raw(error_word(20)).err(), Some(Error(20)));

    let c = f.close_call();
    assert_eq!(c.op, Op::Close { fd: 5 });
    assert_eq!(f.close(0), Ok(()));
    assert_eq!(File::<()>::from_fd(9).close(error_word(9)), Err(Error(9)));
}

#[test]
fn files_read_write_and_sync() {
    let f: File = File::from_fd(4);
    assert_eq!(f.read_call(512).op, Op::Read { fd: 4, count: 512 });
    assert_eq!(f.read(7), Ok(7));
    assert_eq!(f.read(error_word(9)), Err(Error(9)));
    let c = f.write_call(b"Hello!\n");
    assert_eq!(c.op, Op::Write { fd: 4 });
    assert_eq!(c.data, b"Hello!\n".to_vec());
    assert_eq!(f.write(7), Ok(7));
    assert_eq!(f.write(error_word(28)), Err(Error(28)));
    assert_eq!(f.sync_call().op, Op::Fsync { fd: 4 });
    assert_eq!(f.sync(0), Ok(()));
    assert_eq!(f.sync(error_word(5)), Err(Error(5)));
    assert_eq!(f.duplicate_call().op, Op::Dup { fd: 4 });
    assert_eq!(f.duplicate(10).unwrap().fd(), 10);
    assert_eq!(f.duplicate(error_word(24)).err(), Some(Error(24)));
    let d = f.to_device(TcpSocketDevice);
    assert_eq!(d.fd(), 4);
    assert_eq!(f_mmap(&d), Op::Mmap { addr: 0, length: 4096, prot: 1, flags: 2, fd: 4, offset: 8192 });
    assert_eq!(d.mmap_raw(0x7000_0000), Ok(0x7000_0000));
    assert_eq!(d.mmap_raw(error_word(12)), Err(Error(12)));
    assert_eq!(check(5), Ok(5));
    assert_eq!(check(error_word(1)), Err(Error(1)));
    assert_eq!(Error::new(3).raw(), 3);
    assert_eq!(Error::from(4), Error(4));
    assert_eq!(Error::from(linux_kvm::sys::result::Error(6)), Error(6));
}

fn f_mmap(f: &File<TcpSocketDevice>) -> Op {
    f.mmap_raw_call(8192, 4096, 0, 1, 2).op
}

#[test]
fn writing_a_string_goes_on_until_all_is_written() {
    let f: File = File::from_fd(1);
    let mut w = f.write_str(b"hello world\n".to_vec());
    let c = w.next_call().unwrap();
    assert_eq!(c.op, Op::Write { fd: 1 });
    assert_eq!(c.data, b"hello world\n".to_vec());
    // The kernel takes five bytes.
    assert_eq!(w.wrote(5), Ok(()));
    let c = w.next_call().unwrap();
    assert_eq!(c.data, b" world\n".to_vec());
    // A failure changes nothing.
    assert_eq!(w.wrote(error_word(4)), Err(Error(4)));
    assert_eq!(w.next_call().unwrap().data, b" world\n".to_vec());
    assert_eq!(w.wrote(7), Ok(()));
    assert!(w.next_call().is_none());
    let w = f.write_str(Vec::new());
    assert!(w.next_call().is_none());
}

#[test]
fn seek_offsets_and_starting_points() {
    assert_eq!(SeekFrom::Start(5).for_raw_offset(), 5);
    assert_eq!(SeekFrom::Start(u64::MAX).for_raw_offset(), -1);
    assert_eq!(SeekFrom::Start(0x8000_0000_0000_0000).for_raw_offset(), i64::MIN);
    assert_eq!(SeekFrom::End(-7).for_raw_offset(), -7);
    assert_eq!(SeekFrom::Current(9).for_raw_offset(), 9);
    assert_eq!(SeekFrom::Start(0).for_raw_whence(), 0);
    assert_eq!(SeekFrom::Current(0).for_raw_whence(), 1);
    assert_eq!(SeekFrom::End(0).for_raw_whence(), 2);
    assert_eq!(SeekFrom::Start(0).for_raw_uwhence(), 0);
    assert_eq!(SeekFrom::Current(0).for_raw_uwhence(), 1);
    assert_eq!(SeekFrom::End(0).for_raw_uwhence(), 2);
    assert_eq!(SeekFrom::Start(0x1_0000_0002).for_raw_halves(), (1, 2));
    assert_eq!(SeekFrom::End(-1).for_raw_halves(), (0xffff_ffff, 0xffff_ffff));
    assert_eq!(SeekFrom::Current(-0x1_0000_0000).for_raw_halves(), (0xffff_ffff, 0));

    let f: File = File::from_fd(3);
    assert_eq!(
        f.seek_call(SeekFrom::End(-16)).op,
        Op::Lseek { fd: 3, offset: -16, whence: 2 }
    );
    assert_eq!(f.seek(1024), Ok(1024));
    assert_eq!(f.seek(error_word(29)), Err(Error(29)));
    assert_eq!(
        f.llseek_call(SeekFrom::Start(0x2_0000_0001)).op,
        Op::Llseek { fd: 3, offset_high: 2, offset_low: 1, whence: 0 }
    );
    assert_eq!(f.llseek(0, 0x2_0000_0001), Ok(0x2_0000_0001));
    assert_eq!(f.llseek(0, -1), Ok(u64::MAX));
    assert_eq!(f.llseek(error_word(22), 77), Err(Error(22)));
}

#[test]
fn existence_maps_no_such_file_to_false() {
    let f: File = File::from_fd(3);
    let path = CPath::from_bytes_with_nul(b"x\0".to_vec()).unwrap();
    let c = f.exists_relative_call(&path);
    assert_eq!(c.op, Op::Statx { dirfd: 3, flags: 0, mask: 0 });
    assert_eq!(c.data, b"x\0".to_vec());
    assert_eq!(f.exists_relative(0), Ok(true));
    assert_eq!(f.exists_relative(error_word(2)), Ok(false));
    assert_eq!(f.exists_relative(error_word(13)), Err(Error(13)));
    assert_eq!(f.exists_relative(error_word(20)), Err(Error(20)));
}

#[test]
fn readlink_returns_what_the_kernel_wrote() {
    let f: File = File::from_fd(3);
    let c = f.readlink_call(64).unwrap();
    assert_eq!(c.op, Op::Readlinkat { dirfd: 3, bufsiz: 64 });
    assert_eq!(c.data, vec![0]);
    assert_eq!(f.readlink_call(MAX_COUNT + 1).err(), Some(Error(22)));
    assert!(f.readlink_call(MAX_COUNT).is_ok());
    let path = CPath::from_bytes_with_nul(b"link\0".to_vec()).unwrap();
    let c = f.readlink_relative_call(&path, 16).unwrap();
    assert_eq!(c.op, Op::Readlinkat { dirfd: 3, bufsiz: 16 });
    assert_eq!(c.data, b"link\0".to_vec());
    assert_eq!(f.readlink_relative_call(&path, usize::MAX).err(), Some(Error(22)));
    let buf = b"target----------";
    assert_eq!(f.readlink(6, buf), Ok(&b"target"[..]));
    assert_eq!(f.readlink(0, buf), Ok(&b""[..]));
    assert_eq!(f.readlink_relative(16, buf), Ok(&buf[..]));
    assert_eq!(f.readlink(error_word(22), buf), Err(Error(22)));
}

#[test]
fn directory_entry_types() {
    assert_eq!(DirEntryType::from(0), DirEntryType::Unknown);
    assert_eq!(DirEntryType::from(1), DirEntryType::Fifo);
    assert_eq!(DirEntryType::from(2), DirEntryType::Chr);
    assert_eq!(DirEntryType::from(4), DirEntryType::Dir);
    assert_eq!(DirEntryType::from(6), DirEntryType::Blk);
    assert_eq!(DirEntryType::from(8), DirEntryType::Reg);
    assert_eq!(DirEntryType::from(10), DirEntryType::Lnk);
    assert_eq!(DirEntryType::from(12), DirEntryType::Sock);
    assert_eq!(DirEntryType::from(14), DirEntryType::Wht);
    for other in [3u8, 5, 7, 9, 11, 13, 15, 255] {
        assert_eq!(DirEntryType::from(other), DirEntryType::Unknown);
    }
    for t in [
        DirEntryType::Unknown,
        DirEntryType::Fifo,
        DirEntryType::Chr,
        DirEntryType::Dir,
        DirEntryType::Blk,
        DirEntryType::Reg,
        DirEntryType::Lnk,
        DirEntryType::Sock,
        DirEntryType::Wht,
    ] {
        assert_eq!(DirEntryType::from(t.raw()), t);
    }
}

#[test]
fn directory_entries_are_read_in_order() {
    let mut buf = record(11, 1, 4, b".");
    buf.extend(record(12, 2, 8, b"test.txt"));
    buf.extend(record(13, -1, 10, b"a-rather-long-link-name"));
    assert_eq!(buf.len(), 24 + 32 + 48);

    let (first, rest) = dir_entry_from_buf(&buf);
    let first = first.unwrap();
    assert_eq!(first.ino, 11);
    assert_eq!(first.off, 1);
    assert_eq!(first.entry_type, DirEntryType::Dir);
    assert_eq!(first.name, b".");
    assert_eq!(rest.len(), 32 + 48);

    let mut it = DirEntries::from_getdents64_buffer(&buf);
    assert_eq!(it.next().unwrap().name, b".");
    let second = it.next().unwrap();
    assert_eq!(second.ino, 12);
    assert_eq!(second.off, 2);
    assert_eq!(second.entry_type, DirEntryType::Reg);
    assert_eq!(second.name, b"test.txt");
    let third = it.next().unwrap();
    assert_eq!(third.ino, 13);
    assert_eq!(third.off, -1);
    assert_eq!(third.entry_type, DirEntryType::Lnk);
    assert_eq!(third.name, b"a-rather-long-link-name");
    assert!(it.next().is_none());
    assert!(it.next().is_none());
    assert!(it.to_remaining_bytes().is_empty());

    assert_eq!(DirEntries::from_getdents64_buffer(&buf).count(), 3);
    assert_eq!(DirEntries::from_getdents64_buffer(&buf[24..]).count(), 2);
    assert_eq!(DirEntries::from_getdents64_buffer(&[]).count(), 0);
    let mut it = DirEntries::from_getdents64_buffer(&buf);
    it.next();
    assert_eq!(it.to_remaining_bytes(), &buf[24..]);
}

#[test]
fn broken_records_yield_no_entry() {
    let good = record(1, 1, 8, b"name");
    // Too short for a header.
    let (e, rest) = dir_entry_from_buf(&good[..23]);
    assert!(e.is_none());
    assert_eq!(rest, &good[..23]);
    // The claimed length is longer than the buffer.
    let mut long = good.clone();
    long[16] = 25;
    assert!(dir_entry_from_buf(&long).0.is_none());
    // The claimed length is shorter than a header.
    let mut short = good.clone();
    short[16] = 23;
    assert!(dir_entry_from_buf(&short).0.is_none());
    // No zero byte ends the name within the record.
    let mut endless = good.clone();
    for b in endless[19..].iter_mut() {
        *b = b'x';
    }
    let (e, rest) = dir_entry_from_buf(&endless);
    assert!(e.is_none());
    assert_eq!(rest, &endless[..]);
    // An empty name is a name.
    let empty = record(2, 2, 0, b"");
    let (e, rest) = dir_entry_from_buf(&empty);
    assert_eq!(e.unwrap().name, b"");
    assert!(rest.is_empty());

    assert_eq!(try_read_entry(&[]).1, 0);
    assert!(try_read_entry(&[]).0.is_none());
    assert_eq!(try_read_entry(&good[..10]).1, 10);
    assert!(try_read_entry(&good).0.is_some());
    assert_eq!(try_read_entry(&good).1, 24);
}

#[test]
fn getdents_reads_what_the_kernel_wrote() {
    let f: File = File::from_fd(3);
    let c = f.getdents_call(1024).unwrap();
    assert_eq!(c.op, Op::Getdents64 { fd: 3, count: 1024 });
    assert_eq!(f.getdents_call(MAX_COUNT + 1).err(), Some(Error(22)));
    assert!(f.getdents_call(MAX_COUNT).is_ok());
    let mut buf = record(1, 1, 8, b"a");
    buf.extend(record(2, 2, 8, b"b"));
    buf.extend(record(3, 3, 8, b"left from an earlier call"));
    // The kernel wrote two records.
    let mut it = f.getdents(48, &buf).unwrap();
    assert_eq!(it.next().unwrap().name, b"a");
    assert_eq!(it.next().unwrap().name, b"b");
    assert!(it.next().is_none());
    assert!(f.getdents(error_word(20), &buf).is_err());
}

#[test]
fn walking_a_whole_directory() {
    let f: File = File::from_fd(3);
    let mut walk = f.getdents_all(64);
    let mut buf = vec![0u8; 64];
    assert_eq!(walk.range(), Range::new(0, 0));

    // Nothing is in the buffer yet: the kernel is asked to fill it.
    match walk.next(&buf) {
        DirStep::Fill(c) => assert_eq!(c.op, Op::Getdents64 { fd: 3, count: 64 }),
        other => panic!("unexpected step: {:?}", other),
    }
    let mut first = record(1, 1, 4, b"..");
    first.extend(record(2, 2, 8, b"file"));
    buf[..48].copy_from_slice(&first);
    let e = walk.filled(48, &buf).unwrap().unwrap();
    assert_eq!(e.name, b"..");
    assert_eq!(walk.range(), Range::new(24, 48));
    match walk.next(&buf) {
        DirStep::Entry(e) => assert_eq!(e.name, b"file"),
        other => panic!("unexpected step: {:?}", other),
    }
    assert_eq!(walk.range(), Range::new(48, 48));
    assert!(matches!(walk.next(&buf), DirStep::Fill(_)));

    // The kernel fills the buffer once more.
    let second = record(3, 3, 8, b"last");
    buf[..24].copy_from_slice(&second);
    assert_eq!(walk.filled(24, &buf).unwrap().unwrap().name, b"last");
    assert!(matches!(walk.next(&buf), DirStep::Fill(_)));
    // At the end of the directory the kernel writes nothing.
    assert!(walk.filled(0, &buf).is_none());
    assert_eq!(walk.range(), Range::new(0, 0));

    // An error ends the walk.
    assert!(matches!(walk.next(&buf), DirStep::Fill(_)));
    assert_eq!(walk.filled(error_word(5), &buf).unwrap().err(), Some(Error(5)));
    assert!(matches!(walk.next(&buf), DirStep::Done));
    assert!(matches!(walk.next(&buf), DirStep::Done));
}

#[test]
fn poll_responses_read_their_bits() {
    let r = PollResponse::new(0x0001);
    assert!(r.readable());
    assert!(!r.writable() && !r.error() && !r.hung_up() && !r.exception() && !r.invalid());
    assert_eq!(r.raw_result(), 1);
    assert!(PollResponse::new(0x0002).exception());
    assert!(PollResponse::new(0x0004).writable());
    assert!(PollResponse::new(0x0008).error());
    assert!(PollResponse::new(0x0008).hung_up());
    assert!(!PollResponse::new(0x0010).hung_up());
    assert!(PollResponse::new(0x0020).invalid());
    let all = PollResponse::new(0x002f);
    assert!(all.readable() && all.writable() && all.error() && all.exception() && all.invalid());
    let none = PollResponse::new(0);
    assert!(!none.readable() && !none.writable() && !none.error() && !none.invalid());
}

#[test]
fn poll_passes_requests_and_takes_reports() {
    let stdin: File = File::from_fd(0);
    let sock: File = File::from_fd(7);
    let a = PollRequest::new(&stdin).events_raw(1);
    let b = PollRequest::new(&sock).events_raw(1).or_events_raw(4);
    assert!(!a.response().readable());
    let mut reqs = [a, b];
    let c = poll_call(&reqs, 1500).unwrap();
    assert_eq!(c.op, Op::Ppoll { nfds: 2, timeout_sec: 1, timeout_nsec: 500_000_000 });
    assert_eq!(c.data, vec![0, 0, 0, 0, 1, 0, 0, 0, 7, 0, 0, 0, 5, 0, 0, 0]);
    assert_eq!(poll_call(&[], 0).unwrap().op, Op::Ppoll {
        nfds: 0,
        timeout_sec: 0,
        timeout_nsec: 0
    });

    // The kernel reports the first readable and the second writable.
    let answer = vec![0, 0, 0, 0, 1, 0, 1, 0, 7, 0, 0, 0, 5, 0, 4, 0];
    assert_eq!(poll(&mut reqs, 2, &answer), Ok(2));
    assert!(reqs[0].response().readable());
    assert!(!reqs[0].response().writable());
    assert!(reqs[1].response().writable());
    assert!(!reqs[1].response().readable());
    // A failure leaves the requests as they were.
    assert_eq!(poll(&mut reqs, error_word(4), &[0; 16]), Err(Error(4)));
    assert!(reqs[0].response().readable());
    // Nothing reported: the events are cleared.
    assert_eq!(poll(&mut reqs, 0, &[0; 16]), Ok(0));
    assert!(!reqs[0].response().readable());
    reqs[0].report(-1);
    assert_eq!(reqs[0].response().raw_result(), -1);
}

#[test]
fn timeouts_are_split_toward_zero() {
    assert_eq!(split_timeout(0), (0, 0));
    assert_eq!(split_timeout(999), (0, 999_000_000));
    assert_eq!(split_timeout(1000), (1, 0));
    assert_eq!(split_timeout(2500), (2, 500_000_000));
    assert_eq!(split_timeout(-1), (0, -1_000_000));
    assert_eq!(split_timeout(-1500), (-1, -500_000_000));
    assert_eq!(split_timeout(i32::MAX), (2_147_483, 647_000_000));
    assert_eq!(split_timeout(i32::MIN), (-2_147_483, -648_000_000));
}

#[test]
fn user_pointers_keep_their_address() {
    assert_eq!(ensure_reprs_possible(0x1234), (0x1234, 0x1234, 0x1234, 0x1234));
    let p: UserPtr<u8, u64> = UserPtr::from_ptr(0x7fff_0000);
    assert_eq!(p.repr(), 0x7fff_0000u64);
    let m: UserMut<u32> = UserMut::from_ptr(16);
    assert_eq!(m.repr(), 16usize);
}

#[test]
fn ipv4_addresses() {
    assert_eq!(Ipv4Addr::LOOPBACK().as_u32(), 0x7f00_0001);
    assert_eq!(Ipv4Addr::LOOPBACK().as_octets(), [127, 0, 0, 1]);
    assert_eq!(Ipv4Addr::from_octets([127, 0, 0, 1]), Ipv4Addr::LOOPBACK());
    assert_eq!(Ipv4Addr::from_u32(0xc0a8_0102).as_octets(), [192, 168, 1, 2]);
    assert_eq!(Ipv4Addr::from_octets([192, 168, 1, 2]).as_u32(), 0xc0a8_0102);
    assert_eq!(Ipv4Addr::from_octets([255, 255, 255, 255]), Ipv4Addr::BROADCAST());
    assert_eq!(Ipv4Addr::ANY().as_u32(), 0);
    assert_eq!(Ipv4Addr::NONE().as_u32(), 0xffff_ffff);
    assert_eq!(Ipv4Addr::DUMMY().as_octets(), [192, 0, 0, 8]);
    assert_eq!(Ipv4Addr::UNSPEC_GROUP().as_octets(), [224, 0, 0, 0]);
    assert_eq!(Ipv4Addr::ALLHOSTS_GROUP().as_octets(), [224, 0, 0, 1]);
    assert_eq!(Ipv4Addr::ALLRTRS_GROUP().as_octets(), [224, 0, 0, 2]);
    assert_eq!(Ipv4Addr::ALLSNOOPERS_GROUP().as_octets(), [224, 0, 0, 106]);
    assert_eq!(
        Ipv4Addr::LOOPBACK().to_ipv6_mapped().as_octets(),
        [0, 0, 0, 0, 0, 0, 0, 0, 0, 0, 0xff, 0xff, 127, 0, 0, 1]
    );
    assert_eq!(
        IpAddr::V4(Ipv4Addr::from_octets([10, 1, 2, 3])).to_ipv6_mapped().as_octets(),
        [0, 0, 0, 0, 0, 0, 0, 0, 0, 0, 0xff, 0xff, 10, 1, 2, 3]
    );
    assert_eq!(IpAddr::V6(Ipv6Addr::LOOPBACK()).to_ipv6_mapped(), Ipv6Addr::LOOPBACK());
    assert_eq!(IpAddr::from(Ipv4Addr::ANY()), IpAddr::V4(Ipv4Addr::ANY()));
    assert_eq!(IpAddr::from(Ipv6Addr::ANY()), IpAddr::V6(Ipv6Addr::ANY()));
}

#[test]
fn ipv6_addresses() {
    assert_eq!(Ipv6Addr::ANY().as_octets(), [0; 16]);
    assert_eq!(Ipv6Addr::LOOPBACK().as_octets()[15], 1);
    assert_eq!(Ipv6Addr::LINKLOCAL_ALLNODES().as_octets()[..2], [0xff, 2]);
    assert_eq!(Ipv6Addr::LINKLOCAL_ALLNODES().as_octets()[15], 1);
    assert_eq!(Ipv6Addr::LINKLOCAL_ALLROUTERS().as_octets()[15], 2);
    assert_eq!(Ipv6Addr::INTERFACELOCAL_ALLNODES().as_octets()[..2], [0xff, 1]);
    assert_eq!(Ipv6Addr::INTERFACELOCAL_ALLROUTERS().as_octets()[15], 2);
    assert_eq!(Ipv6Addr::SITELOCAL_ALLROUTERS().as_octets()[..2], [0xff, 5]);
    let o = [1, 2, 3, 4, 5, 6, 7, 8, 9, 10, 11, 12, 13, 14, 15, 16];
    assert_eq!(Ipv6Addr::from_octets(o).as_octets(), o);
}

#[test]
fn socket_addresses_lie_as_the_kernel_reads_them() {
    let a = SockAddrIpv4::new(Ipv4Addr::from_octets([192, 168, 1, 2]), 8080);
    assert_eq!(a.host_address().as_octets(), [192, 168, 1, 2]);
    assert_eq!(a.port(), 8080);
    assert_eq!(
        a.sockaddr_bytes(),
        vec![2, 0, 0x1f, 0x90, 192, 168, 1, 2, 0, 0, 0, 0, 0, 0, 0, 0]
    );
    let o = [0x20, 1, 0xd, 0xb8, 0, 0, 0, 0, 0, 0, 0, 0, 0, 0, 0, 1];
    let b = SockAddrIpv6::new(Ipv6Addr::from_octets(o), 443);
    assert_eq!(b.host_address().as_octets(), o);
    assert_eq!(b.port(), 443);
    assert_eq!(b.scope_id(), 0);
    let mut expected = vec![10, 0, 1, 0xbb, 0, 0, 0, 0];
    expected.extend_from_slice(&o);
    expected.extend_from_slice(&[0, 0, 0, 0]);
    assert_eq!(b.sockaddr_bytes(), expected);
    let c = SockAddrIpv6::new_with_scope(Ipv6Addr::LOOPBACK(), 1, 0x0102_0304);
    assert_eq!(c.scope_id(), 0x0102_0304);
    assert_eq!(c.port(), 1);
    assert_eq!(&c.sockaddr_bytes()[24..], &[4, 3, 2, 1]);
    assert_eq!(c.sockaddr_bytes().len(), 28);

    let d = SockAddrIp::new(IpAddr::V4(Ipv4Addr::LOOPBACK()), 80);
    assert_eq!(d.host_address(), IpAddr::V4(Ipv4Addr::LOOPBACK()));
    assert_eq!(d.port(), 80);
    assert_eq!(d.sockaddr_bytes().len(), 16);
    let e = SockAddrIp::new(IpAddr::V6(Ipv6Addr::LOOPBACK()), 81);
    assert_eq!(e.host_address(), IpAddr::V6(Ipv6Addr::LOOPBACK()));
    assert_eq!(e.port(), 81);
    assert_eq!(e.sockaddr_bytes().len(), 28);
}

#[test]
fn socket_ipv4_bind_tcp() {
    // AF_INET + SOCK_STREAM is implicitly TCP, without explicitly naming it
    let c = File::socket_raw_call(AF_INET, sock_type::SOCK_STREAM, 0);
    assert_eq!(c.op, Op::Socket { domain: 2, typ: 1, protocol: 0 });
    let f = File::socket_raw(3).expect("failed to create socket");

    let addr = SockAddrIpv4::new(Ipv4Addr::LOOPBACK(), 0);
    println!("binding to {:?}", addr);
    let c = f.bind_call(&addr);
    assert_eq!(c.op, Op::Bind { fd: 3 });
    assert_eq!(c.data, vec![2, 0, 0, 0, 127, 0, 0, 1, 0, 0, 0, 0, 0, 0, 0, 0]);
    f.bind(0).expect("failed to bind socket");
}

#[test]
fn socket_ipv6_bind_tcp() {
    let c = File::socket_raw_call(AF_INET6, sock_type::SOCK_STREAM, 0);
    assert_eq!(c.op, Op::Socket { domain: 10, typ: 1, protocol: 0 });
    let f = File::socket_raw(3).expect("failed to create socket");

    let addr = SockAddrIpv6::new(Ipv6Addr::LOOPBACK(), 0);
    println!("binding to {:?}", addr);
    let c = f.bind_call(&addr);
    assert_eq!(c.op, Op::Bind { fd: 3 });
    let mut expected = vec![10, 0, 0, 0, 0, 0, 0, 0];
    expected.extend_from_slice(&[0, 0, 0, 0, 0, 0, 0, 0, 0, 0, 0, 0, 0, 0, 0, 1]);
    expected.extend_from_slice(&[0, 0, 0, 0]);
    assert_eq!(c.data, expected);
    f.bind(0).expect("failed to bind socket");
}

#[test]
fn socket_dynipv4_bind_tcp() {
    // Passing an IPv4 address to SockAddrIp::new causes it to return an
    // IPv4 socket address.
    let addr = SockAddrIp::new(Ipv4Addr::LOOPBACK().into(), 0);
    assert_eq!(addr.address_family(), AF_INET);

    let c = File::socket_raw_call(addr.address_family(), sock_type::SOCK_STREAM, 0);
    assert_eq!(c.op, Op::Socket { domain: 2, typ: 1, protocol: 0 });
    let f = File::socket_raw(3).expect("failed to create socket");

    println!("binding to {:?}", addr);
    assert_eq!(
        f.bind_call(&addr).data,
        SockAddrIpv4::new(Ipv4Addr::LOOPBACK(), 0).sockaddr_bytes()
    );
    f.bind(0).expect("failed to bind socket");
}

#[test]
fn socket_dynipv6_bind_tcp() {
    // Passing an IPv6 address to SockAddrIp::new causes it to return an
    // IPv6 socket address.
    let addr = SockAddrIp::new(Ipv6Addr::LOOPBACK().into(), 0);
    assert_eq!(addr.address_family(), AF_INET6);

    let c = File::socket_raw_call(addr.address_family(), sock_type::SOCK_STREAM, 0);
    assert_eq!(c.op, Op::Socket { domain: 10, typ: 1, protocol: 0 });
    let f = File::socket_raw(3).expect("failed to create socket");

    println!("binding to {:?}", addr);
    assert_eq!(
        f.bind_call(&addr).data,
        SockAddrIpv6::new(Ipv6Addr::LOOPBACK(), 0).sockaddr_bytes()
    );
    f.bind(0).expect("failed to bind socket");
}

#[test]
fn socket_dynipv6mappedv4_bind_tcp() {
    // This is the IPv4 loopback address represented as an IPv6 address
    // using the "mapped" addressing scheme.
    let addr = SockAddrIp::new(Ipv4Addr::LOOPBACK().to_ipv6_mapped().into(), 0);
    assert_eq!(addr.address_family(), AF_INET6);

    let c = File::socket_raw_call(addr.address_family(), sock_type::SOCK_STREAM, 0);
    assert_eq!(c.op, Op::Socket { domain: 10, typ: 1, protocol: 0 });
    let f = File::socket_raw(3).expect("failed to create socket");

    println!("binding to {:?}", addr);
    let data = f.bind_call(&addr).data;
    assert_eq!(&data[8..24], &[0, 0, 0, 0, 0, 0, 0, 0, 0, 0, 0xff, 0xff, 127, 0, 0, 1]);
    f.bind(0).expect("failed to bind socket");
}

#[test]
fn socket_getsockopt() {
    let f = File::socket_raw(3).expect("failed to create socket");
    let addr = SockAddrIpv4::new(Ipv4Addr::LOOPBACK(), 0);
    println!("binding to {:?}", addr);
    f.bind(0).expect("failed to bind socket");

    let c = f.getsockopt_call(&SO_ACCEPTCONN());
    assert_eq!(c.op, Op::Getsockopt { fd: 3, level: 1, optname: 30, optlen: 4 });
    let acceptconn = f
        .getsockopt(&SO_ACCEPTCONN(), 0, &0i32.to_le_bytes(), 4)
        .expect("failed to getsockopt");
    assert_eq!(
        acceptconn, 0,
        "socket is already accepting connections somehow"
    );

    assert_eq!(f.listen_call(1).op, Op::Listen { fd: 3, backlog: 1 });
    f.listen(0).expect("failed to listen");

    let acceptconn = f
        .getsockopt(&SO_ACCEPTCONN(), 0, &1i32.to_le_bytes(), 4)
        .expect("failed to getsockopt");
    assert_eq!(
        acceptconn, 1,
        "socket is not accepting connections after listen"
    );
}

#[test]
fn socket_setsockopt() {
    let f = File::socket_raw(3).expect("failed to create socket");
    let addr = SockAddrIpv4::new(Ipv4Addr::LOOPBACK(), 0);
    println!("binding to {:?}", addr);
    f.bind(0).expect("failed to bind socket");

    let dontroute = f
        .getsockopt(&SO_DONTROUTE(), 0, &0i32.to_le_bytes(), 4)
        .expect("failed to getsockopt");
    assert_eq!(dontroute, 0, "SO_DONTROUTE is set before we set it");

    let c = f.setsockopt_call(&SO_DONTROUTE(), &1);
    assert_eq!(c.op, Op::Setsockopt { fd: 3, level: 1, optname: 5 });
    assert_eq!(c.data, vec![1, 0, 0, 0]);
    f.setsockopt(&SO_DONTROUTE(), 0).expect("failed to setsockopt");

    let dontroute = f
        .getsockopt(&SO_DONTROUTE(), 0, &1i32.to_le_bytes(), 4)
        .expect("failed to getsockopt");
    assert_eq!(dontroute, 1, "SO_DONTROUTE is not set after we set it");
}

#[test]
fn getsockopt_checks_the_length_the_kernel_wrote() {
    let f = File::socket_raw(3).unwrap();
    assert_eq!(f.getsockopt(&SO_DOMAIN(), 0, &2i32.to_le_bytes(), 4), Ok(2));
    assert_eq!(f.getsockopt(&SO_DOMAIN(), 0, &2i32.to_le_bytes(), 2), Err(Error(22)));
    assert_eq!(f.getsockopt(&SO_DOMAIN(), 0, &2i32.to_le_bytes(), 8), Err(Error(22)));
    assert_eq!(f.getsockopt(&SO_DOMAIN(), 0, &2i32.to_le_bytes(), -4), Err(Error(22)));
    assert_eq!(
        f.getsockopt(&SO_KEEPALIVE(), error_word(92), &[0; 4], 4),
        Err(Error(92))
    );
    assert_eq!(f.setsockopt(&SO_KEEPALIVE(), error_word(1)), Err(Error(1)));
    assert_eq!(f.setsockopt(&SO_KEEPALIVE(), 0), Ok(0));
    let c = f.getsockopt_call(&SO_KEEPALIVE());
    assert_eq!(c.op, Op::Getsockopt { fd: 3, level: 1, optname: 9, optlen: 4 });
}

#[test]
fn sockets_connect_and_name_their_protocol() {
    let tcp = socket_protocol::<TcpSocketDevice>(6);
    assert_eq!(tcp.raw_protocol_num(), 6);
    let c = File::socket_call(AF_INET, sock_type::SOCK_STREAM, &tcp);
    assert_eq!(c.op, Op::Socket { domain: 2, typ: 1, protocol: 6 });
    let f = File::socket::<linux_kvm::io::socket::SocketProtocolFixed<TcpSocketDevice>>(5).unwrap();
    assert_eq!(f.ioctl_call(&SIOCOUTQ(), &()).op, Op::Ioctl {
        fd: 5,
        request: 0x5411,
        arg: Arg::Out { len: 4 }
    });
    let addr = SockAddrIpv4::new(Ipv4Addr::from_octets([10, 0, 0, 1]), 22);
    let c = f.connect_call(&addr);
    assert_eq!(c.op, Op::Connect { fd: 5 });
    assert_eq!(c.data, addr.sockaddr_bytes());
    assert_eq!(f.connect(error_word(111)), Err(Error(111)));
    assert_eq!(f.connect(0), Ok(()));
    assert_eq!(f.listen(error_word(98)), Err(Error(98)));
    assert_eq!(f.bind(error_word(98)), Err(Error(98)));
    assert_eq!(File::socket_raw(error_word(97)).err(), Some(Error(97)));
}

#[test]
fn fcntl_commands() {
    let f: File = File::from_fd(3);
    let c = f.fcntl_call(&F_DUPFD(), &0);
    assert_eq!(c.op, Op::Fcntl { fd: 3, cmd: 0, arg: Arg::Value(0) });
    let f2 = f.fcntl(&F_DUPFD(), 4).expect("failed to create file");
    assert_eq!(f2.fd(), 4);
    assert_eq!(f.fcntl(&F_DUPFD(), error_word(24)).err(), Some(Error(24)));
    let c = f.fcntl_call(&F_GETFD(), &());
    assert_eq!(c.op, Op::Fcntl { fd: 3, cmd: 1, arg: Arg::Void });
    assert_eq!(f.fcntl(&F_GETFD(), 1), Ok(1));
    let c = f.fcntl_call(&F_SETFD(), &1);
    assert_eq!(c.op, Op::Fcntl { fd: 3, cmd: 2, arg: Arg::Value(1) });
    assert_eq!(f.fcntl(&F_SETFD(), 0), Ok(()));
    assert_eq!(f.fcntl_call(&F_SETFL(), &0o4000).op, Op::Fcntl {
        fd: 3,
        cmd: 4,
        arg: Arg::Value(0o4000)
    });
    assert_eq!(f.fcntl_call(&F_DUPFD_CLOEXEC(), &10).op, Op::Fcntl {
        fd: 3,
        cmd: 1030,
        arg: Arg::Value(10)
    });
    assert_eq!(f.fcntl(&F_DUPFD_CLOEXEC(), 11), Ok(11));
    let lock = flock { l_type: 1, l_whence: 0, l_start: -2, l_len: 100, l_pid: 77 };
    let c = f.fcntl_call(&F_GETLK(), &lock);
    assert_eq!(c.op, Op::Fcntl { fd: 3, cmd: 5, arg: Arg::InOut });
    assert_eq!(c.data.len(), 32);
    assert_eq!(&c.data[0..8], &[1, 0, 0, 0, 0, 0, 0, 0]);
    assert_eq!(&c.data[8..16], &(-2i64).to_le_bytes());
    assert_eq!(&c.data[16..24], &100i64.to_le_bytes());
    assert_eq!(&c.data[24..32], &[77, 0, 0, 0, 0, 0, 0, 0]);
    assert_eq!(flock::decode(&c.data), lock);
    assert_eq!(F_GETLK().prepare_fcntl_args(&lock).0, 5);
}

#[test]
fn requests_that_pass_a_pointer_both_ways() {
    let req: IoctlReqWriteRead<TcpSocketDevice, WindowSize, i32> = ioctl_writeread(0xC008_5499);
    let ws = WindowSize { ws_row: 1, ws_col: 2, ws_xpixel: 3, ws_ypixel: 4 };
    let (code, arg, data) = req.prepare_ioctl_args(&ws);
    assert_eq!((code, arg), (0xC008_5499, Arg::InOut));
    assert_eq!(data, vec![1, 0, 2, 0, 3, 0, 4, 0]);
    // The kernel changed the rows.
    let (ret, back) = req.prepare_ioctl_result(0, &ws, &[9, 0, 2, 0, 3, 0, 4, 0]);
    assert_eq!(ret, 0);
    assert_eq!(back, WindowSize { ws_row: 9, ws_col: 2, ws_xpixel: 3, ws_ypixel: 4 });

    // An argument that stands for none travels as none.
    let req: IoctlReqWriteVal<TcpSocketDevice, (), i32> = ioctl_write_val(0x5401);
    assert_eq!(req.prepare_ioctl_args(&()), (0x5401, Arg::Void, Vec::new()));
    let req: IoctlReqWriteVal<TcpSocketDevice, i32, i32> = ioctl_write_val(0x5401);
    assert_eq!(req.prepare_ioctl_args(&-1), (0x5401, Arg::Value(u64::MAX), Vec::new()));

    let cmd = fcntl_cmd_const_ptr::<flock, i32>(6);
    let lock = flock { l_type: 0, l_whence: 1, l_start: 0, l_len: 0, l_pid: 0 };
    let (code, arg, data) = cmd.prepare_fcntl_args(&lock);
    assert_eq!((code, arg), (6, Arg::In));
    assert_eq!(data.len(), 32);
    assert_eq!(data[2], 1);
    assert_eq!(cmd.prepare_fcntl_result(5), 5);
}

#[test]
fn lock_decisions() {
    assert!(keeps_spinning(LOCKED, 100));
    assert!(keeps_spinning(LOCKED, 1));
    assert!(!keeps_spinning(LOCKED, 0));
    assert!(!keeps_spinning(UNLOCKED, 100));
    assert!(!keeps_spinning(CONTENDED, 100));
    assert!(must_mark(UNLOCKED) && must_mark(LOCKED) && !must_mark(CONTENDED));
    assert!(took_lock(UNLOCKED) && !took_lock(LOCKED) && !took_lock(CONTENDED));
    assert!(needs_wake(CONTENDED) && !needs_wake(LOCKED) && !needs_wake(UNLOCKED));
    assert!(looks_free(UNLOCKED) && !looks_free(LOCKED) && !looks_free(CONTENDED));
    assert!(exchange_took_lock(Ok(UNLOCKED)));
    assert!(!exchange_took_lock(Err(LOCKED)));
    assert!(!exchange_took_lock(Err(CONTENDED)));
    assert_eq!(found_after_exchange(Ok(UNLOCKED)), None);
    assert_eq!(found_after_exchange(Err(LOCKED)), Some(LOCKED));
    assert_eq!(found_after_exchange(Err(CONTENDED)), Some(CONTENDED));
}

#[test]
fn lock_steps_follow_the_word_replaced() {
    let futex: Futex<true> = Futex::new();
    assert!(matches!(futex.after_mark(UNLOCKED), LockStep::Locked));
    match futex.after_mark(LOCKED) {
        LockStep::Wait(c) => assert_eq!(c.op, Op::Futex { op: 128, val: 2 }),
        LockStep::Locked => panic!("the lock was held"),
    }
    assert!(matches!(futex.after_mark(CONTENDED), LockStep::Wait(_)));
    assert!(futex.after_release(UNLOCKED).is_none());
    assert!(futex.after_release(LOCKED).is_none());
    assert_eq!(futex.after_release(CONTENDED).unwrap().op, Op::Futex { op: 129, val: 1 });
    let shared: Futex<false> = Futex::new();
    assert_eq!(shared.after_release(CONTENDED).unwrap().op, Op::Futex { op: 1, val: 1 });
    // The word handed out is the lock's own: taking the lock shows in it.
    assert!(futex.try_lock());
    assert_eq!(futex.word().load(std::sync::atomic::Ordering::Relaxed), LOCKED);
    assert_eq!(shared.word().load(std::sync::atomic::Ordering::Relaxed), UNLOCKED);
}

#[test]
fn an_uncontended_lock_needs_no_kernel() {
    let futex: Futex<true> = Futex::new();
    assert!(matches!(futex.lock(), LockStep::Locked));
    assert!(!futex.try_lock());
    assert!(futex.unlock().is_none());
    assert!(futex.try_lock());
    assert!(futex.unlock().is_none());
    assert_eq!(futex.spin(), UNLOCKED);
}

#[test]
fn a_held_lock_is_waited_for_and_woken() {
    let futex: Futex<true> = Futex::new();
    assert!(futex.try_lock());
    // A second taker finds the lock held: it marks it and waits.
    match futex.lock() {
        LockStep::Wait(c) => assert_eq!(c.op, Op::Futex { op: 128, val: 2 }),
        LockStep::Locked => panic!("the lock was held"),
    }
    assert_eq!(futex.spin(), CONTENDED);
    // The holder releases and has a waiter to wake.
    let wake = futex.unlock().unwrap();
    assert_eq!(wake.op, Op::Futex { op: 129, val: 1 });
    // The waiter, woken, takes the lock and leaves it marked.
    assert!(matches!(futex.lock_woken(), LockStep::Locked));
    assert_eq!(futex.spin(), CONTENDED);
    assert!(futex.unlock().is_some());

    let shared: Futex<false> = Futex::new();
    assert!(shared.try_lock());
    match shared.lock_contended() {
        LockStep::Wait(c) => assert_eq!(c.op, Op::Futex { op: 0, val: 2 }),
        LockStep::Locked => panic!("the lock was held"),
    }
    assert_eq!(shared.unlock().unwrap().op, Op::Futex { op: 1, val: 1 });
    assert_eq!(Futex::<false>::wait_op(), 0);
    assert_eq!(Futex::<false>::wake_op(), 1);
    assert_eq!(Futex::<true>::wait_op(), 128);
    assert_eq!(Futex::<true>::wake_op(), 129);
    assert_eq!(shared.futex_wait(2).op, Op::Futex { op: 0, val: 2 });
    assert_eq!(shared.futex_wake().op, Op::Futex { op: 1, val: 1 });
    assert_eq!(shared.wake().op, Op::Futex { op: 1, val: 1 });
}
