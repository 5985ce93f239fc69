use linux_kvm::sys::args::AsRawV;
use linux_kvm::sys::call::{Op, Syscall};
use linux_kvm::sys::result::{
    is_error, prepare_arg, prepare_standard_result, unpack_standard_result, Error, EINVAL,
    ENOMEM, ERROR_WORD_MIN,
};
use linux_kvm::sys::sigset::sigset_t;
use linux_kvm::sys::types::{sock_type, O_CLOEXEC, O_RDWR, O_SYNC, O_TMPFILE};

#[test]
fn error_words_are_the_last_4095() {
    assert_eq!(ERROR_WORD_MIN, (-4095i64) as u64);
    assert_eq!(unpack_standard_result(0), Ok(0));
    assert_eq!(unpack_standard_result(12), Ok(12));
    assert_eq!(unpack_standard_result(ERROR_WORD_MIN - 1), Ok(ERROR_WORD_MIN - 1));
    assert_eq!(unpack_standard_result(ERROR_WORD_MIN), Err(4095));
    assert_eq!(unpack_standard_result(u64::MAX), Err(1));
    assert_eq!(unpack_standard_result((-19i64) as u64), Err(19));
    assert_eq!(unpack_standard_result((-22i64) as u64), Err(22));
    assert!(is_error(u64::MAX) && is_error(ERROR_WORD_MIN) && !is_error(ERROR_WORD_MIN - 1));
    assert!(!is_error(0));
    // A large address is a success, not an error.
    assert_eq!(unpack_standard_result(0xffff_8000_0000_0000), Ok(0xffff_8000_0000_0000));
}

#[test]
fn standard_results_are_typed() {
    assert_eq!(prepare_standard_result::<i32>(12), Ok(12));
    assert_eq!(prepare_standard_result::<i32>(0x1_0000_0005), Ok(5));
    assert_eq!(prepare_standard_result::<i32>(0xffff_ffff), Ok(-1));
    assert_eq!(prepare_standard_result::<u8>(0x1234), Ok(0x34));
    assert_eq!(prepare_standard_result::<usize>(4096), Ok(4096));
    assert_eq!(prepare_standard_result::<()>(77), Ok(()));
    assert_eq!(prepare_standard_result::<i32>((-12i64) as u64), Err(Error(ENOMEM)));
    assert_eq!(prepare_standard_result::<u64>((-22i64) as u64), Err(Error::new(EINVAL)));
}

#[test]
fn arguments_become_raw_words() {
    assert_eq!(prepare_arg(5i32), 5);
    assert_eq!(prepare_arg(-1i32), u64::MAX);
    assert_eq!(prepare_arg(-100i32), (-100i64) as u64);
    assert_eq!(prepare_arg(-1i8), u64::MAX);
    assert_eq!(prepare_arg(0xffu8), 0xff);
    assert_eq!(prepare_arg(-2i16), (-2i64) as u64);
    assert_eq!(prepare_arg(0xffffu16), 0xffff);
    assert_eq!(prepare_arg(0xffff_ffffu32), 0xffff_ffff);
    assert_eq!(prepare_arg(i64::MIN), 0x8000_0000_0000_0000);
    assert_eq!(prepare_arg(7u64), 7);
    assert_eq!(prepare_arg(-1isize), u64::MAX);
    assert_eq!(prepare_arg(9usize), 9);
    assert_eq!(prepare_arg(()), 0);
    assert!(().raw_is_void());
    assert!(!0i32.raw_is_void());
    assert!(!0u64.raw_is_void());
    assert_eq!(i16::from_raw_result(0xffff_fffe), -2);
    assert_eq!(u32::from_raw_result(0x1_0000_0001), 1);
    assert_eq!(i64::from_raw_result(u64::MAX), -1);
    assert_eq!(isize::from_raw_result(u64::MAX), -1);
    assert_eq!(u16::from_raw_result(0x12345), 0x2345);
    assert_eq!(i8::from_raw_result(0x80), -128);
}

#[test]
fn calls_carry_their_bytes() {
    let c = Syscall::plain(Op::Close { fd: 3 });
    assert_eq!(c.op, Op::Close { fd: 3 });
    assert!(c.data.is_empty());
    let c = Syscall::with_data(Op::Write { fd: 1 }, vec![1, 2, 3]);
    assert_eq!(c.op, Op::Write { fd: 1 });
    assert_eq!(c.data, vec![1, 2, 3]);
}

#[test]
fn constants_have_their_kernel_values() {
    assert_eq!(O_SYNC, 0o4010000);
    assert_eq!(O_TMPFILE, 0o20200000);
    assert_eq!(O_RDWR | O_CLOEXEC, 0o2000002);
    assert_eq!(sock_type::SOCK_STREAM.raw(), 1);
    assert_eq!(sock_type::SOCK_DGRAM.raw(), 2);
    assert_eq!(sock_type::SOCK_RAW.raw(), 3);
    assert_eq!(sock_type::SOCK_RDM.raw(), 4);
    assert_eq!(sock_type::SOCK_SEQPACKET.raw(), 5);
    assert_eq!(sock_type::SOCK_DCCP.raw(), 6);
    assert_eq!(sock_type::SOCK_PACKET.raw(), 10);
}

#[test]
fn signal_sets_hold_signals_1_to_64() {
    let mut set = sigset_t::new_empty();
    assert_eq!(set.word(), 0);
    for signum in 1..=64 {
        assert_eq!(set.sigismember(signum), Ok(false));
    }
    assert_eq!(set.sigaddset(1), Ok(()));
    assert_eq!(set.sigaddset(32), Ok(()));
    assert_eq!(set.sigaddset(33), Ok(()));
    assert_eq!(set.sigaddset(64), Ok(()));
    assert_eq!(set.word(), 1 | (1 << 31) | (1 << 32) | (1 << 63));
    assert_eq!(set.sigismember(1), Ok(true));
    assert_eq!(set.sigismember(2), Ok(false));
    assert_eq!(set.sigismember(32), Ok(true));
    assert_eq!(set.sigismember(33), Ok(true));
    assert_eq!(set.sigismember(64), Ok(true));
    // Adding twice is adding once.
    assert_eq!(set.sigaddset(32), Ok(()));
    assert_eq!(set.word(), 1 | (1 << 31) | (1 << 32) | (1 << 63));
    assert_eq!(set.sigdelset(32), Ok(()));
    assert_eq!(set.sigismember(32), Ok(false));
    assert_eq!(set.sigismember(33), Ok(true));
    assert_eq!(set.word(), 1 | (1 << 32) | (1 << 63));
    // Deleting what is not there changes nothing.
    assert_eq!(set.sigdelset(2), Ok(()));
    assert_eq!(set.word(), 1 | (1 << 32) | (1 << 63));
}

#[test]
fn signal_sets_refuse_what_names_no_signal() {
    let mut set = sigset_t::new_empty();
    for bad in [0, -1, 65, 1000, i32::MIN, i32::MAX] {
        assert_eq!(set.sigaddset(bad), Err(Error(22)));
        assert_eq!(set.sigdelset(bad), Err(Error(22)));
        assert_eq!(set.sigismember(bad), Err(Error(22)));
        assert_eq!(sigset_t::sigpos(bad), Err(Error(22)));
    }
    assert_eq!(set.word(), 0);
    assert_eq!(sigset_t::sigpos(1), Ok((0, 0)));
    assert_eq!(sigset_t::sigpos(64), Ok((0, 63)));
}

#[test]
fn signal_sets_fill_and_empty() {
    let mut set = sigset_t::new_filled();
    assert_eq!(set.word(), u64::MAX);
    for signum in 1..=64 {
        assert_eq!(set.sigismember(signum), Ok(true));
    }
    set.sigemptyset();
    assert_eq!(set.word(), 0);
    assert_eq!(set.sigismember(9), Ok(false));
    set.sigfillset();
    assert_eq!(set.word(), u64::MAX);
    assert_eq!(set.sigdelset(9), Ok(()));
    assert_eq!(set.word(), u64::MAX & !(1 << 8));
}
