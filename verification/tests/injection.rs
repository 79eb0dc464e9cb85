use kchaos::protocol::injection::{
    BlkIo, Delay, FsSyscall, Injector, Matcher, BLK_IO_RECORD_SIZE, DELAY_RECORD_SIZE,
    FS_SYSCALL_RECORD_SIZE,
};

#[test]
fn record_sizes_are_the_documented_constants() {
    assert_eq!(FS_SYSCALL_RECORD_SIZE, 12);
    assert_eq!(BLK_IO_RECORD_SIZE, 4);
    assert_eq!(DELAY_RECORD_SIZE, 8);
}

#[test]
fn fs_syscall_record_holds_pid_then_syscall() {
    let matcher = FsSyscall { pid: 0x0102_0304, syscall: 0x1122_3344_5566_7788 };
    assert_eq!(
        matcher.encode(),
        vec![0x04, 0x03, 0x02, 0x01, 0x88, 0x77, 0x66, 0x55, 0x44, 0x33, 0x22, 0x11]
    );
}

#[test]
fn blk_io_record_holds_dev() {
    let matcher = BlkIo { dev: 0x0A0B_0C0D };
    assert_eq!(matcher.encode(), vec![0x0D, 0x0C, 0x0B, 0x0A]);
}

#[test]
fn delay_record_holds_delay() {
    let injector = Delay { delay: 1_000_000 };
    assert_eq!(injector.encode(), vec![0x40, 0x42, 0x0F, 0, 0, 0, 0, 0]);
}

#[test]
fn records_of_extreme_values_keep_their_size() {
    let low = FsSyscall { pid: 0, syscall: 0 };
    let high = FsSyscall { pid: u32::MAX, syscall: u64::MAX };
    assert_eq!(low.encode(), vec![0u8; 12]);
    assert_eq!(high.encode(), vec![0xFFu8; 12]);
    assert_eq!(BlkIo { dev: 0 }.encode(), vec![0u8; 4]);
    assert_eq!(BlkIo { dev: u32::MAX }.encode(), vec![0xFFu8; 4]);
    assert_eq!(Delay { delay: 0 }.encode(), vec![0u8; 8]);
    assert_eq!(Delay { delay: u64::MAX }.encode(), vec![0xFFu8; 8]);
}

#[test]
fn matcher_encodes_the_descriptor_it_holds() {
    let fs_syscall = FsSyscall { pid: 42, syscall: 3 };
    let blk_io = BlkIo { dev: 0x0801 };
    assert_eq!(Matcher::FsSyscall(fs_syscall).encode(), fs_syscall.encode());
    assert_eq!(Matcher::FsSyscall(fs_syscall).encode().len(), FS_SYSCALL_RECORD_SIZE);
    assert_eq!(Matcher::BlkIo(blk_io).encode(), blk_io.encode());
    assert_eq!(Matcher::BlkIo(blk_io).encode().len(), BLK_IO_RECORD_SIZE);
}

#[test]
fn injector_encodes_the_descriptor_it_holds() {
    let delay = Delay { delay: 250 };
    assert_eq!(Injector::Delay(delay).encode(), delay.encode());
    assert_eq!(Injector::Delay(delay).encode().len(), DELAY_RECORD_SIZE);
}

#[test]
fn encoding_twice_gives_identical_records() {
    let matcher = Matcher::FsSyscall(FsSyscall { pid: 99, syscall: 0x8000_0000_0000_0001 });
    assert_eq!(matcher.encode(), matcher.encode());
    let other = Matcher::BlkIo(BlkIo { dev: 17 });
    assert_eq!(other.encode(), other.encode());
    let injector = Injector::Delay(Delay { delay: 123_456_789 });
    assert_eq!(injector.encode(), injector.encode());
}

#[test]
fn different_descriptors_have_different_records() {
    let a = Matcher::FsSyscall(FsSyscall { pid: 1, syscall: 2 });
    let b = Matcher::FsSyscall(FsSyscall { pid: 2, syscall: 1 });
    let c = Matcher::BlkIo(BlkIo { dev: 1 });
    assert_ne!(a.encode(), b.encode());
    assert_ne!(a.encode(), c.encode());
    assert_ne!(
        Injector::Delay(Delay { delay: 1 }).encode(),
        Injector::Delay(Delay { delay: 256 }).encode()
    );
}
