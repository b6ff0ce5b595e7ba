use std::time::Duration;
use uring_operator::{Error, Interval, IoUringOperator, Operation, Request, RingConfig, SqEntry, Support};

fn everything() -> Support {
    Support::new(true)
        .with(Operation::OpenAt, true)
        .with(Operation::Fsync, true)
        .with(Operation::Timeout, true)
        .with(Operation::TimeoutUpdate, true)
        .with(Operation::TimeoutRemove, true)
        .with(Operation::EpollCtl, true)
        .with(Operation::Accept, true)
        .with(Operation::Connect, true)
        .with(Operation::Recv, true)
        .with(Operation::Read, true)
        .with(Operation::Readv, true)
        .with(Operation::RecvMsg, true)
        .with(Operation::Send, true)
        .with(Operation::Write, true)
        .with(Operation::Writev, true)
        .with(Operation::SendMsg, true)
}

fn operator() -> IoUringOperator {
    IoUringOperator::new(3, everything())
}

fn without(operation: Operation) -> IoUringOperator {
    IoUringOperator::new(3, everything().with(operation, false))
}

fn entry(request: Request, user_data: u64) -> Result<SqEntry, Error> {
    Ok(SqEntry { request, user_data })
}

#[test]
fn a_new_operator_is_empty() {
    let operator = operator();
    assert_eq!(
        operator.config(),
        RingConfig {
            entries: 1024,
            sqpoll_idle: 1000,
            sqpoll_cpu: 3
        }
    );
    assert_eq!(operator.config(), RingConfig::polled(3));
    assert_eq!(operator.support(), everything());
    assert!(operator.is_backlog_empty());
}

#[test]
fn the_error_says_unsupported() {
    assert_eq!(Error::Unsupported.message(), "unsupported");
}

#[test]
fn epoll_ctl_asks_for_the_change() {
    assert_eq!(
        operator().epoll_ctl(7, 4, 1, 5, 0x1000),
        entry(Request::EpollCtl { epfd: 4, fd: 5, op: 1, event: 0x1000 }, 7)
    );
    assert_eq!(
        without(Operation::EpollCtl).epoll_ctl(7, 4, 1, 5, 0x1000),
        Err(Error::Unsupported)
    );
}

#[test]
fn timeout_add_keeps_the_duration() {
    let interval = Interval { sec: 2, nsec: 500_000_000 };
    assert_eq!(
        operator().timeout_add(9, Some(Duration::from_millis(2500))),
        Ok(Some(SqEntry { request: Request::Timeout { interval }, user_data: 9 }))
    );
    assert_eq!(
        operator().arm_timer(9, Some(interval)),
        Ok(Some(SqEntry { request: Request::Timeout { interval }, user_data: 9 }))
    );
    assert_eq!(
        without(Operation::Timeout).timeout_add(9, Some(Duration::from_secs(1))),
        Err(Error::Unsupported)
    );
}

#[test]
fn timeout_add_without_duration_asks_nothing() {
    assert_eq!(operator().timeout_add(9, None), Ok(None));
    assert_eq!(without(Operation::Timeout).timeout_add(9, None), Ok(None));
    assert_eq!(
        IoUringOperator::new(0, Support::new(false)).timeout_add(9, None),
        Ok(None)
    );
}

#[test]
fn durations_split_into_seconds_and_nanoseconds() {
    assert_eq!(
        Interval::of(Duration::new(5, 999_999_999)),
        Interval { sec: 5, nsec: 999_999_999 }
    );
    assert_eq!(
        Interval::of(Duration::from_nanos(1_000_000_001)),
        Interval { sec: 1, nsec: 1 }
    );
    assert_eq!(
        Interval::of(Duration::MAX),
        Interval { sec: u64::MAX, nsec: 999_999_999 }
    );
    assert_eq!(Interval::of_opt(None), None);
}

#[test]
fn timeout_update_names_the_timeout() {
    let interval = Interval { sec: 0, nsec: 1_000_000 };
    assert_eq!(
        operator().timeout_update(9, Some(Duration::from_millis(1))),
        entry(Request::TimeoutUpdate { target: 9, interval }, 9)
    );
    assert_eq!(
        operator().rearm_timer(9, Some(interval)),
        entry(Request::TimeoutUpdate { target: 9, interval }, 9)
    );
    assert_eq!(
        without(Operation::TimeoutUpdate).timeout_update(9, Some(Duration::from_millis(1))),
        Err(Error::Unsupported)
    );
}

#[test]
fn timeout_update_without_duration_removes() {
    let operator = operator();
    assert_eq!(operator.timeout_update(9, None), operator.timeout_remove(9));
    assert_eq!(
        without(Operation::TimeoutRemove).timeout_update(9, None),
        Err(Error::Unsupported)
    );
    assert_eq!(
        without(Operation::TimeoutUpdate).timeout_update(9, None),
        entry(Request::TimeoutRemove { target: 9 }, 0)
    );
}

#[test]
fn timeout_remove_completes_without_user_data() {
    assert_eq!(
        operator().timeout_remove(9),
        entry(Request::TimeoutRemove { target: 9 }, 0)
    );
    assert_eq!(
        without(Operation::TimeoutRemove).timeout_remove(9),
        Err(Error::Unsupported)
    );
}

#[test]
fn openat_asks_for_the_file() {
    assert_eq!(
        operator().openat(1, -100, 0x2000, 0o101, 0o644),
        entry(
            Request::OpenAt { dir_fd: -100, pathname: 0x2000, flags: 0o101, mode: 0o644 },
            1
        )
    );
    assert_eq!(
        without(Operation::OpenAt).openat(1, -100, 0x2000, 0, 0),
        Err(Error::Unsupported)
    );
}

#[test]
fn fsync_asks_for_the_file() {
    assert_eq!(operator().fsync(2, 8), entry(Request::Fsync { fd: 8 }, 2));
    assert_eq!(without(Operation::Fsync).fsync(2, 8), Err(Error::Unsupported));
}

#[test]
fn accept_has_no_flags() {
    let operator = operator();
    assert_eq!(
        operator.accept(3, 6, 0x10, 0x20),
        entry(Request::Accept { fd: 6, address: 0x10, address_len: 0x20, flags: 0 }, 3)
    );
    assert_eq!(operator.accept(3, 6, 0x10, 0x20), operator.accept4(3, 6, 0x10, 0x20, 0));
    assert_eq!(
        operator.accept4(3, 6, 0x10, 0x20, 0o4000),
        entry(Request::Accept { fd: 6, address: 0x10, address_len: 0x20, flags: 0o4000 }, 3)
    );
    let refusing = without(Operation::Accept);
    assert_eq!(refusing.accept(3, 6, 0x10, 0x20), Err(Error::Unsupported));
    assert_eq!(refusing.accept4(3, 6, 0x10, 0x20, 1), Err(Error::Unsupported));
}

#[test]
fn connect_asks_for_the_peer() {
    assert_eq!(
        operator().connect(4, 6, 0x30, 16),
        entry(Request::Connect { fd: 6, address: 0x30, len: 16 }, 4)
    );
    assert_eq!(
        without(Operation::Connect).connect(4, 6, 0x30, 16),
        Err(Error::Unsupported)
    );
}

#[test]
fn recv_and_send_keep_their_flags() {
    assert_eq!(
        operator().recv(5, 6, 0x40, 128, -1),
        entry(Request::Recv { fd: 6, buf: 0x40, len: 128, flags: -1 }, 5)
    );
    assert_eq!(
        operator().send(5, 6, 0x40, 128, 0x4000),
        entry(Request::Send { fd: 6, buf: 0x40, len: 128, flags: 0x4000 }, 5)
    );
    assert_eq!(without(Operation::Recv).recv(5, 6, 0x40, 128, 0), Err(Error::Unsupported));
    assert_eq!(without(Operation::Send).send(5, 6, 0x40, 128, 0), Err(Error::Unsupported));
}

#[test]
fn reads_without_offset_are_at_zero() {
    let operator = operator();
    assert_eq!(
        operator.read(6, 5, 0x50, 4096),
        entry(Request::Read { fd: 5, buf: 0x50, len: 4096, offset: 0 }, 6)
    );
    assert_eq!(operator.read(6, 5, 0x50, 4096), operator.pread(6, 5, 0x50, 4096, 0));
    assert_eq!(
        operator.readv(6, 5, 0x60, 3),
        entry(Request::Readv { fd: 5, iov: 0x60, len: 3, offset: 0 }, 6)
    );
    assert_eq!(operator.readv(6, 5, 0x60, 3), operator.preadv(6, 5, 0x60, 3, 0));
}

#[test]
fn writes_without_offset_are_at_zero() {
    let operator = operator();
    assert_eq!(
        operator.write(6, 5, 0x50, 4096),
        entry(Request::Write { fd: 5, buf: 0x50, len: 4096, offset: 0 }, 6)
    );
    assert_eq!(operator.write(6, 5, 0x50, 4096), operator.pwrite(6, 5, 0x50, 4096, 0));
    assert_eq!(
        operator.writev(6, 5, 0x60, 3),
        entry(Request::Writev { fd: 5, iov: 0x60, len: 3, offset: 0 }, 6)
    );
    assert_eq!(operator.writev(6, 5, 0x60, 3), operator.pwritev(6, 5, 0x60, 3, 0));
}

#[test]
fn reads_and_writes_need_their_operation() {
    let refusing = without(Operation::Read);
    assert_eq!(refusing.read(6, 5, 0x50, 1), Err(Error::Unsupported));
    assert_eq!(refusing.pread(6, 5, 0x50, 1, 2), Err(Error::Unsupported));
    assert!(refusing.readv(6, 5, 0x50, 1).is_ok());
    let refusing = without(Operation::Readv);
    assert_eq!(refusing.readv(6, 5, 0x50, 1), Err(Error::Unsupported));
    assert_eq!(refusing.preadv(6, 5, 0x50, 1, 2), Err(Error::Unsupported));
    let refusing = without(Operation::Write);
    assert_eq!(refusing.write(6, 5, 0x50, 1), Err(Error::Unsupported));
    assert_eq!(refusing.pwrite(6, 5, 0x50, 1, 2), Err(Error::Unsupported));
    let refusing = without(Operation::Writev);
    assert_eq!(refusing.writev(6, 5, 0x50, 1), Err(Error::Unsupported));
    assert_eq!(refusing.pwritev(6, 5, 0x50, 1, 2), Err(Error::Unsupported));
}

#[test]
fn lengths_lose_what_does_not_fit() {
    let operator = operator();
    assert_eq!(
        operator.read(6, 5, 0x50, 0x1_0000_0005),
        entry(Request::Read { fd: 5, buf: 0x50, len: 5, offset: 0 }, 6)
    );
    assert_eq!(
        operator.send(6, 5, 0x50, 0xffff_ffff, 0),
        entry(Request::Send { fd: 5, buf: 0x50, len: u32::MAX, flags: 0 }, 6)
    );
}

#[test]
fn negative_numbers_keep_their_bits() {
    let operator = operator();
    assert_eq!(
        operator.pread(6, 5, 0x50, 1, -1),
        entry(Request::Read { fd: 5, buf: 0x50, len: 1, offset: u64::MAX }, 6)
    );
    assert_eq!(
        operator.pwritev(6, 5, 0x60, -2, i64::MIN),
        entry(Request::Writev { fd: 5, iov: 0x60, len: 0xffff_fffe, offset: 1 << 63 }, 6)
    );
    assert_eq!(
        operator.recvmsg(6, 5, 0x70, -1),
        entry(Request::RecvMsg { fd: 5, msg: 0x70, msg_flags: u32::MAX }, 6)
    );
}

#[test]
fn messages_keep_their_flags() {
    assert_eq!(
        operator().recvmsg(6, 5, 0x70, 2),
        entry(Request::RecvMsg { fd: 5, msg: 0x70, msg_flags: 2 }, 6)
    );
    assert_eq!(
        operator().sendmsg(6, 5, 0x70, 2),
        entry(Request::SendMsg { fd: 5, msg: 0x70, msg_flags: 2 }, 6)
    );
    assert_eq!(without(Operation::RecvMsg).recvmsg(6, 5, 0x70, 2), Err(Error::Unsupported));
    assert_eq!(without(Operation::SendMsg).sendmsg(6, 5, 0x70, 2), Err(Error::Unsupported));
}

#[test]
fn without_io_uring_every_call_is_refused() {
    let operator = IoUringOperator::new(0, Support::new(false).with(Operation::Read, true));
    assert_eq!(operator.read(1, 2, 3, 4), Err(Error::Unsupported));
    assert_eq!(operator.fsync(1, 2), Err(Error::Unsupported));
    assert_eq!(operator.timeout_remove(1), Err(Error::Unsupported));
    assert_eq!(
        operator.timeout_add(1, Some(Duration::from_secs(1))),
        Err(Error::Unsupported)
    );
}

#[test]
fn casts_are_exact() {
    assert_eq!(uring_operator::bits::length_u32(0x2_0000_0003), 3);
    assert_eq!(uring_operator::bits::number_u32(-1), u32::MAX);
    assert_eq!(uring_operator::bits::number_u32(i32::MAX), 0x7fff_ffff);
    assert_eq!(uring_operator::bits::offset_u64(-1), u64::MAX);
    assert_eq!(uring_operator::bits::offset_u64(4096), 4096);
}

#[test]
fn the_backlog_shows_without_its_entries() {
    let mut operator = operator();
    assert_eq!(operator.backlog_text(), "Injector { .. }");
    let entry = SqEntry { request: Request::Fsync { fd: 1 }, user_data: 2 };
    operator.push_sq(entry, false);
    assert!(!operator.is_backlog_empty());
    assert_eq!(operator.backlog_text(), "Injector { .. }");
}

#[test]
fn calls_for_one_operation_are_granted_together() {
    let granting = operator();
    let also_granting = IoUringOperator::new(9, everything());
    assert!(granting.read(1, 2, 3, 4).is_ok());
    assert!(also_granting.pread(5, -1, 0, 0, -7).is_ok());
    let refusing = without(Operation::Read);
    let also_refusing = without(Operation::Read);
    assert!(refusing.read(1, 2, 3, 4).is_err());
    assert!(also_refusing.pread(5, -1, 0, 0, -7).is_err());
}

#[test]
fn durations_never_ask_for_a_billion_nanoseconds() {
    let longest = Some(Duration::MAX);
    let interval = Interval { sec: u64::MAX, nsec: 999_999_999 };
    assert_eq!(
        operator().timeout_add(1, longest),
        Ok(Some(SqEntry { request: Request::Timeout { interval }, user_data: 1 }))
    );
    assert_eq!(
        operator().timeout_update(1, longest),
        entry(Request::TimeoutUpdate { target: 1, interval }, 1)
    );
}
