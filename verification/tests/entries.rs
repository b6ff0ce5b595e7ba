use uring_operator::{Interval, Request, SqEntry};

const SPAN: Interval = Interval { sec: 3, nsec: 7 };

fn requests() -> Vec<(Request, u8)> {
    vec![
        (Request::EpollCtl { epfd: 1, fd: 2, op: 3, event: 64 }, 29),
        (Request::Timeout { interval: SPAN }, 11),
        (Request::TimeoutUpdate { target: 5, interval: SPAN }, 12),
        (Request::TimeoutRemove { target: 5 }, 12),
        (Request::OpenAt { dir_fd: 1, pathname: 64, flags: 0, mode: 0 }, 18),
        (Request::Fsync { fd: 1 }, 3),
        (Request::Accept { fd: 1, address: 64, address_len: 72, flags: 0 }, 13),
        (Request::Connect { fd: 1, address: 64, len: 16 }, 16),
        (Request::Recv { fd: 1, buf: 64, len: 8, flags: 0 }, 27),
        (Request::Read { fd: 1, buf: 64, len: 8, offset: 0 }, 22),
        (Request::Readv { fd: 1, iov: 64, len: 8, offset: 0 }, 1),
        (Request::RecvMsg { fd: 1, msg: 64, msg_flags: 0 }, 10),
        (Request::Send { fd: 1, buf: 64, len: 8, flags: 0 }, 26),
        (Request::Write { fd: 1, buf: 64, len: 8, offset: 0 }, 23),
        (Request::Writev { fd: 1, iov: 64, len: 8, offset: 0 }, 2),
        (Request::SendMsg { fd: 1, msg: 64, msg_flags: 0 }, 9),
    ]
}

#[test]
fn entries_carry_the_code_and_the_user_data() {
    for (request, code) in requests() {
        assert_eq!(request.operation().code(), code);
        let entry = SqEntry { request, user_data: 77 }.build(4096);
        assert_eq!(entry.get_user_data(), 77);
        assert_eq!(
            format!("{:?}", entry),
            format!("Entry {{ op_code: {}, flags: 0, user_data: 77 }}", code)
        );
    }
}

#[test]
fn an_entry_without_user_data_has_zero() {
    let entry = SqEntry {
        request: Request::TimeoutRemove { target: 5 },
        user_data: 0,
    };
    assert_eq!(entry.build(0).get_user_data(), 0);
}

#[test]
fn only_timeouts_have_a_time_span() {
    for (request, code) in requests() {
        let entry = SqEntry { request, user_data: 1 };
        let has_span = matches!(
            request,
            Request::Timeout { .. } | Request::TimeoutUpdate { .. }
        );
        assert_eq!(entry.timespec().is_some(), has_span, "operation {}", code);
    }
}

#[test]
fn time_spans_hold_seconds_and_nanoseconds() {
    let entry = SqEntry {
        request: Request::Timeout { interval: SPAN },
        user_data: 1,
    };
    let text = format!("{:?}", entry.timespec());
    assert!(text.contains("tv_sec: 3"), "{}", text);
    assert!(text.contains("tv_nsec: 7"), "{}", text);
}

#[test]
fn seconds_beyond_the_signed_range_turn_negative() {
    let interval = Interval { sec: u64::MAX, nsec: 999_999_999 };
    let entry = SqEntry {
        request: Request::TimeoutUpdate { target: 1, interval },
        user_data: 1,
    };
    let text = format!("{:?}", entry.timespec());
    assert!(text.contains("tv_sec: -1"), "{}", text);
    assert!(text.contains("tv_nsec: 999999999"), "{}", text);
}
