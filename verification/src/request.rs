//! What is asked of the kernel, as plain values.

use crate::sqe;
use crate::sqe::Sqe;
use crate::support::Operation;
use io_uring::squeue::Entry;
use io_uring::types::Timespec;
use libc::{c_int, mode_t, off_t, size_t, socklen_t};
use std::time::Duration;
use vstd::prelude::*;

verus! {

/// The whole seconds of a span.
pub uninterp spec fn duration_secs(duration: Duration) -> u64;

/// The part of a span below one second, in nanoseconds.
pub uninterp spec fn duration_nanos(duration: Duration) -> u32;

/// `Duration::as_secs` returns the whole seconds of the span.
pub assume_specification[ std::time::Duration::as_secs ](duration: &Duration) -> (secs: u64)
    ensures
        secs == duration_secs(*duration),
;

/// `Duration::subsec_nanos` returns the part of the span below one second, in
/// nanoseconds; it is always less than a billion.
pub assume_specification[ std::time::Duration::subsec_nanos ](duration: &Duration) -> (nanos: u32)
    ensures
        nanos == duration_nanos(*duration),
        nanos < 1_000_000_000,
;

/// A span of time: whole seconds, and nanoseconds below one second.
#[derive(Clone, Copy, Debug, PartialEq, Eq)]
pub struct Interval {
    pub sec: u64,
    pub nsec: u32,
}

impl Interval {
    /// The seconds and nanoseconds of a duration.
    pub open spec fn spans(duration: Duration) -> Interval {
        Interval { sec: duration_secs(duration), nsec: duration_nanos(duration) }
    }

    /// The seconds and nanoseconds of a duration, where there is one.
    pub open spec fn spans_opt(timeout: Option<Duration>) -> Option<Interval> {
        match timeout {
            Some(duration) => Some(Interval::spans(duration)),
            None => None,
        }
    }

    /// The seconds and nanoseconds of a duration.
    pub fn of(duration: Duration) -> (interval: Interval)
        ensures
            interval == Interval::spans(duration),
            interval.sec == duration_secs(duration),
            interval.nsec == duration_nanos(duration),
            interval.nsec < 1_000_000_000,
    {
        Interval { sec: duration.as_secs(), nsec: duration.subsec_nanos() }
    }

    /// The seconds and nanoseconds of a duration, where there is one.
    pub fn of_opt(timeout: Option<Duration>) -> (interval: Option<Interval>)
        ensures
            interval == Interval::spans_opt(timeout),
            interval matches Some(span) ==> span.nsec < 1_000_000_000,
            interval is Some <==> timeout is Some,
            interval matches Some(span) ==> span.sec == duration_secs(timeout->0) && span.nsec
                == duration_nanos(timeout->0),
    {
        match timeout {
            Some(duration) => Some(Interval::of(duration)),
            None => None,
        }
    }
}

/// One request to the kernel. Memory is given by its address.
#[derive(Clone, Copy, Debug, PartialEq, Eq)]
pub enum Request {
    /// Change what an epoll instance watches.
    EpollCtl { epfd: i32, fd: i32, op: i32, event: usize },
    /// Post a completion when a span has passed.
    Timeout { interval: Interval },
    /// Give the timeout that was queued under `target` a new span.
    TimeoutUpdate { target: u64, interval: Interval },
    /// Withdraw the timeout that was queued under `target`.
    TimeoutRemove { target: u64 },
    /// Open a file.
    OpenAt { dir_fd: i32, pathname: usize, flags: i32, mode: u32 },
    /// Flush a file.
    Fsync { fd: i32 },
    /// Accept a connection.
    Accept { fd: i32, address: usize, address_len: usize, flags: i32 },
    /// Connect a socket.
    Connect { fd: i32, address: usize, len: u32 },
    /// Receive from a socket.
    Recv { fd: i32, buf: usize, len: u32, flags: i32 },
    /// Read from a file at an offset.
    Read { fd: i32, buf: usize, len: u32, offset: u64 },
    /// Read from a file at an offset into several buffers.
    Readv { fd: i32, iov: usize, len: u32, offset: u64 },
    /// Receive a message from a socket.
    RecvMsg { fd: i32, msg: usize, msg_flags: u32 },
    /// Send to a socket.
    Send { fd: i32, buf: usize, len: u32, flags: i32 },
    /// Write to a file at an offset.
    Write { fd: i32, buf: usize, len: u32, offset: u64 },
    /// Write to a file at an offset out of several buffers.
    Writev { fd: i32, iov: usize, len: u32, offset: u64 },
    /// Send a message to a socket.
    SendMsg { fd: i32, msg: usize, msg_flags: u32 },
}

/// The requests that stand for the calls of the same names. A read or a write
/// without an offset is one at offset zero, and an accept without flags is one
/// with no flag set.
impl Request {
    pub open spec fn epoll_ctl(epfd: c_int, op: c_int, fd: c_int, event: usize) -> Request {
        Request::EpollCtl { epfd, fd, op, event }
    }

    pub open spec fn openat(dir_fd: c_int, pathname: usize, flags: c_int, mode: mode_t) -> Request {
        Request::OpenAt { dir_fd, pathname, flags, mode }
    }

    pub open spec fn fsync(fd: c_int) -> Request {
        Request::Fsync { fd }
    }

    pub open spec fn accept(fd: c_int, address: usize, address_len: usize) -> Request {
        Request::Accept { fd, address, address_len, flags: 0 }
    }

    pub open spec fn accept4(
        fd: c_int,
        address: usize,
        address_len: usize,
        flags: c_int,
    ) -> Request {
        Request::Accept { fd, address, address_len, flags }
    }

    pub open spec fn connect(fd: c_int, address: usize, len: socklen_t) -> Request {
        Request::Connect { fd, address, len }
    }

    pub open spec fn recv(fd: c_int, buf: usize, len: size_t, flags: c_int) -> Request {
        Request::Recv { fd, buf, len: crate::bits::low_u32(len), flags }
    }

    pub open spec fn read(fd: c_int, buf: usize, count: size_t) -> Request {
        Request::Read { fd, buf, len: crate::bits::low_u32(count), offset: 0 }
    }

    pub open spec fn pread(fd: c_int, buf: usize, count: size_t, offset: off_t) -> Request {
        Request::Read {
            fd,
            buf,
            len: crate::bits::low_u32(count),
            offset: crate::bits::bits_u64(offset),
        }
    }

    pub open spec fn readv(fd: c_int, iov: usize, iovcnt: c_int) -> Request {
        Request::Readv { fd, iov, len: crate::bits::bits_u32(iovcnt), offset: 0 }
    }

    pub open spec fn preadv(fd: c_int, iov: usize, iovcnt: c_int, offset: off_t) -> Request {
        Request::Readv {
            fd,
            iov,
            len: crate::bits::bits_u32(iovcnt),
            offset: crate::bits::bits_u64(offset),
        }
    }

    pub open spec fn recvmsg(fd: c_int, msg: usize, flags: c_int) -> Request {
        Request::RecvMsg { fd, msg, msg_flags: crate::bits::bits_u32(flags) }
    }

    pub open spec fn send(fd: c_int, buf: usize, len: size_t, flags: c_int) -> Request {
        Request::Send { fd, buf, len: crate::bits::low_u32(len), flags }
    }

    pub open spec fn write(fd: c_int, buf: usize, count: size_t) -> Request {
        Request::Write { fd, buf, len: crate::bits::low_u32(count), offset: 0 }
    }

    pub open spec fn pwrite(fd: c_int, buf: usize, count: size_t, offset: off_t) -> Request {
        Request::Write {
            fd,
            buf,
            len: crate::bits::low_u32(count),
            offset: crate::bits::bits_u64(offset),
        }
    }

    pub open spec fn writev(fd: c_int, iov: usize, iovcnt: c_int) -> Request {
        Request::Writev { fd, iov, len: crate::bits::bits_u32(iovcnt), offset: 0 }
    }

    pub open spec fn pwritev(fd: c_int, iov: usize, iovcnt: c_int, offset: off_t) -> Request {
        Request::Writev {
            fd,
            iov,
            len: crate::bits::bits_u32(iovcnt),
            offset: crate::bits::bits_u64(offset),
        }
    }

    pub open spec fn sendmsg(fd: c_int, msg: usize, flags: c_int) -> Request {
        Request::SendMsg { fd, msg, msg_flags: crate::bits::bits_u32(flags) }
    }
}

impl Request {
    /// The operation that the request asks for.
    pub open spec fn asks_for(self) -> Operation {
        match self {
            Request::EpollCtl { .. } => Operation::EpollCtl,
            Request::Timeout { .. } => Operation::Timeout,
            Request::TimeoutUpdate { .. } => Operation::TimeoutUpdate,
            Request::TimeoutRemove { .. } => Operation::TimeoutRemove,
            Request::OpenAt { .. } => Operation::OpenAt,
            Request::Fsync { .. } => Operation::Fsync,
            Request::Accept { .. } => Operation::Accept,
            Request::Connect { .. } => Operation::Connect,
            Request::Recv { .. } => Operation::Recv,
            Request::Read { .. } => Operation::Read,
            Request::Readv { .. } => Operation::Readv,
            Request::RecvMsg { .. } => Operation::RecvMsg,
            Request::Send { .. } => Operation::Send,
            Request::Write { .. } => Operation::Write,
            Request::Writev { .. } => Operation::Writev,
            Request::SendMsg { .. } => Operation::SendMsg,
        }
    }

    /// The time span that the request speaks of, where it does.
    pub open spec fn spans(self) -> Option<Interval> {
        match self {
            Request::Timeout { interval } => Some(interval),
            Request::TimeoutUpdate { interval, .. } => Some(interval),
            _ => None,
        }
    }

    /// What the kernel reads for the request, user data aside. A request that
    /// speaks of a time span has its record at the address `timespec`; the
    /// others do not look at it.
    pub open spec fn sqe(self, timespec: usize) -> Sqe {
        match self {
            Request::EpollCtl { epfd, fd, op, event } => Sqe {
                off: sqe::sign_extended(fd),
                addr: event as u64,
                len: crate::bits::bits_u32(op),
                ..Sqe::blank(29, epfd)
            },
            Request::Timeout { .. } => Sqe {
                addr: timespec as u64,
                len: 1,
                ..Sqe::blank(11, sqe::NO_FD)
            },
            Request::TimeoutUpdate { target, .. } => Sqe {
                off: timespec as u64,
                addr: target,
                op_flags: 2,
                ..Sqe::blank(12, sqe::NO_FD)
            },
            Request::TimeoutRemove { target } => Sqe {
                addr: target,
                ..Sqe::blank(12, sqe::NO_FD)
            },
            Request::OpenAt { dir_fd, pathname, flags, mode } => Sqe {
                addr: pathname as u64,
                len: mode,
                op_flags: crate::bits::bits_u32(flags),
                ..Sqe::blank(18, dir_fd)
            },
            Request::Fsync { fd } => Sqe::blank(3, fd),
            Request::Accept { fd, address, address_len, flags } => Sqe {
                off: address_len as u64,
                addr: address as u64,
                op_flags: crate::bits::bits_u32(flags),
                ..Sqe::blank(13, fd)
            },
            Request::Connect { fd, address, len } => Sqe {
                off: len as u64,
                addr: address as u64,
                ..Sqe::blank(16, fd)
            },
            Request::Recv { fd, buf, len, flags } => Sqe {
                addr: buf as u64,
                len,
                op_flags: crate::bits::bits_u32(flags),
                ..Sqe::blank(27, fd)
            },
            Request::Read { fd, buf, len, offset } => Sqe {
                off: offset,
                addr: buf as u64,
                len,
                ..Sqe::blank(22, fd)
            },
            Request::Readv { fd, iov, len, offset } => Sqe {
                off: offset,
                addr: iov as u64,
                len,
                ..Sqe::blank(1, fd)
            },
            Request::RecvMsg { fd, msg, msg_flags } => Sqe {
                addr: msg as u64,
                len: 1,
                op_flags: msg_flags,
                ..Sqe::blank(10, fd)
            },
            Request::Send { fd, buf, len, flags } => Sqe {
                addr: buf as u64,
                len,
                op_flags: crate::bits::bits_u32(flags),
                ..Sqe::blank(26, fd)
            },
            Request::Write { fd, buf, len, offset } => Sqe {
                off: offset,
                addr: buf as u64,
                len,
                ..Sqe::blank(23, fd)
            },
            Request::Writev { fd, iov, len, offset } => Sqe {
                off: offset,
                addr: iov as u64,
                len,
                ..Sqe::blank(2, fd)
            },
            Request::SendMsg { fd, msg, msg_flags } => Sqe {
                addr: msg as u64,
                len: 1,
                op_flags: msg_flags,
                ..Sqe::blank(9, fd)
            },
        }
    }

    /// The operation that the request asks for.
    pub fn operation(&self) -> (operation: Operation)
        ensures
            operation == self.asks_for(),
    {
        match self {
            Request::EpollCtl { .. } => Operation::EpollCtl,
            Request::Timeout { .. } => Operation::Timeout,
            Request::TimeoutUpdate { .. } => Operation::TimeoutUpdate,
            Request::TimeoutRemove { .. } => Operation::TimeoutRemove,
            Request::OpenAt { .. } => Operation::OpenAt,
            Request::Fsync { .. } => Operation::Fsync,
            Request::Accept { .. } => Operation::Accept,
            Request::Connect { .. } => Operation::Connect,
            Request::Recv { .. } => Operation::Recv,
            Request::Read { .. } => Operation::Read,
            Request::Readv { .. } => Operation::Readv,
            Request::RecvMsg { .. } => Operation::RecvMsg,
            Request::Send { .. } => Operation::Send,
            Request::Write { .. } => Operation::Write,
            Request::Writev { .. } => Operation::Writev,
            Request::SendMsg { .. } => Operation::SendMsg,
        }
    }

    /// The entry of the request, with no user data. The address `timespec` is
    /// that of the request's time span, and is looked at only where there is one.
    fn build(&self, timespec: usize) -> (entry: Entry)
        ensures
            sqe::sqe_of(entry) == self.sqe(timespec),
    {
        match *self {
            Request::EpollCtl { epfd, fd, op, event } => {
                sqe::build_epoll_ctl(epfd, fd, op, event)
            },
            Request::Timeout { .. } => sqe::build_timeout(timespec),
            Request::TimeoutUpdate { target, .. } => sqe::build_timeout_update(target, timespec),
            Request::TimeoutRemove { target } => sqe::build_timeout_remove(target),
            Request::OpenAt { dir_fd, pathname, flags, mode } => {
                sqe::build_openat(dir_fd, pathname, flags, mode)
            },
            Request::Fsync { fd } => sqe::build_fsync(fd),
            Request::Accept { fd, address, address_len, flags } => {
                sqe::build_accept(fd, address, address_len, flags)
            },
            Request::Connect { fd, address, len } => sqe::build_connect(fd, address, len),
            Request::Recv { fd, buf, len, flags } => sqe::build_recv(fd, buf, len, flags),
            Request::Read { fd, buf, len, offset } => sqe::build_read(fd, buf, len, offset),
            Request::Readv { fd, iov, len, offset } => sqe::build_readv(fd, iov, len, offset),
            Request::RecvMsg { fd, msg, msg_flags } => sqe::build_recvmsg(fd, msg, msg_flags),
            Request::Send { fd, buf, len, flags } => sqe::build_send(fd, buf, len, flags),
            Request::Write { fd, buf, len, offset } => sqe::build_write(fd, buf, len, offset),
            Request::Writev { fd, iov, len, offset } => sqe::build_writev(fd, iov, len, offset),
            Request::SendMsg { fd, msg, msg_flags } => sqe::build_sendmsg(fd, msg, msg_flags),
        }
    }
}

/// A request together with the user data that its completion will carry.
#[derive(Clone, Copy, Debug, PartialEq, Eq)]
pub struct SqEntry {
    pub request: Request,
    pub user_data: u64,
}

impl SqEntry {
    /// What the kernel reads for the entry, with the request's time span, where
    /// it has one, at the address `timespec`.
    pub open spec fn sqe(self, timespec: usize) -> Sqe {
        Sqe { user_data: self.user_data, ..self.request.sqe(timespec) }
    }

    /// The kernel's record of the request's time span, where it has one. It must
    /// stand in memory from before the entry is queued until the kernel has read
    /// it.
    pub fn timespec(&self) -> (timespec: Option<Timespec>)
        ensures
            match self.request.spans() {
                Some(interval) => timespec is Some && sqe::timespec_of(timespec->0) == (
                    sqe::signed_secs(interval.sec),
                    interval.nsec as i64,
                ),
                None => timespec is None,
            },
    {
        match self.request {
            Request::Timeout { interval } => Some(sqe::build_timespec(interval.sec, interval.nsec)),
            Request::TimeoutUpdate { interval, .. } => Some(
                sqe::build_timespec(interval.sec, interval.nsec),
            ),
            _ => None,
        }
    }

    /// The submission queue entry to hand to the kernel. The address `timespec`
    /// is that of the record that `timespec` gives; an entry without a time span
    /// does not look at it.
    pub fn build(&self, timespec: usize) -> (entry: Entry)
        ensures
            sqe::sqe_of(entry) == self.sqe(timespec),
    {
        self.request.build(timespec).user_data(self.user_data)
    }
}

} // verus!
