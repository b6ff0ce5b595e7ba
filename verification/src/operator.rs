//! The operator: what it queues for each call, and what it keeps back.

use crate::backlog;
use crate::backlog::Stolen;
use crate::bits;
use crate::request::{Interval, Request, SqEntry};
use crate::support::{Operation, Support};
use crossbeam_deque::Injector;
use libc::{c_int, mode_t, off_t, size_t, socklen_t};
use std::time::Duration;
use vstd::prelude::*;

verus! {

/// Why a call queues nothing.
#[derive(Clone, Copy, Debug, PartialEq, Eq)]
pub enum Error {
    /// The kernel has no io_uring, or does not accept the operation.
    Unsupported,
}

impl Error {
    /// What the error says.
    pub fn message(&self) -> (message: &'static str)
        ensures
            message@ == "unsupported"@,
    {
        match self {
            Error::Unsupported => "unsupported",
        }
    }
}

/// How the ring is to be set up.
#[derive(Clone, Copy, Debug, PartialEq, Eq)]
pub struct RingConfig {
    /// How many entries the submission queue holds.
    pub entries: u32,
    /// After how many idle milliseconds the kernel's polling thread sleeps.
    pub sqpoll_idle: u32,
    /// The processor that the kernel's polling thread is bound to.
    pub sqpoll_cpu: u32,
}

impl RingConfig {
    /// A ring of 1024 entries whose polling thread runs on the given processor and
    /// sleeps after a second without work.
    pub fn polled(cpu: u32) -> (config: RingConfig)
        ensures
            config == (RingConfig { entries: 1024, sqpoll_idle: 1000, sqpoll_cpu: cpu }),
    {
        RingConfig { entries: 1024, sqpoll_idle: 1000, sqpoll_cpu: cpu }
    }
}

/// Decides what is handed to a ring. The ring itself is held elsewhere: a call
/// such as `read` gives the entry to queue, and `push_sq` is told whether the
/// ring took it. An entry that the ring did not take waits in the backlog, which
/// `select` works off.
pub struct IoUringOperator {
    config: RingConfig,
    support: Support,
    backlog: Injector<SqEntry>,
}

/// What an operator holds; the backlog has its oldest entry in front.
pub struct OperatorView {
    pub config: RingConfig,
    pub support: Support,
    pub backlog: Seq<SqEntry>,
}

impl View for IoUringOperator {
    type V = OperatorView;

    closed spec fn view(&self) -> OperatorView {
        OperatorView {
            config: self.config,
            support: self.support,
            backlog: backlog::waiting(self.backlog),
        }
    }
}

/// A backlog after the ring was offered an entry: unchanged where the ring took
/// it, and otherwise with the entry at the back.
pub open spec fn offered(backlog: Seq<SqEntry>, entry: SqEntry, taken: bool) -> Seq<SqEntry> {
    if taken {
        backlog
    } else {
        backlog.push(entry)
    }
}

/// What a call gives: the entry of its request where the operation is granted,
/// and otherwise the error.
pub open spec fn granted(support: Support, request: Request, user_data: usize) -> Result<
    SqEntry,
    Error,
> {
    if support.grants(request.asks_for()) {
        Ok(SqEntry { request, user_data: user_data as u64 })
    } else {
        Err(Error::Unsupported)
    }
}

/// What adding a timeout gives. Without a span there is nothing to queue, and
/// that is no error whatever the kernel accepts.
pub open spec fn timer_added(
    support: Support,
    user_data: usize,
    interval: Option<Interval>,
) -> Result<Option<SqEntry>, Error> {
    match interval {
        None => Ok(None),
        Some(interval) => match granted(support, Request::Timeout { interval }, user_data) {
            Ok(entry) => Ok(Some(entry)),
            Err(error) => Err(error),
        },
    }
}

/// What removing a timeout gives: a request that names the timeout, and whose
/// own completion carries no user data.
pub open spec fn timer_removed(support: Support, user_data: usize) -> Result<SqEntry, Error> {
    granted(support, Request::TimeoutRemove { target: user_data as u64 }, 0)
}

/// What changing a timeout gives: a request with the new span under the same
/// user data, or, without a span, the removal of the timeout.
pub open spec fn timer_updated(
    support: Support,
    user_data: usize,
    interval: Option<Interval>,
) -> Result<SqEntry, Error> {
    match interval {
        Some(interval) => granted(
            support,
            Request::TimeoutUpdate { target: user_data as u64, interval },
            user_data,
        ),
        None => timer_removed(support, user_data),
    }
}

impl IoUringOperator {
    /// An operator with an empty backlog, for a ring of 1024 entries that is
    /// polled by a kernel thread on the given processor.
    pub fn new(cpu: u32, support: Support) -> (operator: IoUringOperator)
        ensures
            operator@.config == (RingConfig { entries: 1024, sqpoll_idle: 1000, sqpoll_cpu: cpu }),
            operator@.support == support,
            operator@.backlog == Seq::<SqEntry>::empty(),
    {
        IoUringOperator {
            config: RingConfig::polled(cpu),
            support,
            backlog: backlog::new_queue(),
        }
    }

    /// How the ring is to be set up.
    pub fn config(&self) -> (config: RingConfig)
        ensures
            config == self@.config,
    {
        self.config
    }

    /// What is known of the kernel.
    pub fn support(&self) -> (support: Support)
        ensures
            support == self@.support,
    {
        self.support
    }

    /// Whether no entry waits for room in the ring.
    pub fn is_backlog_empty(&self) -> (empty: bool)
        ensures
            empty == (self@.backlog.len() == 0),
    {
        backlog::is_empty(&self.backlog)
    }

    /// How the backlog shows in diagnostics: what kind of queue it is, without its
    /// entries.
    pub fn backlog_text(&self) -> (text: String)
        ensures
            text@ == "Injector { .. }"@,
    {
        backlog::text(&self.backlog)
    }

    /// Takes note of whether the ring took an entry. One that it did not take
    /// goes to the back of the backlog.
    pub fn push_sq(&mut self, entry: SqEntry, taken: bool)
        ensures
            final(self)@.config == old(self)@.config,
            final(self)@.support == old(self)@.support,
            final(self)@.backlog == offered(old(self)@.backlog, entry, taken),
            taken ==> final(self)@.backlog == old(self)@.backlog,
            !taken ==> final(self)@.backlog == old(self)@.backlog.push(entry),
    {
        if !taken {
            backlog::push_back(&mut self.backlog, entry);
        }
    }

    /// Tries to take the oldest entry out of the backlog.
    pub fn steal(&mut self) -> (stolen: Stolen)
        ensures
            final(self)@.config == old(self)@.config,
            final(self)@.support == old(self)@.support,
            backlog::may_steal(old(self)@.backlog, stolen, final(self)@.backlog),
    {
        backlog::steal_front(&mut self.backlog)
    }

    /// The entry of a request where the operation is granted.
    fn grant(&self, request: Request, user_data: usize) -> (queued: Result<SqEntry, Error>)
        ensures
            queued == granted(self@.support, request, user_data),
    {
        if self.support.supports(request.operation()) {
            Ok(SqEntry { request, user_data: user_data as u64 })
        } else {
            Err(Error::Unsupported)
        }
    }

    /// Changes what an epoll instance watches; `event` is the address of the event.
    pub fn epoll_ctl(
        &self,
        user_data: usize,
        epfd: c_int,
        op: c_int,
        fd: c_int,
        event: usize,
    ) -> (queued: Result<SqEntry, Error>)
        ensures
            queued == granted(
                self@.support,
                Request::epoll_ctl(epfd, op, fd, event),
                user_data,
            ),
    {
        self.grant(Request::EpollCtl { epfd, fd, op, event }, user_data)
    }

    /// Adds a timeout that completes with `user_data` when the duration has
    /// passed. Without a duration nothing is queued.
    pub fn timeout_add(&self, user_data: usize, timeout: Option<Duration>) -> (queued: Result<
        Option<SqEntry>,
        Error,
    >)
        ensures
            queued == timer_added(self@.support, user_data, Interval::spans_opt(timeout)),
            queued matches Ok(Some(entry)) ==> entry.request->Timeout_interval.nsec
                < 1_000_000_000,
            timeout is None ==> queued == Ok::<Option<SqEntry>, Error>(None),
            queued is Err <==> timeout is Some && !(self@.support.has_kernel()
                && self@.support.answered(Operation::Timeout)),
            queued matches Ok(Some(entry)) ==> timeout is Some && entry.user_data == user_data
                && entry.request is Timeout && entry.request->Timeout_interval.sec
                == crate::request::duration_secs(timeout->0)
                && entry.request->Timeout_interval.nsec == crate::request::duration_nanos(
                timeout->0,
            ),
    {
        self.arm_timer(user_data, Interval::of_opt(timeout))
    }

    /// Adds a timeout, its span given in seconds and nanoseconds.
    pub fn arm_timer(&self, user_data: usize, interval: Option<Interval>) -> (queued: Result<
        Option<SqEntry>,
        Error,
    >)
        ensures
            queued == timer_added(self@.support, user_data, interval),
    {
        match interval {
            Some(interval) => match self.grant(Request::Timeout { interval }, user_data) {
                Ok(entry) => Ok(Some(entry)),
                Err(error) => Err(error),
            },
            None => Ok(None),
        }
    }

    /// Gives the timeout that was added under `user_data` a new duration, or
    /// removes it where there is none.
    pub fn timeout_update(&self, user_data: usize, timeout: Option<Duration>) -> (queued: Result<
        SqEntry,
        Error,
    >)
        ensures
            queued == timer_updated(self@.support, user_data, Interval::spans_opt(timeout)),
            timeout is Some ==> (queued matches Ok(entry)
                ==> entry.request->TimeoutUpdate_interval.nsec < 1_000_000_000),
            queued is Ok <==> self@.support.has_kernel() && self@.support.answered(
                if timeout is Some {
                    Operation::TimeoutUpdate
                } else {
                    Operation::TimeoutRemove
                },
            ),
            timeout is Some ==> (queued matches Ok(entry) ==> entry.user_data == user_data
                && entry.request is TimeoutUpdate && entry.request->TimeoutUpdate_target
                == user_data && entry.request->TimeoutUpdate_interval.sec
                == crate::request::duration_secs(timeout->0)
                && entry.request->TimeoutUpdate_interval.nsec == crate::request::duration_nanos(
                timeout->0,
            )),
            timeout is None ==> (queued matches Ok(entry) ==> entry.user_data == 0
                && entry.request == (Request::TimeoutRemove { target: user_data as u64 })),
    {
        self.rearm_timer(user_data, Interval::of_opt(timeout))
    }

    /// Gives a timeout a new span, in seconds and nanoseconds, or removes it.
    pub fn rearm_timer(&self, user_data: usize, interval: Option<Interval>) -> (queued: Result<
        SqEntry,
        Error,
    >)
        ensures
            queued == timer_updated(self@.support, user_data, interval),
    {
        match interval {
            Some(interval) => self.grant(
                Request::TimeoutUpdate { target: user_data as u64, interval },
                user_data,
            ),
            None => self.timeout_remove(user_data),
        }
    }

    /// Removes the timeout that was added under `user_data`.
    pub fn timeout_remove(&self, user_data: usize) -> (queued: Result<SqEntry, Error>)
        ensures
            queued == timer_removed(self@.support, user_data),
    {
        self.grant(Request::TimeoutRemove { target: user_data as u64 }, 0)
    }

    /// Opens the file whose name stands at the address `pathname`.
    pub fn openat(
        &self,
        user_data: usize,
        dir_fd: c_int,
        pathname: usize,
        flags: c_int,
        mode: mode_t,
    ) -> (queued: Result<SqEntry, Error>)
        ensures
            queued == granted(
                self@.support,
                Request::openat(dir_fd, pathname, flags, mode),
                user_data,
            ),
    {
        self.grant(Request::OpenAt { dir_fd, pathname, flags, mode }, user_data)
    }

    /// Flushes a file.
    pub fn fsync(
        &self,
        user_data: usize,
        fd: c_int,
    ) -> (queued: Result<SqEntry, Error>)
        ensures
            queued == granted(self@.support, Request::fsync(fd), user_data),
    {
        self.grant(Request::Fsync { fd }, user_data)
    }

    /// Accepts a connection; the two addresses say where the peer and its length go.
    pub fn accept(
        &self,
        user_data: usize,
        socket: c_int,
        address: usize,
        address_len: usize,
    ) -> (queued: Result<SqEntry, Error>)
        ensures
            queued == granted(
                self@.support,
                Request::accept(socket, address, address_len),
                user_data,
            ),
    {
        self.grant(Request::Accept { fd: socket, address, address_len, flags: 0 }, user_data)
    }

    /// Accepts a connection with flags for the new socket.
    pub fn accept4(
        &self,
        user_data: usize,
        fd: c_int,
        addr: usize,
        len: usize,
        flg: c_int,
    ) -> (queued: Result<SqEntry, Error>)
        ensures
            queued == granted(self@.support, Request::accept4(fd, addr, len, flg), user_data),
    {
        self.grant(Request::Accept { fd, address: addr, address_len: len, flags: flg }, user_data)
    }

    /// Connects a socket to the peer that stands at `address`.
    pub fn connect(
        &self,
        user_data: usize,
        socket: c_int,
        address: usize,
        len: socklen_t,
    ) -> (queued: Result<SqEntry, Error>)
        ensures
            queued == granted(self@.support, Request::connect(socket, address, len), user_data),
    {
        self.grant(Request::Connect { fd: socket, address, len }, user_data)
    }

    /// Receives from a socket into the memory at `buf`.
    pub fn recv(
        &self,
        user_data: usize,
        socket: c_int,
        buf: usize,
        len: size_t,
        flags: c_int,
    ) -> (queued: Result<SqEntry, Error>)
        ensures
            queued == granted(self@.support, Request::recv(socket, buf, len, flags), user_data),
    {
        self.grant(Request::Recv { fd: socket, buf, len: bits::length_u32(len), flags }, user_data)
    }

    /// Reads from the start of a file into the memory at `buf`.
    pub fn read(
        &self,
        user_data: usize,
        fd: c_int,
        buf: usize,
        count: size_t,
    ) -> (queued: Result<SqEntry, Error>)
        ensures
            queued == granted(self@.support, Request::read(fd, buf, count), user_data),
    {
        self.grant(Request::Read { fd, buf, len: bits::length_u32(count), offset: 0 }, user_data)
    }

    /// Reads from a file at an offset into the memory at `buf`.
    pub fn pread(
        &self,
        user_data: usize,
        fd: c_int,
        buf: usize,
        count: size_t,
        offset: off_t,
    ) -> (queued: Result<SqEntry, Error>)
        ensures
            queued == granted(self@.support, Request::pread(fd, buf, count, offset), user_data),
    {
        self.grant(
            Request::Read {
                fd,
                buf,
                len: bits::length_u32(count),
                offset: bits::offset_u64(offset),
            },
            user_data,
        )
    }

    /// Reads from the start of a file into the buffers listed at `iov`.
    pub fn readv(
        &self,
        user_data: usize,
        fd: c_int,
        iov: usize,
        iovcnt: c_int,
    ) -> (queued: Result<SqEntry, Error>)
        ensures
            queued == granted(self@.support, Request::readv(fd, iov, iovcnt), user_data),
    {
        self.grant(Request::Readv { fd, iov, len: bits::number_u32(iovcnt), offset: 0 }, user_data)
    }

    /// Reads from a file at an offset into the buffers listed at `iov`.
    pub fn preadv(
        &self,
        user_data: usize,
        fd: c_int,
        iov: usize,
        iovcnt: c_int,
        offset: off_t,
    ) -> (queued: Result<SqEntry, Error>)
        ensures
            queued == granted(
                self@.support,
                Request::preadv(fd, iov, iovcnt, offset),
                user_data,
            ),
    {
        self.grant(
            Request::Readv {
                fd,
                iov,
                len: bits::number_u32(iovcnt),
                offset: bits::offset_u64(offset),
            },
            user_data,
        )
    }

    /// Receives a message as the header at `msg` says.
    pub fn recvmsg(
        &self,
        user_data: usize,
        fd: c_int,
        msg: usize,
        flags: c_int,
    ) -> (queued: Result<SqEntry, Error>)
        ensures
            queued == granted(self@.support, Request::recvmsg(fd, msg, flags), user_data),
    {
        self.grant(Request::RecvMsg { fd, msg, msg_flags: bits::number_u32(flags) }, user_data)
    }

    /// Sends the memory at `buf` to a socket.
    pub fn send(
        &self,
        user_data: usize,
        socket: c_int,
        buf: usize,
        len: size_t,
        flags: c_int,
    ) -> (queued: Result<SqEntry, Error>)
        ensures
            queued == granted(self@.support, Request::send(socket, buf, len, flags), user_data),
    {
        self.grant(Request::Send { fd: socket, buf, len: bits::length_u32(len), flags }, user_data)
    }

    /// Writes the memory at `buf` to the start of a file.
    pub fn write(
        &self,
        user_data: usize,
        fd: c_int,
        buf: usize,
        count: size_t,
    ) -> (queued: Result<SqEntry, Error>)
        ensures
            queued == granted(self@.support, Request::write(fd, buf, count), user_data),
    {
        self.grant(Request::Write { fd, buf, len: bits::length_u32(count), offset: 0 }, user_data)
    }

    /// Writes the memory at `buf` to a file at an offset.
    pub fn pwrite(
        &self,
        user_data: usize,
        fd: c_int,
        buf: usize,
        count: size_t,
        offset: off_t,
    ) -> (queued: Result<SqEntry, Error>)
        ensures
            queued == granted(
                self@.support,
                Request::pwrite(fd, buf, count, offset),
                user_data,
            ),
    {
        self.grant(
            Request::Write {
                fd,
                buf,
                len: bits::length_u32(count),
                offset: bits::offset_u64(offset),
            },
            user_data,
        )
    }

    /// Writes the buffers listed at `iov` to the start of a file.
    pub fn writev(
        &self,
        user_data: usize,
        fd: c_int,
        iov: usize,
        iovcnt: c_int,
    ) -> (queued: Result<SqEntry, Error>)
        ensures
            queued == granted(self@.support, Request::writev(fd, iov, iovcnt), user_data),
    {
        self.grant(Request::Writev { fd, iov, len: bits::number_u32(iovcnt), offset: 0 }, user_data)
    }

    /// Writes the buffers listed at `iov` to a file at an offset.
    pub fn pwritev(
        &self,
        user_data: usize,
        fd: c_int,
        iov: usize,
        iovcnt: c_int,
        offset: off_t,
    ) -> (queued: Result<SqEntry, Error>)
        ensures
            queued == granted(
                self@.support,
                Request::pwritev(fd, iov, iovcnt, offset),
                user_data,
            ),
    {
        self.grant(
            Request::Writev {
                fd,
                iov,
                len: bits::number_u32(iovcnt),
                offset: bits::offset_u64(offset),
            },
            user_data,
        )
    }

    /// Sends the message that the header at `msg` describes.
    pub fn sendmsg(
        &self,
        user_data: usize,
        fd: c_int,
        msg: usize,
        flags: c_int,
    ) -> (queued: Result<SqEntry, Error>)
        ensures
            queued == granted(self@.support, Request::sendmsg(fd, msg, flags), user_data),
    {
        self.grant(Request::SendMsg { fd, msg, msg_flags: bits::number_u32(flags) }, user_data)
    }
}

} // verus!
