//! What the kernel reads for each call.
//!
//! Each law follows one call from its arguments to the record that is built of
//! the entry it gives. `built` is any entry of which `SqEntry::build` states that
//! it was built of the one given, with the time span, where there is one, at the
//! address `timespec`. A call is granted exactly when the kernel has io_uring and
//! accepts the call's operation; what is granted carries each argument into its
//! own field of the record.

use crate::operator::Error;
use crate::request::{Interval, Request, SqEntry};
use crate::sqe::Sqe;
use crate::support::{Operation, Support};
use io_uring::squeue::Entry;
use io_uring::types::Timespec;
use libc::{c_int, mode_t, off_t, size_t, socklen_t};
use std::time::Duration;
use vstd::prelude::*;

verus! {

/// The fields that no call sets.
pub open spec fn all_else_is_zero(record: Sqe) -> bool {
    &&& record.flags == 0
    &&& record.ioprio == 0
    &&& record.buf_group == 0
    &&& record.personality == 0
    &&& record.file_index == 0
    &&& record.addr3 == 0
}

/// Whether `built` is an entry that `SqEntry::build` may give.
pub open spec fn is_built_of(built: Entry, entry: SqEntry, timespec: usize) -> bool {
    crate::sqe::sqe_of(built) == entry.sqe(timespec)
}

/// `epoll_ctl`: the epoll instance is the descriptor, the watched descriptor stands
/// in `off`, the change in `len`, and the event at `addr`.
pub proof fn law_epoll_ctl(
    support: Support,
    user_data: usize,
    epfd: c_int,
    op: c_int,
    fd: c_int,
    event: usize,
    timespec: usize,
    built: Entry,
)
    ensures
        ({
            let queued = crate::operator::granted(
                support,
                Request::epoll_ctl(epfd, op, fd, event),
                user_data,
            );
            let record = crate::sqe::sqe_of(built);
            &&& queued is Ok <==> support.has_kernel() && support.answered(Operation::EpollCtl)
            &&& queued is Err ==> queued->Err_0 == Error::Unsupported
            &&& queued is Ok ==> queued->Ok_0.request == (Request::EpollCtl {
                epfd,
                fd,
                op,
                event,
            })
            &&& queued is Ok ==> queued->Ok_0.user_data == user_data
            &&& queued is Ok && is_built_of(built, queued->Ok_0, timespec) ==> {
                &&& record.opcode == 29
                &&& record.fd == epfd
                &&& record.off == fd as int % 0x1_0000_0000_0000_0000
                &&& record.addr == event
                &&& record.len == op as int % 0x1_0000_0000
                &&& record.op_flags == 0
                &&& record.user_data == user_data
                &&& all_else_is_zero(record)
            }
        }),
{
}

/// `openat`: the directory is the descriptor, the name stands at `addr`, and the
/// mode in `len`.
pub proof fn law_openat(
    support: Support,
    user_data: usize,
    dir_fd: c_int,
    pathname: usize,
    flags: c_int,
    mode: mode_t,
    timespec: usize,
    built: Entry,
)
    ensures
        ({
            let queued = crate::operator::granted(
                support,
                Request::openat(dir_fd, pathname, flags, mode),
                user_data,
            );
            let record = crate::sqe::sqe_of(built);
            &&& queued is Ok <==> support.has_kernel() && support.answered(Operation::OpenAt)
            &&& queued is Err ==> queued->Err_0 == Error::Unsupported
            &&& queued is Ok ==> queued->Ok_0.request == (Request::OpenAt {
                dir_fd,
                pathname,
                flags,
                mode,
            })
            &&& queued is Ok ==> queued->Ok_0.user_data == user_data
            &&& queued is Ok && is_built_of(built, queued->Ok_0, timespec) ==> {
                &&& record.opcode == 18
                &&& record.fd == dir_fd
                &&& record.off == 0
                &&& record.addr == pathname
                &&& record.len == mode
                &&& record.op_flags == flags as int % 0x1_0000_0000
                &&& record.user_data == user_data
                &&& all_else_is_zero(record)
            }
        }),
{
}

/// `fsync`: the file is the descriptor, and nothing else is said.
pub proof fn law_fsync(
    support: Support,
    user_data: usize,
    fd: c_int,
    timespec: usize,
    built: Entry,
)
    ensures
        ({
            let queued = crate::operator::granted(
                support,
                Request::fsync(fd),
                user_data,
            );
            let record = crate::sqe::sqe_of(built);
            &&& queued is Ok <==> support.has_kernel() && support.answered(Operation::Fsync)
            &&& queued is Err ==> queued->Err_0 == Error::Unsupported
            &&& queued is Ok ==> queued->Ok_0.request == (Request::Fsync { fd })
            &&& queued is Ok ==> queued->Ok_0.user_data == user_data
            &&& queued is Ok && is_built_of(built, queued->Ok_0, timespec) ==> {
                &&& record.opcode == 3
                &&& record.fd == fd
                &&& record.off == 0
                &&& record.addr == 0
                &&& record.len == 0
                &&& record.op_flags == 0
                &&& record.user_data == user_data
                &&& all_else_is_zero(record)
            }
        }),
{
}

/// `accept`: the peer's address goes to `addr`, its length to `off`.
pub proof fn law_accept(
    support: Support,
    user_data: usize,
    socket: c_int,
    address: usize,
    address_len: usize,
    timespec: usize,
    built: Entry,
)
    ensures
        ({
            let queued = crate::operator::granted(
                support,
                Request::accept(socket, address, address_len),
                user_data,
            );
            let record = crate::sqe::sqe_of(built);
            &&& queued is Ok <==> support.has_kernel() && support.answered(Operation::Accept)
            &&& queued is Err ==> queued->Err_0 == Error::Unsupported
            &&& queued is Ok ==> queued->Ok_0.request == (Request::Accept {
                fd: socket,
                address,
                address_len,
                flags: 0,
            })
            &&& queued is Ok ==> queued->Ok_0.user_data == user_data
            &&& queued is Ok && is_built_of(built, queued->Ok_0, timespec) ==> {
                &&& record.opcode == 13
                &&& record.fd == socket
                &&& record.off == address_len
                &&& record.addr == address
                &&& record.len == 0
                &&& record.op_flags == 0
                &&& record.user_data == user_data
                &&& all_else_is_zero(record)
            }
        }),
{
}

/// `accept4`: the peer's address goes to `addr`, its length to `off`, and the flags
/// are those given.
pub proof fn law_accept4(
    support: Support,
    user_data: usize,
    fd: c_int,
    addr: usize,
    len: usize,
    flg: c_int,
    timespec: usize,
    built: Entry,
)
    ensures
        ({
            let queued = crate::operator::granted(
                support,
                Request::accept4(fd, addr, len, flg),
                user_data,
            );
            let record = crate::sqe::sqe_of(built);
            &&& queued is Ok <==> support.has_kernel() && support.answered(Operation::Accept)
            &&& queued is Err ==> queued->Err_0 == Error::Unsupported
            &&& queued is Ok ==> queued->Ok_0.request == (Request::Accept {
                fd,
                address: addr,
                address_len: len,
                flags: flg,
            })
            &&& queued is Ok ==> queued->Ok_0.user_data == user_data
            &&& queued is Ok && is_built_of(built, queued->Ok_0, timespec) ==> {
                &&& record.opcode == 13
                &&& record.fd == fd
                &&& record.off == len
                &&& record.addr == addr
                &&& record.len == 0
                &&& record.op_flags == flg as int % 0x1_0000_0000
                &&& record.user_data == user_data
                &&& all_else_is_zero(record)
            }
        }),
{
}

/// `connect`: the peer's address stands at `addr`, its length in `off`.
pub proof fn law_connect(
    support: Support,
    user_data: usize,
    socket: c_int,
    address: usize,
    len: socklen_t,
    timespec: usize,
    built: Entry,
)
    ensures
        ({
            let queued = crate::operator::granted(
                support,
                Request::connect(socket, address, len),
                user_data,
            );
            let record = crate::sqe::sqe_of(built);
            &&& queued is Ok <==> support.has_kernel() && support.answered(Operation::Connect)
            &&& queued is Err ==> queued->Err_0 == Error::Unsupported
            &&& queued is Ok ==> queued->Ok_0.request == (Request::Connect {
                fd: socket,
                address,
                len,
            })
            &&& queued is Ok ==> queued->Ok_0.user_data == user_data
            &&& queued is Ok && is_built_of(built, queued->Ok_0, timespec) ==> {
                &&& record.opcode == 16
                &&& record.fd == socket
                &&& record.off == len
                &&& record.addr == address
                &&& record.len == 0
                &&& record.op_flags == 0
                &&& record.user_data == user_data
                &&& all_else_is_zero(record)
            }
        }),
{
}

/// `recv`: the memory is at `addr`, its length modulo 2^32 in `len`.
pub proof fn law_recv(
    support: Support,
    user_data: usize,
    socket: c_int,
    buf: usize,
    len: size_t,
    flags: c_int,
    timespec: usize,
    built: Entry,
)
    ensures
        ({
            let queued = crate::operator::granted(
                support,
                Request::recv(socket, buf, len, flags),
                user_data,
            );
            let record = crate::sqe::sqe_of(built);
            &&& queued is Ok <==> support.has_kernel() && support.answered(Operation::Recv)
            &&& queued is Err ==> queued->Err_0 == Error::Unsupported
            &&& queued is Ok ==> queued->Ok_0.request == (Request::Recv {
                fd: socket,
                buf,
                len: (len as int % 0x1_0000_0000) as u32,
                flags,
            })
            &&& queued is Ok ==> queued->Ok_0.user_data == user_data
            &&& queued is Ok && is_built_of(built, queued->Ok_0, timespec) ==> {
                &&& record.opcode == 27
                &&& record.fd == socket
                &&& record.off == 0
                &&& record.addr == buf
                &&& record.len == len as int % 0x1_0000_0000
                &&& record.op_flags == flags as int % 0x1_0000_0000
                &&& record.user_data == user_data
                &&& all_else_is_zero(record)
            }
        }),
{
}

/// `read`: the memory is at `addr`, its length modulo 2^32 in `len`, and the offset
/// is zero.
pub proof fn law_read(
    support: Support,
    user_data: usize,
    fd: c_int,
    buf: usize,
    count: size_t,
    timespec: usize,
    built: Entry,
)
    ensures
        ({
            let queued = crate::operator::granted(
                support,
                Request::read(fd, buf, count),
                user_data,
            );
            let record = crate::sqe::sqe_of(built);
            &&& queued is Ok <==> support.has_kernel() && support.answered(Operation::Read)
            &&& queued is Err ==> queued->Err_0 == Error::Unsupported
            &&& queued is Ok ==> queued->Ok_0.request == (Request::Read {
                fd,
                buf,
                len: (count as int % 0x1_0000_0000) as u32,
                offset: 0,
            })
            &&& queued is Ok ==> queued->Ok_0.user_data == user_data
            &&& queued is Ok && is_built_of(built, queued->Ok_0, timespec) ==> {
                &&& record.opcode == 22
                &&& record.fd == fd
                &&& record.off == 0
                &&& record.addr == buf
                &&& record.len == count as int % 0x1_0000_0000
                &&& record.op_flags == 0
                &&& record.user_data == user_data
                &&& all_else_is_zero(record)
            }
        }),
{
}

/// `pread`: the read is at the given offset, modulo 2^64.
pub proof fn law_pread(
    support: Support,
    user_data: usize,
    fd: c_int,
    buf: usize,
    count: size_t,
    offset: off_t,
    timespec: usize,
    built: Entry,
)
    ensures
        ({
            let queued = crate::operator::granted(
                support,
                Request::pread(fd, buf, count, offset),
                user_data,
            );
            let record = crate::sqe::sqe_of(built);
            &&& queued is Ok <==> support.has_kernel() && support.answered(Operation::Read)
            &&& queued is Err ==> queued->Err_0 == Error::Unsupported
            &&& queued is Ok ==> queued->Ok_0.request == (Request::Read {
                fd,
                buf,
                len: (count as int % 0x1_0000_0000) as u32,
                offset: (offset as int % 0x1_0000_0000_0000_0000) as u64,
            })
            &&& queued is Ok ==> queued->Ok_0.user_data == user_data
            &&& queued is Ok && is_built_of(built, queued->Ok_0, timespec) ==> {
                &&& record.opcode == 22
                &&& record.fd == fd
                &&& record.off == offset as int % 0x1_0000_0000_0000_0000
                &&& record.addr == buf
                &&& record.len == count as int % 0x1_0000_0000
                &&& record.op_flags == 0
                &&& record.user_data == user_data
                &&& all_else_is_zero(record)
            }
        }),
{
}

/// `readv`: the list of buffers is at `addr`, their number in `len`, and the offset
/// is zero.
pub proof fn law_readv(
    support: Support,
    user_data: usize,
    fd: c_int,
    iov: usize,
    iovcnt: c_int,
    timespec: usize,
    built: Entry,
)
    ensures
        ({
            let queued = crate::operator::granted(
                support,
                Request::readv(fd, iov, iovcnt),
                user_data,
            );
            let record = crate::sqe::sqe_of(built);
            &&& queued is Ok <==> support.has_kernel() && support.answered(Operation::Readv)
            &&& queued is Err ==> queued->Err_0 == Error::Unsupported
            &&& queued is Ok ==> queued->Ok_0.request == (Request::Readv {
                fd,
                iov,
                len: (iovcnt as int % 0x1_0000_0000) as u32,
                offset: 0,
            })
            &&& queued is Ok ==> queued->Ok_0.user_data == user_data
            &&& queued is Ok && is_built_of(built, queued->Ok_0, timespec) ==> {
                &&& record.opcode == 1
                &&& record.fd == fd
                &&& record.off == 0
                &&& record.addr == iov
                &&& record.len == iovcnt as int % 0x1_0000_0000
                &&& record.op_flags == 0
                &&& record.user_data == user_data
                &&& all_else_is_zero(record)
            }
        }),
{
}

/// `preadv`: the read is at the given offset, modulo 2^64.
pub proof fn law_preadv(
    support: Support,
    user_data: usize,
    fd: c_int,
    iov: usize,
    iovcnt: c_int,
    offset: off_t,
    timespec: usize,
    built: Entry,
)
    ensures
        ({
            let queued = crate::operator::granted(
                support,
                Request::preadv(fd, iov, iovcnt, offset),
                user_data,
            );
            let record = crate::sqe::sqe_of(built);
            &&& queued is Ok <==> support.has_kernel() && support.answered(Operation::Readv)
            &&& queued is Err ==> queued->Err_0 == Error::Unsupported
            &&& queued is Ok ==> queued->Ok_0.request == (Request::Readv {
                fd,
                iov,
                len: (iovcnt as int % 0x1_0000_0000) as u32,
                offset: (offset as int % 0x1_0000_0000_0000_0000) as u64,
            })
            &&& queued is Ok ==> queued->Ok_0.user_data == user_data
            &&& queued is Ok && is_built_of(built, queued->Ok_0, timespec) ==> {
                &&& record.opcode == 1
                &&& record.fd == fd
                &&& record.off == offset as int % 0x1_0000_0000_0000_0000
                &&& record.addr == iov
                &&& record.len == iovcnt as int % 0x1_0000_0000
                &&& record.op_flags == 0
                &&& record.user_data == user_data
                &&& all_else_is_zero(record)
            }
        }),
{
}

/// `recvmsg`: one message, its header at `addr`.
pub proof fn law_recvmsg(
    support: Support,
    user_data: usize,
    fd: c_int,
    msg: usize,
    flags: c_int,
    timespec: usize,
    built: Entry,
)
    ensures
        ({
            let queued = crate::operator::granted(
                support,
                Request::recvmsg(fd, msg, flags),
                user_data,
            );
            let record = crate::sqe::sqe_of(built);
            &&& queued is Ok <==> support.has_kernel() && support.answered(Operation::RecvMsg)
            &&& queued is Err ==> queued->Err_0 == Error::Unsupported
            &&& queued is Ok ==> queued->Ok_0.request == (Request::RecvMsg {
                fd,
                msg,
                msg_flags: (flags as int % 0x1_0000_0000) as u32,
            })
            &&& queued is Ok ==> queued->Ok_0.user_data == user_data
            &&& queued is Ok && is_built_of(built, queued->Ok_0, timespec) ==> {
                &&& record.opcode == 10
                &&& record.fd == fd
                &&& record.off == 0
                &&& record.addr == msg
                &&& record.len == 1
                &&& record.op_flags == flags as int % 0x1_0000_0000
                &&& record.user_data == user_data
                &&& all_else_is_zero(record)
            }
        }),
{
}

/// `send`: the memory is at `addr`, its length modulo 2^32 in `len`.
pub proof fn law_send(
    support: Support,
    user_data: usize,
    socket: c_int,
    buf: usize,
    len: size_t,
    flags: c_int,
    timespec: usize,
    built: Entry,
)
    ensures
        ({
            let queued = crate::operator::granted(
                support,
                Request::send(socket, buf, len, flags),
                user_data,
            );
            let record = crate::sqe::sqe_of(built);
            &&& queued is Ok <==> support.has_kernel() && support.answered(Operation::Send)
            &&& queued is Err ==> queued->Err_0 == Error::Unsupported
            &&& queued is Ok ==> queued->Ok_0.request == (Request::Send {
                fd: socket,
                buf,
                len: (len as int % 0x1_0000_0000) as u32,
                flags,
            })
            &&& queued is Ok ==> queued->Ok_0.user_data == user_data
            &&& queued is Ok && is_built_of(built, queued->Ok_0, timespec) ==> {
                &&& record.opcode == 26
                &&& record.fd == socket
                &&& record.off == 0
                &&& record.addr == buf
                &&& record.len == len as int % 0x1_0000_0000
                &&& record.op_flags == flags as int % 0x1_0000_0000
                &&& record.user_data == user_data
                &&& all_else_is_zero(record)
            }
        }),
{
}

/// `write`: the memory is at `addr`, its length modulo 2^32 in `len`, and the offset
/// is zero.
pub proof fn law_write(
    support: Support,
    user_data: usize,
    fd: c_int,
    buf: usize,
    count: size_t,
    timespec: usize,
    built: Entry,
)
    ensures
        ({
            let queued = crate::operator::granted(
                support,
                Request::write(fd, buf, count),
                user_data,
            );
            let record = crate::sqe::sqe_of(built);
            &&& queued is Ok <==> support.has_kernel() && support.answered(Operation::Write)
            &&& queued is Err ==> queued->Err_0 == Error::Unsupported
            &&& queued is Ok ==> queued->Ok_0.request == (Request::Write {
                fd,
                buf,
                len: (count as int % 0x1_0000_0000) as u32,
                offset: 0,
            })
            &&& queued is Ok ==> queued->Ok_0.user_data == user_data
            &&& queued is Ok && is_built_of(built, queued->Ok_0, timespec) ==> {
                &&& record.opcode == 23
                &&& record.fd == fd
                &&& record.off == 0
                &&& record.addr == buf
                &&& record.len == count as int % 0x1_0000_0000
                &&& record.op_flags == 0
                &&& record.user_data == user_data
                &&& all_else_is_zero(record)
            }
        }),
{
}

/// `pwrite`: the write is at the given offset, modulo 2^64.
pub proof fn law_pwrite(
    support: Support,
    user_data: usize,
    fd: c_int,
    buf: usize,
    count: size_t,
    offset: off_t,
    timespec: usize,
    built: Entry,
)
    ensures
        ({
            let queued = crate::operator::granted(
                support,
                Request::pwrite(fd, buf, count, offset),
                user_data,
            );
            let record = crate::sqe::sqe_of(built);
            &&& queued is Ok <==> support.has_kernel() && support.answered(Operation::Write)
            &&& queued is Err ==> queued->Err_0 == Error::Unsupported
            &&& queued is Ok ==> queued->Ok_0.request == (Request::Write {
                fd,
                buf,
                len: (count as int % 0x1_0000_0000) as u32,
                offset: (offset as int % 0x1_0000_0000_0000_0000) as u64,
            })
            &&& queued is Ok ==> queued->Ok_0.user_data == user_data
            &&& queued is Ok && is_built_of(built, queued->Ok_0, timespec) ==> {
                &&& record.opcode == 23
                &&& record.fd == fd
                &&& record.off == offset as int % 0x1_0000_0000_0000_0000
                &&& record.addr == buf
                &&& record.len == count as int % 0x1_0000_0000
                &&& record.op_flags == 0
                &&& record.user_data == user_data
                &&& all_else_is_zero(record)
            }
        }),
{
}

/// `writev`: the list of buffers is at `addr`, their number in `len`, and the offset
/// is zero.
pub proof fn law_writev(
    support: Support,
    user_data: usize,
    fd: c_int,
    iov: usize,
    iovcnt: c_int,
    timespec: usize,
    built: Entry,
)
    ensures
        ({
            let queued = crate::operator::granted(
                support,
                Request::writev(fd, iov, iovcnt),
                user_data,
            );
            let record = crate::sqe::sqe_of(built);
            &&& queued is Ok <==> support.has_kernel() && support.answered(Operation::Writev)
            &&& queued is Err ==> queued->Err_0 == Error::Unsupported
            &&& queued is Ok ==> queued->Ok_0.request == (Request::Writev {
                fd,
                iov,
                len: (iovcnt as int % 0x1_0000_0000) as u32,
                offset: 0,
            })
            &&& queued is Ok ==> queued->Ok_0.user_data == user_data
            &&& queued is Ok && is_built_of(built, queued->Ok_0, timespec) ==> {
                &&& record.opcode == 2
                &&& record.fd == fd
                &&& record.off == 0
                &&& record.addr == iov
                &&& record.len == iovcnt as int % 0x1_0000_0000
                &&& record.op_flags == 0
                &&& record.user_data == user_data
                &&& all_else_is_zero(record)
            }
        }),
{
}

/// `pwritev`: the write is at the given offset, modulo 2^64.
pub proof fn law_pwritev(
    support: Support,
    user_data: usize,
    fd: c_int,
    iov: usize,
    iovcnt: c_int,
    offset: off_t,
    timespec: usize,
    built: Entry,
)
    ensures
        ({
            let queued = crate::operator::granted(
                support,
                Request::pwritev(fd, iov, iovcnt, offset),
                user_data,
            );
            let record = crate::sqe::sqe_of(built);
            &&& queued is Ok <==> support.has_kernel() && support.answered(Operation::Writev)
            &&& queued is Err ==> queued->Err_0 == Error::Unsupported
            &&& queued is Ok ==> queued->Ok_0.request == (Request::Writev {
                fd,
                iov,
                len: (iovcnt as int % 0x1_0000_0000) as u32,
                offset: (offset as int % 0x1_0000_0000_0000_0000) as u64,
            })
            &&& queued is Ok ==> queued->Ok_0.user_data == user_data
            &&& queued is Ok && is_built_of(built, queued->Ok_0, timespec) ==> {
                &&& record.opcode == 2
                &&& record.fd == fd
                &&& record.off == offset as int % 0x1_0000_0000_0000_0000
                &&& record.addr == iov
                &&& record.len == iovcnt as int % 0x1_0000_0000
                &&& record.op_flags == 0
                &&& record.user_data == user_data
                &&& all_else_is_zero(record)
            }
        }),
{
}

/// `sendmsg`: one message, its header at `addr`.
pub proof fn law_sendmsg(
    support: Support,
    user_data: usize,
    fd: c_int,
    msg: usize,
    flags: c_int,
    timespec: usize,
    built: Entry,
)
    ensures
        ({
            let queued = crate::operator::granted(
                support,
                Request::sendmsg(fd, msg, flags),
                user_data,
            );
            let record = crate::sqe::sqe_of(built);
            &&& queued is Ok <==> support.has_kernel() && support.answered(Operation::SendMsg)
            &&& queued is Err ==> queued->Err_0 == Error::Unsupported
            &&& queued is Ok ==> queued->Ok_0.request == (Request::SendMsg {
                fd,
                msg,
                msg_flags: (flags as int % 0x1_0000_0000) as u32,
            })
            &&& queued is Ok ==> queued->Ok_0.user_data == user_data
            &&& queued is Ok && is_built_of(built, queued->Ok_0, timespec) ==> {
                &&& record.opcode == 9
                &&& record.fd == fd
                &&& record.off == 0
                &&& record.addr == msg
                &&& record.len == 1
                &&& record.op_flags == flags as int % 0x1_0000_0000
                &&& record.user_data == user_data
                &&& all_else_is_zero(record)
            }
        }),
{
}

/// `timeout_add`: the span is the duration, to the nanosecond, and is found at
/// `addr`.
pub proof fn law_timeout_add(
    support: Support,
    user_data: usize,
    duration: Duration,
    timespec: usize,
    built: Entry,
)
    ensures
        ({
            let queued = crate::operator::timer_added(
                support,
                user_data,
                Interval::spans_opt(Some(duration)),
            );
            let record = crate::sqe::sqe_of(built);
            &&& queued is Ok <==> support.has_kernel() && support.answered(Operation::Timeout)
            &&& queued is Err ==> queued->Err_0 == Error::Unsupported
            &&& queued is Ok ==> queued->Ok_0 is Some
            &&& queued is Ok ==> queued->Ok_0->0.request == (Request::Timeout {
                interval: Interval {
                    sec: crate::request::duration_secs(duration),
                    nsec: crate::request::duration_nanos(duration),
                },
            })
            &&& queued is Ok ==> queued->Ok_0->0.user_data == user_data
            &&& queued is Ok ==> queued->Ok_0->0.request.spans() is Some
            &&& queued is Ok ==> queued->Ok_0->0.request.spans()->0.sec * 1_000_000_000
                + queued->Ok_0->0.request.spans()->0.nsec == crate::request::duration_secs(duration)
                * 1_000_000_000 + crate::request::duration_nanos(duration)
            &&& queued is Ok ==> queued->Ok_0->0.request.spans()->0.nsec
                == crate::request::duration_nanos(duration)
            &&& queued is Ok && is_built_of(built, queued->Ok_0->0, timespec) ==> {
                &&& record.opcode == 11
                &&& record.fd == -1
                &&& record.off == 0
                &&& record.addr == timespec
                &&& record.len == 1
                &&& record.op_flags == 0
                &&& record.user_data == user_data
                &&& all_else_is_zero(record)
            }
        }),
{
}

/// `arm_timer`: the span is the one given, and is found at `addr`.
pub proof fn law_arm_timer(
    support: Support,
    user_data: usize,
    interval: Interval,
    timespec: usize,
    built: Entry,
)
    ensures
        ({
            let queued = crate::operator::timer_added(support, user_data, Some(interval));
            let record = crate::sqe::sqe_of(built);
            &&& queued is Ok <==> support.has_kernel() && support.answered(Operation::Timeout)
            &&& queued is Err ==> queued->Err_0 == Error::Unsupported
            &&& queued is Ok ==> queued->Ok_0 is Some
            &&& queued is Ok ==> queued->Ok_0->0.request == (Request::Timeout { interval })
            &&& queued is Ok ==> queued->Ok_0->0.user_data == user_data
            &&& queued is Ok ==> queued->Ok_0->0.request.spans() == Some(interval)
            &&& queued is Ok && is_built_of(built, queued->Ok_0->0, timespec) ==> {
                &&& record.opcode == 11
                &&& record.fd == -1
                &&& record.off == 0
                &&& record.addr == timespec
                &&& record.len == 1
                &&& record.op_flags == 0
                &&& record.user_data == user_data
                &&& all_else_is_zero(record)
            }
        }),
{
}

/// `timeout_update` with a duration: the timeout is named in `addr`, and the new
/// span is the duration, to the nanosecond, and is found at `off`.
pub proof fn law_timeout_update(
    support: Support,
    user_data: usize,
    duration: Duration,
    timespec: usize,
    built: Entry,
)
    ensures
        ({
            let queued = crate::operator::timer_updated(
                support,
                user_data,
                Interval::spans_opt(Some(duration)),
            );
            let record = crate::sqe::sqe_of(built);
            &&& queued is Ok <==> support.has_kernel() && support.answered(Operation::TimeoutUpdate)
            &&& queued is Err ==> queued->Err_0 == Error::Unsupported
            &&& queued is Ok ==> queued->Ok_0.request == (Request::TimeoutUpdate {
                target: user_data as u64,
                interval: Interval {
                    sec: crate::request::duration_secs(duration),
                    nsec: crate::request::duration_nanos(duration),
                },
            })
            &&& queued is Ok ==> queued->Ok_0.user_data == user_data
            &&& queued is Ok ==> queued->Ok_0.request.spans() is Some
            &&& queued is Ok ==> queued->Ok_0.request.spans()->0.sec * 1_000_000_000
                + queued->Ok_0.request.spans()->0.nsec == crate::request::duration_secs(duration)
                * 1_000_000_000 + crate::request::duration_nanos(duration)
            &&& queued is Ok ==> queued->Ok_0.request.spans()->0.nsec
                == crate::request::duration_nanos(duration)
            &&& queued is Ok && is_built_of(built, queued->Ok_0, timespec) ==> {
                &&& record.opcode == 12
                &&& record.fd == -1
                &&& record.off == timespec
                &&& record.addr == user_data
                &&& record.len == 0
                &&& record.op_flags == 2
                &&& record.user_data == user_data
                &&& all_else_is_zero(record)
            }
        }),
{
}

/// `rearm_timer` with a span: the timeout is named in `addr`, and the span is the
/// one given, and is found at `off`.
pub proof fn law_rearm_timer(
    support: Support,
    user_data: usize,
    interval: Interval,
    timespec: usize,
    built: Entry,
)
    ensures
        ({
            let queued = crate::operator::timer_updated(support, user_data, Some(interval));
            let record = crate::sqe::sqe_of(built);
            &&& queued is Ok <==> support.has_kernel() && support.answered(Operation::TimeoutUpdate)
            &&& queued is Err ==> queued->Err_0 == Error::Unsupported
            &&& queued is Ok ==> queued->Ok_0.request == (Request::TimeoutUpdate {
                target: user_data as u64,
                interval,
            })
            &&& queued is Ok ==> queued->Ok_0.user_data == user_data
            &&& queued is Ok ==> queued->Ok_0.request.spans() == Some(interval)
            &&& queued is Ok && is_built_of(built, queued->Ok_0, timespec) ==> {
                &&& record.opcode == 12
                &&& record.fd == -1
                &&& record.off == timespec
                &&& record.addr == user_data
                &&& record.len == 0
                &&& record.op_flags == 2
                &&& record.user_data == user_data
                &&& all_else_is_zero(record)
            }
        }),
{
}

/// `timeout_remove`: the timeout is named in `addr`, and the removal itself
/// completes under 0.
pub proof fn law_timeout_remove(
    support: Support,
    user_data: usize,
    timespec: usize,
    built: Entry,
)
    ensures
        ({
            let queued = crate::operator::timer_removed(support, user_data);
            let record = crate::sqe::sqe_of(built);
            &&& queued is Ok <==> support.has_kernel() && support.answered(Operation::TimeoutRemove)
            &&& queued is Err ==> queued->Err_0 == Error::Unsupported
            &&& queued is Ok ==> queued->Ok_0.request == (Request::TimeoutRemove {
                target: user_data as u64,
            })
            &&& queued is Ok ==> queued->Ok_0.user_data == 0
            &&& queued is Ok ==> queued->Ok_0.request.spans() is None
            &&& queued is Ok && is_built_of(built, queued->Ok_0, timespec) ==> {
                &&& record.opcode == 12
                &&& record.fd == -1
                &&& record.off == 0
                &&& record.addr == user_data
                &&& record.len == 0
                &&& record.op_flags == 0
                &&& record.user_data == 0
                &&& all_else_is_zero(record)
            }
        }),
{
}

/// `timeout_update` without a duration: the timeout is named in `addr` and
/// withdrawn.
pub proof fn law_timeout_update_without_duration(
    support: Support,
    user_data: usize,
    timespec: usize,
    built: Entry,
)
    ensures
        ({
            let queued = crate::operator::timer_updated(
                support,
                user_data,
                Interval::spans_opt(None),
            );
            let record = crate::sqe::sqe_of(built);
            &&& queued is Ok <==> support.has_kernel() && support.answered(Operation::TimeoutRemove)
            &&& queued is Err ==> queued->Err_0 == Error::Unsupported
            &&& queued is Ok ==> queued->Ok_0.request == (Request::TimeoutRemove {
                target: user_data as u64,
            })
            &&& queued is Ok ==> queued->Ok_0.user_data == 0
            &&& queued is Ok ==> queued->Ok_0.request.spans() is None
            &&& queued is Ok && is_built_of(built, queued->Ok_0, timespec) ==> {
                &&& record.opcode == 12
                &&& record.fd == -1
                &&& record.off == 0
                &&& record.addr == user_data
                &&& record.len == 0
                &&& record.op_flags == 0
                &&& record.user_data == 0
                &&& all_else_is_zero(record)
            }
        }),
{
}

/// `timeout_add` without a duration queues nothing and never fails.
pub proof fn law_timeout_add_without_duration(support: Support, user_data: usize)
    ensures
        crate::operator::timer_added(support, user_data, Interval::spans_opt(None)) == Ok::<
            Option<SqEntry>,
            Error,
        >(None),
{
}

/// What stands at the address of a time span, as `SqEntry::timespec` states it:
/// the seconds and nanoseconds of the duration, the seconds as the signed number
/// with the same 64 bits.
pub proof fn law_time_span_in_memory(
    support: Support,
    user_data: usize,
    duration: Duration,
    stored: Timespec,
)
    requires
        ({
            let queued = crate::operator::timer_added(
                support,
                user_data,
                Interval::spans_opt(Some(duration)),
            );
            &&& queued matches Ok(Some(entry))
            &&& entry.request.spans() matches Some(interval)
            &&& crate::sqe::timespec_of(stored) == (
                crate::sqe::signed_secs(interval.sec),
                interval.nsec as i64,
            )
        }),
    ensures
        crate::sqe::timespec_of(stored).1 == crate::request::duration_nanos(duration),
        crate::request::duration_secs(duration) < 0x8000_0000_0000_0000
            ==> crate::sqe::timespec_of(stored).0 == crate::request::duration_secs(duration),
        crate::request::duration_secs(duration) >= 0x8000_0000_0000_0000
            ==> crate::sqe::timespec_of(stored).0 == crate::request::duration_secs(duration)
            - 0x1_0000_0000_0000_0000,
{
}

/// The user data is a tag and no more: of two entries with one request, the
/// records differ in the user data alone, and each has its own.
pub proof fn law_user_data_is_a_tag(
    request: Request,
    user_data: u64,
    other_data: u64,
    timespec: usize,
)
    ensures
        (SqEntry { request, user_data }).sqe(timespec).user_data == user_data,
        (SqEntry { request, user_data }).sqe(timespec) == (Sqe {
            user_data,
            ..(SqEntry { request, user_data: other_data }).sqe(timespec)
        }),
{
}

/// A request without a time span does not look at the address of one.
pub proof fn law_address_of_no_span_is_ignored(
    entry: SqEntry,
    timespec: usize,
    elsewhere: usize,
)
    requires
        entry.request.spans() is None,
    ensures
        entry.sqe(timespec) == entry.sqe(elsewhere),
{
}

/// Whether a request speaks of a time span, and of which, is seen in its kind.
pub proof fn law_spans(request: Request)
    ensures
        request.spans() is Some <==> request is Timeout || request is TimeoutUpdate,
        request matches Request::Timeout { interval } ==> request.spans() == Some(interval),
        request matches Request::TimeoutUpdate { target, interval } ==> request.spans() == Some(
            interval,
        ),
{
}

/// Each kind of request asks for the operation of the same name.
pub proof fn law_kinds_and_operations(request: Request)
    ensures
        request is EpollCtl <==> request.asks_for() is EpollCtl,
        request is Timeout <==> request.asks_for() is Timeout,
        request is TimeoutUpdate <==> request.asks_for() is TimeoutUpdate,
        request is TimeoutRemove <==> request.asks_for() is TimeoutRemove,
        request is OpenAt <==> request.asks_for() is OpenAt,
        request is Fsync <==> request.asks_for() is Fsync,
        request is Accept <==> request.asks_for() is Accept,
        request is Connect <==> request.asks_for() is Connect,
        request is Recv <==> request.asks_for() is Recv,
        request is Read <==> request.asks_for() is Read,
        request is Readv <==> request.asks_for() is Readv,
        request is RecvMsg <==> request.asks_for() is RecvMsg,
        request is Send <==> request.asks_for() is Send,
        request is Write <==> request.asks_for() is Write,
        request is Writev <==> request.asks_for() is Writev,
        request is SendMsg <==> request.asks_for() is SendMsg,
{
}

/// The kernel's numbers for the operations.
pub proof fn law_operation_numbers()
    ensures
        Operation::EpollCtl.opcode() == 29,
        Operation::Timeout.opcode() == 11,
        Operation::TimeoutUpdate.opcode() == 12,
        Operation::TimeoutRemove.opcode() == 12,
        Operation::OpenAt.opcode() == 18,
        Operation::Fsync.opcode() == 3,
        Operation::Accept.opcode() == 13,
        Operation::Connect.opcode() == 16,
        Operation::Recv.opcode() == 27,
        Operation::Read.opcode() == 22,
        Operation::Readv.opcode() == 1,
        Operation::RecvMsg.opcode() == 10,
        Operation::Send.opcode() == 26,
        Operation::Write.opcode() == 23,
        Operation::Writev.opcode() == 2,
        Operation::SendMsg.opcode() == 9,
{
}

/// Granting takes both the kernel and its answer for the operation.
pub proof fn law_granting_takes_both(support: Support, operation: Operation)
    ensures
        support.grants(operation) <==> support.has_kernel() && support.answered(operation),
{
}

/// Two writes of one buffer to one file, at two offsets that are not negative, are
/// as far apart in the file as the offsets are; the same holds of reads.
pub proof fn law_offsets_keep_their_distance(
    support: Support,
    user_data: usize,
    fd: c_int,
    buf: usize,
    count: size_t,
    number: c_int,
    near: off_t,
    far: off_t,
    timespec: usize,
)
    requires
        0 <= near <= far,
        support.has_kernel(),
        support.answered(Operation::Read),
        support.answered(Operation::Readv),
        support.answered(Operation::Write),
        support.answered(Operation::Writev),
    ensures
        ({
            let granted = |request: Request|
                crate::operator::granted(support, request, user_data);
            let at = |request: Request| granted(request)->Ok_0.sqe(timespec).off as int;
            let apart = far - near;
            &&& at(Request::pwrite(fd, buf, count, far)) - at(Request::pwrite(fd, buf, count, near))
                == apart
            &&& at(Request::pread(fd, buf, count, far)) - at(Request::pread(fd, buf, count, near))
                == apart
            &&& at(Request::pwritev(fd, buf, number, far)) - at(
                Request::pwritev(fd, buf, number, near),
            ) == apart
            &&& at(Request::preadv(fd, buf, number, far)) - at(
                Request::preadv(fd, buf, number, near),
            ) == apart
        }),
{
}

} // verus!
