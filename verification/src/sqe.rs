//! The outside builders of submission queue entries.
//!
//! A submission queue entry is the record that the kernel reads. The `io_uring`
//! crate builds it, one builder for each operation; here each builder is called
//! with integers, memory being given by its address, and its contract says which
//! fields of the record it sets. All other fields are zero.

use io_uring::opcode;
use io_uring::squeue::Entry;
use io_uring::types::{Fd, Timespec};
use std::ptr::{with_exposed_provenance, with_exposed_provenance_mut};
use vstd::prelude::*;

verus! {

/// The outside record of one submission queue entry.
#[verifier::external_type_specification]
#[verifier::external_body]
pub struct ExEntry(io_uring::squeue::Entry);

/// The outside record of a time span, as the kernel reads it.
#[verifier::external_type_specification]
#[verifier::external_body]
pub struct ExTimespec(io_uring::types::Timespec);

/// What the kernel reads in a submission queue entry. Where the meaning of a
/// field depends on the operation, it has its general name: `off`, `addr` and
/// `len`, and `op_flags` for the flags of the operation.
pub struct Sqe {
    pub opcode: u8,
    pub flags: u8,
    pub ioprio: u16,
    pub fd: i32,
    pub off: u64,
    pub addr: u64,
    pub len: u32,
    pub op_flags: u32,
    pub user_data: u64,
    pub buf_group: u16,
    pub personality: u16,
    pub file_index: u32,
    pub addr3: u64,
}

/// What stands in place of a descriptor where an operation has none.
pub const NO_FD: i32 = -1;

impl Sqe {
    /// A record with nothing set but the operation and the descriptor.
    pub open spec fn blank(opcode: u8, fd: i32) -> Sqe {
        Sqe {
            opcode,
            flags: 0,
            ioprio: 0,
            fd,
            off: 0,
            addr: 0,
            len: 0,
            op_flags: 0,
            user_data: 0,
            buf_group: 0,
            personality: 0,
            file_index: 0,
            addr3: 0,
        }
    }
}

/// What the kernel reads in an outside entry.
pub uninterp spec fn sqe_of(entry: Entry) -> Sqe;

/// The seconds and the nanoseconds that the kernel reads in an outside time
/// span, both signed.
pub uninterp spec fn timespec_of(timespec: Timespec) -> (i64, i64);

/// A number of seconds as the kernel reads it: the same 64 bits, signed.
pub open spec fn signed_secs(secs: u64) -> i64 {
    if secs < 0x8000_0000_0000_0000 {
        secs as i64
    } else {
        (secs - 0x1_0000_0000_0000_0000) as i64
    }
}

/// A descriptor widened to 64 bits, its sign kept, and read as unsigned.
pub open spec fn sign_extended(fd: i32) -> u64 {
    (fd as int % 0x1_0000_0000_0000_0000) as u64
}

/// `Timespec::new`, `sec` and `nsec`: the record holds the two numbers, the
/// seconds as the signed number with the same bits.
#[verifier::external_body]
pub(crate) fn build_timespec(sec: u64, nsec: u32) -> (timespec: Timespec)
    ensures
        timespec_of(timespec) == (signed_secs(sec), nsec as i64),
{
    Timespec::new().sec(sec).nsec(nsec)
}

/// `Entry::user_data` hands the entry back with its user data replaced and
/// nothing else changed.
pub assume_specification[ io_uring::squeue::Entry::user_data ](
    entry: Entry,
    user_data: u64,
) -> (tagged: Entry)
    ensures
        sqe_of(tagged) == (Sqe { user_data, ..sqe_of(entry) }),
;

/// `new` and `build` of `io_uring::opcode::EpollCtl`.
/// The watched descriptor goes into `off`, the kind of change into `len`.
#[verifier::external_body]
pub(crate) fn build_epoll_ctl(epfd: i32, fd: i32, op: i32, event: usize) -> (entry: Entry)
    ensures
        sqe_of(entry) == (Sqe {
            off: sign_extended(fd),
            addr: event as u64,
            len: crate::bits::bits_u32(op),
            ..Sqe::blank(29, epfd)
        }),
{
    opcode::EpollCtl::new(Fd(epfd), Fd(fd), op, with_exposed_provenance(event)).build()
}

/// `new` and `build` of `io_uring::opcode::Timeout`.
/// There is no descriptor, and the one time span is found at `addr`.
#[verifier::external_body]
pub(crate) fn build_timeout(timespec: usize) -> (entry: Entry)
    ensures
        sqe_of(entry) == (Sqe { addr: timespec as u64, len: 1, ..Sqe::blank(11, NO_FD) }),
{
    opcode::Timeout::new(with_exposed_provenance(timespec)).build()
}

/// `new` and `build` of `io_uring::opcode::TimeoutUpdate`.
/// The timeout is named in `addr`, the new span is found at `off`, and the
/// update bit is set.
#[verifier::external_body]
pub(crate) fn build_timeout_update(target: u64, timespec: usize) -> (entry: Entry)
    ensures
        sqe_of(entry) == (Sqe {
            off: timespec as u64,
            addr: target,
            op_flags: 2,
            ..Sqe::blank(12, NO_FD)
        }),
{
    opcode::TimeoutUpdate::new(target, with_exposed_provenance(timespec)).build()
}

/// `new` and `build` of `io_uring::opcode::TimeoutRemove`.
/// The timeout is named in `addr`.
#[verifier::external_body]
pub(crate) fn build_timeout_remove(target: u64) -> (entry: Entry)
    ensures
        sqe_of(entry) == (Sqe { addr: target, ..Sqe::blank(12, NO_FD) }),
{
    opcode::TimeoutRemove::new(target).build()
}

/// `new`, `flags`, `mode` and `build` of `io_uring::opcode::OpenAt`.
/// The mode goes into `len`.
#[verifier::external_body]
pub(crate) fn build_openat(dir_fd: i32, pathname: usize, flags: i32, mode: u32) -> (entry: Entry)
    ensures
        sqe_of(entry) == (Sqe {
            addr: pathname as u64,
            len: mode,
            op_flags: crate::bits::bits_u32(flags),
            ..Sqe::blank(18, dir_fd)
        }),
{
    opcode::OpenAt::new(Fd(dir_fd), with_exposed_provenance(pathname))
        .flags(flags)
        .mode(mode)
        .build()
}

/// `new` and `build` of `io_uring::opcode::Fsync`.
/// Only the descriptor is set.
#[verifier::external_body]
pub(crate) fn build_fsync(fd: i32) -> (entry: Entry)
    ensures
        sqe_of(entry) == Sqe::blank(3, fd),
{
    opcode::Fsync::new(Fd(fd)).build()
}

/// `new`, `flags` and `build` of `io_uring::opcode::Accept`.
/// The address of the length goes into `off`.
#[verifier::external_body]
pub(crate) fn build_accept(
    fd: i32,
    address: usize,
    address_len: usize,
    flags: i32,
) -> (entry: Entry)
    ensures
        sqe_of(entry) == (Sqe {
            off: address_len as u64,
            addr: address as u64,
            op_flags: crate::bits::bits_u32(flags),
            ..Sqe::blank(13, fd)
        }),
{
    opcode::Accept::new(
        Fd(fd),
        with_exposed_provenance_mut(address),
        with_exposed_provenance_mut(address_len),
    ).flags(flags).build()
}

/// `new` and `build` of `io_uring::opcode::Connect`.
/// The length of the address goes into `off`.
#[verifier::external_body]
pub(crate) fn build_connect(fd: i32, address: usize, len: u32) -> (entry: Entry)
    ensures
        sqe_of(entry) == (Sqe { off: len as u64, addr: address as u64, ..Sqe::blank(16, fd) }),
{
    opcode::Connect::new(Fd(fd), with_exposed_provenance(address), len).build()
}

/// `new`, `flags` and `build` of `io_uring::opcode::Recv`.
/// The flags keep their bits.
#[verifier::external_body]
pub(crate) fn build_recv(fd: i32, buf: usize, len: u32, flags: i32) -> (entry: Entry)
    ensures
        sqe_of(entry) == (Sqe {
            addr: buf as u64,
            len,
            op_flags: crate::bits::bits_u32(flags),
            ..Sqe::blank(27, fd)
        }),
{
    opcode::Recv::new(Fd(fd), with_exposed_provenance_mut(buf), len).flags(flags).build()
}

/// `new`, `offset` and `build` of `io_uring::opcode::Read`.
/// The offset goes into `off`.
#[verifier::external_body]
pub(crate) fn build_read(fd: i32, buf: usize, len: u32, offset: u64) -> (entry: Entry)
    ensures
        sqe_of(entry) == (Sqe { off: offset, addr: buf as u64, len, ..Sqe::blank(22, fd) }),
{
    opcode::Read::new(Fd(fd), with_exposed_provenance_mut(buf), len).offset(offset).build()
}

/// `new`, `offset` and `build` of `io_uring::opcode::Readv`.
/// The offset goes into `off`, the number of buffers into `len`.
#[verifier::external_body]
pub(crate) fn build_readv(fd: i32, iov: usize, len: u32, offset: u64) -> (entry: Entry)
    ensures
        sqe_of(entry) == (Sqe { off: offset, addr: iov as u64, len, ..Sqe::blank(1, fd) }),
{
    opcode::Readv::new(Fd(fd), with_exposed_provenance(iov), len).offset(offset).build()
}

/// `new`, `flags` and `build` of `io_uring::opcode::RecvMsg`.
/// There is one message, found at `addr`.
#[verifier::external_body]
pub(crate) fn build_recvmsg(fd: i32, msg: usize, flags: u32) -> (entry: Entry)
    ensures
        sqe_of(entry) == (Sqe {
            addr: msg as u64,
            len: 1,
            op_flags: flags,
            ..Sqe::blank(10, fd)
        }),
{
    opcode::RecvMsg::new(Fd(fd), with_exposed_provenance_mut(msg)).flags(flags).build()
}

/// `new`, `flags` and `build` of `io_uring::opcode::Send`.
/// The flags keep their bits.
#[verifier::external_body]
pub(crate) fn build_send(fd: i32, buf: usize, len: u32, flags: i32) -> (entry: Entry)
    ensures
        sqe_of(entry) == (Sqe {
            addr: buf as u64,
            len,
            op_flags: crate::bits::bits_u32(flags),
            ..Sqe::blank(26, fd)
        }),
{
    opcode::Send::new(Fd(fd), with_exposed_provenance(buf), len).flags(flags).build()
}

/// `new`, `offset` and `build` of `io_uring::opcode::Write`.
/// The offset goes into `off`.
#[verifier::external_body]
pub(crate) fn build_write(fd: i32, buf: usize, len: u32, offset: u64) -> (entry: Entry)
    ensures
        sqe_of(entry) == (Sqe { off: offset, addr: buf as u64, len, ..Sqe::blank(23, fd) }),
{
    opcode::Write::new(Fd(fd), with_exposed_provenance(buf), len).offset(offset).build()
}

/// `new`, `offset` and `build` of `io_uring::opcode::Writev`.
/// The offset goes into `off`, the number of buffers into `len`.
#[verifier::external_body]
pub(crate) fn build_writev(fd: i32, iov: usize, len: u32, offset: u64) -> (entry: Entry)
    ensures
        sqe_of(entry) == (Sqe { off: offset, addr: iov as u64, len, ..Sqe::blank(2, fd) }),
{
    opcode::Writev::new(Fd(fd), with_exposed_provenance(iov), len).offset(offset).build()
}

/// `new`, `flags` and `build` of `io_uring::opcode::SendMsg`.
/// There is one message, found at `addr`.
#[verifier::external_body]
pub(crate) fn build_sendmsg(fd: i32, msg: usize, flags: u32) -> (entry: Entry)
    ensures
        sqe_of(entry) == (Sqe {
            addr: msg as u64,
            len: 1,
            op_flags: flags,
            ..Sqe::blank(9, fd)
        }),
{
    opcode::SendMsg::new(Fd(fd), with_exposed_provenance(msg)).flags(flags).build()
}

} // verus!
