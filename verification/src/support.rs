//! Which operations the running kernel accepts.

use vstd::prelude::*;

verus! {

/// The operations that a ring is asked for, one for each io_uring opcode
/// builder in use.
#[derive(Clone, Copy, Debug, PartialEq, Eq)]
pub enum Operation {
    OpenAt,
    Fsync,
    Timeout,
    TimeoutUpdate,
    TimeoutRemove,
    EpollCtl,
    Accept,
    Connect,
    Recv,
    Read,
    Readv,
    RecvMsg,
    Send,
    Write,
    Writev,
    SendMsg,
}

/// The outside record of what the kernel answered to a probe.
#[verifier::external_type_specification]
#[verifier::external_body]
pub struct ExProbe(io_uring::Probe);

/// Whether a probe record marks the opcode as supported.
pub uninterp spec fn probe_marks(probe: io_uring::Probe, opcode: u8) -> bool;

/// `io_uring::Probe::is_supported` reads the record alone: what it answers is
/// determined by the record and the opcode.
pub assume_specification[ io_uring::Probe::is_supported ](
    probe: &io_uring::Probe,
    opcode: u8,
) -> (supported: bool)
    ensures
        supported == probe_marks(*probe, opcode),
;

/// Reads the constant `io_uring::opcode::OpenAt::CODE`, which is 18.
#[verifier::external_body]
fn openat_code() -> (code: u8)
    ensures
        code == 18,
{
    io_uring::opcode::OpenAt::CODE
}

/// Reads the constant `io_uring::opcode::Fsync::CODE`, which is 3.
#[verifier::external_body]
fn fsync_code() -> (code: u8)
    ensures
        code == 3,
{
    io_uring::opcode::Fsync::CODE
}

/// Reads the constant `io_uring::opcode::Timeout::CODE`, which is 11.
#[verifier::external_body]
fn timeout_code() -> (code: u8)
    ensures
        code == 11,
{
    io_uring::opcode::Timeout::CODE
}

/// Reads the constant `io_uring::opcode::TimeoutUpdate::CODE`, which is 12.
#[verifier::external_body]
fn timeout_update_code() -> (code: u8)
    ensures
        code == 12,
{
    io_uring::opcode::TimeoutUpdate::CODE
}

/// Reads the constant `io_uring::opcode::TimeoutRemove::CODE`, which is 12.
#[verifier::external_body]
fn timeout_remove_code() -> (code: u8)
    ensures
        code == 12,
{
    io_uring::opcode::TimeoutRemove::CODE
}

/// Reads the constant `io_uring::opcode::EpollCtl::CODE`, which is 29.
#[verifier::external_body]
fn epoll_ctl_code() -> (code: u8)
    ensures
        code == 29,
{
    io_uring::opcode::EpollCtl::CODE
}

/// Reads the constant `io_uring::opcode::Accept::CODE`, which is 13.
#[verifier::external_body]
fn accept_code() -> (code: u8)
    ensures
        code == 13,
{
    io_uring::opcode::Accept::CODE
}

/// Reads the constant `io_uring::opcode::Connect::CODE`, which is 16.
#[verifier::external_body]
fn connect_code() -> (code: u8)
    ensures
        code == 16,
{
    io_uring::opcode::Connect::CODE
}

/// Reads the constant `io_uring::opcode::Recv::CODE`, which is 27.
#[verifier::external_body]
fn recv_code() -> (code: u8)
    ensures
        code == 27,
{
    io_uring::opcode::Recv::CODE
}

/// Reads the constant `io_uring::opcode::Read::CODE`, which is 22.
#[verifier::external_body]
fn read_code() -> (code: u8)
    ensures
        code == 22,
{
    io_uring::opcode::Read::CODE
}

/// Reads the constant `io_uring::opcode::Readv::CODE`, which is 1.
#[verifier::external_body]
fn readv_code() -> (code: u8)
    ensures
        code == 1,
{
    io_uring::opcode::Readv::CODE
}

/// Reads the constant `io_uring::opcode::RecvMsg::CODE`, which is 10.
#[verifier::external_body]
fn recvmsg_code() -> (code: u8)
    ensures
        code == 10,
{
    io_uring::opcode::RecvMsg::CODE
}

/// Reads the constant `io_uring::opcode::Send::CODE`, which is 26.
#[verifier::external_body]
fn send_code() -> (code: u8)
    ensures
        code == 26,
{
    io_uring::opcode::Send::CODE
}

/// Reads the constant `io_uring::opcode::Write::CODE`, which is 23.
#[verifier::external_body]
fn write_code() -> (code: u8)
    ensures
        code == 23,
{
    io_uring::opcode::Write::CODE
}

/// Reads the constant `io_uring::opcode::Writev::CODE`, which is 2.
#[verifier::external_body]
fn writev_code() -> (code: u8)
    ensures
        code == 2,
{
    io_uring::opcode::Writev::CODE
}

/// Reads the constant `io_uring::opcode::SendMsg::CODE`, which is 9.
#[verifier::external_body]
fn sendmsg_code() -> (code: u8)
    ensures
        code == 9,
{
    io_uring::opcode::SendMsg::CODE
}

impl Operation {
    /// Where the operation stands among the operations.
    closed spec fn place(self) -> int {
        match self {
            Operation::OpenAt => 0,
            Operation::Fsync => 1,
            Operation::Timeout => 2,
            Operation::TimeoutUpdate => 3,
            Operation::TimeoutRemove => 4,
            Operation::EpollCtl => 5,
            Operation::Accept => 6,
            Operation::Connect => 7,
            Operation::Recv => 8,
            Operation::Read => 9,
            Operation::Readv => 10,
            Operation::RecvMsg => 11,
            Operation::Send => 12,
            Operation::Write => 13,
            Operation::Writev => 14,
            Operation::SendMsg => 15,
        }
    }

    fn index(self) -> (index: usize)
        ensures
            index == self.place(),
            index < 16,
    {
        match self {
            Operation::OpenAt => 0,
            Operation::Fsync => 1,
            Operation::Timeout => 2,
            Operation::TimeoutUpdate => 3,
            Operation::TimeoutRemove => 4,
            Operation::EpollCtl => 5,
            Operation::Accept => 6,
            Operation::Connect => 7,
            Operation::Recv => 8,
            Operation::Read => 9,
            Operation::Readv => 10,
            Operation::RecvMsg => 11,
            Operation::Send => 12,
            Operation::Write => 13,
            Operation::Writev => 14,
            Operation::SendMsg => 15,
        }
    }

    /// The number by which the kernel knows the operation. Updating a timeout
    /// and removing one share a number.
    pub open spec fn opcode(self) -> u8 {
        match self {
            Operation::OpenAt => 18,
            Operation::Fsync => 3,
            Operation::Timeout => 11,
            Operation::TimeoutUpdate => 12,
            Operation::TimeoutRemove => 12,
            Operation::EpollCtl => 29,
            Operation::Accept => 13,
            Operation::Connect => 16,
            Operation::Recv => 27,
            Operation::Read => 22,
            Operation::Readv => 1,
            Operation::RecvMsg => 10,
            Operation::Send => 26,
            Operation::Write => 23,
            Operation::Writev => 2,
            Operation::SendMsg => 9,
        }
    }

    /// The number by which the kernel knows the operation.
    pub fn code(self) -> (code: u8)
        ensures
            code == self.opcode(),
    {
        match self {
            Operation::OpenAt => openat_code(),
            Operation::Fsync => fsync_code(),
            Operation::Timeout => timeout_code(),
            Operation::TimeoutUpdate => timeout_update_code(),
            Operation::TimeoutRemove => timeout_remove_code(),
            Operation::EpollCtl => epoll_ctl_code(),
            Operation::Accept => accept_code(),
            Operation::Connect => connect_code(),
            Operation::Recv => recv_code(),
            Operation::Read => read_code(),
            Operation::Readv => readv_code(),
            Operation::RecvMsg => recvmsg_code(),
            Operation::Send => send_code(),
            Operation::Write => write_code(),
            Operation::Writev => writev_code(),
            Operation::SendMsg => sendmsg_code(),
        }
    }
}

/// What is known of the kernel: whether it has io_uring at all, and what it
/// answered for each operation.
#[derive(Clone, Copy, Debug, PartialEq, Eq)]
pub struct Support {
    kernel: bool,
    answers: [bool; 16],
}

impl Support {
    /// Whether the kernel has io_uring at all.
    pub closed spec fn has_kernel(self) -> bool {
        self.kernel
    }

    /// What the kernel answered for one operation.
    pub closed spec fn answered(self, operation: Operation) -> bool {
        self.answers@[operation.place()]
    }

    /// An operation may be queued when the kernel has io_uring and accepts the
    /// operation.
    pub open spec fn grants(self, operation: Operation) -> bool {
        self.has_kernel() && self.answered(operation)
    }

    /// A kernel of which no operation is known to be accepted yet.
    pub fn new(kernel: bool) -> (support: Support)
        ensures
            support.has_kernel() == kernel,
            forall|operation: Operation| !support.answered(operation),
    {
        Support { kernel, answers: [false; 16] }
    }

    /// The same knowledge, with the kernel's answer for one operation replaced.
    pub fn with(self, operation: Operation, supported: bool) -> (support: Support)
        ensures
            support.has_kernel() == self.has_kernel(),
            forall|other: Operation|
                support.answered(other) == (if other == operation {
                    supported
                } else {
                    self.answered(other)
                }),
    {
        let mut answers: [bool; 16] = self.answers;
        answers[operation.index()] = supported;
        Support { kernel: self.kernel, answers }
    }

    /// The same knowledge, with the answer for one operation looked up in a
    /// probe record.
    fn with_probe(self, probe: &io_uring::Probe, operation: Operation) -> (support: Support)
        ensures
            support.has_kernel() == self.has_kernel(),
            forall|other: Operation|
                support.answered(other) == (if other == operation {
                    probe_marks(*probe, operation.opcode())
                } else {
                    self.answered(other)
                }),
    {
        self.with(operation, probe.is_supported(operation.code()))
    }

    /// What a kernel with io_uring answered, by the probe record that it filled
    /// in: each operation is looked up under its own number.
    pub fn probed(probe: &io_uring::Probe) -> (support: Support)
        ensures
            support.has_kernel(),
            forall|operation: Operation|
                support.answered(operation) == probe_marks(*probe, operation.opcode()),
    {
        Support::new(true)
            .with_probe(probe, Operation::OpenAt)
            .with_probe(probe, Operation::Fsync)
            .with_probe(probe, Operation::Timeout)
            .with_probe(probe, Operation::TimeoutUpdate)
            .with_probe(probe, Operation::TimeoutRemove)
            .with_probe(probe, Operation::EpollCtl)
            .with_probe(probe, Operation::Accept)
            .with_probe(probe, Operation::Connect)
            .with_probe(probe, Operation::Recv)
            .with_probe(probe, Operation::Read)
            .with_probe(probe, Operation::Readv)
            .with_probe(probe, Operation::RecvMsg)
            .with_probe(probe, Operation::Send)
            .with_probe(probe, Operation::Write)
            .with_probe(probe, Operation::Writev)
            .with_probe(probe, Operation::SendMsg)
    }

    /// Whether the kernel has io_uring at all.
    pub fn kernel(&self) -> (kernel: bool)
        ensures
            kernel == self.has_kernel(),
    {
        self.kernel
    }

    /// Whether an operation may be queued.
    pub fn supports(&self, operation: Operation) -> (supported: bool)
        ensures
            supported == self.grants(operation),
            supported == (self.has_kernel() && self.answered(operation)),
    {
        self.kernel && self.answers[operation.index()]
    }
}

} // verus!
