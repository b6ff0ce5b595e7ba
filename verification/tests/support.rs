use io_uring::{opcode, Probe};
use uring_operator::{Operation, Support};

const ALL: [Operation; 16] = [
    Operation::OpenAt,
    Operation::Fsync,
    Operation::Timeout,
    Operation::TimeoutUpdate,
    Operation::TimeoutRemove,
    Operation::EpollCtl,
    Operation::Accept,
    Operation::Connect,
    Operation::Recv,
    Operation::Read,
    Operation::Readv,
    Operation::RecvMsg,
    Operation::Send,
    Operation::Write,
    Operation::Writev,
    Operation::SendMsg,
];

#[test]
fn codes_are_the_kernels_numbers() {
    let codes: Vec<u8> = ALL.iter().map(|operation| operation.code()).collect();
    assert_eq!(
        codes,
        vec![18, 3, 11, 12, 12, 29, 13, 16, 27, 22, 1, 10, 26, 23, 2, 9]
    );
}

#[test]
fn codes_are_the_builders_codes() {
    assert_eq!(Operation::OpenAt.code(), opcode::OpenAt::CODE);
    assert_eq!(Operation::Fsync.code(), opcode::Fsync::CODE);
    assert_eq!(Operation::Timeout.code(), opcode::Timeout::CODE);
    assert_eq!(Operation::TimeoutUpdate.code(), opcode::TimeoutUpdate::CODE);
    assert_eq!(Operation::TimeoutRemove.code(), opcode::TimeoutRemove::CODE);
    assert_eq!(Operation::EpollCtl.code(), opcode::EpollCtl::CODE);
    assert_eq!(Operation::Accept.code(), opcode::Accept::CODE);
    assert_eq!(Operation::Connect.code(), opcode::Connect::CODE);
    assert_eq!(Operation::Recv.code(), opcode::Recv::CODE);
    assert_eq!(Operation::Read.code(), opcode::Read::CODE);
    assert_eq!(Operation::Readv.code(), opcode::Readv::CODE);
    assert_eq!(Operation::RecvMsg.code(), opcode::RecvMsg::CODE);
    assert_eq!(Operation::Send.code(), opcode::Send::CODE);
    assert_eq!(Operation::Write.code(), opcode::Write::CODE);
    assert_eq!(Operation::Writev.code(), opcode::Writev::CODE);
    assert_eq!(Operation::SendMsg.code(), opcode::SendMsg::CODE);
}

#[test]
fn nothing_is_supported_at_first() {
    let support = Support::new(true);
    assert!(support.kernel());
    for operation in ALL {
        assert!(!support.supports(operation));
    }
}

#[test]
fn an_answer_touches_one_operation() {
    for operation in ALL {
        let support = Support::new(true).with(operation, true);
        for other in ALL {
            assert_eq!(support.supports(other), other == operation);
        }
        let taken_back = support.with(operation, false);
        assert!(!taken_back.supports(operation));
    }
}

#[test]
fn without_io_uring_no_answer_counts() {
    for operation in ALL {
        let support = Support::new(false).with(operation, true);
        assert!(!support.kernel());
        assert!(!support.supports(operation));
    }
}

#[test]
fn an_unfilled_probe_marks_nothing() {
    let support = Support::probed(&Probe::new());
    assert!(support.kernel());
    for operation in ALL {
        assert!(!support.supports(operation));
    }
}
