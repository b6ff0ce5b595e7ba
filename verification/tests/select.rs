use std::time::Duration;
use uring_operator::select::{after_steal, after_submit};
use uring_operator::{
    Event, Interval, IoUringOperator, Operation, Request, Select, SelectError, SqEntry, Stolen,
    Support,
};

fn entry(user_data: u64) -> SqEntry {
    SqEntry {
        request: Request::Fsync { fd: 1 },
        user_data,
    }
}

fn with_backlog(count: u64) -> IoUringOperator {
    let support = Support::new(true).with(Operation::Timeout, true);
    let mut operator = IoUringOperator::new(0, support);
    for user_data in 1..=count {
        operator.push_sq(entry(user_data), false);
    }
    operator
}

/// Takes what is left in the backlog, in order.
fn left(operator: &mut IoUringOperator) -> Vec<u64> {
    let mut tags = Vec::new();
    loop {
        match operator.steal() {
            Stolen::Entry(entry) => tags.push(entry.user_data),
            Stolen::Empty => return tags,
            Stolen::Retry => (),
        }
    }
}

/// A submission queue that the kernel empties whenever it is submitted, until it
/// has answered the given number of submissions; then it says it is busy.
struct Ring {
    room: usize,
    queued: Vec<u64>,
    submitted: Vec<u64>,
    patience: usize,
}

impl Ring {
    fn new(room: usize, patience: usize) -> Ring {
        Ring {
            room,
            queued: Vec::new(),
            submitted: Vec::new(),
            patience,
        }
    }

    fn push(&mut self, entry: SqEntry) -> bool {
        if self.queued.len() < self.room {
            self.queued.push(entry.user_data);
            true
        } else {
            false
        }
    }

    fn answer(&mut self, next: Select) -> Event {
        match next {
            Select::Arm { entry } => Event::Pushed(self.push(entry)),
            Select::Wait { .. } => Event::Waited(Ok(1)),
            Select::Reap { .. } | Select::Refresh { .. } => Event::Synced,
            Select::Check { .. } => Event::Full(self.queued.len() == self.room),
            Select::Submit { .. } => {
                if self.patience == 0 {
                    Event::Submitted(Err(Some(libc::EBUSY)))
                } else {
                    self.patience -= 1;
                    let count = self.queued.len();
                    self.submitted.append(&mut self.queued);
                    Event::Submitted(Ok(count))
                }
            }
            Select::Push { entry, .. } => Event::Pushed(self.push(entry)),
            Select::Retry { .. } => Event::Nothing,
            Select::Finished { .. } => panic!("nothing is awaited"),
        }
    }
}

fn run(
    operator: &mut IoUringOperator,
    ring: &mut Ring,
    mut next: Select,
) -> Result<usize, SelectError> {
    loop {
        if let Select::Finished { result } = next {
            return result;
        }
        let event = ring.answer(next);
        assert!(next.expects(&event));
        next = operator.resume(next, event);
    }
}

#[test]
fn without_io_uring_select_is_unsupported() {
    let operator = IoUringOperator::new(0, Support::new(false));
    let over = Select::Finished {
        result: Err(SelectError::Unsupported),
    };
    assert_eq!(operator.select(None), over);
    assert_eq!(operator.select(Some(Duration::from_secs(1))), over);
}

#[test]
fn without_timeouts_only_an_endless_select_is_supported() {
    let operator = IoUringOperator::new(0, Support::new(true));
    assert_eq!(operator.select(None), Select::Wait { want: 1 });
    assert_eq!(
        operator.select(Some(Duration::from_secs(1))),
        Select::Finished {
            result: Err(SelectError::Unsupported)
        }
    );
}

#[test]
fn select_arms_its_timeout_under_zero() {
    let operator = with_backlog(0);
    let interval = Interval { sec: 1, nsec: 1_000_000 };
    let armed = Select::Arm {
        entry: SqEntry {
            request: Request::Timeout { interval },
            user_data: 0,
        },
    };
    assert_eq!(operator.select(Some(Duration::from_millis(1001))), armed);
    assert_eq!(operator.begin_select(Some(interval)), armed);
}

#[test]
fn a_timeout_without_room_waits_in_the_backlog() {
    let mut operator = with_backlog(2);
    let next = operator.select(Some(Duration::from_secs(1)));
    assert_eq!(
        operator.resume(next, Event::Pushed(false)),
        Select::Wait { want: 1 }
    );
    assert_eq!(left(&mut operator), vec![1, 2, 0]);
}

#[test]
fn an_entry_that_the_ring_took_is_not_kept() {
    let mut operator = with_backlog(1);
    operator.push_sq(entry(8), true);
    operator.push_sq(entry(9), false);
    assert_eq!(left(&mut operator), vec![1, 9]);
}

#[test]
fn the_backlog_leaves_in_order() {
    let mut operator = with_backlog(200);
    assert_eq!(left(&mut operator), (1..=200).collect::<Vec<u64>>());
    assert!(operator.is_backlog_empty());
}

#[test]
fn the_steps_before_the_backlog() {
    let mut operator = with_backlog(0);
    let next = operator.select(None);
    let next = operator.resume(next, Event::Waited(Ok(4)));
    assert_eq!(next, Select::Reap { waited: Ok(4) });
    let next = operator.resume(next, Event::Synced);
    assert_eq!(next, Select::Check { waited: Ok(4) });
    assert_eq!(
        operator.resume(next, Event::Full(true)),
        Select::Submit { waited: Ok(4) }
    );
    let next = operator.resume(next, Event::Full(false));
    assert_eq!(next, Select::Refresh { waited: Ok(4) });
    assert_eq!(
        operator.resume(next, Event::Synced),
        Select::Check { waited: Ok(4) }
    );
}

#[test]
fn a_refused_entry_goes_to_the_back() {
    let mut operator = with_backlog(3);
    let next = operator.resume(
        Select::Push {
            waited: Ok(1),
            entry: entry(9),
        },
        Event::Pushed(false),
    );
    assert_eq!(next, Select::Check { waited: Ok(1) });
    assert_eq!(left(&mut operator), vec![1, 2, 3, 9]);
}

#[test]
fn a_repeated_attempt_takes_the_oldest_entry() {
    let mut operator = with_backlog(2);
    let mut next = Select::Retry { waited: Ok(1) };
    while let Select::Retry { .. } = next {
        next = operator.resume(next, Event::Nothing);
    }
    assert_eq!(
        next,
        Select::Push {
            waited: Ok(1),
            entry: entry(1)
        }
    );
    assert_eq!(left(&mut operator), vec![2]);
}

#[test]
fn what_follows_an_attempt() {
    let waited = Err(Some(5));
    assert_eq!(
        after_steal(waited, Stolen::Entry(entry(2))),
        Select::Push {
            waited,
            entry: entry(2)
        }
    );
    assert_eq!(after_steal(waited, Stolen::Empty), Select::Check { waited });
    assert_eq!(after_steal(waited, Stolen::Retry), Select::Retry { waited });
}

#[test]
fn a_busy_kernel_ends_with_the_answer_to_the_wait() {
    assert_eq!(libc::EBUSY, 16);
    assert_eq!(
        after_submit(Ok(3), Err(Some(libc::EBUSY))),
        Select::Finished { result: Ok(3) }
    );
    assert_eq!(
        after_submit(Err(Some(libc::EINTR)), Err(Some(libc::EBUSY))),
        Select::Finished {
            result: Err(SelectError::Wait(Some(libc::EINTR)))
        }
    );
    assert_eq!(
        after_submit(Err(None), Err(Some(libc::EBUSY))),
        Select::Finished {
            result: Err(SelectError::Wait(None))
        }
    );
}

#[test]
fn another_failure_ends_with_its_own_error() {
    for code in [None, Some(libc::EAGAIN), Some(0)] {
        assert_eq!(
            after_submit(Ok(3), Err(code)),
            Select::Finished {
                result: Err(SelectError::Submit(code))
            }
        );
    }
    assert_eq!(
        after_submit(Ok(3), Ok(0)),
        Select::Refresh { waited: Ok(3) }
    );
}

#[test]
fn a_failed_wait_does_not_stop_the_work() {
    let mut operator = with_backlog(1);
    let next = operator.resume(Select::Wait { want: 1 }, Event::Waited(Err(Some(4))));
    let next = operator.resume(next, Event::Synced);
    let next = operator.resume(next, Event::Full(false));
    assert_eq!(
        next,
        Select::Refresh {
            waited: Err(Some(4))
        }
    );
}

#[test]
fn a_round_fills_the_ring_and_turns_the_next_entry_round() {
    let mut operator = with_backlog(5);
    let mut ring = Ring::new(2, 0);
    let next = operator.select(None);
    assert_eq!(run(&mut operator, &mut ring, next), Ok(1));
    assert_eq!(ring.queued, vec![1, 2]);
    assert_eq!(left(&mut operator), vec![4, 5, 3]);
}

#[test]
fn no_entry_is_lost_over_many_rounds() {
    let mut operator = with_backlog(150);
    let mut ring = Ring::new(8, 10);
    let next = operator.select(None);
    assert_eq!(run(&mut operator, &mut ring, next), Ok(1));
    let mut all = ring.submitted.clone();
    all.append(&mut ring.queued);
    assert_eq!(all.len(), 88);
    all.append(&mut left(&mut operator));
    all.sort_unstable();
    assert_eq!(all, (1..=150).collect::<Vec<u64>>());
}

#[test]
fn events_answer_to_what_is_needed() {
    let waited = Ok(1);
    assert!(Select::Arm { entry: entry(1) }.expects(&Event::Pushed(true)));
    assert!(Select::Wait { want: 1 }.expects(&Event::Waited(Ok(0))));
    assert!(Select::Reap { waited }.expects(&Event::Synced));
    assert!(Select::Check { waited }.expects(&Event::Full(false)));
    assert!(Select::Submit { waited }.expects(&Event::Submitted(Ok(0))));
    assert!(Select::Refresh { waited }.expects(&Event::Synced));
    assert!(Select::Retry { waited }.expects(&Event::Nothing));
    assert!(!Select::Wait { want: 1 }.expects(&Event::Submitted(Ok(0))));
    assert!(!Select::Finished { result: Ok(1) }.expects(&Event::Nothing));
}
