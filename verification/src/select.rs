//! Waiting for completions and working off the backlog.
//!
//! `select` arms a timeout, waits for a completion, and then moves entries from
//! the backlog to the ring. Only the holder of the ring can do the outside part
//! of this, so `select` says what to do next, and `resume` is told what came of
//! it and says what to do then.
//!
//! The backlog is worked off in rounds. A round asks whether the ring is full,
//! submits if it is, synchronises with the kernel, and moves entries until the
//! ring refuses one or none is left; then comes the next round. The rounds end
//! only when the kernel turns down a submission.

use crate::backlog::Stolen;
use crate::operator::{Error, IoUringOperator};
use crate::request::{Interval, SqEntry};
use crate::support::Operation;
use std::time::Duration;
use vstd::prelude::*;

verus! {

/// Reads the constant `libc::EBUSY`, which is 16 on Linux.
#[verifier::external_body]
fn ebusy() -> (code: i32)
    ensures
        code == 16,
{
    libc::EBUSY
}

/// The kernel's answer to a system call: a count, or an error with its code
/// where it has one.
pub type Answer = Result<usize, Option<i32>>;

/// Whether an error says that the kernel is busy.
pub open spec fn is_busy(code: Option<i32>) -> bool {
    code == Some(16i32)
}

/// Whether an error says that the kernel is busy.
fn busy(code: Option<i32>) -> (busy: bool)
    ensures
        busy == is_busy(code),
        busy == (code == Some(16i32)),
{
    match code {
        Some(code) => code == ebusy(),
        None => false,
    }
}

/// Why `select` fails.
#[derive(Clone, Copy, Debug, PartialEq, Eq)]
pub enum SelectError {
    /// The kernel has no io_uring, or a timeout was asked for and the kernel does
    /// not accept timeouts.
    Unsupported,
    /// Waiting failed.
    Wait(Option<i32>),
    /// Working off the backlog, a submission failed for another reason than a
    /// busy kernel.
    Submit(Option<i32>),
}

/// What `select` needs done next. From `Reap` on, `waited` is the kernel's answer
/// to the wait.
#[derive(Clone, Copy, Debug, PartialEq, Eq)]
pub enum Select {
    /// Push the timeout onto the ring.
    Arm { entry: SqEntry },
    /// Submit what is queued and wait for `want` completions.
    Wait { want: usize },
    /// Synchronise the completion queue.
    Reap { waited: Answer },
    /// Look whether the submission queue is full.
    Check { waited: Answer },
    /// Submit what is queued.
    Submit { waited: Answer },
    /// Synchronise the submission queue.
    Refresh { waited: Answer },
    /// Push an entry from the backlog onto the ring.
    Push { waited: Answer, entry: SqEntry },
    /// Nothing: taking an entry from the backlog failed and is repeated.
    Retry { waited: Answer },
    /// It is over: the number of entries that the wait submitted, or the error.
    Finished { result: Result<usize, SelectError> },
}

/// What came of the last thing done.
#[derive(Clone, Copy, Debug, PartialEq, Eq)]
pub enum Event {
    /// Whether the ring took the entry.
    Pushed(bool),
    /// The kernel's answer to the wait.
    Waited(Answer),
    /// A queue was synchronised.
    Synced,
    /// Whether the submission queue is full.
    Full(bool),
    /// The kernel's answer to the submission.
    Submitted(Answer),
    /// Nothing was to be done.
    Nothing,
}

/// What a finished wait comes to.
pub open spec fn wait_result(waited: Answer) -> Result<usize, SelectError> {
    match waited {
        Ok(count) => Ok(count),
        Err(code) => Err(SelectError::Wait(code)),
    }
}

/// What follows an attempt to take an entry from the backlog.
pub open spec fn stolen_next(waited: Answer, stolen: Stolen) -> Select {
    match stolen {
        Stolen::Entry(entry) => Select::Push { waited, entry },
        Stolen::Empty => Select::Check { waited },
        Stolen::Retry => Select::Retry { waited },
    }
}

/// One attempt to take an entry from the backlog, and what follows it.
pub open spec fn may_take(
    before: Seq<SqEntry>,
    waited: Answer,
    after: Seq<SqEntry>,
    next: Select,
) -> bool {
    exists|stolen: Stolen| #[trigger]
        crate::backlog::may_steal(before, stolen, after) && next == stolen_next(waited, stolen)
}

impl Select {
    /// Whether an event answers to what is needed.
    pub open spec fn awaits(self, event: Event) -> bool {
        match self {
            Select::Arm { .. } => event is Pushed,
            Select::Wait { .. } => event is Waited,
            Select::Reap { .. } => event is Synced,
            Select::Check { .. } => event is Full,
            Select::Submit { .. } => event is Submitted,
            Select::Refresh { .. } => event is Synced,
            Select::Push { .. } => event is Pushed,
            Select::Retry { .. } => event is Nothing,
            Select::Finished { .. } => false,
        }
    }

    /// Whether an event answers to what is needed.
    pub fn expects(&self, event: &Event) -> (expected: bool)
        ensures
            expected == self.awaits(*event),
    {
        match (*self, *event) {
            (Select::Arm { .. }, Event::Pushed(_)) => true,
            (Select::Wait { .. }, Event::Waited(_)) => true,
            (Select::Reap { .. }, Event::Synced) => true,
            (Select::Check { .. }, Event::Full(_)) => true,
            (Select::Submit { .. }, Event::Submitted(_)) => true,
            (Select::Refresh { .. }, Event::Synced) => true,
            (Select::Push { .. }, Event::Pushed(_)) => true,
            (Select::Retry { .. }, Event::Nothing) => true,
            _ => false,
        }
    }
}

/// What `select` begins with: the error where the kernel has no io_uring or
/// refuses the timeout, the timeout where one is asked for, and otherwise the
/// wait for one completion.
pub open spec fn begun(support: crate::support::Support, interval: Option<Interval>) -> Select {
    if !support.has_kernel() {
        Select::Finished { result: Err(SelectError::Unsupported) }
    } else {
        match crate::operator::timer_added(support, 0, interval) {
            Ok(Some(entry)) => Select::Arm { entry },
            Ok(None) => Select::Wait { want: 1 },
            Err(_) => Select::Finished { result: Err(SelectError::Unsupported) },
        }
    }
}

/// One step of `select`: with the backlog `before`, an event that answers to
/// `select` may leave the backlog `after` and need `next`. All but the taking of
/// an entry is determined.
pub open spec fn advances(
    before: Seq<SqEntry>,
    select: Select,
    event: Event,
    after: Seq<SqEntry>,
    next: Select,
) -> bool {
    match (select, event) {
        (Select::Arm { entry }, Event::Pushed(taken)) => after
            == crate::operator::offered(before, entry, taken)
            && next == (Select::Wait { want: 1 }),
        (Select::Wait { .. }, Event::Waited(waited)) => after == before && next == (Select::Reap {
            waited,
        }),
        (Select::Reap { waited }, Event::Synced) => after == before && next == (Select::Check {
            waited,
        }),
        (Select::Check { waited }, Event::Full(full)) => after == before && next == (if full {
            Select::Submit { waited }
        } else {
            Select::Refresh { waited }
        }),
        (Select::Submit { waited }, Event::Submitted(answer)) => after == before && next == (
        match answer {
            Ok(_) => Select::Refresh { waited },
            Err(code) => Select::Finished {
                result: if is_busy(code) {
                    wait_result(waited)
                } else {
                    Err(SelectError::Submit(code))
                },
            },
        }),
        (Select::Refresh { waited }, Event::Synced) => may_take(before, waited, after, next),
        (Select::Push { waited, entry }, Event::Pushed(taken)) => if taken {
            may_take(before, waited, after, next)
        } else {
            after == before.push(entry) && next == (Select::Check { waited })
        },
        (Select::Retry { waited }, Event::Nothing) => may_take(before, waited, after, next),
        _ => false,
    }
}

/// What follows an attempt to take an entry from the backlog.
pub fn after_steal(waited: Answer, stolen: Stolen) -> (next: Select)
    ensures
        next == stolen_next(waited, stolen),
        stolen matches Stolen::Entry(entry) ==> next == (Select::Push { waited, entry }),
        stolen is Empty ==> next == (Select::Check { waited }),
        stolen is Retry ==> next == (Select::Retry { waited }),
{
    match stolen {
        Stolen::Entry(entry) => Select::Push { waited, entry },
        Stolen::Empty => Select::Check { waited },
        Stolen::Retry => Select::Retry { waited },
    }
}

/// What follows the kernel's answer to a submission.
pub fn after_submit(waited: Answer, answer: Answer) -> (next: Select)
    ensures
        next == (match answer {
            Ok(_) => Select::Refresh { waited },
            Err(code) => Select::Finished {
                result: if is_busy(code) {
                    wait_result(waited)
                } else {
                    Err(SelectError::Submit(code))
                },
            },
        }),
        answer is Ok ==> next == (Select::Refresh { waited }),
        answer == Err::<usize, Option<i32>>(Some(16i32)) ==> (match waited {
            Ok(count) => next == (Select::Finished { result: Ok(count) }),
            Err(code) => next == (Select::Finished { result: Err(SelectError::Wait(code)) }),
        }),
        answer matches Err(code) ==> code != Some(16i32) ==> next == (Select::Finished {
            result: Err(SelectError::Submit(code)),
        }),
{
    match answer {
        Ok(_) => Select::Refresh { waited },
        Err(code) => if busy(code) {
            match waited {
                Ok(count) => Select::Finished { result: Ok(count) },
                Err(code) => Select::Finished { result: Err(SelectError::Wait(code)) },
            }
        } else {
            Select::Finished { result: Err(SelectError::Submit(code)) }
        },
    }
}

impl IoUringOperator {
    /// Begins to wait for a completion, for at most the given duration. The
    /// timeout's own completion carries the user data 0.
    pub fn select(&self, timeout: Option<Duration>) -> (next: Select)
        ensures
            next == begun(self@.support, Interval::spans_opt(timeout)),
            next matches Select::Arm { entry } ==> entry.request->Timeout_interval.nsec
                < 1_000_000_000,
            next is Arm <==> self@.support.has_kernel() && timeout is Some
                && self@.support.answered(Operation::Timeout),
            next matches Select::Arm { entry } ==> entry.user_data == 0 && entry.request is Timeout
                && entry.request->Timeout_interval.sec == crate::request::duration_secs(timeout->0)
                && entry.request->Timeout_interval.nsec == crate::request::duration_nanos(
                timeout->0,
            ),
            next == (Select::Wait { want: 1 }) <==> self@.support.has_kernel() && timeout is None,
            next is Arm || next == (Select::Wait { want: 1 }) || next == (Select::Finished {
                result: Err(SelectError::Unsupported),
            }),
    {
        self.begin_select(Interval::of_opt(timeout))
    }

    /// Begins to wait for a completion, for at most the given span.
    pub fn begin_select(&self, interval: Option<Interval>) -> (next: Select)
        ensures
            next == begun(self@.support, interval),
    {
        if !self.support().kernel() {
            return Select::Finished { result: Err(SelectError::Unsupported) };
        }
        match self.arm_timer(0, interval) {
            Ok(Some(entry)) => Select::Arm { entry },
            Ok(None) => Select::Wait { want: 1 },
            Err(Error::Unsupported) => Select::Finished { result: Err(SelectError::Unsupported) },
        }
    }

    /// Goes on with a `select` after an event that answers to what it needed.
    pub fn resume(&mut self, select: Select, event: Event) -> (next: Select)
        requires
            select.awaits(event),
        ensures
            final(self)@.config == old(self)@.config,
            final(self)@.support == old(self)@.support,
            advances(old(self)@.backlog, select, event, final(self)@.backlog, next),
    {
        match (select, event) {
            (Select::Arm { entry }, Event::Pushed(taken)) => {
                self.push_sq(entry, taken);
                Select::Wait { want: 1 }
            },
            (Select::Wait { .. }, Event::Waited(waited)) => Select::Reap { waited },
            (Select::Reap { waited }, Event::Synced) => Select::Check { waited },
            (Select::Check { waited }, Event::Full(full)) => if full {
                Select::Submit { waited }
            } else {
                Select::Refresh { waited }
            },
            (Select::Submit { waited }, Event::Submitted(answer)) => after_submit(waited, answer),
            (Select::Refresh { waited }, Event::Synced) => self.take(waited),
            (Select::Push { waited, entry }, Event::Pushed(taken)) => if taken {
                self.take(waited)
            } else {
                self.push_sq(entry, false);
                Select::Check { waited }
            },
            (Select::Retry { waited }, Event::Nothing) => self.take(waited),
            _ => select,
        }
    }

    /// Takes the oldest entry out of the backlog, to be pushed next.
    fn take(&mut self, waited: Answer) -> (next: Select)
        ensures
            final(self)@.config == old(self)@.config,
            final(self)@.support == old(self)@.support,
            may_take(old(self)@.backlog, waited, final(self)@.backlog, next),
    {
        let stolen = self.steal();
        assert(crate::backlog::may_steal(old(self)@.backlog, stolen, self@.backlog));
        after_steal(waited, stolen)
    }
}

} // verus!
