//! What holds of the library as a whole.

use crate::operator::{Error, OperatorView};
use crate::request::{Interval, Request, SqEntry};
use crate::select::{Answer, Event, Select, SelectError};
use crate::support::{Operation, Support};
use libc::{c_int, off_t, size_t};
use std::time::Duration;
use vstd::multiset::Multiset;
use vstd::prelude::*;

verus! {

/// A `select` under way and the backlog that it works on.
pub struct Moment {
    pub select: Select,
    pub backlog: Seq<SqEntry>,
}

/// What may happen between two moments: the `select` is resumed, or an entry of
/// another call is offered to the ring.
pub enum Move {
    Resume(Event),
    Offer { entry: SqEntry, taken: bool },
}

/// The entry that was taken out of the backlog, or never entered it, and is about
/// to be pushed.
pub open spec fn in_hand(select: Select) -> Seq<SqEntry> {
    match select {
        Select::Arm { entry } => seq![entry],
        Select::Push { entry, .. } => seq![entry],
        _ => Seq::empty(),
    }
}

impl Move {
    /// Whether the move leads from one moment to another, as `resume` and
    /// `push_sq` state it.
    pub open spec fn leads(self, before: Moment, after: Moment) -> bool {
        match self {
            Move::Resume(event) => before.select.awaits(event) && crate::select::advances(
                before.backlog,
                before.select,
                event,
                after.backlog,
                after.select,
            ),
            Move::Offer { entry, taken } => after.select == before.select && after.backlog
                == crate::operator::offered(before.backlog, entry, taken),
        }
    }

    /// The entry that the move brings in.
    pub open spec fn arrived(self) -> Seq<SqEntry> {
        match self {
            Move::Resume(_) => Seq::empty(),
            Move::Offer { entry, .. } => seq![entry],
        }
    }

    /// The entry that the ring takes in the move.
    pub open spec fn taken(self, select: Select) -> Seq<SqEntry> {
        match self {
            Move::Resume(event) => if event == Event::Pushed(true) {
                in_hand(select)
            } else {
                Seq::empty()
            },
            Move::Offer { entry, taken } => if taken {
                seq![entry]
            } else {
                Seq::empty()
            },
        }
    }

    /// The entry that the move leaves at the back of the backlog for want of room
    /// in the ring, where it came from outside the backlog.
    pub open spec fn kept_back(self) -> Seq<SqEntry> {
        match self {
            Move::Offer { entry, taken: false } => seq![entry],
            _ => Seq::empty(),
        }
    }
}

/// Moments that follow one another by the given moves.
pub open spec fn is_run(moments: Seq<Moment>, moves: Seq<Move>) -> bool {
    &&& moments.len() == moves.len() + 1
    &&& forall|i: int|
        0 <= i < moves.len() ==> #[trigger] moves[i].leads(moments[i], moments[i + 1])
}

/// A run without its last move is a run, and the last move leads on from it.
proof fn lemma_without_last_move(moments: Seq<Moment>, moves: Seq<Move>)
    requires
        is_run(moments, moves),
        moves.len() > 0,
    ensures
        is_run(moments.drop_last(), moves.drop_last()),
        moments.drop_last().first() == moments.first(),
        moments.drop_last().last() == moments[moves.len() - 1],
        moves.last().leads(moments[moves.len() - 1], moments.last()),
{
    let n = moves.len() - 1;
    let earlier_moments = moments.drop_last();
    let earlier = moves.drop_last();
    assert forall|i: int| 0 <= i < earlier.len() implies #[trigger] earlier[i].leads(
        earlier_moments[i],
        earlier_moments[i + 1],
    ) by {
        assert(moves[i].leads(moments[i], moments[i + 1]));
    }
    assert(moves[n].leads(moments[n], moments[n + 1]));
}

/// The entries that a run brings in.
pub open spec fn arrivals(moves: Seq<Move>) -> Seq<SqEntry>
    decreases moves.len(),
{
    if moves.len() == 0 {
        Seq::empty()
    } else {
        arrivals(moves.drop_last()) + moves.last().arrived()
    }
}

/// The entries that the ring takes in a run, in the order of taking.
pub open spec fn taken_by_ring(moments: Seq<Moment>, moves: Seq<Move>) -> Seq<SqEntry>
    decreases moves.len(),
{
    if moves.len() == 0 {
        Seq::empty()
    } else {
        taken_by_ring(moments.drop_last(), moves.drop_last()) + moves.last().taken(
            moments[moves.len() - 1].select,
        )
    }
}

/// How often each entry is held: in hand or in the backlog.
pub open spec fn held(moment: Moment) -> Multiset<SqEntry> {
    in_hand(moment.select).to_multiset().add(moment.backlog.to_multiset())
}

proof fn lemma_first_and_rest(entries: Seq<SqEntry>)
    requires
        entries.len() > 0,
    ensures
        entries.to_multiset() == seq![entries.first()].to_multiset().add(
            entries.drop_first().to_multiset(),
        ),
{
    assert(entries =~= seq![entries.first()] + entries.drop_first());
    vstd::seq_lib::lemma_multiset_commutative(seq![entries.first()], entries.drop_first());
}

proof fn lemma_push_is_add(entries: Seq<SqEntry>, entry: SqEntry)
    ensures
        entries.push(entry).to_multiset() == seq![entry].to_multiset().add(entries.to_multiset()),
{
    assert(entries.push(entry) =~= entries + seq![entry]);
    vstd::seq_lib::lemma_multiset_commutative(entries, seq![entry]);
    assert(entries.to_multiset().add(seq![entry].to_multiset()) =~= seq![entry].to_multiset().add(
        entries.to_multiset(),
    ));
}

/// No entry is lost or doubled in a move: what was held and what arrived is what
/// the ring took and what is held afterwards.
pub proof fn law_move_conserves(before: Moment, step: Move, after: Moment)
    requires
        step.leads(before, after),
    ensures
        held(before).add(step.arrived().to_multiset()) == step.taken(
            before.select,
        ).to_multiset().add(held(after)),
{
    broadcast use vstd::seq_lib::group_to_multiset_ensures;

    let none = Seq::<SqEntry>::empty();
    assert(none.to_multiset() =~= Multiset::<SqEntry>::empty());
    match step {
        Move::Offer { entry, taken } => {
            lemma_push_is_add(before.backlog, entry);
        },
        Move::Resume(event) => {
            match before.select {
                Select::Arm { entry } => {
                    lemma_push_is_add(before.backlog, entry);
                },
                Select::Push { entry, .. } => {
                    lemma_push_is_add(before.backlog, entry);
                },
                _ => {},
            }
            if before.backlog.len() > 0 {
                lemma_first_and_rest(before.backlog);
            }
        },
    }
    assert(held(before).add(step.arrived().to_multiset()) =~= step.taken(
        before.select,
    ).to_multiset().add(held(after)));
}

/// No entry is lost or doubled in a run, whatever the kernel and the ring answer:
/// what was held at first and what arrived is what the ring took and what is held
/// in the end.
pub proof fn law_run_conserves(moments: Seq<Moment>, moves: Seq<Move>)
    requires
        is_run(moments, moves),
    ensures
        held(moments.first()).add(arrivals(moves).to_multiset()) == taken_by_ring(
            moments,
            moves,
        ).to_multiset().add(held(moments.last())),
    decreases moves.len(),
{
    broadcast use vstd::seq_lib::group_to_multiset_ensures;

    if moves.len() == 0 {
        assert(held(moments.first()).add(arrivals(moves).to_multiset()) =~= taken_by_ring(
            moments,
            moves,
        ).to_multiset().add(held(moments.last())));
    } else {
        let n = moves.len() - 1;
        let earlier_moments = moments.drop_last();
        let earlier = moves.drop_last();
        lemma_without_last_move(moments, moves);
        law_run_conserves(earlier_moments, earlier);
        law_move_conserves(moments[n], moves[n], moments[n + 1]);
        let taken = taken_by_ring(earlier_moments, earlier);
        let last = moves[n].taken(moments[n].select);
        let came = arrivals(earlier);
        let comes = moves[n].arrived();
        vstd::seq_lib::lemma_multiset_commutative(taken, last);
        vstd::seq_lib::lemma_multiset_commutative(came, comes);
        assert(held(moments.first()).add(came.to_multiset().add(comes.to_multiset())) =~= held(
            moments.first(),
        ).add(came.to_multiset()).add(comes.to_multiset()));
        assert(taken.to_multiset().add(held(moments[n])).add(comes.to_multiset())
            =~= taken.to_multiset().add(held(moments[n]).add(comes.to_multiset())));
        assert(taken.to_multiset().add(last.to_multiset().add(held(moments.last())))
            =~= taken.to_multiset().add(last.to_multiset()).add(held(moments.last())));
    }
}

/// Whether the move is the ring's refusal of an entry from the backlog.
pub open spec fn sends_back(select: Select, step: Move) -> bool {
    select is Push && step == Move::Resume(Event::Pushed(false))
}

/// The entries that the ring takes out of the backlog in a run, in the order of
/// taking.
pub open spec fn drained(moments: Seq<Moment>, moves: Seq<Move>) -> Seq<SqEntry>
    decreases moves.len(),
{
    if moves.len() == 0 {
        Seq::empty()
    } else {
        let earlier = drained(moments.drop_last(), moves.drop_last());
        match moves.last() {
            Move::Resume(event) => earlier + moves.last().taken(moments[moves.len() - 1].select),
            Move::Offer { .. } => earlier,
        }
    }
}

/// The entries of other calls that a run adds to the backlog, in the order of
/// adding.
pub open spec fn added(moves: Seq<Move>) -> Seq<SqEntry>
    decreases moves.len(),
{
    if moves.len() == 0 {
        Seq::empty()
    } else {
        added(moves.drop_last()) + moves.last().kept_back()
    }
}

/// Once the wait has begun, the timeout is not armed again.
pub proof fn law_armed_once(before: Moment, step: Move, after: Moment)
    requires
        step.leads(before, after),
        !(before.select is Arm),
    ensures
        !(after.select is Arm),
{
}

/// The backlog is worked off first in, first out, as long as the ring refuses
/// none of its entries: what the ring took from it, then the entry in hand, then
/// the backlog, are in the order in which they entered.
pub proof fn law_first_in_first_out(moments: Seq<Moment>, moves: Seq<Move>)
    requires
        is_run(moments, moves),
        !(moments.first().select is Arm),
        forall|i: int|
            0 <= i < moves.len() ==> !sends_back(moments[i].select, #[trigger] moves[i]),
    ensures
        drained(moments, moves) + in_hand(moments.last().select) + moments.last().backlog
            == in_hand(moments.first().select) + moments.first().backlog + added(moves),
        !(moments.last().select is Arm),
    decreases moves.len(),
{
    if moves.len() > 0 {
        let n = moves.len() - 1;
        let earlier_moments = moments.drop_last();
        let earlier = moves.drop_last();
        lemma_without_last_move(moments, moves);
        assert forall|i: int| 0 <= i < earlier.len() implies !sends_back(
            earlier_moments[i].select,
            #[trigger] earlier[i],
        ) by {
            assert(!sends_back(moments[i].select, moves[i]));
        }
        law_first_in_first_out(earlier_moments, earlier);
        let before = moments[n];
        let after = moments[n + 1];
        assert(!sends_back(before.select, moves[n]));
        let gone = drained(earlier_moments, earlier);
        match moves[n] {
            Move::Offer { .. } => {
                assert(gone + in_hand(after.select) + after.backlog =~= gone + in_hand(
                    before.select,
                ) + before.backlog + moves[n].kept_back());
            },
            Move::Resume(_) => {
                let taken = moves[n].taken(before.select);
                assert(in_hand(before.select) + before.backlog =~= taken + in_hand(after.select)
                    + after.backlog);
                assert(gone + taken + in_hand(after.select) + after.backlog =~= gone + (taken
                    + in_hand(after.select) + after.backlog));
                assert(gone + in_hand(before.select) + before.backlog =~= gone + (in_hand(
                    before.select,
                ) + before.backlog));
            },
        }
        assert(in_hand(moments.first().select) + moments.first().backlog + (added(earlier)
            + moves[n].kept_back()) =~= in_hand(moments.first().select) + moments.first().backlog
            + added(earlier) + moves[n].kept_back());
    }
}

/// The kernel's answer to the wait, once it is known and `select` is not over.
pub open spec fn answer_of(select: Select) -> Option<Answer> {
    match select {
        Select::Reap { waited } => Some(waited),
        Select::Check { waited } => Some(waited),
        Select::Submit { waited } => Some(waited),
        Select::Refresh { waited } => Some(waited),
        Select::Push { waited, .. } => Some(waited),
        Select::Retry { waited } => Some(waited),
        _ => None,
    }
}

/// The results with which a `select` may end after a wait: what the wait came to,
/// or a failed submission that did not find the kernel busy.
pub open spec fn ends_with(waited: Answer, result: Result<usize, SelectError>) -> bool {
    ||| waited matches Ok(count) && result == Ok::<usize, SelectError>(count)
    ||| waited matches Err(code) && result == Err::<usize, SelectError>(SelectError::Wait(code))
    ||| result matches Err(SelectError::Submit(code)) && code != Some(16i32)
}

/// A `select` that is under way ends only when the kernel turns down a
/// submission: with what the wait came to where the kernel was busy, and
/// otherwise with the error of that submission.
pub proof fn law_ends_on_refused_submission(before: Moment, step: Move, after: Moment)
    requires
        step.leads(before, after),
        !(before.select is Finished),
        after.select is Finished,
    ensures
        before.select is Submit,
        step matches Move::Resume(Event::Submitted(Err(code))) && after.select
            == (Select::Finished {
            result: if code == Some(16i32) {
                match before.select->Submit_waited {
                    Ok(count) => Ok(count),
                    Err(wait_code) => Err(SelectError::Wait(wait_code)),
                }
            } else {
                Err(SelectError::Submit(code))
            },
        }),
{
}

/// The answer to the wait is kept through the work on the backlog, a failed wait
/// too: every later moment of a run still has it, or is over with a result that
/// the answer allows.
pub proof fn law_wait_answer_kept(moments: Seq<Moment>, moves: Seq<Move>, waited: Answer)
    requires
        is_run(moments, moves),
        answer_of(moments.first().select) == Some(waited),
    ensures
        match moments.last().select {
            Select::Finished { result } => ends_with(waited, result),
            select => answer_of(select) == Some(waited),
        },
    decreases moves.len(),
{
    if moves.len() > 0 {
        let n = moves.len() - 1;
        let earlier_moments = moments.drop_last();
        let earlier = moves.drop_last();
        lemma_without_last_move(moments, moves);
        law_wait_answer_kept(earlier_moments, earlier, waited);
        if !(moments[n].select is Finished) && moments[n + 1].select is Finished {
            law_ends_on_refused_submission(moments[n], moves[n], moments[n + 1]);
        }
    }
}

/// A round of work on the backlog ends only when the backlog is empty or the ring
/// refused an entry, which is then at the back.
pub proof fn law_round_ends(before: Moment, event: Event, after: Moment)
    requires
        Move::Resume(event).leads(before, after),
        after.select is Check,
        !(before.select is Reap),
    ensures
        after.backlog.len() == 0 || (before.select is Push && event == Event::Pushed(false)
            && after.backlog == before.backlog.push(before.select->Push_entry)),
{
}

/// Where the ring takes every entry, one round empties the backlog into the ring,
/// in order.
pub proof fn law_round_empties(moments: Seq<Moment>, moves: Seq<Move>)
    requires
        is_run(moments, moves),
        moments.first().select is Refresh,
        moments.last().select is Check,
        forall|i: int|
            0 <= i < moves.len() ==> (#[trigger] moves[i] == Move::Resume(Event::Synced)
                || moves[i] == Move::Resume(Event::Pushed(true)) || moves[i] == Move::Resume(
                Event::Nothing,
            )),
    ensures
        moments.last().backlog.len() == 0,
        drained(moments, moves) == moments.first().backlog,
{
    let n = moves.len() - 1;
    assert forall|i: int| 0 <= i < moves.len() implies !sends_back(
        moments[i].select,
        #[trigger] moves[i],
    ) by {
        assert(moves[i] == Move::Resume(Event::Synced) || moves[i] == Move::Resume(
            Event::Pushed(true),
        ) || moves[i] == Move::Resume(Event::Nothing));
    }
    law_first_in_first_out(moments, moves);
    lemma_nothing_added(moves);
    assert(moves[n].leads(moments[n], moments[n + 1]));
    lemma_no_reap(moments, moves, n);
    assert(drained(moments, moves) + in_hand(moments.last().select) + moments.last().backlog
        =~= drained(moments, moves));
    assert(in_hand(moments.first().select) + moments.first().backlog + added(moves)
        =~= moments.first().backlog);
}

/// Where the ring takes some entries and then refuses one, a round moves those
/// entries to the ring, in order, and sends the refused one, the next in order,
/// to the back of the backlog.
pub proof fn law_round_on_a_ring_that_fills(moments: Seq<Moment>, moves: Seq<Move>)
    requires
        is_run(moments, moves),
        moves.len() > 0,
        moments.first().select is Refresh,
        moves.last() == Move::Resume(Event::Pushed(false)),
        forall|i: int|
            0 <= i < moves.len() - 1 ==> (#[trigger] moves[i] == Move::Resume(Event::Synced)
                || moves[i] == Move::Resume(Event::Pushed(true)) || moves[i] == Move::Resume(
                Event::Nothing,
            )),
    ensures
        ({
            let backlog = moments.first().backlog;
            let room = drained(moments, moves).len() as int;
            &&& room < backlog.len()
            &&& drained(moments, moves) == backlog.take(room)
            &&& moments.last().backlog == backlog.skip(room + 1).push(backlog[room])
            &&& moments.last().select is Check
        }),
{
    let n = moves.len() - 1;
    let earlier_moments = moments.drop_last();
    let earlier = moves.drop_last();
    lemma_without_last_move(moments, moves);
    assert forall|i: int| 0 <= i < earlier.len() implies (!sends_back(
        earlier_moments[i].select,
        #[trigger] earlier[i],
    ) && earlier[i] is Resume) by {
        assert(moves[i] == Move::Resume(Event::Synced) || moves[i] == Move::Resume(
            Event::Pushed(true),
        ) || moves[i] == Move::Resume(Event::Nothing));
    }
    law_first_in_first_out(earlier_moments, earlier);
    lemma_nothing_added(earlier);
    let before = moments[n];
    let backlog = moments.first().backlog;
    let gone = drained(earlier_moments, earlier);
    assert(drained(moments, moves) =~= gone);
    assert(in_hand(moments.first().select) + backlog + added(earlier) =~= backlog);
    let whole = gone + in_hand(before.select) + before.backlog;
    assert(whole == backlog);
    assert(whole[gone.len() as int] == before.select->Push_entry);
    assert(gone =~= whole.take(gone.len() as int));
    assert(before.backlog =~= whole.skip(gone.len() as int + 1));
}

proof fn lemma_nothing_added(moves: Seq<Move>)
    requires
        forall|i: int| 0 <= i < moves.len() ==> #[trigger] moves[i] is Resume,
    ensures
        added(moves) == Seq::<SqEntry>::empty(),
    decreases moves.len(),
{
    if moves.len() > 0 {
        lemma_nothing_added(moves.drop_last());
        assert(moves[moves.len() - 1] is Resume);
    }
}

proof fn lemma_no_reap(moments: Seq<Moment>, moves: Seq<Move>, k: int)
    requires
        is_run(moments, moves),
        0 <= k < moments.len(),
        answer_of(moments.first().select) is Some,
        !(moments.first().select is Reap),
    ensures
        !(moments[k].select is Reap),
        moments[k].select is Finished || answer_of(moments[k].select) is Some,
    decreases k,
{
    if k > 0 {
        let j = k - 1;
        lemma_no_reap(moments, moves, j);
        assert(moves[j].leads(moments[j], moments[j + 1]));
    }
}

/// On a kernel without io_uring every call is refused, and `select` ends at once;
/// only a timeout without a span is no error, because nothing is asked.
pub proof fn law_no_kernel_no_service(
    support: Support,
    request: Request,
    user_data: usize,
    interval: Interval,
)
    requires
        !support.has_kernel(),
    ensures
        crate::operator::granted(support, request, user_data) == Err::<SqEntry, Error>(
            Error::Unsupported,
        ),
        crate::operator::timer_added(support, user_data, Some(interval)) == Err::<
            Option<SqEntry>,
            Error,
        >(Error::Unsupported),
        crate::operator::timer_updated(support, user_data, Some(interval)) == Err::<
            SqEntry,
            Error,
        >(Error::Unsupported),
        crate::operator::timer_removed(support, user_data) == Err::<SqEntry, Error>(
            Error::Unsupported,
        ),
        crate::operator::timer_added(support, user_data, None) == Ok::<Option<SqEntry>, Error>(
            None,
        ),
        crate::select::begun(support, Some(interval)) == (Select::Finished {
            result: Err(SelectError::Unsupported),
        }),
        crate::select::begun(support, None) == (Select::Finished {
            result: Err(SelectError::Unsupported),
        }),
{
}

/// Whether a call is granted is decided by its operation alone: of two calls for
/// one operation, on operators that know the same of the kernel, either both are
/// granted or neither is, whatever their arguments and however full the backlogs.
pub proof fn law_one_decision_per_operation(
    one: OperatorView,
    other: OperatorView,
    first: Request,
    second: Request,
    first_data: usize,
    second_data: usize,
)
    requires
        one.support == other.support,
        first.asks_for() == second.asks_for(),
    ensures
        crate::operator::granted(one.support, first, first_data) is Ok
            <==> crate::operator::granted(other.support, second, second_data) is Ok,
{
}

/// Reads share one decision, with an offset or without, and so do writes, reads
/// and writes of several buffers, and accepts: on operators that know the same of
/// the kernel the calls of a pair are granted together, whatever their arguments.
pub proof fn law_calls_share_decisions(
    one: OperatorView,
    other: OperatorView,
    data: usize,
    fd: c_int,
    memory: usize,
    count: size_t,
    number: c_int,
    data2: usize,
    fd2: c_int,
    memory2: usize,
    count2: size_t,
    number2: c_int,
    offset: off_t,
)
    requires
        one.support == other.support,
    ensures
        crate::operator::granted(one.support, Request::read(fd, memory, count), data) is Ok
            <==> crate::operator::granted(
            other.support,
            Request::pread(fd2, memory2, count2, offset),
            data2,
        ) is Ok,
        crate::operator::granted(one.support, Request::readv(fd, memory, number), data) is Ok
            <==> crate::operator::granted(
            other.support,
            Request::preadv(fd2, memory2, number2, offset),
            data2,
        ) is Ok,
        crate::operator::granted(one.support, Request::write(fd, memory, count), data) is Ok
            <==> crate::operator::granted(
            other.support,
            Request::pwrite(fd2, memory2, count2, offset),
            data2,
        ) is Ok,
        crate::operator::granted(one.support, Request::writev(fd, memory, number), data) is Ok
            <==> crate::operator::granted(
            other.support,
            Request::pwritev(fd2, memory2, number2, offset),
            data2,
        ) is Ok,
        crate::operator::granted(one.support, Request::accept(fd, memory, count), data) is Ok
            <==> crate::operator::granted(
            other.support,
            Request::accept4(fd2, memory2, count2, number2),
            data2,
        ) is Ok,
{
}

/// Timeouts share one decision per operation as well: on operators that know the
/// same of the kernel, two timeouts with a span are granted together, so are two
/// changes with a span, and so are a removal and a change without a span.
/// A `select` with a duration is refused exactly when a timeout with a span is or
/// the kernel has no io_uring.
pub proof fn law_timeouts_share_decisions(
    one: OperatorView,
    other: OperatorView,
    data: usize,
    interval: Interval,
    data2: usize,
    interval2: Interval,
)
    requires
        one.support == other.support,
    ensures
        crate::operator::timer_added(one.support, data, Some(interval)) is Ok
            <==> crate::operator::timer_added(other.support, data2, Some(interval2)) is Ok,
        crate::operator::timer_updated(one.support, data, Some(interval)) is Ok
            <==> crate::operator::timer_updated(other.support, data2, Some(interval2)) is Ok,
        crate::operator::timer_updated(one.support, data, None) is Ok
            <==> crate::operator::timer_removed(other.support, data2) is Ok,
        crate::select::begun(one.support, Some(interval)) is Finished
            <==> !other.support.has_kernel() || crate::operator::timer_added(
            other.support,
            data2,
            Some(interval2),
        ) is Err,
{
}

/// `select` without a duration arms no timeout, and with one it arms exactly that
/// timeout, under the user data 0, or is refused.
pub proof fn law_select_arms_what_is_asked(support: Support, interval: Interval)
    requires
        support.has_kernel(),
    ensures
        crate::select::begun(support, None) == (Select::Wait { want: 1 }),
        crate::select::begun(support, Some(interval)) == (if support.answered(Operation::Timeout) {
            Select::Arm {
                entry: SqEntry { request: Request::Timeout { interval }, user_data: 0 },
            }
        } else {
            Select::Finished { result: Err(SelectError::Unsupported) }
        }),
{
}

/// A read or a write without an offset is one at offset zero, and an accept
/// without flags is one with no flag set.
pub proof fn law_defaults(fd: c_int, memory: usize, size: usize, count: size_t, number: c_int)
    ensures
        Request::pread(fd, memory, count, 0) == Request::read(fd, memory, count),
        Request::preadv(fd, memory, number, 0) == Request::readv(fd, memory, number),
        Request::pwrite(fd, memory, count, 0) == Request::write(fd, memory, count),
        Request::pwritev(fd, memory, number, 0) == Request::writev(fd, memory, number),
        Request::accept4(fd, memory, size, 0) == Request::accept(fd, memory, size),
{
}

/// To change a timeout to no span is to remove it.
pub proof fn law_update_without_span_removes(support: Support, user_data: usize)
    ensures
        crate::operator::timer_updated(support, user_data, None)
            == crate::operator::timer_removed(support, user_data),
{
}

/// A timeout and its change keep the span that they were given. The change and
/// the removal of a timeout name it by the user data that it was added under; the
/// change completes under that user data as well, the removal under 0.
pub proof fn law_timeouts_are_named(
    support: Support,
    user_data: usize,
    first: Interval,
    second: Interval,
    timespec: usize,
)
    requires
        support.grants(Operation::Timeout),
        support.grants(Operation::TimeoutUpdate),
        support.grants(Operation::TimeoutRemove),
    ensures
        ({
            let added = crate::operator::timer_added(support, user_data, Some(first));
            let updated = crate::operator::timer_updated(support, user_data, Some(second));
            let removed = crate::operator::timer_removed(support, user_data);
            &&& added is Ok && added->Ok_0 is Some && updated is Ok && removed is Ok
            &&& updated->Ok_0.sqe(timespec).addr == added->Ok_0->0.user_data
            &&& removed->Ok_0.sqe(timespec).addr == added->Ok_0->0.user_data
            &&& updated->Ok_0.user_data == added->Ok_0->0.user_data
            &&& removed->Ok_0.user_data == 0
            &&& added->Ok_0->0.request.spans() == Some(first)
            &&& updated->Ok_0.request.spans() == Some(second)
            &&& removed->Ok_0.request.spans() is None
        }),
{
}

/// The entry that a call gives is for the operation whose support was looked up,
/// and the kernel reads in it the user data that the caller gave.
pub proof fn law_entry_is_what_was_granted(
    support: Support,
    request: Request,
    user_data: usize,
    timespec: usize,
)
    requires
        support.grants(request.asks_for()),
    ensures
        crate::operator::granted(support, request, user_data) is Ok,
        ({
            let entry = crate::operator::granted(support, request, user_data)->Ok_0;
            &&& entry.sqe(timespec).opcode == request.asks_for().opcode()
            &&& entry.sqe(timespec).user_data == user_data
        }),
{
}

/// The kernel's records tell requests apart: two requests without a time span
/// that come to the same record are the same request.
pub proof fn law_records_tell_requests_apart(one: Request, other: Request, timespec: usize)
    requires
        one.spans() is None,
        other.spans() is None,
        one.sqe(timespec) == other.sqe(timespec),
    ensures
        one == other,
{
    lemma_bits_are_kept();
    assert(one.sqe(timespec).opcode == other.sqe(timespec).opcode);
    match one {
        Request::EpollCtl { .. } => {
            assert(other is EpollCtl);
        },
        Request::TimeoutRemove { .. } => {
            assert(other is TimeoutRemove);
        },
        Request::OpenAt { .. } => {
            assert(other is OpenAt);
        },
        Request::Fsync { .. } => {
            assert(other is Fsync);
        },
        Request::Accept { .. } => {
            assert(other is Accept);
        },
        Request::Connect { .. } => {
            assert(other is Connect);
        },
        Request::Recv { .. } => {
            assert(other is Recv);
        },
        Request::Read { .. } => {
            assert(other is Read);
        },
        Request::Readv { .. } => {
            assert(other is Readv);
        },
        Request::RecvMsg { .. } => {
            assert(other is RecvMsg);
        },
        Request::Send { .. } => {
            assert(other is Send);
        },
        Request::Write { .. } => {
            assert(other is Write);
        },
        Request::Writev { .. } => {
            assert(other is Writev);
        },
        Request::SendMsg { .. } => {
            assert(other is SendMsg);
        },
        _ => {},
    }
}

proof fn lemma_bits_are_kept()
    ensures
        forall|a: i32, b: i32|
            #[trigger] crate::bits::bits_u32(a) == #[trigger] crate::bits::bits_u32(b) ==> a == b,
        forall|a: i32, b: i32|
            #[trigger] crate::sqe::sign_extended(a) == #[trigger] crate::sqe::sign_extended(b)
                ==> a == b,
{
}

/// A kernel that was probed accepts the change of a timeout if and only if it
/// accepts the removal of one: both have the same number.
pub proof fn law_update_and_remove_go_together(support: Support, probe: io_uring::Probe)
    requires
        forall|operation: Operation|
            support.answered(operation) == crate::support::probe_marks(probe, operation.opcode()),
    ensures
        support.grants(Operation::TimeoutUpdate) == support.grants(Operation::TimeoutRemove),
{
}

/// Lengths and numbers are kept modulo 2^32, offsets modulo 2^64. So lengths below
/// 2^32, numbers and offsets that are not negative, and seconds below 2^63 reach
/// the kernel as they are.
pub proof fn law_ordinary_numbers_are_kept(
    length: size_t,
    number: c_int,
    offset: off_t,
    secs: u64,
)
    ensures
        crate::bits::low_u32(length) == length as int % 0x1_0000_0000,
        crate::bits::bits_u32(number) == number as int % 0x1_0000_0000,
        crate::bits::bits_u64(offset) == offset as int % 0x1_0000_0000_0000_0000,
        length <= u32::MAX ==> crate::bits::low_u32(length) == length,
        number >= 0 ==> crate::bits::bits_u32(number) == number,
        offset >= 0 ==> crate::bits::bits_u64(offset) == offset,
        secs <= i64::MAX ==> crate::sqe::signed_secs(secs) == secs,
{
}

proof fn lemma_answer_is_carried(
    moments: Seq<Moment>,
    moves: Seq<Move>,
    answer: Answer,
    k: int,
)
    requires
        is_run(moments, moves),
        moments.first().select is Wait,
        moves.len() > 0,
        moves.first() == Move::Resume(Event::Waited(answer)),
        1 <= k < moments.len(),
    ensures
        moments[k].select is Finished || answer_of(moments[k].select) == Some(answer),
    decreases k,
{
    let j = k - 1;
    assert(moves[j].leads(moments[j], moments[j + 1]));
    if k > 1 {
        lemma_answer_is_carried(moments, moves, answer, j);
    }
}

/// What `select` returns, from the kernel's answer to the wait to the submission
/// that ends it, whatever happens in between. A busy kernel, error 16, ends it
/// with the very count that the wait gave, or the error of the wait; another
/// error ends it with that error.
pub proof fn law_select_returns_the_wait(
    moments: Seq<Moment>,
    moves: Seq<Move>,
    answer: Answer,
    code: Option<i32>,
)
    requires
        is_run(moments, moves),
        moments.first().select is Wait,
        moves.len() > 1,
        moves.first() == Move::Resume(Event::Waited(answer)),
        moves.last() == Move::Resume(Event::Submitted(Err(code))),
    ensures
        forall|count: usize|
            answer == Ok::<usize, Option<i32>>(count) && code == Some(16i32)
                ==> moments.last().select == (#[trigger] finished(Ok(count))),
        forall|wait_code: Option<i32>|
            answer == Err::<usize, Option<i32>>(wait_code) && code == Some(16i32)
                ==> moments.last().select == (#[trigger] finished(
                Err(SelectError::Wait(wait_code)),
            )),
        code != Some(16i32) ==> moments.last().select == finished(Err(SelectError::Submit(code))),
{
    let n = moves.len() - 1;
    lemma_answer_is_carried(moments, moves, answer, n);
    assert(moves[n].leads(moments[n], moments[n + 1]));
}

/// A `select` that is over with the given result.
pub open spec fn finished(result: Result<usize, SelectError>) -> Select {
    Select::Finished { result }
}

/// Two waits that gave different counts end, on a busy kernel, with different
/// results, and the larger count with the larger result.
pub proof fn law_counts_are_told_apart(
    backlog: Seq<SqEntry>,
    other_backlog: Seq<SqEntry>,
    fewer: usize,
    more: usize,
    after: Seq<SqEntry>,
    other_after: Seq<SqEntry>,
    next: Select,
    other_next: Select,
)
    requires
        fewer < more,
        crate::select::advances(
            backlog,
            Select::Submit { waited: Ok(fewer) },
            Event::Submitted(Err(Some(16i32))),
            after,
            next,
        ),
        crate::select::advances(
            other_backlog,
            Select::Submit { waited: Ok(more) },
            Event::Submitted(Err(Some(16i32))),
            other_after,
            other_next,
        ),
    ensures
        next matches Select::Finished { result } && other_next matches Select::Finished {
            result: other_result,
        } && result is Ok && other_result is Ok && other_result->Ok_0 - result->Ok_0 == more
            - fewer,
{
}

/// The timeout is offered to the ring once, kept in the backlog if refused, and
/// then one completion is waited for.
pub proof fn law_arming(
    before: Seq<SqEntry>,
    entry: SqEntry,
    taken: bool,
    after: Seq<SqEntry>,
    next: Select,
)
    requires
        crate::select::advances(before, Select::Arm { entry }, Event::Pushed(taken), after, next),
    ensures
        next == (Select::Wait { want: 1 }),
        taken ==> after == before,
        !taken ==> after.len() == before.len() + 1 && after.last() == entry && after.drop_last()
            == before,
{
    assert(before.push(entry).drop_last() =~= before);
}

/// After the wait, whatever it gave, the completions are synchronised and the
/// first round begins; nothing is taken from the backlog yet.
pub proof fn law_after_the_wait(
    before: Seq<SqEntry>,
    want: usize,
    answer: Answer,
    between: Seq<SqEntry>,
    reap: Select,
    after: Seq<SqEntry>,
    next: Select,
)
    requires
        crate::select::advances(
            before,
            Select::Wait { want },
            Event::Waited(answer),
            between,
            reap,
        ),
        crate::select::advances(between, reap, Event::Synced, after, next),
    ensures
        reap == (Select::Reap { waited: answer }),
        next == (Select::Check { waited: answer }),
        after == before,
{
}

/// A round submits if and only if the ring is full, and goes on if the kernel
/// takes the submission; up to there the backlog is as it was.
pub proof fn law_round_begins(
    before: Seq<SqEntry>,
    waited: Answer,
    full: bool,
    count: usize,
    between: Seq<SqEntry>,
    middle: Select,
    after: Seq<SqEntry>,
    next: Select,
)
    requires
        crate::select::advances(
            before,
            Select::Check { waited },
            Event::Full(full),
            between,
            middle,
        ),
        full ==> crate::select::advances(
            between,
            middle,
            Event::Submitted(Ok(count)),
            after,
            next,
        ),
        !full ==> after == between && next == middle,
    ensures
        middle is Submit <==> full,
        next == (Select::Refresh { waited }),
        after == before,
{
}

/// After a synchronisation, an accepted entry or a failed attempt, the oldest
/// entry of the backlog comes next, and leaves the backlog; where there is none,
/// the next round begins. An attempt may fail only where there is an entry, and
/// then changes nothing.
pub proof fn law_oldest_comes_next(
    before: Seq<SqEntry>,
    select: Select,
    event: Event,
    waited: Answer,
    after: Seq<SqEntry>,
    next: Select,
)
    requires
        crate::select::advances(before, select, event, after, next),
        answer_of(select) == Some(waited),
        (select is Refresh && event is Synced) || (select is Push && event == Event::Pushed(true))
            || (select is Retry && event is Nothing),
    ensures
        before.len() == 0 ==> after.len() == 0 && next == (Select::Check { waited }),
        before.len() > 0 ==> ((next == (Select::Push { waited, entry: before[0] }) && after
            == before.subrange(1, before.len() as int)) || (next == (Select::Retry { waited })
            && after == before)),
{
}

/// A refused entry of the backlog goes to its back, behind all that is there, and
/// ends the round.
pub proof fn law_refused_goes_last(
    before: Seq<SqEntry>,
    waited: Answer,
    entry: SqEntry,
    after: Seq<SqEntry>,
    next: Select,
)
    requires
        crate::select::advances(
            before,
            Select::Push { waited, entry },
            Event::Pushed(false),
            after,
            next,
        ),
    ensures
        next == (Select::Check { waited }),
        after.len() == before.len() + 1,
        after.last() == entry,
        after.drop_last() == before,
{
    assert(before.push(entry).drop_last() =~= before);
}

/// Each step is answered by events of one kind, with any content, and a `select`
/// that is over by none.
pub proof fn law_awaited_events(select: Select, event: Event)
    ensures
        select is Arm || select is Push ==> (select.awaits(event) <==> event is Pushed),
        select is Wait ==> (select.awaits(event) <==> event is Waited),
        select is Reap || select is Refresh ==> (select.awaits(event) <==> event is Synced),
        select is Check ==> (select.awaits(event) <==> event is Full),
        select is Submit ==> (select.awaits(event) <==> event is Submitted),
        select is Retry ==> (select.awaits(event) <==> event is Nothing),
        select is Finished ==> !select.awaits(event),
{
}

/// An entry that the ring takes leaves the backlog as it is; one that it refuses
/// goes to the back, behind all that is there.
pub proof fn law_offered(backlog: Seq<SqEntry>, entry: SqEntry)
    ensures
        crate::operator::offered(backlog, entry, true) == backlog,
        crate::operator::offered(backlog, entry, false).len() == backlog.len() + 1,
        crate::operator::offered(backlog, entry, false).last() == entry,
        crate::operator::offered(backlog, entry, false).drop_last() == backlog,
{
    assert(backlog.push(entry).drop_last() =~= backlog);
}

/// A `select` with a duration arms a timeout of exactly that duration, under the
/// user data 0, when the kernel has io_uring and accepts timeouts, and otherwise
/// is refused; one without a duration waits for one completion.
pub proof fn law_select_waits_for_the_duration(support: Support, duration: Duration)
    ensures
        ({
            let begun = crate::select::begun(support, Interval::spans_opt(Some(duration)));
            if support.has_kernel() && support.answered(Operation::Timeout) {
                begun == (Select::Arm {
                    entry: SqEntry {
                        request: Request::Timeout {
                            interval: Interval {
                                sec: crate::request::duration_secs(duration),
                                nsec: crate::request::duration_nanos(duration),
                            },
                        },
                        user_data: 0,
                    },
                })
            } else {
                begun == finished(Err(SelectError::Unsupported))
            }
        }),
        crate::select::begun(support, Interval::spans_opt(None)) == (if support.has_kernel() {
            Select::Wait { want: 1 }
        } else {
            finished(Err(SelectError::Unsupported))
        }),
{
}

} // verus!
