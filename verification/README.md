# uring-operator

Decides what is handed to an io_uring ring: which calls the kernel accepts, which
entry each call queues, what waits in the backlog when the ring is full, and how
the backlog is worked off while waiting for completions. The decisions are
verified with Verus.

- `src/` is the verified library. The contracts of its calls are exact over plain
  values; `src/sqe.rs`, `src/support.rs`, `src/backlog.rs`, `src/request.rs` and
  `src/select.rs` hold the trusted items, one for each constant, builder and
  method that is used of the `io_uring`, `crossbeam_deque` and `libc` crates and
  of `Duration`. `src/laws.rs` proves what
  holds of the whole: no entry is lost, the backlog is first in, first out, the
  answer to a wait is kept.
- `app/` opens the ring, pushes entries and calls the kernel.
- `tests/` runs the library on concrete values.

The work on the backlog goes round until the kernel turns down a submission: an
empty backlog alone does not end it.
